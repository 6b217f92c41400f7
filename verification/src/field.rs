//! The columns of a task that can be overwritten one at a time.

use crate::text::same_text;
use vstd::prelude::*;

verus! {

/// A column of the `tasks` table that an update may overwrite. The id is not
/// among them: it never changes.
#[derive(Clone, Copy, Debug, PartialEq, Eq, Structural)]
pub enum Field {
    Name,
    Description,
    Deadline,
    Status,
    Priority,
    CreatorId,
    ExecutorId,
}

impl Field {
    /// The column's name in the table.
    pub open spec fn column(self) -> Seq<char> {
        match self {
            Field::Name => "name"@,
            Field::Description => "description"@,
            Field::Deadline => "deadline"@,
            Field::Status => "status"@,
            Field::Priority => "priority"@,
            Field::CreatorId => "creator_id"@,
            Field::ExecutorId => "executor_id"@,
        }
    }

    /// The field that a column name stands for, if it is one of the seven.
    pub open spec fn named(name: Seq<char>) -> Option<Field> {
        if name == "name"@ {
            Some(Field::Name)
        } else if name == "description"@ {
            Some(Field::Description)
        } else if name == "deadline"@ {
            Some(Field::Deadline)
        } else if name == "status"@ {
            Some(Field::Status)
        } else if name == "priority"@ {
            Some(Field::Priority)
        } else if name == "creator_id"@ {
            Some(Field::CreatorId)
        } else if name == "executor_id"@ {
            Some(Field::ExecutorId)
        } else {
            None
        }
    }

    /// The statement that overwrites this column in the row of one id. Its
    /// first parameter is the new value, its second the id.
    pub open spec fn statement(self) -> Seq<char> {
        match self {
            Field::Name => "UPDATE tasks SET name = ?1 WHERE id = ?2"@,
            Field::Description => "UPDATE tasks SET description = ?1 WHERE id = ?2"@,
            Field::Deadline => "UPDATE tasks SET deadline = ?1 WHERE id = ?2"@,
            Field::Status => "UPDATE tasks SET status = ?1 WHERE id = ?2"@,
            Field::Priority => "UPDATE tasks SET priority = ?1 WHERE id = ?2"@,
            Field::CreatorId => "UPDATE tasks SET creator_id = ?1 WHERE id = ?2"@,
            Field::ExecutorId => "UPDATE tasks SET executor_id = ?1 WHERE id = ?2"@,
        }
    }

    /// The column's name in the table.
    pub fn column_name(&self) -> (name: &'static str)
        ensures
            name@ == self.column(),
    {
        match self {
            Field::Name => "name",
            Field::Description => "description",
            Field::Deadline => "deadline",
            Field::Status => "status",
            Field::Priority => "priority",
            Field::CreatorId => "creator_id",
            Field::ExecutorId => "executor_id",
        }
    }

    /// Looks a column name up among the seven that may be overwritten.
    pub fn from_name(name: &str) -> (field: Option<Field>)
        ensures
            field == Field::named(name@),
    {
        if same_text(name, "name") {
            Some(Field::Name)
        } else if same_text(name, "description") {
            Some(Field::Description)
        } else if same_text(name, "deadline") {
            Some(Field::Deadline)
        } else if same_text(name, "status") {
            Some(Field::Status)
        } else if same_text(name, "priority") {
            Some(Field::Priority)
        } else if same_text(name, "creator_id") {
            Some(Field::CreatorId)
        } else if same_text(name, "executor_id") {
            Some(Field::ExecutorId)
        } else {
            None
        }
    }

    /// The fixed statement that overwrites this column. The column name is
    /// part of the statement's text and never comes from a caller.
    pub fn update_statement(&self) -> (sql: &'static str)
        ensures
            sql@ == self.statement(),
    {
        match self {
            Field::Name => "UPDATE tasks SET name = ?1 WHERE id = ?2",
            Field::Description => "UPDATE tasks SET description = ?1 WHERE id = ?2",
            Field::Deadline => "UPDATE tasks SET deadline = ?1 WHERE id = ?2",
            Field::Status => "UPDATE tasks SET status = ?1 WHERE id = ?2",
            Field::Priority => "UPDATE tasks SET priority = ?1 WHERE id = ?2",
            Field::CreatorId => "UPDATE tasks SET creator_id = ?1 WHERE id = ?2",
            Field::ExecutorId => "UPDATE tasks SET executor_id = ?1 WHERE id = ?2",
        }
    }
}

/// Every field is found again under its own column name.
pub proof fn lemma_field_round_trip(field: Field)
    ensures
        Field::named(field.column()) == Some(field),
{
    reveal_strlit("name");
    reveal_strlit("description");
    reveal_strlit("deadline");
    reveal_strlit("status");
    reveal_strlit("priority");
    reveal_strlit("creator_id");
    reveal_strlit("executor_id");
    assert("description"@.len() == 11 && "description"@[0] == 'd');
    assert("deadline"@.len() == 8 && "deadline"@[0] == 'd');
    assert("status"@.len() == 6);
    assert("priority"@.len() == 8 && "priority"@[0] == 'p');
    assert("creator_id"@.len() == 10);
    assert("executor_id"@.len() == 11 && "executor_id"@[0] == 'e');
}

} // verus!
