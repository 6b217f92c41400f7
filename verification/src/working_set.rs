//! The ordered in-memory list of tasks, and the changes that the registry
//! makes to it. Nothing here touches the store.

use crate::error::StoreError;
use crate::field::Field;
use crate::model::{Task, TaskPriority, TaskStatus, TaskView};
use crate::numeral::{decimal, decimal_text, parse_index, parsed_index};
use vstd::prelude::*;
use vstd::string::*;

verus! {

/// Whether every task carries a positive id.
pub open spec fn positive_ids(tasks: Seq<Task>) -> bool {
    forall|i: int| 0 <= i < tasks.len() ==> (#[trigger] tasks[i]).id >= 1
}

/// Whether no two tasks carry the same id.
pub open spec fn distinct_ids(tasks: Seq<Task>) -> bool {
    forall|i: int, j: int|
        0 <= i < j < tasks.len() ==> (#[trigger] tasks[i]).id != (#[trigger] tasks[j]).id
}

/// What holds of every list that the registry keeps: the ids are positive
/// and no id occurs twice.
pub open spec fn well_formed(tasks: Seq<Task>) -> bool {
    positive_ids(tasks) && distinct_ids(tasks)
}

/// Whether some task of the list carries `id`.
pub open spec fn holds_id(tasks: Seq<Task>, id: u32) -> bool {
    exists|i: int| 0 <= i < tasks.len() && (#[trigger] tasks[i]).id == id
}

/// Whether `after` is `before` with the task at `index` now holding `task`,
/// and every other task untouched.
pub open spec fn replaced_at(
    before: Seq<Task>,
    after: Seq<Task>,
    index: int,
    task: TaskView,
) -> bool {
    &&& after.len() == before.len()
    &&& after[index]@ == task
    &&& forall|j: int| 0 <= j < before.len() && j != index ==> after[j] == before[j]
}

/// One field of a task together with its new value.
#[derive(Debug, PartialEq, Eq)]
pub enum Change {
    Name(String),
    Description(String),
    Deadline(String),
    Status(TaskStatus),
    Priority(TaskPriority),
    CreatorId(u32),
    ExecutorId(u32),
}

impl Change {
    /// The column that this change overwrites.
    pub open spec fn field(self) -> Field {
        match self {
            Change::Name(_) => Field::Name,
            Change::Description(_) => Field::Description,
            Change::Deadline(_) => Field::Deadline,
            Change::Status(_) => Field::Status,
            Change::Priority(_) => Field::Priority,
            Change::CreatorId(_) => Field::CreatorId,
            Change::ExecutorId(_) => Field::ExecutorId,
        }
    }

    /// The text that this change writes to its column: a text as it is, a
    /// status or priority in its canonical encoding, a user id as a decimal
    /// numeral.
    pub open spec fn stored(self) -> Seq<char> {
        match self {
            Change::Name(text) => text@,
            Change::Description(text) => text@,
            Change::Deadline(text) => text@,
            Change::Status(status) => status.text(),
            Change::Priority(priority) => priority.text(),
            Change::CreatorId(user) => decimal(user as nat),
            Change::ExecutorId(user) => decimal(user as nat),
        }
    }

    /// The task after this change: one field is new, the others are kept.
    pub open spec fn applied(self, task: TaskView) -> TaskView {
        match self {
            Change::Name(text) => TaskView { name: text@, ..task },
            Change::Description(text) => TaskView { description: text@, ..task },
            Change::Deadline(text) => TaskView { deadline: text@, ..task },
            Change::Status(status) => TaskView { status, ..task },
            Change::Priority(priority) => TaskView { priority, ..task },
            Change::CreatorId(user) => TaskView { creator_id: user, ..task },
            Change::ExecutorId(user) => TaskView { executor_id: user, ..task },
        }
    }

    /// The column that this change overwrites.
    pub fn target(&self) -> (field: Field)
        ensures
            field == self.field(),
    {
        match self {
            Change::Name(_) => Field::Name,
            Change::Description(_) => Field::Description,
            Change::Deadline(_) => Field::Deadline,
            Change::Status(_) => Field::Status,
            Change::Priority(_) => Field::Priority,
            Change::CreatorId(_) => Field::CreatorId,
            Change::ExecutorId(_) => Field::ExecutorId,
        }
    }

    /// The text that this change writes to its column.
    pub fn stored_text(&self) -> (text: String)
        ensures
            text@ == self.stored(),
    {
        match self {
            Change::Name(text) => text.clone(),
            Change::Description(text) => text.clone(),
            Change::Deadline(text) => text.clone(),
            Change::Status(status) => String::from_str(status.to_string()),
            Change::Priority(priority) => String::from_str(priority.to_string()),
            Change::CreatorId(user) => decimal_text(*user),
            Change::ExecutorId(user) => decimal_text(*user),
        }
    }
}

/// The position that the user typed, if it is a numeral and a task stands
/// there. `input` is the text as typed, without surrounding blanks.
pub fn select_task(tasks: &Vec<Task>, input: &str) -> (position: Option<usize>)
    ensures
        position == match parsed_index(input@) {
            Some(i) => if i < tasks@.len() {
                Some(i)
            } else {
                None
            },
            None => None,
        },
{
    match parse_index(input) {
        Some(i) => if i < tasks.len() {
            Some(i)
        } else {
            None
        },
        None => None,
    }
}

/// Makes one change to the task at `index`. With no task there, the list is
/// left as it is and the result is `NotFound`.
pub fn apply_change(
    tasks: &mut Vec<Task>,
    index: usize,
    change: Change,
) -> (done: Result<(), StoreError>)
    ensures
        index < old(tasks)@.len() ==> done is Ok && replaced_at(
            old(tasks)@,
            final(tasks)@,
            index as int,
            change.applied(old(tasks)@[index as int]@),
        ),
        index >= old(tasks)@.len() ==> done == Err::<(), StoreError>(StoreError::NotFound)
            && final(tasks)@ == old(tasks)@,
{
    if index >= tasks.len() {
        return Err(StoreError::NotFound);
    }
    match change {
        Change::Name(text) => {
            tasks[index].name = text;
        },
        Change::Description(text) => {
            tasks[index].description = text;
        },
        Change::Deadline(text) => {
            tasks[index].deadline = text;
        },
        Change::Status(status) => {
            tasks[index].status = status;
        },
        Change::Priority(priority) => {
            tasks[index].priority = priority;
        },
        Change::CreatorId(user) => {
            tasks[index].creator_id = user;
        },
        Change::ExecutorId(user) => {
            tasks[index].executor_id = user;
        },
    }
    Ok(())
}

/// Gives the task at `index` a new status. With no task there, the list is
/// left as it is and the result is `NotFound`.
pub fn update_status(
    tasks: &mut Vec<Task>,
    index: usize,
    status: TaskStatus,
) -> (done: Result<(), StoreError>)
    ensures
        index < old(tasks)@.len() ==> done is Ok && replaced_at(
            old(tasks)@,
            final(tasks)@,
            index as int,
            TaskView { status, ..old(tasks)@[index as int]@ },
        ),
        index >= old(tasks)@.len() ==> done == Err::<(), StoreError>(StoreError::NotFound)
            && final(tasks)@ == old(tasks)@,
{
    apply_change(tasks, index, Change::Status(status))
}

/// Gives the task at `index` a new priority. With no task there, the list is
/// left as it is and the result is `NotFound`.
pub fn update_priority(
    tasks: &mut Vec<Task>,
    index: usize,
    priority: TaskPriority,
) -> (done: Result<(), StoreError>)
    ensures
        index < old(tasks)@.len() ==> done is Ok && replaced_at(
            old(tasks)@,
            final(tasks)@,
            index as int,
            TaskView { priority, ..old(tasks)@[index as int]@ },
        ),
        index >= old(tasks)@.len() ==> done == Err::<(), StoreError>(StoreError::NotFound)
            && final(tasks)@ == old(tasks)@,
{
    apply_change(tasks, index, Change::Priority(priority))
}

/// Gives the task at `index` a new description. With no task there, the list is
/// left as it is and the result is `NotFound`.
pub fn update_description(
    tasks: &mut Vec<Task>,
    index: usize,
    description: String,
) -> (done: Result<(), StoreError>)
    ensures
        index < old(tasks)@.len() ==> done is Ok && replaced_at(
            old(tasks)@,
            final(tasks)@,
            index as int,
            TaskView { description: description@, ..old(tasks)@[index as int]@ },
        ),
        index >= old(tasks)@.len() ==> done == Err::<(), StoreError>(StoreError::NotFound)
            && final(tasks)@ == old(tasks)@,
{
    apply_change(tasks, index, Change::Description(description))
}

/// Gives the task at `index` a new deadline. With no task there, the list is
/// left as it is and the result is `NotFound`.
pub fn update_deadline(
    tasks: &mut Vec<Task>,
    index: usize,
    deadline: String,
) -> (done: Result<(), StoreError>)
    ensures
        index < old(tasks)@.len() ==> done is Ok && replaced_at(
            old(tasks)@,
            final(tasks)@,
            index as int,
            TaskView { deadline: deadline@, ..old(tasks)@[index as int]@ },
        ),
        index >= old(tasks)@.len() ==> done == Err::<(), StoreError>(StoreError::NotFound)
            && final(tasks)@ == old(tasks)@,
{
    apply_change(tasks, index, Change::Deadline(deadline))
}

/// Gives the task at `index` a new name. With no task there, the list is
/// left as it is and the result is `NotFound`.
pub fn update_name(
    tasks: &mut Vec<Task>,
    index: usize,
    name: String,
) -> (done: Result<(), StoreError>)
    ensures
        index < old(tasks)@.len() ==> done is Ok && replaced_at(
            old(tasks)@,
            final(tasks)@,
            index as int,
            TaskView { name: name@, ..old(tasks)@[index as int]@ },
        ),
        index >= old(tasks)@.len() ==> done == Err::<(), StoreError>(StoreError::NotFound)
            && final(tasks)@ == old(tasks)@,
{
    apply_change(tasks, index, Change::Name(name))
}

/// The id of the task at `index`, or `None` where the list is shorter. It is
/// the id under which the store keeps that task.
pub fn id_at(tasks: &Vec<Task>, index: usize) -> (id: Option<u32>)
    ensures
        id == (if index < tasks@.len() {
            Some(tasks@[index as int].id)
        } else {
            None
        }),
{
    if index < tasks.len() {
        Some(tasks[index].id)
    } else {
        None
    }
}

/// Whether some task of the list carries `id`.
pub fn id_in_use(tasks: &Vec<Task>, id: u32) -> (used: bool)
    ensures
        used == holds_id(tasks@, id),
{
    let mut i: usize = 0;
    while i < tasks.len()
        invariant
            i <= tasks@.len(),
            forall|j: int| 0 <= j < i ==> (#[trigger] tasks@[j]).id != id,
        decreases tasks.len() - i,
    {
        if tasks[i].id == id {
            return true;
        }
        i += 1;
    }
    false
}

/// Whether the ids of the list are positive and pairwise different.
pub fn ids_well_formed(tasks: &Vec<Task>) -> (valid: bool)
    ensures
        valid == well_formed(tasks@),
{
    let mut i: usize = 0;
    while i < tasks.len()
        invariant
            i <= tasks@.len(),
            well_formed(tasks@.take(i as int)),
        decreases tasks.len() - i,
    {
        let id = tasks[i].id;
        if id == 0 {
            return false;
        }
        let mut j: usize = 0;
        while j < i
            invariant
                j <= i < tasks@.len(),
                id == tasks@[i as int].id,
                forall|k: int| 0 <= k < j ==> (#[trigger] tasks@[k]).id != id,
            decreases i - j,
        {
            if tasks[j].id == id {
                return false;
            }
            j += 1;
        }
        i += 1;
    }
    assert(tasks@.take(i as int) =~= tasks@);
    true
}

/// Taking one task out of a well-formed list leaves a well-formed list that
/// no longer holds the id of the task taken out.
pub proof fn lemma_removed_id_is_gone(tasks: Seq<Task>, index: int)
    requires
        well_formed(tasks),
        0 <= index < tasks.len(),
    ensures
        well_formed(tasks.remove(index)),
        !holds_id(tasks.remove(index), tasks[index].id),
{
}

/// The id that the store assigned and the list cannot take: zero, or an id
/// that a task of the list carries already. `None` where the store failed or
/// the list takes the id.
pub open spec fn refused(tasks: Seq<Task>, outcome: Result<u32, StoreError>) -> Option<u32> {
    match outcome {
        Ok(id) => if id >= 1 && !holds_id(tasks, id) {
            None
        } else {
            Some(id)
        },
        Err(_) => None,
    }
}

/// The row that a creation has to take out of the store again: the one that
/// the store wrote under an id that the list cannot take.
pub fn refused_id(tasks: &Vec<Task>, outcome: Result<u32, StoreError>) -> (id: Option<u32>)
    ensures
        id == refused(tasks@, outcome),
{
    match outcome {
        Ok(id) => if id == 0 || id_in_use(tasks, id) {
            Some(id)
        } else {
            None
        },
        Err(_) => None,
    }
}

/// Completes a creation once the store has answered. With a positive id
/// that no task of the list carries, the draft joins the end of the list
/// under that id and a copy of it is returned. With any other id the result
/// is `WriteFailed`, and a failure of the store is passed on; in both cases
/// the list is left as it is. The row that the store wrote under an id that
/// the list cannot take is named by [`refused_id`], for the caller to take
/// out of the store again.
pub fn settle_create(
    tasks: &mut Vec<Task>,
    draft: Task,
    outcome: Result<u32, StoreError>,
) -> (created: Result<Task, StoreError>)
    ensures
        match outcome {
            Ok(id) => if id >= 1 && !holds_id(old(tasks)@, id) {
                &&& created is Ok
                &&& created->Ok_0@ == (TaskView { id, ..draft@ })
                &&& final(tasks)@ == old(tasks)@.push(created->Ok_0)
            } else {
                &&& created == Err::<Task, StoreError>(StoreError::WriteFailed)
                &&& final(tasks)@ == old(tasks)@
            },
            Err(e) => created == Err::<Task, StoreError>(e) && final(tasks)@ == old(tasks)@,
        },
        well_formed(old(tasks)@) ==> well_formed(final(tasks)@),
{
    match outcome {
        Err(e) => Err(e),
        Ok(id) => {
            if id == 0 || id_in_use(tasks, id) {
                return Err(StoreError::WriteFailed);
            }
            let mut task = draft;
            task.id = id;
            let copy = task.clone();
            tasks.push(task);
            Ok(copy)
        },
    }
}

/// Completes an update once the store has answered. Where the store
/// succeeded, the change is made to the task at `index`; where it failed,
/// the failure is passed on and the list is left as it is. With no task at
/// `index` the result is `NotFound`, whatever the store answered.
pub fn settle_update(
    tasks: &mut Vec<Task>,
    index: usize,
    change: Change,
    outcome: Result<(), StoreError>,
) -> (done: Result<(), StoreError>)
    ensures
        index >= old(tasks)@.len() ==> done == Err::<(), StoreError>(StoreError::NotFound)
            && final(tasks)@ == old(tasks)@,
        index < old(tasks)@.len() && outcome is Err ==> done == outcome && final(tasks)@ == old(tasks)@,
        index < old(tasks)@.len() && outcome is Ok ==> done is Ok && replaced_at(
            old(tasks)@,
            final(tasks)@,
            index as int,
            change.applied(old(tasks)@[index as int]@),
        ),
        well_formed(old(tasks)@) ==> well_formed(final(tasks)@),
{
    if index >= tasks.len() {
        return Err(StoreError::NotFound);
    }
    match outcome {
        Err(e) => Err(e),
        Ok(_) => apply_change(tasks, index, change),
    }
}

/// Completes a deletion once the store has answered. Where the store
/// succeeded, the task at `index` leaves the list; where it failed, the
/// failure is passed on and the list is left as it is. With no task at
/// `index` the result is `NotFound`, whatever the store answered.
pub fn settle_delete(
    tasks: &mut Vec<Task>,
    index: usize,
    outcome: Result<(), StoreError>,
) -> (done: Result<(), StoreError>)
    ensures
        index >= old(tasks)@.len() ==> done == Err::<(), StoreError>(StoreError::NotFound)
            && final(tasks)@ == old(tasks)@,
        index < old(tasks)@.len() && outcome is Err ==> done == outcome && final(tasks)@ == old(tasks)@,
        index < old(tasks)@.len() && outcome is Ok ==> done is Ok && final(tasks)@ == old(tasks)@.remove(index as int),
        well_formed(old(tasks)@) ==> well_formed(final(tasks)@),
        well_formed(old(tasks)@) && done is Ok ==> !holds_id(
            final(tasks)@,
            old(tasks)@[index as int].id,
        ),
{
    if index >= tasks.len() {
        return Err(StoreError::NotFound);
    }
    match outcome {
        Err(e) => Err(e),
        Ok(_) => {
            let _ = tasks.remove(index);
            Ok(())
        },
    }
}

/// Completes a load once the store has answered. Where the store handed out
/// tasks whose ids are positive and pairwise different, they replace the
/// list. Where the ids are not so, the result is `ReadFailed`, and a failure
/// of the store is passed on; in both cases the list is left as it is.
pub fn settle_load(
    tasks: &mut Vec<Task>,
    outcome: Result<Vec<Task>, StoreError>,
) -> (done: Result<(), StoreError>)
    ensures
        match outcome {
            Ok(found) => if well_formed(found@) {
                done is Ok && final(tasks)@ == found@
            } else {
                done == Err::<(), StoreError>(StoreError::ReadFailed) && final(tasks)@ == old(tasks)@
            },
            Err(e) => done == Err::<(), StoreError>(e) && final(tasks)@ == old(tasks)@,
        },
        well_formed(old(tasks)@) ==> well_formed(final(tasks)@),
{
    match outcome {
        Err(e) => Err(e),
        Ok(found) => {
            if ids_well_formed(&found) {
                *tasks = found;
                Ok(())
            } else {
                Err(StoreError::ReadFailed)
            }
        },
    }
}

} // verus!
