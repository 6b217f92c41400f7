//! The task registry: the in-memory list of tasks and the connection to the
//! store, kept in step by writing every change through at once.
//!
//! Every change goes to the store first and reaches the list only after the
//! store has accepted it, so a failed write leaves the list as it was.

use crate::error::StoreError;
use crate::model::{lemma_priority_round_trip, lemma_status_round_trip, Task, TaskView};
use crate::numeral::{lemma_decimal_round_trip, numeral_value};
use crate::db::{
    accepts_value, decoded, decodes, delete_task, insert_task, load_db, update_field, StoredRow,
};
use crate::working_set::{
    holds_id, id_at, refused_id, replaced_at, settle_create, settle_delete, settle_load,
    settle_update, well_formed, Change,
};
use rusqlite::Connection;
use vstd::prelude::*;

verus! {

/// The working set of tasks together with the store that backs it.
///
/// The list of a new registry is well-formed: its ids are positive and
/// pairwise different. Every method that changes the list keeps it so.
pub struct Registry {
    conn: Connection,
    tasks: Vec<Task>,
}

impl View for Registry {
    type V = Seq<Task>;

    /// The tasks of the registry, in their order.
    closed spec fn view(&self) -> Seq<Task> {
        self.tasks@
    }
}

impl Registry {
    /// A registry over an open store, with no task in memory yet.
    pub fn new(conn: Connection) -> (registry: Registry)
        ensures
            registry.store() == conn,
            registry@ == Seq::<Task>::empty(),
            well_formed(registry@),
    {
        Registry { conn, tasks: Vec::new() }
    }

    /// The connection to the store that backs this registry. It is the one
    /// that the registry was made with, for as long as the registry lives.
    pub closed spec fn store(&self) -> Connection {
        self.conn
    }

    /// Replaces the list by the tasks that the store holds. Where the read
    /// fails, or the stored ids are not positive and pairwise different, the
    /// result is `ReadFailed` and the list is left as it is.
    pub fn load(&mut self) -> (done: Result<(), StoreError>)
        ensures
            final(self).store() == old(self).store(),
            done is Ok ==> well_formed(final(self)@),
            done matches Err(e) ==> e == StoreError::ReadFailed && final(self)@ == old(self)@,
    {
        let found = load_db(&self.conn);
        settle_load(&mut self.tasks, found)
    }

    /// Inserts `draft` into the store and, once the store has assigned it an
    /// id, appends it to the list under that id. The id of `draft` is not
    /// read. The task returned is the one that now ends the list. Where the
    /// store fails, the result is `WriteFailed` and the list is left as it
    /// is. So it is where the store assigns an id that the list already
    /// holds: the row is then taken out of the store again. If taking it out
    /// fails too, the row stays in the store.
    pub fn create(&mut self, draft: Task) -> (created: Result<Task, StoreError>)
        ensures
            final(self).store() == old(self).store(),
            well_formed(old(self)@) ==> well_formed(final(self)@),
            match created {
                Ok(task) => {
                    &&& task@ == (TaskView { id: task.id, ..draft@ })
                    &&& task.id >= 1
                    &&& !holds_id(old(self)@, task.id)
                    &&& final(self)@ == old(self)@.push(task)
                },
                Err(e) => e == StoreError::WriteFailed && final(self)@ == old(self)@,
            },
    {
        let assigned = insert_task(&self.conn, &draft);
        match refused_id(&self.tasks, assigned) {
            Some(id) => {
                let _ = delete_task(&self.conn, id);
            },
            None => {},
        }
        settle_create(&mut self.tasks, draft, assigned)
    }

    /// The tasks of the registry, in their order.
    pub fn list(&self) -> (tasks: &Vec<Task>)
        ensures
            tasks@ == self@,
    {
        &self.tasks
    }

    /// The task at `position`, or `NotFound` where the list is shorter.
    pub fn select_by_index(&self, position: usize) -> (found: Result<&Task, StoreError>)
        ensures
            position < self@.len() ==> found == Ok::<&Task, StoreError>(&self@[position as int]),
            position >= self@.len() ==> found == Err::<&Task, StoreError>(StoreError::NotFound),
    {
        if position < self.tasks.len() {
            Ok(&self.tasks[position])
        } else {
            Err(StoreError::NotFound)
        }
    }

    /// Overwrites one field of the task at `index`, in the store and then
    /// in the list. With no task at `index` the store is not touched and the
    /// result is `NotFound`. Where the store holds no row of the task's id
    /// the result is `NotFound` too, and where the write fails it is
    /// `WriteFailed`; the list is then left as it is.
    pub fn update_field(&mut self, index: usize, change: Change) -> (done: Result<(), StoreError>)
        ensures
            final(self).store() == old(self).store(),
            well_formed(old(self)@) ==> well_formed(final(self)@),
            index >= old(self)@.len() ==> done == Err::<(), StoreError>(StoreError::NotFound),
            match done {
                Ok(_) => index < old(self)@.len() && replaced_at(
                    old(self)@,
                    final(self)@,
                    index as int,
                    change.applied(old(self)@[index as int]@),
                ),
                Err(e) => {
                    &&& e == StoreError::NotFound || e == StoreError::WriteFailed
                    &&& final(self)@ == old(self)@
                },
            },
    {
        match id_at(&self.tasks, index) {
            None => Err(StoreError::NotFound),
            Some(id) => {
                let text = change.stored_text();
                let written = update_field(&self.conn, id, change.target(), text.as_str());
                settle_update(&mut self.tasks, index, change, written)
            },
        }
    }

    /// Removes the task at `index`, from the store and then from the list.
    /// With no task at `index` the store is not touched and the result is
    /// `NotFound`. Where the store fails the result is `WriteFailed` and the
    /// list is left as it is.
    pub fn delete(&mut self, index: usize) -> (done: Result<(), StoreError>)
        ensures
            final(self).store() == old(self).store(),
            well_formed(old(self)@) ==> well_formed(final(self)@),
            index >= old(self)@.len() ==> done == Err::<(), StoreError>(StoreError::NotFound),
            match done {
                Ok(_) => {
                    &&& index < old(self)@.len()
                    &&& final(self)@ == old(self)@.remove(index as int)
                    &&& well_formed(old(self)@) ==> !holds_id(
                        final(self)@,
                        old(self)@[index as int].id,
                    )
                },
                Err(e) => {
                    &&& e == StoreError::NotFound || e == StoreError::WriteFailed
                    &&& final(self)@ == old(self)@
                },
            },
    {
        match id_at(&self.tasks, index) {
            None => Err(StoreError::NotFound),
            Some(id) => {
                let removed = delete_task(&self.conn, id);
                settle_delete(&mut self.tasks, index, removed)
            },
        }
    }
}

/// Whether `after` is the row `before` once the store has taken `change`:
/// the column of the change holds what the change wrote, a user id as the
/// number that the written numeral stands for, and every other column is as
/// before.
pub open spec fn holds_updated(after: StoredRow, before: StoredRow, change: Change) -> bool {
    &&& after.id == before.id
    &&& after.name@ == (if change is Name {
        change.stored()
    } else {
        before.name@
    })
    &&& after.description@ == (if change is Description {
        change.stored()
    } else {
        before.description@
    })
    &&& after.deadline@ == (if change is Deadline {
        change.stored()
    } else {
        before.deadline@
    })
    &&& after.status@ == (if change is Status {
        change.stored()
    } else {
        before.status@
    })
    &&& after.priority@ == (if change is Priority {
        change.stored()
    } else {
        before.priority@
    })
    &&& after.creator_id as nat == (if change is CreatorId {
        numeral_value(change.stored())
    } else {
        before.creator_id as nat
    })
    &&& after.executor_id as nat == (if change is ExecutorId {
        numeral_value(change.stored())
    } else {
        before.executor_id as nat
    })
}

/// A row that holds what an update wrote decodes to the task as the change
/// leaves it in memory: the one field is new, every other field is as it
/// was.
pub proof fn lemma_update_round_trip(before: StoredRow, after: StoredRow, change: Change)
    requires
        holds_updated(after, before, change),
    ensures
        decoded(after) == change.applied(decoded(before)),
{
    match change {
        Change::Status(status) => {
            lemma_status_round_trip(status);
        },
        Change::Priority(priority) => {
            lemma_priority_round_trip(priority);
        },
        Change::CreatorId(user) => {
            lemma_decimal_round_trip(user as nat);
        },
        Change::ExecutorId(user) => {
            lemma_decimal_round_trip(user as nat);
        },
        _ => {},
    }
}

/// Where the rows read back differ from the rows read before in one row
/// alone, and that row holds what `change` wrote, the tasks loaded differ
/// from the tasks loaded before in one task alone, and that task is the
/// earlier one with the one field changed.
pub proof fn lemma_updated_task_is_loaded(
    tasks_before: Seq<Task>,
    rows_before: Seq<StoredRow>,
    tasks_after: Seq<Task>,
    rows_after: Seq<StoredRow>,
    place: int,
    change: Change,
)
    requires
        decodes(tasks_before, rows_before),
        decodes(tasks_after, rows_after),
        rows_after.len() == rows_before.len(),
        0 <= place < rows_before.len(),
        holds_updated(rows_after[place], rows_before[place], change),
        forall|i: int|
            0 <= i < rows_before.len() && i != place ==> rows_after[i] == rows_before[i],
    ensures
        tasks_after[place]@ == change.applied(tasks_before[place]@),
        forall|i: int|
            0 <= i < tasks_before.len() && i != place ==> (#[trigger] tasks_after[i])@
                == tasks_before[i]@,
{
    lemma_update_round_trip(rows_before[place], rows_after[place], change);
}

/// The store takes what every change writes: the text that a change of a
/// user id writes is the decimal numeral of a 32-bit number.
pub proof fn lemma_change_is_accepted(change: Change)
    ensures
        accepts_value(change.field(), change.stored()),
{
    match change {
        Change::CreatorId(user) => {
            lemma_decimal_round_trip(user as nat);
        },
        Change::ExecutorId(user) => {
            lemma_decimal_round_trip(user as nat);
        },
        _ => {},
    }
}

} // verus!
