//! The storage engine: one table, `tasks`, and the operations that create,
//! read, overwrite and remove its rows.
//!
//! What the database answers is not known to the verifier. Each operation
//! therefore takes its statement and the values it binds from functions of
//! this file that state them exactly, and hands the database's answer,
//! failure included, to a function of this file that says, for every
//! possible answer, what the operation returns.

use crate::driver::{execute, last_insert_rowid, open, query_rows};
use crate::error::StoreError;
use crate::field::Field;
use crate::model::{
    lemma_priority_round_trip, lemma_status_round_trip, Task, TaskPriority, TaskStatus, TaskView,
};
use crate::numeral::{parse_user, parsed_user};
use rusqlite::Connection;
use vstd::prelude::*;

verus! {

/// One row of the `tasks` table, with status and priority still as the texts
/// that the table holds.
#[derive(Debug, PartialEq, Eq)]
pub struct StoredRow {
    pub id: u32,
    pub name: String,
    pub description: String,
    pub deadline: String,
    pub status: String,
    pub priority: String,
    pub creator_id: u32,
    pub executor_id: u32,
}

/// The path of the tracker's own database file, in the working directory.
pub open spec fn store_path_text() -> Seq<char> {
    "task-tracker.db"@
}

/// The statement that makes the `tasks` table unless it exists.
pub open spec fn schema_text() -> Seq<char> {
    "CREATE TABLE IF NOT EXISTS tasks (id INTEGER PRIMARY KEY AUTOINCREMENT, name TEXT NOT NULL, description TEXT, deadline TEXT, status TEXT, priority TEXT, creator_id INTEGER, executor_id INTEGER)"@
}

/// The statement that inserts one row. Its parameters are the five texts and
/// the two numbers of [`inserted_texts`] and [`inserted_numbers`], in that
/// order; the id is left to the database.
pub open spec fn insert_text() -> Seq<char> {
    "INSERT INTO tasks (name, description, deadline, status, priority, creator_id, executor_id) VALUES (?1, ?2, ?3, ?4, ?5, ?6, ?7)"@
}

/// The statement that reads every row, with the columns in the order of the
/// fields of [`StoredRow`].
pub open spec fn select_text() -> Seq<char> {
    "SELECT id, name, description, deadline, status, priority, creator_id, executor_id FROM tasks"@
}

/// The statement that removes the row of one id, its only parameter.
pub open spec fn delete_text() -> Seq<char> {
    "DELETE FROM tasks WHERE id = ?1"@
}

/// The task that a row stands for. A status or priority text that is not a
/// canonical encoding degrades to `Undefined`.
pub open spec fn decoded(row: StoredRow) -> TaskView {
    TaskView {
        id: row.id,
        name: row.name@,
        deadline: row.deadline@,
        description: row.description@,
        status: TaskStatus::decode(row.status@),
        priority: TaskPriority::decode(row.priority@),
        creator_id: row.creator_id,
        executor_id: row.executor_id,
    }
}

/// Whether `tasks` is the decoding of `rows`, row by row and in their order.
pub open spec fn decodes(tasks: Seq<Task>, rows: Seq<StoredRow>) -> bool {
    &&& tasks.len() == rows.len()
    &&& forall|i: int| 0 <= i < rows.len() ==> (#[trigger] tasks[i])@ == decoded(rows[i])
}

/// Whether `row` holds, under `id`, exactly what an insert of `task` writes:
/// its texts as they are, its status and priority in their canonical
/// encodings, and its two user ids.
pub open spec fn holds_inserted(row: StoredRow, task: TaskView, id: u32) -> bool {
    &&& row.id == id
    &&& row.name@ == task.name
    &&& row.description@ == task.description
    &&& row.deadline@ == task.deadline
    &&& row.status@ == task.status.text()
    &&& row.priority@ == task.priority.text()
    &&& row.creator_id == task.creator_id
    &&& row.executor_id == task.executor_id
}

/// The texts that an insert of `task` binds, in the order of the statement's
/// parameters.
pub open spec fn inserted_texts(task: TaskView) -> Seq<Seq<char>> {
    seq![task.name, task.description, task.deadline, task.status.text(), task.priority.text()]
}

/// The numbers that an insert of `task` binds after its texts.
pub open spec fn inserted_numbers(task: TaskView) -> Seq<i64> {
    seq![task.creator_id as i64, task.executor_id as i64]
}

/// Whether a row id that the database assigned can be the id of a task: a
/// positive number that fits 32 bits.
pub open spec fn usable_id(rowid: i64) -> bool {
    1 <= rowid <= u32::MAX
}

/// What an insert returns once the database has answered: `WriteFailed`
/// when the statement failed, and also when the row was written under an id
/// that no task can carry; else that id.
pub open spec fn insert_result(written: Option<usize>, rowid: i64) -> Result<u32, StoreError> {
    if written is Some && usable_id(rowid) {
        Ok(rowid as u32)
    } else {
        Err(StoreError::WriteFailed)
    }
}

/// The row that an insert has to take out of the table again: the one it
/// wrote, where it was written under an id that no task can carry.
pub open spec fn stray_result(written: Option<usize>, rowid: i64) -> Option<i64> {
    if written is Some && !usable_id(rowid) {
        Some(rowid)
    } else {
        None
    }
}

/// Whether `tasks` is what a load returns once the database has answered
/// with `read`: `ReadFailed` when the read failed, else the decoding of the
/// rows read.
pub open spec fn loads_as(
    read: Option<Vec<StoredRow>>,
    tasks: Result<Vec<Task>, StoreError>,
) -> bool {
    match read {
        None => tasks == Err::<Vec<Task>, StoreError>(StoreError::ReadFailed),
        Some(rows) => tasks is Ok && decodes(tasks->Ok_0@, rows@),
    }
}

/// Whether a column takes `value`. The two columns of user ids take the
/// decimal numeral of a 32-bit number and nothing else: any other text
/// would stay in the row as a text and fail every later load. The other
/// columns take every text.
pub open spec fn accepts_value(field: Field, value: Seq<char>) -> bool {
    match field {
        Field::CreatorId => parsed_user(value) is Some,
        Field::ExecutorId => parsed_user(value) is Some,
        _ => true,
    }
}

/// What an update returns once the database has answered: `WriteFailed` when
/// the statement failed, `NotFound` when it changed no row.
pub open spec fn update_result(changed: Option<usize>) -> Result<(), StoreError> {
    match changed {
        None => Err(StoreError::WriteFailed),
        Some(n) => if n == 0 {
            Err(StoreError::NotFound)
        } else {
            Ok(())
        },
    }
}

/// What a delete returns once the database has answered: `WriteFailed` when
/// the statement failed. Removing no row is no error.
pub open spec fn delete_result(changed: Option<usize>) -> Result<(), StoreError> {
    match changed {
        None => Err(StoreError::WriteFailed),
        Some(_) => Ok(()),
    }
}

/// What opening the store returns once the database has answered:
/// the connection when it was opened and the schema statement ran on it,
/// `StorageUnavailable` otherwise.
pub open spec fn init_result(opened: Option<Connection>, made: Option<usize>) -> Result<
    Connection,
    StoreError,
> {
    match opened {
        Some(conn) => if made is Some {
            Ok(conn)
        } else {
            Err(StoreError::StorageUnavailable)
        },
        None => Err(StoreError::StorageUnavailable),
    }
}

/// The path of the tracker's own database file, in the working directory.
pub fn store_path() -> (path: &'static str)
    ensures
        path@ == store_path_text(),
{
    "task-tracker.db"
}

/// The statement that makes the `tasks` table unless it exists.
pub fn schema_statement() -> (sql: &'static str)
    ensures
        sql@ == schema_text(),
{
    "CREATE TABLE IF NOT EXISTS tasks (id INTEGER PRIMARY KEY AUTOINCREMENT, name TEXT NOT NULL, description TEXT, deadline TEXT, status TEXT, priority TEXT, creator_id INTEGER, executor_id INTEGER)"
}

/// The statement that inserts one row.
pub fn insert_statement() -> (sql: &'static str)
    ensures
        sql@ == insert_text(),
{
    "INSERT INTO tasks (name, description, deadline, status, priority, creator_id, executor_id) VALUES (?1, ?2, ?3, ?4, ?5, ?6, ?7)"
}

/// The statement that reads every row.
pub fn select_statement() -> (sql: &'static str)
    ensures
        sql@ == select_text(),
{
    "SELECT id, name, description, deadline, status, priority, creator_id, executor_id FROM tasks"
}

/// The statement that removes the row of one id.
pub fn delete_statement() -> (sql: &'static str)
    ensures
        sql@ == delete_text(),
{
    "DELETE FROM tasks WHERE id = ?1"
}

/// The values that an insert of `task` binds: first the texts, then the
/// numbers.
pub fn insert_parameters(task: &Task) -> (bound: (Vec<&str>, Vec<i64>))
    ensures
        bound.0@.len() == 5,
        forall|i: int| 0 <= i < 5 ==> (#[trigger] bound.0@[i])@ == inserted_texts(task@)[i],
        bound.1@ == inserted_numbers(task@),
{
    let texts: Vec<&str> = vec![
        task.name.as_str(),
        task.description.as_str(),
        task.deadline.as_str(),
        task.status.to_string(),
        task.priority.to_string(),
    ];
    let numbers: Vec<i64> = vec![task.creator_id as i64, task.executor_id as i64];
    (texts, numbers)
}

/// The values that an update binds: the new value as the one text, then the
/// id of the row.
pub fn update_parameters<'a>(id: u32, value: &'a str) -> (bound: (Vec<&'a str>, Vec<i64>))
    ensures
        bound.0@.len() == 1,
        bound.0@[0]@ == value@,
        bound.1@ == seq![id as i64],
{
    let texts: Vec<&'a str> = vec![value];
    let numbers: Vec<i64> = vec![id as i64];
    (texts, numbers)
}

/// The values that a delete binds: no text, and the id of the row.
pub fn delete_parameters(rowid: i64) -> (bound: (Vec<&'static str>, Vec<i64>))
    ensures
        bound.0@.len() == 0,
        bound.1@ == seq![rowid],
{
    let texts: Vec<&'static str> = Vec::new();
    let numbers: Vec<i64> = vec![rowid];
    (texts, numbers)
}

/// Whether a column takes `value`: every text, but for the two columns of
/// user ids, which take only the decimal numeral of a 32-bit number.
pub fn value_accepted(field: Field, value: &str) -> (accepted: bool)
    ensures
        accepted == accepts_value(field, value@),
{
    match field {
        Field::CreatorId => parse_user(value).is_some(),
        Field::ExecutorId => parse_user(value).is_some(),
        _ => true,
    }
}

/// Decodes one row into a task.
pub fn decode_row(row: &StoredRow) -> (task: Task)
    ensures
        task@ == decoded(*row),
{
    let status = TaskStatus::from_text(row.status.as_str());
    let priority = TaskPriority::from_text(row.priority.as_str());
    Task {
        id: row.id,
        name: row.name.clone(),
        deadline: row.deadline.clone(),
        description: row.description.clone(),
        status,
        priority,
        creator_id: row.creator_id,
        executor_id: row.executor_id,
    }
}

/// Decodes the rows of the table, in the order in which they were read.
pub fn decode_rows(rows: &Vec<StoredRow>) -> (tasks: Vec<Task>)
    ensures
        decodes(tasks@, rows@),
{
    let mut tasks: Vec<Task> = Vec::new();
    let mut i: usize = 0;
    while i < rows.len()
        invariant
            i <= rows@.len(),
            tasks@.len() == i,
            forall|j: int| 0 <= j < i ==> (#[trigger] tasks@[j])@ == decoded(rows@[j]),
        decreases rows.len() - i,
    {
        tasks.push(decode_row(&rows[i]));
        i += 1;
    }
    tasks
}

/// Turns the database's answers to opening the file and to the schema
/// statement into the result of opening the store. `opened` is the
/// connection, or `None` when the file could not be opened; `made` is
/// `None` when the schema statement failed or was not run, else `Some` of
/// a count that says nothing of a schema statement.
pub fn init_outcome(opened: Option<Connection>, made: Option<usize>) -> (store: Result<
    Connection,
    StoreError,
>)
    ensures
        store == init_result(opened, made),
{
    match opened {
        Some(conn) => if made.is_some() {
            Ok(conn)
        } else {
            Err(StoreError::StorageUnavailable)
        },
        None => Err(StoreError::StorageUnavailable),
    }
}

/// Turns the database's answer to an insert into the id of the new row.
/// `written` is `None` when the statement failed; `rowid` is the row id
/// that the connection reports for its latest insert.
pub fn insert_outcome(written: Option<usize>, rowid: i64) -> (id: Result<u32, StoreError>)
    ensures
        id == insert_result(written, rowid),
{
    if written.is_some() && 1 <= rowid && rowid <= 4294967295 {
        Ok(rowid as u32)
    } else {
        Err(StoreError::WriteFailed)
    }
}

/// The row that an insert has to remove again, given the database's answer:
/// the row it wrote, where the database put it under an id that no task can
/// carry. Left in the table, that row would fail every later load.
pub fn stray_row(written: Option<usize>, rowid: i64) -> (row: Option<i64>)
    ensures
        row == stray_result(written, rowid),
{
    if written.is_some() && !(1 <= rowid && rowid <= 4294967295) {
        Some(rowid)
    } else {
        None
    }
}

/// Turns the database's answer to the select into the result of a load.
/// `read` holds the rows in the order in which they came, or is `None` when
/// the read failed.
pub fn load_outcome(read: Option<Vec<StoredRow>>) -> (tasks: Result<Vec<Task>, StoreError>)
    ensures
        loads_as(read, tasks),
{
    match read {
        None => Err(StoreError::ReadFailed),
        Some(rows) => Ok(decode_rows(&rows)),
    }
}

/// Turns the database's answer to an update into the update's result.
/// `changed` is the number of rows that the statement changed, or `None`
/// when the statement failed.
pub fn update_outcome(changed: Option<usize>) -> (done: Result<(), StoreError>)
    ensures
        done == update_result(changed),
{
    match changed {
        None => Err(StoreError::WriteFailed),
        Some(n) => if n == 0 {
            Err(StoreError::NotFound)
        } else {
            Ok(())
        },
    }
}

/// Turns the database's answer to a delete into the delete's result.
/// `changed` is the number of rows that the statement removed, or `None`
/// when the statement failed.
pub fn delete_outcome(changed: Option<usize>) -> (done: Result<(), StoreError>)
    ensures
        done == delete_result(changed),
{
    match changed {
        None => Err(StoreError::WriteFailed),
        Some(_) => Ok(()),
    }
}

/// Opens the database at `path`, creating it if it is absent, and makes sure
/// that the `tasks` table exists. Safe to call on every start. The path
/// `:memory:` gives a private database that lives as long as the connection.
pub fn init_db_at(path: &str) -> (store: Result<Connection, StoreError>)
    ensures
        store matches Err(e) ==> e == StoreError::StorageUnavailable,
{
    let opened = open(path).ok();
    let made = match &opened {
        Some(conn) => {
            let texts: Vec<&str> = Vec::new();
            let numbers: Vec<i64> = Vec::new();
            execute(conn, schema_statement(), &texts, &numbers).ok()
        },
        None => None,
    };
    init_outcome(opened, made)
}

/// Opens the tracker's own database file, `task-tracker.db` in the working
/// directory, as [`init_db_at`] does: the file is created if it is absent,
/// and the `tasks` table is made if the file does not hold it yet. Whether
/// that succeeds is for the file system and the database to decide; where
/// it does not, the result is `StorageUnavailable`.
pub fn init_db() -> (store: Result<Connection, StoreError>)
    ensures
        store matches Err(e) ==> e == StoreError::StorageUnavailable,
{
    init_db_at(store_path())
}

/// Removes the row that the database keeps under `rowid`. Where there is no
/// such row, nothing changes and the call succeeds.
pub fn remove_row(conn: &Connection, rowid: i64) -> (done: Result<(), StoreError>)
    ensures
        done matches Err(e) ==> e == StoreError::WriteFailed,
{
    let (texts, numbers) = delete_parameters(rowid);
    let removed = execute(conn, delete_statement(), &texts, &numbers);
    delete_outcome(removed.ok())
}

/// Inserts a new row that holds every field of `task` but its id, which the
/// database assigns, and returns that id. The id of `task` is not read.
///
/// Where the database puts the row under an id that no task can carry, the
/// row is taken out again and the result is `WriteFailed`. If taking it out
/// fails too, the row stays in the table.
pub fn insert_task(conn: &Connection, task: &Task) -> (id: Result<u32, StoreError>)
    ensures
        match id {
            Ok(n) => n >= 1,
            Err(e) => e == StoreError::WriteFailed,
        },
{
    let (texts, numbers) = insert_parameters(task);
    let written = execute(conn, insert_statement(), &texts, &numbers).ok();
    let rowid = last_insert_rowid(conn);
    match stray_row(written, rowid) {
        Some(row) => {
            let _ = remove_row(conn, row);
        },
        None => {},
    }
    insert_outcome(written, rowid)
}

/// Reads every row of the table, in the order in which the database hands
/// them out, and decodes each into a task. A status or priority text that is
/// no canonical encoding does not fail the read.
pub fn load_db(conn: &Connection) -> (tasks: Result<Vec<Task>, StoreError>)
    ensures
        tasks matches Err(e) ==> e == StoreError::ReadFailed,
{
    let read = query_rows(conn, select_statement());
    load_outcome(read.ok())
}

/// Overwrites the column `field` of the row with the given id by `value`.
/// A value that the column does not take is refused with `WriteFailed`, and
/// the database is not touched.
pub fn update_field(
    conn: &Connection,
    id: u32,
    field: Field,
    value: &str,
) -> (done: Result<(), StoreError>)
    ensures
        !accepts_value(field, value@) ==> done == Err::<(), StoreError>(StoreError::WriteFailed),
        done matches Err(e) ==> e == StoreError::NotFound || e == StoreError::WriteFailed,
{
    if !value_accepted(field, value) {
        return Err(StoreError::WriteFailed);
    }
    let (texts, numbers) = update_parameters(id, value);
    let written = execute(conn, field.update_statement(), &texts, &numbers);
    update_outcome(written.ok())
}

/// Overwrites one named column of the row with the given id. The name must
/// be one of the seven columns that may be overwritten, and the value one
/// that the column takes: otherwise the database is not touched and the
/// update fails with `WriteFailed`.
pub fn update_task(
    conn: &Connection,
    id: u32,
    field: &str,
    value: &str,
) -> (done: Result<(), StoreError>)
    ensures
        match Field::named(field@) {
            None => done == Err::<(), StoreError>(StoreError::WriteFailed),
            Some(column) => !accepts_value(column, value@) ==> done == Err::<(), StoreError>(
                StoreError::WriteFailed,
            ),
        },
        done matches Err(e) ==> e == StoreError::NotFound || e == StoreError::WriteFailed,
{
    match Field::from_name(field) {
        None => Err(StoreError::WriteFailed),
        Some(column) => update_field(conn, id, column, value),
    }
}

/// Removes the row with the given id. Where no row has that id, nothing
/// changes and the call succeeds.
pub fn delete_task(conn: &Connection, id: u32) -> (done: Result<(), StoreError>)
    ensures
        done matches Err(e) ==> e == StoreError::WriteFailed,
{
    remove_row(conn, id as i64)
}

/// A row that holds what an insert of `task` wrote decodes to `task` again,
/// field for field, under the id that the row carries.
pub proof fn lemma_row_round_trip(task: TaskView, id: u32, row: StoredRow)
    requires
        holds_inserted(row, task, id),
    ensures
        decoded(row) == (TaskView { id, ..task }),
{
    lemma_status_round_trip(task.status);
    lemma_priority_round_trip(task.priority);
}

/// Where the rows read back hold, at one place, what an insert of `task`
/// wrote under `id`, the tasks loaded hold at that place `task` with every
/// field as it was given, under that id.
pub proof fn lemma_inserted_task_is_loaded(
    tasks: Seq<Task>,
    rows: Seq<StoredRow>,
    place: int,
    task: TaskView,
    id: u32,
)
    requires
        decodes(tasks, rows),
        0 <= place < rows.len(),
        holds_inserted(rows[place], task, id),
    ensures
        tasks[place]@ == (TaskView { id, ..task }),
{
    lemma_row_round_trip(task, id, rows[place]);
}

/// Where no row read back carries `id`, no task loaded carries it.
pub proof fn lemma_absent_row_is_not_loaded(tasks: Seq<Task>, rows: Seq<StoredRow>, id: u32)
    requires
        decodes(tasks, rows),
        forall|i: int| 0 <= i < rows.len() ==> (#[trigger] rows[i]).id != id,
    ensures
        forall|i: int| 0 <= i < tasks.len() ==> (#[trigger] tasks[i]).id != id,
{
}

} // verus!
