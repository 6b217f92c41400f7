//! A personal task tracker: the task model, its durable storage in a SQLite
//! table, and the in-memory registry that is kept in step with that table.
//!
//! * [`model`] holds the task and its two enumerations, with the texts that
//!   stand for them in the store.
//! * [`field`] names the columns that an update may overwrite.
//! * [`db`] is the storage engine: the schema and the operations on rows.
//! * [`working_set`] holds the changes to the in-memory list of tasks.
//! * [`registry`] ties the list to the store by writing every change through.
//! * [`driver`] holds the calls into the SQLite binding, which are taken on
//!   trust.
//! * [`numeral`] and [`text`] read, write and compare the texts involved.

pub mod db;
pub mod driver;
pub mod error;
pub mod field;
pub mod model;
pub mod numeral;
pub mod registry;
pub mod text;
pub mod working_set;

pub use error::StoreError;
pub use field::Field;
pub use model::{Task, TaskPriority, TaskStatus};
pub use registry::Registry;
pub use working_set::Change;
