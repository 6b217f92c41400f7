//! The task, its status and its priority, and the texts that stand for the
//! latter two in the store and on the screen.

use crate::text::same_text;
use vstd::prelude::*;

verus! {

/// How far a task has come.
#[derive(Clone, Copy, Debug, PartialEq, Eq, Structural)]
pub enum TaskStatus {
    Unready,
    InProcess,
    Done,
    Undefined,
}

/// How urgent a task is.
#[derive(Clone, Copy, Debug, PartialEq, Eq, Structural)]
pub enum TaskPriority {
    Low,
    Medium,
    High,
    Undefined,
}

impl TaskStatus {
    /// The text that stands for this status in the store.
    pub open spec fn text(self) -> Seq<char> {
        match self {
            TaskStatus::Unready => "unready"@,
            TaskStatus::InProcess => "in_process"@,
            TaskStatus::Done => "done"@,
            TaskStatus::Undefined => "undefined"@,
        }
    }

    /// The status that a stored text stands for. Total: a text that is none
    /// of the three meaningful encodings stands for `Undefined`.
    pub open spec fn decode(text: Seq<char>) -> TaskStatus {
        if text == "unready"@ {
            TaskStatus::Unready
        } else if text == "in_process"@ {
            TaskStatus::InProcess
        } else if text == "done"@ {
            TaskStatus::Done
        } else {
            TaskStatus::Undefined
        }
    }

    /// The words shown to the user for this status.
    pub open spec fn label(self) -> Seq<char> {
        match self {
            TaskStatus::Unready => "не сделано"@,
            TaskStatus::InProcess => "в процессе"@,
            TaskStatus::Done => "готово"@,
            TaskStatus::Undefined => "неизвестно"@,
        }
    }

    /// The status that a menu choice stands for: `1`, `2` and `3` name the
    /// three meaningful values, anything else `Undefined`.
    pub open spec fn chosen(choice: Seq<char>) -> TaskStatus {
        if choice == "1"@ {
            TaskStatus::Unready
        } else if choice == "2"@ {
            TaskStatus::InProcess
        } else if choice == "3"@ {
            TaskStatus::Done
        } else {
            TaskStatus::Undefined
        }
    }

    /// The display words of this status.
    pub fn to_ru(&self) -> (words: &str)
        ensures
            words@ == self.label(),
    {
        match self {
            TaskStatus::Unready => "не сделано",
            TaskStatus::InProcess => "в процессе",
            TaskStatus::Done => "готово",
            TaskStatus::Undefined => "неизвестно",
        }
    }

    /// The canonical encoding of this status, as the store holds it.
    pub fn to_string(&self) -> (encoded: &'static str)
        ensures
            encoded@ == self.text(),
    {
        match self {
            TaskStatus::Unready => "unready",
            TaskStatus::InProcess => "in_process",
            TaskStatus::Done => "done",
            TaskStatus::Undefined => "undefined",
        }
    }

    /// Decodes a stored text. Never fails: an unrecognized text gives
    /// `Undefined`.
    pub fn from_text(text: &str) -> (status: TaskStatus)
        ensures
            status == TaskStatus::decode(text@),
    {
        if same_text(text, "unready") {
            TaskStatus::Unready
        } else if same_text(text, "in_process") {
            TaskStatus::InProcess
        } else if same_text(text, "done") {
            TaskStatus::Done
        } else {
            TaskStatus::Undefined
        }
    }
}

impl TaskPriority {
    /// The text that stands for this priority in the store.
    pub open spec fn text(self) -> Seq<char> {
        match self {
            TaskPriority::Low => "low"@,
            TaskPriority::Medium => "medium"@,
            TaskPriority::High => "high"@,
            TaskPriority::Undefined => "undefined"@,
        }
    }

    /// The priority that a stored text stands for. Total: a text that is none
    /// of the three meaningful encodings stands for `Undefined`.
    pub open spec fn decode(text: Seq<char>) -> TaskPriority {
        if text == "low"@ {
            TaskPriority::Low
        } else if text == "medium"@ {
            TaskPriority::Medium
        } else if text == "high"@ {
            TaskPriority::High
        } else {
            TaskPriority::Undefined
        }
    }

    /// The words shown to the user for this priority.
    pub open spec fn label(self) -> Seq<char> {
        match self {
            TaskPriority::Low => "низкий"@,
            TaskPriority::Medium => "средний"@,
            TaskPriority::High => "высокий"@,
            TaskPriority::Undefined => "неизвестно"@,
        }
    }

    /// The priority that a menu choice stands for: `1`, `2` and `3` name the
    /// three meaningful values, anything else `Undefined`.
    pub open spec fn chosen(choice: Seq<char>) -> TaskPriority {
        if choice == "1"@ {
            TaskPriority::Low
        } else if choice == "2"@ {
            TaskPriority::Medium
        } else if choice == "3"@ {
            TaskPriority::High
        } else {
            TaskPriority::Undefined
        }
    }

    /// The display words of this priority.
    pub fn to_ru(&self) -> (words: &str)
        ensures
            words@ == self.label(),
    {
        match self {
            TaskPriority::Low => "низкий",
            TaskPriority::Medium => "средний",
            TaskPriority::High => "высокий",
            TaskPriority::Undefined => "неизвестно",
        }
    }

    /// The canonical encoding of this priority, as the store holds it.
    pub fn to_string(&self) -> (encoded: &'static str)
        ensures
            encoded@ == self.text(),
    {
        match self {
            TaskPriority::Low => "low",
            TaskPriority::Medium => "medium",
            TaskPriority::High => "high",
            TaskPriority::Undefined => "undefined",
        }
    }

    /// Decodes a stored text. Never fails: an unrecognized text gives
    /// `Undefined`.
    pub fn from_text(text: &str) -> (priority: TaskPriority)
        ensures
            priority == TaskPriority::decode(text@),
    {
        if same_text(text, "low") {
            TaskPriority::Low
        } else if same_text(text, "medium") {
            TaskPriority::Medium
        } else if same_text(text, "high") {
            TaskPriority::High
        } else {
            TaskPriority::Undefined
        }
    }
}

/// The status that the user picked from the status menu, given the choice
/// as typed, without surrounding blanks.
pub fn choose_status(choice: &str) -> (status: TaskStatus)
    ensures
        status == TaskStatus::chosen(choice@),
{
    if same_text(choice, "1") {
        TaskStatus::Unready
    } else if same_text(choice, "2") {
        TaskStatus::InProcess
    } else if same_text(choice, "3") {
        TaskStatus::Done
    } else {
        TaskStatus::Undefined
    }
}

/// The priority that the user picked from the priority menu, given the
/// choice as typed, without surrounding blanks.
pub fn choose_priority(choice: &str) -> (priority: TaskPriority)
    ensures
        priority == TaskPriority::chosen(choice@),
{
    if same_text(choice, "1") {
        TaskPriority::Low
    } else if same_text(choice, "2") {
        TaskPriority::Medium
    } else if same_text(choice, "3") {
        TaskPriority::High
    } else {
        TaskPriority::Undefined
    }
}

/// A unit of work.
#[derive(Debug, PartialEq, Eq)]
pub struct Task {
    /// Assigned by the store when the task is inserted; 0 until then.
    pub id: u32,
    pub name: String,
    pub deadline: String,
    pub description: String,
    pub status: TaskStatus,
    pub priority: TaskPriority,
    pub creator_id: u32,
    pub executor_id: u32,
}

/// What a task holds, with each text as its sequence of characters.
pub struct TaskView {
    pub id: u32,
    pub name: Seq<char>,
    pub deadline: Seq<char>,
    pub description: Seq<char>,
    pub status: TaskStatus,
    pub priority: TaskPriority,
    pub creator_id: u32,
    pub executor_id: u32,
}

impl View for Task {
    type V = TaskView;

    open spec fn view(&self) -> TaskView {
        TaskView {
            id: self.id,
            name: self.name@,
            deadline: self.deadline@,
            description: self.description@,
            status: self.status,
            priority: self.priority,
            creator_id: self.creator_id,
            executor_id: self.executor_id,
        }
    }
}

impl Clone for Task {
    fn clone(&self) -> (copy: Self)
        ensures
            copy == *self,
    {
        Task {
            id: self.id,
            name: self.name.clone(),
            deadline: self.deadline.clone(),
            description: self.description.clone(),
            status: self.status,
            priority: self.priority,
            creator_id: self.creator_id,
            executor_id: self.executor_id,
        }
    }
}

impl Task {
    /// Assembles a task from field values that were already collected. No
    /// field is validated: the name may be empty, and the deadline is free
    /// text.
    pub fn new_task(
        id: u32,
        name: String,
        deadline: String,
        description: String,
        status: TaskStatus,
        priority: TaskPriority,
        creator_id: u32,
        executor_id: u32,
    ) -> (task: Task)
        ensures
            task@ == (TaskView {
                id,
                name: name@,
                deadline: deadline@,
                description: description@,
                status,
                priority,
                creator_id,
                executor_id,
            }),
    {
        Task { id, name, deadline, description, status, priority, creator_id, executor_id }
    }
}

/// Encoding a status and decoding the text gives the status back.
pub proof fn lemma_status_round_trip(status: TaskStatus)
    ensures
        TaskStatus::decode(status.text()) == status,
{
    reveal_strlit("unready");
    reveal_strlit("in_process");
    reveal_strlit("done");
    reveal_strlit("undefined");
    assert("in_process"@.len() == 10);
    assert("done"@.len() == 4);
    assert("undefined"@.len() == 9);
}

/// Encoding a priority and decoding the text gives the priority back.
pub proof fn lemma_priority_round_trip(priority: TaskPriority)
    ensures
        TaskPriority::decode(priority.text()) == priority,
{
    reveal_strlit("low");
    reveal_strlit("medium");
    reveal_strlit("high");
    reveal_strlit("undefined");
    assert("medium"@.len() == 6);
    assert("high"@.len() == 4);
    assert("undefined"@.len() == 9);
}

/// A stored text that is none of the three meaningful status encodings
/// decodes to `Undefined`.
pub proof fn lemma_unrecognized_status(text: Seq<char>)
    requires
        text != TaskStatus::Unready.text(),
        text != TaskStatus::InProcess.text(),
        text != TaskStatus::Done.text(),
    ensures
        TaskStatus::decode(text) == TaskStatus::Undefined,
{
}

/// A stored text that is none of the three meaningful priority encodings
/// decodes to `Undefined`.
pub proof fn lemma_unrecognized_priority(text: Seq<char>)
    requires
        text != TaskPriority::Low.text(),
        text != TaskPriority::Medium.text(),
        text != TaskPriority::High.text(),
    ensures
        TaskPriority::decode(text) == TaskPriority::Undefined,
{
}

} // verus!
