use task_tracker::model::{choose_priority, choose_status, Task, TaskPriority, TaskStatus};

fn sample() -> Task {
    Task::new_task(
        3,
        "write spec".to_string(),
        "friday".to_string(),
        "the storage part".to_string(),
        TaskStatus::Unready,
        TaskPriority::High,
        1,
        2,
    )
}

#[test]
fn status_encodings_are_canonical() {
    assert_eq!(TaskStatus::Unready.to_string(), "unready");
    assert_eq!(TaskStatus::InProcess.to_string(), "in_process");
    assert_eq!(TaskStatus::Done.to_string(), "done");
    assert_eq!(TaskStatus::Undefined.to_string(), "undefined");
}

#[test]
fn priority_encodings_are_canonical() {
    assert_eq!(TaskPriority::Low.to_string(), "low");
    assert_eq!(TaskPriority::Medium.to_string(), "medium");
    assert_eq!(TaskPriority::High.to_string(), "high");
    assert_eq!(TaskPriority::Undefined.to_string(), "undefined");
}

#[test]
fn status_decodes_each_encoding() {
    assert_eq!(TaskStatus::from_text("unready"), TaskStatus::Unready);
    assert_eq!(TaskStatus::from_text("in_process"), TaskStatus::InProcess);
    assert_eq!(TaskStatus::from_text("done"), TaskStatus::Done);
    assert_eq!(TaskStatus::from_text("undefined"), TaskStatus::Undefined);
}

#[test]
fn priority_decodes_each_encoding() {
    assert_eq!(TaskPriority::from_text("low"), TaskPriority::Low);
    assert_eq!(TaskPriority::from_text("medium"), TaskPriority::Medium);
    assert_eq!(TaskPriority::from_text("high"), TaskPriority::High);
    assert_eq!(TaskPriority::from_text("undefined"), TaskPriority::Undefined);
}

#[test]
fn status_round_trips_through_its_encoding() {
    for status in [
        TaskStatus::Unready,
        TaskStatus::InProcess,
        TaskStatus::Done,
        TaskStatus::Undefined,
    ] {
        assert_eq!(TaskStatus::from_text(status.to_string()), status);
    }
}

#[test]
fn priority_round_trips_through_its_encoding() {
    for priority in [
        TaskPriority::Low,
        TaskPriority::Medium,
        TaskPriority::High,
        TaskPriority::Undefined,
    ] {
        assert_eq!(TaskPriority::from_text(priority.to_string()), priority);
    }
}

#[test]
fn unrecognized_status_text_is_undefined() {
    for text in ["", "Done", "DONE", "done ", " done", "finished", "готово", "in process", "3"] {
        assert_eq!(TaskStatus::from_text(text), TaskStatus::Undefined);
    }
}

#[test]
fn unrecognized_priority_text_is_undefined() {
    for text in ["", "Low", "HIGH", "high ", "urgent", "высокий", "mediu", "mediumm"] {
        assert_eq!(TaskPriority::from_text(text), TaskPriority::Undefined);
    }
}

#[test]
fn a_status_encoding_is_no_priority() {
    assert_eq!(TaskPriority::from_text("done"), TaskPriority::Undefined);
    assert_eq!(TaskStatus::from_text("high"), TaskStatus::Undefined);
}

#[test]
fn status_display_words() {
    assert_eq!(TaskStatus::Unready.to_ru(), "не сделано");
    assert_eq!(TaskStatus::InProcess.to_ru(), "в процессе");
    assert_eq!(TaskStatus::Done.to_ru(), "готово");
    assert_eq!(TaskStatus::Undefined.to_ru(), "неизвестно");
}

#[test]
fn priority_display_words() {
    assert_eq!(TaskPriority::Low.to_ru(), "низкий");
    assert_eq!(TaskPriority::Medium.to_ru(), "средний");
    assert_eq!(TaskPriority::High.to_ru(), "высокий");
    assert_eq!(TaskPriority::Undefined.to_ru(), "неизвестно");
}

#[test]
fn status_menu_choices() {
    assert_eq!(choose_status("1"), TaskStatus::Unready);
    assert_eq!(choose_status("2"), TaskStatus::InProcess);
    assert_eq!(choose_status("3"), TaskStatus::Done);
    assert_eq!(choose_status("4"), TaskStatus::Undefined);
    assert_eq!(choose_status(""), TaskStatus::Undefined);
    assert_eq!(choose_status("done"), TaskStatus::Undefined);
    assert_eq!(choose_status("11"), TaskStatus::Undefined);
}

#[test]
fn priority_menu_choices() {
    assert_eq!(choose_priority("1"), TaskPriority::Low);
    assert_eq!(choose_priority("2"), TaskPriority::Medium);
    assert_eq!(choose_priority("3"), TaskPriority::High);
    assert_eq!(choose_priority("0"), TaskPriority::Undefined);
    assert_eq!(choose_priority(""), TaskPriority::Undefined);
    assert_eq!(choose_priority("high"), TaskPriority::Undefined);
}

#[test]
fn new_task_keeps_every_field() {
    let task = sample();
    assert_eq!(task.id, 3);
    assert_eq!(task.name, "write spec");
    assert_eq!(task.deadline, "friday");
    assert_eq!(task.description, "the storage part");
    assert_eq!(task.status, TaskStatus::Unready);
    assert_eq!(task.priority, TaskPriority::High);
    assert_eq!(task.creator_id, 1);
    assert_eq!(task.executor_id, 2);
}

#[test]
fn new_task_accepts_empty_texts() {
    let task = Task::new_task(
        0,
        String::new(),
        String::new(),
        String::new(),
        TaskStatus::Undefined,
        TaskPriority::Undefined,
        0,
        u32::MAX,
    );
    assert_eq!(task.name, "");
    assert_eq!(task.deadline, "");
    assert_eq!(task.description, "");
    assert_eq!(task.executor_id, u32::MAX);
}

#[test]
fn a_clone_equals_its_source() {
    let task = sample();
    let copy = task.clone();
    assert_eq!(copy, task);
}
