use task_tracker::error::StoreError;
use task_tracker::field::Field;
use task_tracker::model::{Task, TaskPriority, TaskStatus};
use task_tracker::working_set::{
    apply_change, id_at, id_in_use, ids_well_formed, refused_id, select_task, settle_create,
    settle_delete, settle_load, settle_update, update_deadline, update_description, update_name,
    update_priority, update_status, Change,
};

fn task(id: u32, name: &str) -> Task {
    Task::new_task(
        id,
        name.to_string(),
        "friday".to_string(),
        "details".to_string(),
        TaskStatus::Unready,
        TaskPriority::Low,
        1,
        2,
    )
}

fn three() -> Vec<Task> {
    vec![task(1, "a"), task(2, "b"), task(5, "c")]
}

#[test]
fn select_task_in_range() {
    let tasks = three();
    assert_eq!(select_task(&tasks, "0"), Some(0));
    assert_eq!(select_task(&tasks, "2"), Some(2));
    assert_eq!(select_task(&tasks, "+1"), Some(1));
    assert_eq!(select_task(&tasks, "002"), Some(2));
}

#[test]
fn select_task_out_of_range() {
    let tasks = three();
    assert_eq!(select_task(&tasks, "3"), None);
    assert_eq!(select_task(&tasks, "5"), None);
    assert_eq!(select_task(&tasks, "18446744073709551615"), None);
    assert_eq!(select_task(&tasks, "99999999999999999999999"), None);
    assert_eq!(select_task(&vec![], "0"), None);
}

#[test]
fn select_task_with_no_numeral() {
    let tasks = three();
    assert_eq!(select_task(&tasks, ""), None);
    assert_eq!(select_task(&tasks, "one"), None);
    assert_eq!(select_task(&tasks, "-1"), None);
    assert_eq!(select_task(&tasks, "1 "), None);
}

#[test]
fn update_status_changes_one_task() {
    let mut tasks = three();
    assert_eq!(update_status(&mut tasks, 1, TaskStatus::Done), Ok(()));
    let mut expected = three();
    expected[1].status = TaskStatus::Done;
    assert_eq!(tasks, expected);
}

#[test]
fn update_priority_changes_one_task() {
    let mut tasks = three();
    assert_eq!(update_priority(&mut tasks, 0, TaskPriority::High), Ok(()));
    let mut expected = three();
    expected[0].priority = TaskPriority::High;
    assert_eq!(tasks, expected);
}

#[test]
fn update_description_changes_one_task() {
    let mut tasks = three();
    assert_eq!(update_description(&mut tasks, 2, "more".to_string()), Ok(()));
    let mut expected = three();
    expected[2].description = "more".to_string();
    assert_eq!(tasks, expected);
}

#[test]
fn update_deadline_changes_one_task() {
    let mut tasks = three();
    assert_eq!(update_deadline(&mut tasks, 2, "monday".to_string()), Ok(()));
    let mut expected = three();
    expected[2].deadline = "monday".to_string();
    assert_eq!(tasks, expected);
}

#[test]
fn update_name_changes_one_task() {
    let mut tasks = three();
    assert_eq!(update_name(&mut tasks, 0, String::new()), Ok(()));
    let mut expected = three();
    expected[0].name = String::new();
    assert_eq!(tasks, expected);
}

#[test]
fn updates_out_of_range_are_not_found() {
    let mut tasks = three();
    assert_eq!(update_status(&mut tasks, 3, TaskStatus::Done), Err(StoreError::NotFound));
    assert_eq!(update_priority(&mut tasks, 5, TaskPriority::High), Err(StoreError::NotFound));
    assert_eq!(update_description(&mut tasks, 3, "x".to_string()), Err(StoreError::NotFound));
    assert_eq!(update_deadline(&mut tasks, usize::MAX, "x".to_string()), Err(StoreError::NotFound));
    assert_eq!(update_name(&mut tasks, 3, "x".to_string()), Err(StoreError::NotFound));
    assert_eq!(tasks, three());
    let mut none: Vec<Task> = vec![];
    assert_eq!(update_name(&mut none, 0, "x".to_string()), Err(StoreError::NotFound));
}

#[test]
fn apply_change_of_the_user_ids() {
    let mut tasks = three();
    assert_eq!(apply_change(&mut tasks, 1, Change::CreatorId(9)), Ok(()));
    assert_eq!(apply_change(&mut tasks, 1, Change::ExecutorId(0)), Ok(()));
    let mut expected = three();
    expected[1].creator_id = 9;
    expected[1].executor_id = 0;
    assert_eq!(tasks, expected);
    assert_eq!(apply_change(&mut tasks, 3, Change::CreatorId(9)), Err(StoreError::NotFound));
    assert_eq!(tasks, expected);
}

#[test]
fn a_change_names_its_column() {
    assert_eq!(Change::Name("x".to_string()).target(), Field::Name);
    assert_eq!(Change::Description("x".to_string()).target(), Field::Description);
    assert_eq!(Change::Deadline("x".to_string()).target(), Field::Deadline);
    assert_eq!(Change::Status(TaskStatus::Done).target(), Field::Status);
    assert_eq!(Change::Priority(TaskPriority::Low).target(), Field::Priority);
    assert_eq!(Change::CreatorId(1).target(), Field::CreatorId);
    assert_eq!(Change::ExecutorId(1).target(), Field::ExecutorId);
}

#[test]
fn a_change_gives_the_text_to_store() {
    assert_eq!(Change::Name("new name".to_string()).stored_text(), "new name");
    assert_eq!(Change::Description(String::new()).stored_text(), "");
    assert_eq!(Change::Deadline("monday".to_string()).stored_text(), "monday");
    assert_eq!(Change::Status(TaskStatus::InProcess).stored_text(), "in_process");
    assert_eq!(Change::Status(TaskStatus::Undefined).stored_text(), "undefined");
    assert_eq!(Change::Priority(TaskPriority::High).stored_text(), "high");
    assert_eq!(Change::CreatorId(0).stored_text(), "0");
    assert_eq!(Change::ExecutorId(4294967295).stored_text(), "4294967295");
}

#[test]
fn id_in_use_finds_ids() {
    let tasks = three();
    assert!(id_in_use(&tasks, 1));
    assert!(id_in_use(&tasks, 5));
    assert!(!id_in_use(&tasks, 3));
    assert!(!id_in_use(&tasks, 0));
    assert!(!id_in_use(&vec![], 1));
}

#[test]
fn ids_well_formed_wants_positive_distinct_ids() {
    assert!(ids_well_formed(&vec![]));
    assert!(ids_well_formed(&three()));
    assert!(ids_well_formed(&vec![task(9, "a"), task(3, "b")]));
    assert!(!ids_well_formed(&vec![task(0, "a")]));
    assert!(!ids_well_formed(&vec![task(1, "a"), task(0, "b")]));
    assert!(!ids_well_formed(&vec![task(1, "a"), task(2, "b"), task(1, "c")]));
    assert!(!ids_well_formed(&vec![task(2, "a"), task(2, "b")]));
}

#[test]
fn settle_create_appends_under_the_assigned_id() {
    let mut tasks = three();
    let created = settle_create(&mut tasks, task(0, "d"), Ok(6));
    assert_eq!(created, Ok(task(6, "d")));
    let mut expected = three();
    expected.push(task(6, "d"));
    assert_eq!(tasks, expected);
}

#[test]
fn settle_create_refuses_an_id_in_use_or_zero() {
    let mut tasks = three();
    assert_eq!(settle_create(&mut tasks, task(0, "d"), Ok(2)), Err(StoreError::WriteFailed));
    assert_eq!(settle_create(&mut tasks, task(0, "d"), Ok(0)), Err(StoreError::WriteFailed));
    assert_eq!(tasks, three());
}

#[test]
fn settle_create_passes_a_failure_on() {
    let mut tasks = three();
    assert_eq!(
        settle_create(&mut tasks, task(0, "d"), Err(StoreError::WriteFailed)),
        Err(StoreError::WriteFailed)
    );
    assert_eq!(tasks, three());
}

#[test]
fn settle_update_changes_after_success_only() {
    let mut tasks = three();
    assert_eq!(settle_update(&mut tasks, 0, Change::Status(TaskStatus::Done), Ok(())), Ok(()));
    let mut expected = three();
    expected[0].status = TaskStatus::Done;
    assert_eq!(tasks, expected);
    assert_eq!(
        settle_update(&mut tasks, 0, Change::Name("z".to_string()), Err(StoreError::WriteFailed)),
        Err(StoreError::WriteFailed)
    );
    assert_eq!(
        settle_update(&mut tasks, 1, Change::Name("z".to_string()), Err(StoreError::NotFound)),
        Err(StoreError::NotFound)
    );
    assert_eq!(tasks, expected);
    assert_eq!(
        settle_update(&mut tasks, 3, Change::Name("z".to_string()), Ok(())),
        Err(StoreError::NotFound)
    );
    assert_eq!(tasks, expected);
}

#[test]
fn settle_delete_removes_after_success_only() {
    let mut tasks = three();
    assert_eq!(settle_delete(&mut tasks, 1, Err(StoreError::WriteFailed)), Err(StoreError::WriteFailed));
    assert_eq!(tasks, three());
    assert_eq!(settle_delete(&mut tasks, 3, Ok(())), Err(StoreError::NotFound));
    assert_eq!(tasks, three());
    assert_eq!(settle_delete(&mut tasks, 1, Ok(())), Ok(()));
    assert_eq!(tasks, vec![task(1, "a"), task(5, "c")]);
    assert!(!id_in_use(&tasks, 2));
}

#[test]
fn settle_load_replaces_the_list() {
    let mut tasks = three();
    assert_eq!(settle_load(&mut tasks, Ok(vec![task(4, "x")])), Ok(()));
    assert_eq!(tasks, vec![task(4, "x")]);
    assert_eq!(settle_load(&mut tasks, Ok(vec![])), Ok(()));
    assert_eq!(tasks, vec![]);
}

#[test]
fn settle_load_keeps_the_list_on_failure() {
    let mut tasks = three();
    assert_eq!(settle_load(&mut tasks, Err(StoreError::ReadFailed)), Err(StoreError::ReadFailed));
    assert_eq!(tasks, three());
    assert_eq!(
        settle_load(&mut tasks, Ok(vec![task(4, "x"), task(4, "y")])),
        Err(StoreError::ReadFailed)
    );
    assert_eq!(settle_load(&mut tasks, Ok(vec![task(0, "x")])), Err(StoreError::ReadFailed));
    assert_eq!(tasks, three());
}

#[test]
fn id_at_gives_the_id_of_the_task_there() {
    let tasks = three();
    assert_eq!(id_at(&tasks, 0), Some(1));
    assert_eq!(id_at(&tasks, 1), Some(2));
    assert_eq!(id_at(&tasks, 2), Some(5));
    assert_eq!(id_at(&tasks, 3), None);
    assert_eq!(id_at(&tasks, usize::MAX), None);
    assert_eq!(id_at(&vec![], 0), None);
}

#[test]
fn refused_id_is_an_id_that_the_list_cannot_take() {
    let tasks = three();
    assert_eq!(refused_id(&tasks, Ok(2)), Some(2));
    assert_eq!(refused_id(&tasks, Ok(5)), Some(5));
    assert_eq!(refused_id(&tasks, Ok(0)), Some(0));
    assert_eq!(refused_id(&tasks, Ok(3)), None);
    assert_eq!(refused_id(&tasks, Ok(6)), None);
    assert_eq!(refused_id(&tasks, Err(StoreError::WriteFailed)), None);
    assert_eq!(refused_id(&vec![], Ok(1)), None);
}
