use task_tracker::field::Field;

const ALL: [Field; 7] = [
    Field::Name,
    Field::Description,
    Field::Deadline,
    Field::Status,
    Field::Priority,
    Field::CreatorId,
    Field::ExecutorId,
];

#[test]
fn column_names() {
    assert_eq!(Field::Name.column_name(), "name");
    assert_eq!(Field::Description.column_name(), "description");
    assert_eq!(Field::Deadline.column_name(), "deadline");
    assert_eq!(Field::Status.column_name(), "status");
    assert_eq!(Field::Priority.column_name(), "priority");
    assert_eq!(Field::CreatorId.column_name(), "creator_id");
    assert_eq!(Field::ExecutorId.column_name(), "executor_id");
}

#[test]
fn every_field_is_found_under_its_name() {
    for field in ALL {
        assert_eq!(Field::from_name(field.column_name()), Some(field));
    }
}

#[test]
fn other_names_are_no_field() {
    for name in ["", "id", "Name", "name ", "status; DROP TABLE tasks", "name = 'x', status", "creator", "*"] {
        assert_eq!(Field::from_name(name), None);
    }
}

#[test]
fn update_statements_are_fixed() {
    assert_eq!(Field::Name.update_statement(), "UPDATE tasks SET name = ?1 WHERE id = ?2");
    assert_eq!(
        Field::ExecutorId.update_statement(),
        "UPDATE tasks SET executor_id = ?1 WHERE id = ?2"
    );
    for field in ALL {
        let expected = format!("UPDATE tasks SET {} = ?1 WHERE id = ?2", field.column_name());
        assert_eq!(field.update_statement(), expected);
    }
}
