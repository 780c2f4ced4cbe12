use todo_tui::storage::TodoItem;
use todo_tui::tui::state::edit_buffer::EditBuffer;

fn sample_todo() -> TodoItem {
    TodoItem {
        description: "old desc".into(),
        priority: Some(2),
        due: Some("2030-01-01".into()),
        tags: Some(vec!["foo".into(), "bar".into()]),
        done: false,
        notes: Some("old note".into()),
    }
}

#[test]
fn new_populates_fields_and_cursors() {
    let todo = sample_todo();
    let buffer = EditBuffer::new(&todo);

    assert_eq!(buffer.fields[0].text(), "old desc");
    assert_eq!(buffer.fields[1].text(), "2");
    assert_eq!(buffer.fields[2].text(), "2030-01-01");
    assert_eq!(buffer.fields[3].text(), "foo, bar");
    assert_eq!(buffer.fields[4].text(), "old note");

    assert_eq!(buffer.fields[0].cursor, "old desc".chars().count());
    assert_eq!(buffer.fields[3].cursor, "foo, bar".chars().count());

    assert_eq!(buffer.selected_field, 0);
    assert!(!buffer.done);
}

#[test]
fn current_field_mut_returns_selected_field() {
    let todo = sample_todo();
    let mut buf = EditBuffer::new(&todo);

    buf.selected_field = 2; // Due-date field
    buf.current_field_mut().value.push('X'); // mutate through helper
    assert_eq!(buf.fields[2].text(), "2030-01-01X");
}

#[test]
fn update_todo_writes_back_and_parses_correctly() {
    let mut todo = sample_todo();
    let mut buf = EditBuffer::new(&todo);

    buf.fields[0].value = "new desc".chars().collect();
    buf.fields[1].value = "5".chars().collect();
    buf.fields[2].value = "".chars().collect();
    buf.fields[3].value = "baz, qux".chars().collect();
    buf.fields[4].value = "new note".chars().collect();

    buf.update_todo(&mut todo);

    assert_eq!(todo.description, "new desc");
    assert_eq!(todo.priority, Some(5));
    assert_eq!(todo.due, None);
    assert_eq!(todo.tags, Some(vec!["baz".to_string(), "qux".to_string()]));
    assert_eq!(todo.notes, Some("new note".to_string()));
}

#[test]
fn invalid_priority_becomes_none() {
    // Edge-case: invalid priority keeps None rather than panicking
    let mut todo = sample_todo();
    let mut buf = EditBuffer::new(&todo);

    buf.fields[1].value = "not-a-number".chars().collect();
    buf.update_todo(&mut todo);

    assert_eq!(todo.priority, None);
}
