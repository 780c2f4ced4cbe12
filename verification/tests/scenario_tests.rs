use todo_tui::commands::list::filter_items;
use todo_tui::storage::TodoItem;
use todo_tui::tui::app::App;
use todo_tui::tui::app::InputMode;
use todo_tui::tui::events::InputEvent;
use todo_tui::tui::events::Key;
use todo_tui::tui::events::match_key_code_for_edit_mode;
use todo_tui::tui::events::match_key_code_for_normal_mode;
use todo_tui::tui::state::edit_buffer::EditBuffer;
use todo_tui::tui::state::field_buffer::FieldBuffer;
use todo_tui::tui::view_models::edit_mode_modal_view_model::EditModeModalViewModel;

fn todo_with(desc: &str, prio: Option<u8>) -> TodoItem {
    TodoItem {
        description: desc.into(),
        priority: prio,
        due: None,
        tags: None,
        notes: None,
        done: false,
    }
}

#[test]
fn removing_the_top_task_reindexes_the_view() {
    // Three tasks with priorities [2, 1, 3] sort as [1, 0, 2].
    let mut app = App::new(vec![
        todo_with("a", Some(2)),
        todo_with("b", Some(1)),
        todo_with("c", Some(3)),
    ]);
    assert_eq!(app.visual_order, vec![1, 0, 2]);

    // Remove the task at visual position 0 (storage index 1).
    app.remove_selected();
    assert_eq!(app.visual_order, vec![0, 1]);
    assert_eq!(app.selected, 0);
    assert_eq!(app.todos.len(), 2);
}

#[test]
fn promoting_an_unprioritized_task_joins_the_defined_group() {
    // All other tasks have priority 2; the selected one has none.
    let mut app = App::new(vec![
        todo_with("a", Some(2)),
        todo_with("b", Some(2)),
        todo_with("c", None),
    ]);
    app.selected = 2; // "c", sorted last

    app.promote_selected();
    let c = app.todos.iter().find(|t| t.description == "c").unwrap();
    assert_eq!(c.priority, Some(2));

    app.promote_selected();
    let c = app.todos.iter().find(|t| t.description == "c").unwrap();
    assert_eq!(c.priority, Some(1));
}

#[test]
fn splitting_a_single_task_yields_two_parts() {
    let mut app = App::new(vec![todo_with("write report", Some(1))]);

    app.split_current();

    assert_eq!(app.todos.len(), 2);
    assert!(app.todos[0].description.ends_with(" - part 1"));
    assert!(app.todos[1].description.ends_with(" - part 2"));
    assert_eq!(app.todos[0].description, "write report - part 1");
    assert_eq!(app.todos[1].description, "write report - part 2");
    assert_eq!(app.todos[1].done, false);
    assert_eq!(app.todos[1].priority, Some(1));
    assert_eq!(app.visual_order.len(), 2);
}

#[test]
fn priority_field_parses_within_the_range() {
    let base = todo_with("t", Some(3));

    // Parsed like a u8, then values past the priority ceiling 98 are
    // silently discarded, like unparseable text.
    let cases: Vec<(&str, Option<u8>)> = vec![
        ("0", Some(0)),
        ("98", Some(98)),
        ("007", Some(7)),
        ("+7", Some(7)),
        (" 12 ", Some(12)),
        ("99", None),
        ("255", None),
        ("256", None),
        ("99999999999999999999", None),
        ("", None),
        ("+", None),
        ("-1", None),
        ("4.5", None),
        ("not-a-number", None),
    ];

    for (text, expected) in cases {
        let mut todo = base.clone();
        let mut buf = EditBuffer::new(&todo);
        buf.fields[1].value = text.chars().collect();
        buf.update_todo(&mut todo);
        assert_eq!(todo.priority, expected, "priority text {:?}", text);
    }
}

#[test]
fn tag_field_splits_trims_and_drops_empty_pieces() {
    let mut todo = todo_with("t", None);
    let mut buf = EditBuffer::new(&todo);
    buf.fields[3].value = " a , ,b,  c d ".chars().collect();
    buf.update_todo(&mut todo);
    assert_eq!(
        todo.tags,
        Some(vec!["a".to_string(), "b".to_string(), "c d".to_string()])
    );

    let mut buf = EditBuffer::new(&todo);
    buf.fields[3].value = "   ".chars().collect();
    buf.update_todo(&mut todo);
    assert_eq!(todo.tags, None);

    // Text of only commas and white space leaves no tags: the empty list
    // normalizes to `None`.
    let mut buf = EditBuffer::new(&todo);
    buf.fields[3].value = ",".chars().collect();
    buf.update_todo(&mut todo);
    assert_eq!(todo.tags, None);

    let mut buf = EditBuffer::new(&todo);
    buf.fields[3].value = " , , ".chars().collect();
    buf.update_todo(&mut todo);
    assert_eq!(todo.tags, None);
}

#[test]
fn due_and_notes_trim_and_empty_means_none() {
    let mut todo = todo_with("t", None);
    let mut buf = EditBuffer::new(&todo);
    buf.fields[2].value = "  2030-01-01  ".chars().collect();
    buf.fields[4].value = "\t".chars().collect();
    buf.update_todo(&mut todo);
    assert_eq!(todo.due, Some("2030-01-01".to_string()));
    assert_eq!(todo.notes, None);
}

#[test]
fn unmodified_session_commit_reproduces_the_task() {
    let todo = TodoItem {
        description: "paint the fence".into(),
        priority: Some(7),
        due: Some("2031-05-06".into()),
        tags: Some(vec!["garden".into(), "home".into()]),
        done: true,
        notes: Some("white".into()),
    };
    let buf = EditBuffer::new(&todo);
    let mut committed = todo.clone();
    buf.update_todo(&mut committed);

    assert_eq!(committed.description, todo.description);
    assert_eq!(committed.priority, todo.priority);
    assert_eq!(committed.due, todo.due);
    assert_eq!(committed.tags, todo.tags);
    assert_eq!(committed.done, todo.done);
    assert_eq!(committed.notes, todo.notes);

    // The one normalization: an empty tag list commits as `None`.
    let empty_tags = TodoItem { tags: Some(vec![]), ..todo.clone() };
    let buf = EditBuffer::new(&empty_tags);
    let mut committed = empty_tags.clone();
    buf.update_todo(&mut committed);
    assert_eq!(committed.tags, None);
}

#[test]
fn field_buffer_accepts_multibyte_text() {
    let mut buf = FieldBuffer::new("日本語".to_string());
    assert_eq!(buf.cursor, 3);
    buf.move_left();
    buf.backspace(); // removes '本'
    assert_eq!(buf.text(), "日語");
    assert_eq!(buf.cursor, 1);
    buf.insert_char('独');
    assert_eq!(buf.text(), "日独語");
    assert_eq!(buf.cursor, 2);
}

#[test]
fn normal_mode_keys_map_to_events() {
    assert_eq!(match_key_code_for_normal_mode(Key::Char('q')), InputEvent::Quit);
    assert_eq!(match_key_code_for_normal_mode(Key::Down), InputEvent::Down);
    assert_eq!(match_key_code_for_normal_mode(Key::Up), InputEvent::Up);
    assert_eq!(match_key_code_for_normal_mode(Key::Enter), InputEvent::ToggleDone);
    assert_eq!(match_key_code_for_normal_mode(Key::Char(' ')), InputEvent::ToggleExpand);
    assert_eq!(match_key_code_for_normal_mode(Key::Char('e')), InputEvent::EnableEditing);
    assert_eq!(match_key_code_for_normal_mode(Key::Esc), InputEvent::DisableEditing);
    assert_eq!(match_key_code_for_normal_mode(Key::Backspace), InputEvent::Backspace);
    assert_eq!(match_key_code_for_normal_mode(Key::Char('p')), InputEvent::PromotePriority);
    assert_eq!(match_key_code_for_normal_mode(Key::Char('l')), InputEvent::DemotePriority);
    assert_eq!(match_key_code_for_normal_mode(Key::Char('b')), InputEvent::TodoSplit);
    assert_eq!(match_key_code_for_normal_mode(Key::Char('x')), InputEvent::Idle);
}

#[test]
fn edit_mode_keys_map_to_events() {
    assert_eq!(match_key_code_for_edit_mode(Key::Char('q')), InputEvent::Char('q'));
    assert_eq!(match_key_code_for_edit_mode(Key::Esc), InputEvent::DisableEditing);
    assert_eq!(match_key_code_for_edit_mode(Key::Backspace), InputEvent::Backspace);
    assert_eq!(match_key_code_for_edit_mode(Key::Enter), InputEvent::ToggleDone);
    assert_eq!(match_key_code_for_edit_mode(Key::Other), InputEvent::Idle);
}

#[test]
fn handle_event_runs_the_dispatch_table() {
    let mut app = App::new(vec![todo_with("a", Some(1)), todo_with("b", Some(2))]);

    let r = app.handle_event(InputEvent::Down);
    assert!(!r.quit && !r.save);
    assert_eq!(app.selected, 1);

    let r = app.handle_event(InputEvent::ToggleDone);
    assert!(!r.quit && r.save);
    assert_eq!(app.todos[1].done, true);

    let r = app.handle_event(InputEvent::EnableEditing);
    assert!(!r.quit && !r.save);
    assert_eq!(app.mode, InputMode::Editing);

    let r = app.handle_event(InputEvent::Char('!'));
    assert!(!r.quit && !r.save);
    assert_eq!(
        app.edit_buffer.as_ref().unwrap().fields[0].text(),
        "b!"
    );

    let r = app.handle_event(InputEvent::DisableEditing);
    assert!(!r.quit && r.save);
    assert_eq!(app.mode, InputMode::Normal);
    assert_eq!(app.todos[1].description, "b!");

    let r = app.handle_event(InputEvent::Quit);
    assert!(r.quit && r.save);
}

#[test]
fn filter_items_applies_all_filters() {
    let items = vec![
        TodoItem {
            description: "done chore".into(),
            priority: Some(1),
            due: Some("2030-01-01".into()),
            tags: Some(vec!["home".into()]),
            done: true,
            notes: None,
        },
        TodoItem {
            description: "open chore".into(),
            priority: Some(1),
            due: Some("2030-01-01".into()),
            tags: Some(vec!["home".into(), "urgent".into()]),
            done: false,
            notes: None,
        },
        TodoItem {
            description: "other".into(),
            priority: Some(2),
            due: None,
            tags: None,
            done: false,
            notes: None,
        },
    ];

    // Without `all`, done tasks are hidden.
    assert_eq!(filter_items(&items, false, None, &None, &None), vec![1, 2]);
    // With `all`, everything shows.
    assert_eq!(filter_items(&items, true, None, &None, &None), vec![0, 1, 2]);
    // Priority filter.
    assert_eq!(filter_items(&items, true, Some(2), &None, &None), vec![2]);
    // Tag filter.
    assert_eq!(
        filter_items(&items, true, None, &Some("urgent".to_string()), &None),
        vec![1]
    );
    // Due filter.
    assert_eq!(
        filter_items(&items, false, None, &None, &Some("2030-01-01".to_string())),
        vec![1]
    );
}

#[test]
fn modal_view_model_renders_the_live_session() {
    let mut app = App::new(vec![TodoItem {
        description: "fix bike".into(),
        priority: Some(4),
        due: Some("2030-02-03".into()),
        tags: Some(vec!["errand".into(), "outside".into()]),
        done: false,
        notes: None,
    }]);
    app.toggle_mode();

    let vm = EditModeModalViewModel::from_app(&app);
    assert_eq!(vm.fields.len(), 5);
    assert_eq!(vm.selected_index, 0);
    assert_eq!(vm.done, false);
    assert_eq!(vm.fields[0].title, "Description");
    assert_eq!(vm.fields[0].value, "fix bike");
    assert!(vm.fields[0].selected);
    assert_eq!(vm.fields[1].title, "Priority");
    assert_eq!(vm.fields[1].value, "4");
    assert_eq!(vm.fields[2].value, "2030-02-03");
    assert_eq!(vm.fields[3].value, "errand, outside");
    assert_eq!(vm.fields[4].value, "");
    assert_eq!(vm.fields[3].character_index, "errand, outside".chars().count());

    // In-progress keystrokes display: the modal shows the session's current
    // text and cursor, not the stored task.
    app.left();
    app.edit_insert('!');
    let vm = EditModeModalViewModel::from_app(&app);
    assert_eq!(vm.fields[0].value, "fix bik!e");
    assert_eq!(vm.fields[0].character_index, "fix bik!".chars().count());
    assert_eq!(app.todos[0].description, "fix bike");
}

#[test]
fn modal_shows_an_empty_priority_field_when_unset() {
    let mut app = App::new(vec![todo_with("t", None)]);
    app.toggle_mode();
    let vm = EditModeModalViewModel::from_app(&app);
    assert_eq!(vm.fields[1].value, "");
    assert_eq!(vm.fields[1].character_index, 0);
}

#[test]
fn input_new_puts_the_cursor_at_the_text_end() {
    let input = todo_tui::tui::view_models::edit_mode_modal_view_model::Input::new(
        &"Notes".to_string(),
        &"日本語".to_string(),
        true,
    );
    assert_eq!(input.title, "Notes");
    assert_eq!(input.value, "日本語");
    assert_eq!(input.character_index, 3);
    assert!(input.selected);
}

#[test]
fn create_part_two_copies_and_clears_done() {
    let todo = TodoItem {
        description: "base".into(),
        priority: Some(5),
        due: Some("2032-01-01".into()),
        tags: Some(vec!["x".into()]),
        done: true,
        notes: Some("n".into()),
    };
    let part2 = TodoItem::create_part_two(todo.clone());
    assert_eq!(part2.description, "base - part 2");
    assert_eq!(part2.priority, Some(5));
    assert_eq!(part2.due, todo.due);
    assert_eq!(part2.tags, todo.tags);
    assert_eq!(part2.notes, todo.notes);
    assert_eq!(part2.done, false);
}

#[test]
fn new_sorts_stably_and_navigation_stays_in_bounds() {
    // Equal keys keep storage order (stable sort).
    let app = App::new(vec![
        todo_with("a", Some(1)),
        todo_with("b", Some(1)),
        todo_with("c", Some(0)),
        todo_with("d", None),
    ]);
    assert_eq!(app.visual_order, vec![2, 0, 1, 3]);

    // Navigation never leaves [0, len).
    let mut app = app;
    for _ in 0..10 {
        app.next();
        assert!(app.selected < app.visual_order.len());
    }
    assert_eq!(app.selected, 3);
    for _ in 0..10 {
        app.previous();
        assert!(app.selected < app.visual_order.len());
    }
    assert_eq!(app.selected, 0);

    // On an empty list the selection stays 0.
    let mut empty = App::new(vec![]);
    empty.next();
    empty.previous();
    assert_eq!(empty.selected, 0);
}
