use todo_tui::storage::TodoItem;
use todo_tui::tui::app::App;
use todo_tui::tui::app::InputMode;
use todo_tui::tui::view_models::todo_view_model::TodoListViewModel;
use todo_tui::tui::views::todo_list::Row;

fn make_todo(description: &str, priority: Option<u8>, done: bool, expanded: bool) -> (TodoItem, bool) {
    (
        TodoItem {
            description: description.to_string(),
            priority,
            due: None,
            tags: None,
            done,
            notes: None,
        },
        expanded,
    )
}

#[test]
fn builds_rows_with_headers_and_selection_correctly() {
    let todos = vec![
        make_todo("first", Some(1), false, false),
        make_todo("second", Some(1), true, true),
        make_todo("third", Some(2), false, false),
        make_todo("no-priority", None, false, false),
    ]
    .into_iter()
    .map(|(todo, _)| todo)
    .collect::<Vec<_>>();

    let app = App {
        todos,
        visual_order: vec![0, 1, 2, 3],
        selected: 1, // select the second task
        expanded: Some(1),
        mode: InputMode::Normal,
        edit_buffer: None,
    };

    let vm = TodoListViewModel::from_app(&app);

    let headers = vm
        .rows
        .iter()
        .filter_map(|row| {
            if let Row::Header(h) = row {
                Some(h.as_str())
            } else {
                None
            }
        })
        .collect::<Vec<_>>();

    assert_eq!(headers, vec!["Priority 1", "Priority 2", "Priority None"]);
    assert_eq!(vm.rows.len(), 7); // 3 headers and 4 todos
    assert_eq!(vm.selected_index, Some(2)); // header, 1st task, second task
}

#[test]
fn marks_expanded_flag_correctly() {
    let todos = vec![
        make_todo("one", Some(1), false, false),
        make_todo("two", Some(2), false, true),
    ]
    .into_iter()
    .map(|(todo, _)| todo)
    .collect::<Vec<_>>();

    let app = App {
        todos,
        visual_order: vec![0, 1],
        selected: 0,
        expanded: Some(1),
        mode: InputMode::Normal,
        edit_buffer: None,
    };

    let vm = TodoListViewModel::from_app(&app);

    // get a list of is_expanded
    let flags = vm
        .rows
        .iter()
        .filter_map(|row| {
            if let Row::Todo { is_expanded, .. } = row {
                Some(*is_expanded)
            } else {
                None
            }
        })
        .collect::<Vec<_>>();

    // only the second one should be expanded
    assert_eq!(flags, vec![false, true]);
}

#[test]
fn handles_empty_state() {
    let app = App {
        todos: vec![],
        visual_order: vec![],
        selected: 0,
        expanded: None,
        mode: InputMode::Normal,
        edit_buffer: None,
    };

    let vm = TodoListViewModel::from_app(&app);

    assert!(vm.rows.is_empty());
    assert_eq!(vm.selected_index, None);
}
