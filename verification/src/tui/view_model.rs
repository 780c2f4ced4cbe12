//! The task-list view model under its older path; it builds the same rows
//! as `view_models::todo_view_model`.

use crate::tui::app::App;
use crate::tui::ui::Row;
use crate::tui::views::todo_list::group_boundary;
use crate::tui::views::todo_list::group_count;
use crate::tui::views::todo_list::header_text;
use crate::tui::views::todo_list::row_pos;
use crate::tui::order::sort_key;
use vstd::prelude::*;

verus! {

/// The rows to draw, and which row is selected (`None` on an empty list).
pub struct TodoListViewModel<'a> {
    pub rows: Vec<Row<'a>>,
    pub selected_index: Option<usize>,
}

impl<'a> TodoListViewModel<'a> {
    /// Builds the rows: the tasks in view order, a header row opening each
    /// priority group, the selected task's row index recorded, and each
    /// task's expansion flag set from the expansion state.
    pub fn from_app(app: &'a App) -> (r: Self)
        requires
            app.wf(),
        ensures
            r.rows@.len() == app.visual_order@.len() + group_count(
                app.tasks(),
                app.visual_order@,
                app.visual_order@.len() as int,
            ),
            forall|j: int|
                #![trigger row_pos(app.tasks(), app.visual_order@, j)]
                0 <= j < app.visual_order@.len() ==> {
                    let p = row_pos(app.tasks(), app.visual_order@, j);
                    &&& 0 <= p < r.rows@.len()
                    &&& (r.rows@[p] matches Row::Todo { item, is_expanded } && *item
                        == app.todos@[app.visual_order@[j] as int] && is_expanded == (app.expanded
                        == Some(app.visual_order@[j])))
                },
            forall|j: int|
                #![trigger row_pos(app.tasks(), app.visual_order@, j)]
                0 <= j < app.visual_order@.len() && group_boundary(
                    app.tasks(),
                    app.visual_order@,
                    j,
                ) ==> 0 <= row_pos(app.tasks(), app.visual_order@, j) - 1 < r.rows@.len() && (
                r.rows@[row_pos(app.tasks(), app.visual_order@, j) - 1] matches Row::Header(h)
                    && h@ == header_text(sort_key(app.tasks()[app.visual_order@[j] as int]))),
            r.selected_index == if app.visual_order@.len() == 0 {
                None::<usize>
            } else {
                Some(row_pos(app.tasks(), app.visual_order@, app.selected as int) as usize)
            },
    {
        let vm = crate::tui::view_models::todo_view_model::TodoListViewModel::from_app(app);
        TodoListViewModel { rows: vm.rows, selected_index: vm.selected_index }
    }
}

} // verus!
