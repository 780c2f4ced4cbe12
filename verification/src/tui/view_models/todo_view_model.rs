//! The render-ready model of the task list: rows in view order, a header
//! opening each priority group, and the row index of the selected task.

use crate::tui::app::App;
use crate::tui::order::sort_key;
use crate::tui::views::todo_list::group_boundary;
use crate::tui::views::todo_list::group_count;
use crate::tui::views::todo_list::header_string;
use crate::tui::views::todo_list::header_text;
use crate::tui::views::todo_list::row_pos;
use crate::tui::views::todo_list::Row;
use vstd::prelude::*;

verus! {

/// The rows to draw, and which row is selected (`None` on an empty list).
pub struct TodoListViewModel<'a> {
    pub rows: Vec<Row<'a>>,
    pub selected_index: Option<usize>,
}

impl<'a> TodoListViewModel<'a> {
    /// Builds the rows: the tasks in view order, a header row opening each
    /// priority group, the selected task's row index recorded, and each
    /// task's expansion flag set from the expansion state.
    pub fn from_app(app: &'a App) -> (r: Self)
        requires
            app.wf(),
        ensures
            r.rows@.len() == app.visual_order@.len() + group_count(
                app.tasks(),
                app.visual_order@,
                app.visual_order@.len() as int,
            ),
            forall|j: int|
                #![trigger row_pos(app.tasks(), app.visual_order@, j)]
                0 <= j < app.visual_order@.len() ==> {
                    let p = row_pos(app.tasks(), app.visual_order@, j);
                    &&& 0 <= p < r.rows@.len()
                    &&& (r.rows@[p] matches Row::Todo { item, is_expanded } && *item
                        == app.todos@[app.visual_order@[j] as int] && is_expanded == (app.expanded
                        == Some(app.visual_order@[j])))
                },
            forall|j: int|
                #![trigger row_pos(app.tasks(), app.visual_order@, j)]
                0 <= j < app.visual_order@.len() && group_boundary(
                    app.tasks(),
                    app.visual_order@,
                    j,
                ) ==> 0 <= row_pos(app.tasks(), app.visual_order@, j) - 1 < r.rows@.len() && (
                r.rows@[row_pos(app.tasks(), app.visual_order@, j) - 1] matches Row::Header(h)
                    && h@ == header_text(sort_key(app.tasks()[app.visual_order@[j] as int]))),
            r.selected_index == if app.visual_order@.len() == 0 {
                None::<usize>
            } else {
                Some(row_pos(app.tasks(), app.visual_order@, app.selected as int) as usize)
            },
    {
        let ghost tasks = app.tasks();
        let ghost vo = app.visual_order@;
        let mut rows: Vec<Row<'a>> = Vec::new();
        let mut last_priority: Option<u8> = None;
        let mut selected_index: Option<usize> = None;
        let n = app.visual_order.len();
        let mut j: usize = 0;
        while j < n
            invariant
                j <= n,
                n == vo.len(),
                vo == app.visual_order@,
                tasks == app.tasks(),
                app.wf(),
                rows@.len() == j + group_count(tasks, vo, j as int),
                match last_priority {
                    None => j == 0,
                    Some(lp) => j > 0 && lp as int == sort_key(tasks[vo[j - 1] as int]),
                },
                forall|t: int|
                    #![trigger row_pos(tasks, vo, t)]
                    0 <= t < j ==> {
                        let p = row_pos(tasks, vo, t);
                        &&& 0 <= p < rows@.len()
                        &&& (rows@[p] matches Row::Todo { item, is_expanded } && *item
                            == app.todos@[vo[t] as int] && is_expanded == (app.expanded == Some(
                            vo[t],
                        )))
                    },
                forall|t: int|
                    #![trigger row_pos(tasks, vo, t)]
                    0 <= t < j && group_boundary(tasks, vo, t) ==> 0 <= row_pos(tasks, vo, t) - 1
                        < rows@.len() && (rows@[row_pos(tasks, vo, t) - 1] matches Row::Header(h)
                        && h@ == header_text(sort_key(tasks[vo[t] as int]))),
                selected_index == if j > app.selected {
                    Some(row_pos(tasks, vo, app.selected as int) as usize)
                } else {
                    None::<usize>
                },
            decreases n - j,
        {
            let i = app.visual_order[j];
            proof {
                assert(tasks[i as int] == app.todos@[i as int]@);
            }
            let key = crate::tui::order::priority_key(&app.todos[i]);
            let is_boundary = match last_priority {
                Some(lp) => lp != key,
                None => true,
            };
            proof {
                assert(is_boundary == group_boundary(tasks, vo, j as int));
                assert(group_count(tasks, vo, j as int + 1) == group_count(tasks, vo, j as int)
                    + if group_boundary(tasks, vo, j as int) {
                    1int
                } else {
                    0int
                });
            }
            if is_boundary {
                rows.push(Row::Header(header_string(key)));
            }
            if j == app.selected {
                selected_index = Some(rows.len());
            }
            let is_expanded = match app.expanded {
                Some(e) => e == i,
                None => false,
            };
            rows.push(Row::Todo { item: &app.todos[i], is_expanded });
            last_priority = Some(key);
            j += 1;
            proof {
                assert(rows@[row_pos(tasks, vo, j - 1)] matches Row::Todo { item, is_expanded }
                    && *item == app.todos@[vo[j - 1] as int] && is_expanded == (app.expanded
                    == Some(vo[j - 1])));
                if group_boundary(tasks, vo, j - 1) {
                    assert(rows@[row_pos(tasks, vo, j - 1) - 1] matches Row::Header(h) && h@
                        == header_text(sort_key(tasks[vo[j - 1] as int])));
                }
            }
        }
        TodoListViewModel { rows, selected_index }
    }
}

} // verus!
