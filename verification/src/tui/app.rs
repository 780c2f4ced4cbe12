//! The top-level editor state machine: the task list, its priority-sorted
//! view order, the selection, the expansion state, and the mode with its
//! optional edit session.

use crate::storage::TaskModel;
use crate::storage::TodoItem;
use crate::tui::order::compute_visual_order;
use crate::tui::order::last_defined_priority;
use crate::tui::order::lemma_order_wf_same_keys;
use crate::tui::order::lemma_view_order_distinct;
use crate::tui::order::lemma_view_order_remove;
use crate::tui::order::lemma_view_order_unique;
use crate::tui::order::position_of;
use crate::tui::order::shift_entry;
use crate::tui::order::view_order_wf;
use crate::tui::state::edit_buffer::commit_model;
use crate::tui::state::edit_buffer::renders;
use crate::tui::state::edit_buffer::EditBuffer;
use crate::tui::events::EventOutcome;
use crate::tui::events::InputEvent;
use vstd::prelude::*;
use vstd::string::StringExecFns;

verus! {

/// Whether input navigates the list or edits the active session.
#[derive(PartialEq, Eq, Structural, Debug)]
pub enum InputMode {
    Normal,
    Editing,
}

/// The editor state. `visual_order` is always the priority-sorted
/// permutation of the task storage indices; `selected` points into it.
pub struct App {
    pub todos: Vec<TodoItem>,
    pub visual_order: Vec<usize>,
    pub selected: usize,
    pub expanded: Option<usize>,
    pub mode: InputMode,
    pub edit_buffer: Option<EditBuffer>,
}

/// The priority a promotion gives the selected task: one step up (down in
/// number) with floor 0; a task without a priority joins at the lowest
/// priority currently defined in the view (the fallback).
pub open spec fn promoted_priority(p: Option<u8>, fallback: Option<u8>) -> Option<u8> {
    match p {
        Some(v) => if v > 0 {
            Some((v - 1) as u8)
        } else {
            Some(0u8)
        },
        None => fallback,
    }
}

/// The priority a demotion gives the selected task: one step down (up in
/// number); at 98 or above the priority is cleared to `None`.
pub open spec fn demoted_priority(p: Option<u8>) -> Option<u8> {
    match p {
        Some(v) => if v < 98 {
            Some((v + 1) as u8)
        } else {
            None
        },
        None => None,
    }
}

impl App {
    /// The models of the stored tasks.
    pub open spec fn tasks(self) -> Seq<TaskModel> {
        self.todos.deep_view()
    }

    /// The storage index of the task at the selected view position.
    pub open spec fn sel_index(self) -> usize {
        self.visual_order@[self.selected as int]
    }

    /// The state invariant: the view order is the priority-sorted
    /// permutation of the storage indices, the selection is in view bounds
    /// (0 on an empty view), and Editing mode always has a session.
    pub open spec fn wf(self) -> bool {
        &&& view_order_wf(self.visual_order@, self.tasks())
        &&& self.visual_order@.len() == 0 ==> self.selected == 0
        &&& self.visual_order@.len() > 0 ==> self.selected < self.visual_order@.len()
        &&& self.mode is Editing ==> self.edit_buffer is Some
        &&& self.edit_buffer matches Some(eb) ==> eb.wf()
    }

    /// A fresh editor over `todos`: Normal mode, the view order computed,
    /// selection at the top, nothing expanded, no session.
    pub fn new(todos: Vec<TodoItem>) -> (r: App)
        ensures
            r.wf(),
            r.tasks() == todos.deep_view(),
            r.selected == 0,
            r.expanded is None,
            r.mode is Normal,
            r.edit_buffer is None,
    {
        let visual_order = compute_visual_order(&todos);
        App {
            todos,
            visual_order,
            selected: 0,
            expanded: None,
            mode: InputMode::Normal,
            edit_buffer: None,
        }
    }

    /// In Normal mode, moves the selection one view position down, stopping
    /// at the last; in Editing mode, advances to the next field, resetting
    /// the left field's cursor to its end.
    pub fn next(&mut self)
        requires
            old(self).wf(),
        ensures
            final(self).wf(),
            final(self).todos == old(self).todos,
            final(self).visual_order == old(self).visual_order,
            final(self).expanded == old(self).expanded,
            final(self).mode == old(self).mode,
            old(self).mode is Normal ==> final(self).edit_buffer == old(self).edit_buffer
                && final(self).selected as int == if old(self).selected + 1 < old(self).visual_order@.len() {
                old(self).selected + 1
            } else {
                old(self).selected as int
            },
            old(self).mode is Editing ==> final(self).selected == old(self).selected && (old(self).edit_buffer matches Some(ob) ==> final(self).edit_buffer matches Some(nb)
                && field_step(ob, nb, true)),
    {
        match self.mode {
            InputMode::Normal => {
                if self.selected + 1 < self.visual_order.len() {
                    self.selected = self.selected + 1;
                }
            },
            InputMode::Editing => {
                match &mut self.edit_buffer {
                    Some(buf) => {
                        if buf.selected_field + 1 < 5 {
                            let i = buf.selected_field;
                            let f = &mut buf.fields[i];
                            f.reset_cursor();
                            buf.selected_field = i + 1;
                        }
                    },
                    None => {},
                }
            },
        }
    }

    /// In Normal mode, moves the selection one view position up, stopping at
    /// the first; in Editing mode, retreats to the previous field, resetting
    /// the left field's cursor to its end.
    pub fn previous(&mut self)
        requires
            old(self).wf(),
        ensures
            final(self).wf(),
            final(self).todos == old(self).todos,
            final(self).visual_order == old(self).visual_order,
            final(self).expanded == old(self).expanded,
            final(self).mode == old(self).mode,
            old(self).mode is Normal ==> final(self).edit_buffer == old(self).edit_buffer
                && final(self).selected as int == if old(self).selected > 0 {
                old(self).selected - 1
            } else {
                0int
            },
            old(self).mode is Editing ==> final(self).selected == old(self).selected && (old(self).edit_buffer matches Some(ob) ==> final(self).edit_buffer matches Some(nb)
                && field_step(ob, nb, false)),
    {
        match self.mode {
            InputMode::Normal => {
                if self.selected > 0 {
                    self.selected = self.selected - 1;
                }
            },
            InputMode::Editing => {
                match &mut self.edit_buffer {
                    Some(buf) => {
                        if buf.selected_field > 0 {
                            let i = buf.selected_field;
                            let f = &mut buf.fields[i];
                            f.reset_cursor();
                            buf.selected_field = i - 1;
                        }
                    },
                    None => {},
                }
            },
        }
    }

    /// Moves the cursor of the current field one character left.
    pub fn left(&mut self)
        requires
            old(self).wf(),
        ensures
            final(self).wf(),
            state_but_buffer_unchanged(*old(self), *final(self)),
            old(self).edit_buffer is None ==> final(self).edit_buffer is None,
            old(self).edit_buffer matches Some(ob) ==> final(self).edit_buffer matches Some(nb)
                && cursor_moved(ob, nb, false),
    {
        match &mut self.edit_buffer {
            Some(buf) => {
                let f = buf.current_field_mut();
                f.move_left();
            },
            None => {},
        }
    }

    /// Moves the cursor of the current field one character right.
    pub fn right(&mut self)
        requires
            old(self).wf(),
        ensures
            final(self).wf(),
            state_but_buffer_unchanged(*old(self), *final(self)),
            old(self).edit_buffer is None ==> final(self).edit_buffer is None,
            old(self).edit_buffer matches Some(ob) ==> final(self).edit_buffer matches Some(nb)
                && cursor_moved(ob, nb, true),
    {
        match &mut self.edit_buffer {
            Some(buf) => {
                let f = buf.current_field_mut();
                f.move_right();
            },
            None => {},
        }
    }

    /// Inserts `ch` into the current field at its cursor.
    pub fn edit_insert(&mut self, ch: char)
        requires
            old(self).wf(),
        ensures
            final(self).wf(),
            state_but_buffer_unchanged(*old(self), *final(self)),
            old(self).edit_buffer is None ==> final(self).edit_buffer is None,
            old(self).edit_buffer matches Some(ob) ==> final(self).edit_buffer matches Some(nb)
                && buffer_same_but_field(ob, nb) && ({
                let of = ob.fields@[ob.selected_field as int];
                let nf = nb.fields@[ob.selected_field as int];
                nf.value@ == of.value@.insert(of.cursor as int, ch) && nf.cursor == of.cursor + 1
            }),
    {
        match &mut self.edit_buffer {
            Some(buf) => {
                let f = buf.current_field_mut();
                f.insert_char(ch);
            },
            None => {},
        }
    }

    /// Removes the character before the cursor of the current field; does
    /// nothing with the cursor at the field's start.
    pub fn edit_backspace(&mut self)
        requires
            old(self).wf(),
        ensures
            final(self).wf(),
            state_but_buffer_unchanged(*old(self), *final(self)),
            old(self).edit_buffer is None ==> final(self).edit_buffer is None,
            old(self).edit_buffer matches Some(ob) ==> final(self).edit_buffer matches Some(nb)
                && buffer_same_but_field(ob, nb) && ({
                let of = ob.fields@[ob.selected_field as int];
                let nf = nb.fields@[ob.selected_field as int];
                if of.cursor == 0 {
                    nf == of
                } else {
                    nf.value@ == of.value@.remove(of.cursor - 1) && nf.cursor == of.cursor - 1
                }
            }),
    {
        match &mut self.edit_buffer {
            Some(buf) => {
                let f = buf.current_field_mut();
                f.backspace();
            },
            None => {},
        }
    }

    /// Flips `done` on the task at the selected view position; the view
    /// order does not change. No-op on an empty list.
    pub fn toggle_done(&mut self)
        requires
            old(self).wf(),
        ensures
            final(self).wf(),
            final(self).visual_order == old(self).visual_order,
            final(self).selected == old(self).selected,
            final(self).expanded == old(self).expanded,
            final(self).mode == old(self).mode,
            final(self).edit_buffer == old(self).edit_buffer,
            old(self).visual_order@.len() == 0 ==> final(self).todos == old(self).todos,
            old(self).visual_order@.len() > 0 ==> final(self).tasks() == old(self).tasks().update(
                old(self).sel_index() as int,
                TaskModel {
                    done: !old(self).tasks()[old(self).sel_index() as int].done,
                    ..old(self).tasks()[old(self).sel_index() as int]
                },
            ),
    {
        if self.selected < self.visual_order.len() {
            let actual_index = self.visual_order[self.selected];
            let ghost oldtasks = self.tasks();
            let t = &mut self.todos[actual_index];
            t.done = !t.done;
            proof {
                assert(self.tasks() =~~= oldtasks.update(
                    actual_index as int,
                    TaskModel {
                        done: !oldtasks[actual_index as int].done,
                        ..oldtasks[actual_index as int]
                    },
                ));
                lemma_order_wf_same_keys(self.visual_order@, oldtasks, self.tasks());
            }
        }
    }

    /// Expands the selected task, or collapses it if it is the expanded one.
    /// No-op on an empty list.
    pub fn toggle_expanded(&mut self)
        requires
            old(self).wf(),
        ensures
            final(self).wf(),
            final(self).todos == old(self).todos,
            final(self).visual_order == old(self).visual_order,
            final(self).selected == old(self).selected,
            final(self).mode == old(self).mode,
            final(self).edit_buffer == old(self).edit_buffer,
            old(self).visual_order@.len() == 0 ==> final(self).expanded == old(self).expanded,
            old(self).visual_order@.len() > 0 ==> final(self).expanded == (if old(self).expanded
                == Some(old(self).sel_index()) {
                None::<usize>
            } else {
                Some(old(self).sel_index())
            }),
    {
        if self.selected < self.visual_order.len() {
            let actual_index = self.visual_order[self.selected];
            let collapse = match self.expanded {
                Some(e) => e == actual_index,
                None => false,
            };
            if collapse {
                self.expanded = None;
            } else {
                self.expanded = Some(actual_index);
            }
        }
    }

    /// Enters Editing mode with a fresh session over the selected task, or
    /// leaves Editing mode committing the session back onto it (the view
    /// order is recomputed and the selection follows the edited task).
    pub fn toggle_mode(&mut self)
        requires
            old(self).wf(),
            old(self).mode is Normal ==> old(self).visual_order@.len() > 0,
        ensures
            final(self).wf(),
            final(self).expanded == old(self).expanded,
            old(self).mode is Normal ==> {
                &&& final(self).mode is Editing
                &&& final(self).todos == old(self).todos
                &&& final(self).visual_order == old(self).visual_order
                &&& final(self).selected == old(self).selected
                &&& final(self).edit_buffer matches Some(nb) && renders(
                    nb,
                    old(self).tasks()[old(self).sel_index() as int],
                )
            },
            old(self).mode is Editing ==> {
                &&& final(self).mode is Normal
                &&& final(self).edit_buffer is None
                &&& (old(self).visual_order@.len() == 0 ==> final(self).todos == old(self).todos
                    && final(self).visual_order == old(self).visual_order && final(self).selected
                    == old(self).selected)
                &&& (old(self).visual_order@.len() > 0 ==> (old(self).edit_buffer matches Some(
                    ob,
                ) ==> {
                    let idx = old(self).sel_index();
                    &&& final(self).tasks() == old(self).tasks().update(
                        idx as int,
                        commit_model(ob, old(self).tasks()[idx as int]),
                    )
                    &&& final(self).visual_order@.len() > 0
                    &&& final(self).sel_index() == idx
                }))
            },
    {
        match self.mode {
            InputMode::Normal => {
                let idx = self.visual_order[self.selected];
                let buf = EditBuffer::new(&self.todos[idx]);
                self.edit_buffer = Some(buf);
                self.mode = InputMode::Editing;
            },
            InputMode::Editing => {
                self.mode = InputMode::Normal;
                self.commit_edit();
                self.edit_buffer = None;
            },
        }
    }

    /// Commits the active session (if any) into the selected task and
    /// recomputes the view order, the selection following the edited task.
    fn commit_edit(&mut self)
        requires
            old(self).wf(),
        ensures
            final(self).wf(),
            final(self).mode == old(self).mode,
            final(self).expanded == old(self).expanded,
            final(self).edit_buffer == old(self).edit_buffer,
            old(self).edit_buffer is None || old(self).visual_order@.len() == 0 ==> final(self).todos == old(self).todos && final(self).visual_order == old(self).visual_order
                && final(self).selected == old(self).selected,
            old(self).visual_order@.len() > 0 ==> (old(self).edit_buffer matches Some(ob) ==> {
                let idx = old(self).sel_index();
                &&& final(self).tasks() == old(self).tasks().update(
                    idx as int,
                    commit_model(ob, old(self).tasks()[idx as int]),
                )
                &&& final(self).visual_order@.len() > 0
                &&& final(self).sel_index() == idx
            }),
    {
        let ghost oldtasks = self.tasks();
        match &self.edit_buffer {
            Some(buf) => {
                if self.selected < self.visual_order.len() {
                    let idx = self.visual_order[self.selected];
                    buf.update_todo(&mut self.todos[idx]);
                    proof {
                        assert(self.tasks() =~~= oldtasks.update(
                            idx as int,
                            commit_model(*buf, oldtasks[idx as int]),
                        ));
                    }
                    self.recompute_visual_order(idx);
                }
            },
            None => {},
        }
    }

    /// Recomputes the view order and re-points the selection at the task
    /// with storage index `edited_idx`.
    fn recompute_visual_order(&mut self, edited_idx: usize)
        requires
            edited_idx < old(self).todos@.len(),
        ensures
            final(self).todos == old(self).todos,
            final(self).mode == old(self).mode,
            final(self).expanded == old(self).expanded,
            final(self).edit_buffer == old(self).edit_buffer,
            view_order_wf(final(self).visual_order@, final(self).tasks()),
            final(self).visual_order@.len() == old(self).todos@.len(),
            final(self).selected < final(self).visual_order@.len(),
            final(self).sel_index() == edited_idx,
    {
        let vo = compute_visual_order(&self.todos);
        proof {
            assert(self.tasks().len() == self.todos@.len());
            assert(vo@.contains((edited_idx as int) as usize));
        }
        let pos = position_of(&vo, edited_idx);
        self.visual_order = vo;
        self.selected = pos;
    }

    /// Deletes the task at the selected view position: the task leaves
    /// storage, storage indices above it shift down by one, and the
    /// selection moves one view position up (clamped at the top). No-op on
    /// an empty list.
    pub fn remove_selected(&mut self)
        requires
            old(self).wf(),
        ensures
            final(self).wf(),
            final(self).mode == old(self).mode,
            final(self).expanded == old(self).expanded,
            final(self).edit_buffer == old(self).edit_buffer,
            old(self).visual_order@.len() == 0 ==> final(self).todos == old(self).todos && final(self).visual_order == old(self).visual_order && final(self).selected == old(self).selected,
            old(self).visual_order@.len() > 0 ==> {
                &&& final(self).tasks() == old(self).tasks().remove(old(self).sel_index() as int)
                &&& final(self).visual_order@.len() == old(self).visual_order@.len() - 1
                &&& final(self).selected as int == if old(self).selected > 0 {
                    old(self).selected - 1
                } else {
                    0int
                }
            },
    {
        if self.selected < self.visual_order.len() {
            let ghost oldtasks = self.tasks();
            let ghost oldvo = self.visual_order@;
            let ghost s = self.selected as int;
            let idx = self.visual_order[self.selected];
            self.todos.remove(idx);
            self.visual_order.remove(self.selected);
            proof {
                assert(self.tasks() =~= oldtasks.remove(idx as int));
            }
            let ghost midtodos = self.todos;
            let ghost olde = self.expanded;
            let ghost oldm = self.mode;
            let ghost oldb = self.edit_buffer;
            let ghost oldsel = self.selected;
            let n = self.visual_order.len();
            let mut i: usize = 0;
            while i < n
                invariant
                    i <= n,
                    n == self.visual_order@.len(),
                    n == oldvo.remove(s).len(),
                    0 <= s < oldvo.len(),
                    idx == oldvo[s],
                    self.todos == midtodos,
                    self.tasks() == oldtasks.remove(idx as int),
                    self.expanded == olde,
                    self.mode == oldm,
                    self.edit_buffer == oldb,
                    self.selected == oldsel,
                    forall|j: int|
                        0 <= j < i ==> #[trigger] self.visual_order@[j] == shift_entry(
                            oldvo.remove(s)[j],
                            idx,
                        ),
                    forall|j: int|
                        i <= j < n ==> #[trigger] self.visual_order@[j] == oldvo.remove(s)[j],
                decreases n - i,
            {
                let v = self.visual_order[i];
                if v > idx {
                    self.visual_order[i] = v - 1;
                }
                i += 1;
            }
            self.selected = if self.selected > 0 {
                self.selected - 1
            } else {
                0
            };
            proof {
                lemma_view_order_remove(oldvo, oldtasks, s, self.visual_order@);
            }
        }
    }

    /// Raises the selected task's priority by one step (a smaller number),
    /// floor 0; a task without a priority takes the lowest priority defined
    /// in the view. The view order is recomputed and the selection follows
    /// the task. Raising a priority-0 task changes nothing.
    pub fn promote_selected(&mut self)
        requires
            old(self).wf(),
            old(self).visual_order@.len() > 0,
        ensures
            final(self).wf(),
            final(self).mode == old(self).mode,
            final(self).expanded == old(self).expanded,
            final(self).edit_buffer == old(self).edit_buffer,
            ({
                let idx = old(self).sel_index();
                let t = old(self).tasks()[idx as int];
                let newp = promoted_priority(
                    t.priority,
                    last_defined_priority(old(self).tasks(), old(self).visual_order@),
                );
                &&& final(self).tasks() == old(self).tasks().update(
                    idx as int,
                    TaskModel { priority: newp, ..t },
                )
                &&& final(self).visual_order@.len() == old(self).visual_order@.len()
                &&& final(self).sel_index() == idx
                &&& (newp == t.priority ==> final(self).tasks() == old(self).tasks() && final(self).visual_order@ == old(self).visual_order@ && final(self).selected == old(self).selected)
            }),
    {
        let idx = self.visual_order[self.selected];
        let ghost oldtasks = self.tasks();
        let ghost oldvo = self.visual_order@;
        let ghost oldsel = self.selected;
        let cur = self.todos[idx].priority;
        let new_priority = match cur {
            Some(p) => if p > 0 {
                Some(p - 1)
            } else {
                Some(0)
            },
            None => self.get_last_non_none_priority(),
        };
        let t = &mut self.todos[idx];
        t.priority = new_priority;
        proof {
            assert(self.tasks() =~~= oldtasks.update(
                idx as int,
                TaskModel { priority: new_priority, ..oldtasks[idx as int] },
            ));
        }
        self.recompute_visual_order(idx);
        proof {
            self.lemma_repoint_unchanged(oldtasks, oldvo, oldsel, idx, new_priority);
        }
    }

    /// Lowers the selected task's priority by one step (a larger number); at
    /// 98 or above the priority is cleared to `None`. The view order is
    /// recomputed and the selection follows the task. Lowering a task that
    /// has no priority changes nothing.
    pub fn demote_selected(&mut self)
        requires
            old(self).wf(),
            old(self).visual_order@.len() > 0,
        ensures
            final(self).wf(),
            final(self).mode == old(self).mode,
            final(self).expanded == old(self).expanded,
            final(self).edit_buffer == old(self).edit_buffer,
            ({
                let idx = old(self).sel_index();
                let t = old(self).tasks()[idx as int];
                let newp = demoted_priority(t.priority);
                &&& final(self).tasks() == old(self).tasks().update(
                    idx as int,
                    TaskModel { priority: newp, ..t },
                )
                &&& final(self).visual_order@.len() == old(self).visual_order@.len()
                &&& final(self).sel_index() == idx
                &&& (newp == t.priority ==> final(self).tasks() == old(self).tasks() && final(self).visual_order@ == old(self).visual_order@ && final(self).selected == old(self).selected)
            }),
    {
        let idx = self.visual_order[self.selected];
        let ghost oldtasks = self.tasks();
        let ghost oldvo = self.visual_order@;
        let ghost oldsel = self.selected;
        let cur = self.todos[idx].priority;
        let new_priority = match cur {
            Some(p) => if p < 98 {
                Some(p + 1)
            } else {
                None
            },
            None => None,
        };
        let t = &mut self.todos[idx];
        t.priority = new_priority;
        proof {
            assert(self.tasks() =~~= oldtasks.update(
                idx as int,
                TaskModel { priority: new_priority, ..oldtasks[idx as int] },
            ));
        }
        self.recompute_visual_order(idx);
        proof {
            self.lemma_repoint_unchanged(oldtasks, oldvo, oldsel, idx, new_priority);
        }
    }

    /// After a priority write that did not change the task's priority, the
    /// recomputed state is the old state: the view order of a task list is
    /// unique, and the selection finds the task where it was.
    proof fn lemma_repoint_unchanged(
        &self,
        oldtasks: Seq<TaskModel>,
        oldvo: Seq<usize>,
        oldsel: usize,
        idx: usize,
        newp: Option<u8>,
    )
        requires
            view_order_wf(oldvo, oldtasks),
            oldsel < oldvo.len(),
            oldvo[oldsel as int] == idx,
            idx < oldtasks.len(),
            self.tasks() == oldtasks.update(
                idx as int,
                TaskModel { priority: newp, ..oldtasks[idx as int] },
            ),
            view_order_wf(self.visual_order@, self.tasks()),
            self.selected < self.visual_order@.len(),
            self.visual_order@[self.selected as int] == idx,
        ensures
            newp == oldtasks[idx as int].priority ==> self.tasks() == oldtasks
                && self.visual_order@ == oldvo && self.selected == oldsel,
    {
        if newp == oldtasks[idx as int].priority {
            assert(TaskModel { priority: newp, ..oldtasks[idx as int] } =~= oldtasks[idx as int]);
            assert(self.tasks() =~= oldtasks);
            lemma_view_order_unique(self.visual_order@, oldvo, oldtasks);
            if self.selected != oldsel {
                lemma_view_order_distinct(oldvo, oldtasks, self.selected as int, oldsel as int);
            }
        }
    }

    /// The priority of the last task in the view that has one: scanning the
    /// view order from the end, the first defined priority.
    pub fn get_last_non_none_priority(&mut self) -> (r: Option<u8>)
        requires
            old(self).wf(),
        ensures
            *final(self) == *old(self),
            r == last_defined_priority(old(self).tasks(), old(self).visual_order@),
    {
        let ghost tasks = self.tasks();
        let ghost vo = self.visual_order@;
        let n = self.visual_order.len();
        let mut i: usize = n;
        proof {
            assert(vo.take(n as int) =~= vo);
        }
        while i > 0
            invariant
                i <= n,
                n == vo.len(),
                self.wf(),
                vo == self.visual_order@,
                tasks == self.tasks(),
                last_defined_priority(tasks, vo) == last_defined_priority(
                    tasks,
                    vo.take(i as int),
                ),
            decreases i,
        {
            i -= 1;
            let idx = self.visual_order[i];
            proof {
                assert(vo.take(i + 1).last() == vo[i as int]);
                assert(vo.take(i + 1).drop_last() =~= vo.take(i as int));
                assert(tasks[idx as int] == self.todos@[idx as int]@);
            }
            match self.todos[idx].priority {
                Some(p) => {
                    return Some(p);
                },
                None => {},
            }
        }
        None
    }

    /// Splits the selected task in two: the original keeps its place with
    /// `" - part 1"` appended to its description; a copy with `" - part 2"`
    /// and `done` cleared is appended to storage. The view order is
    /// recomputed and the selection follows the original. No-op on an empty
    /// list.
    pub fn split_current(&mut self)
        requires
            old(self).wf(),
        ensures
            final(self).wf(),
            final(self).mode == old(self).mode,
            final(self).expanded == old(self).expanded,
            final(self).edit_buffer == old(self).edit_buffer,
            old(self).visual_order@.len() == 0 ==> final(self).todos == old(self).todos && final(self).visual_order == old(self).visual_order && final(self).selected == old(self).selected,
            old(self).visual_order@.len() > 0 ==> {
                let idx = old(self).sel_index();
                let t = old(self).tasks()[idx as int];
                &&& final(self).tasks() == old(self).tasks().update(
                    idx as int,
                    TaskModel { description: t.description + " - part 1"@, ..t },
                ).push(TaskModel { description: t.description + " - part 2"@, done: false, ..t })
                &&& final(self).visual_order@.len() == old(self).visual_order@.len() + 1
                &&& final(self).sel_index() == idx
            },
    {
        if self.selected < self.visual_order.len() {
            let ghost oldtasks = self.tasks();
            let idx = self.visual_order[self.selected];
            let current_clone = self.todos[idx].clone();
            let new = TodoItem::create_part_two(current_clone);
            let t = &mut self.todos[idx];
            t.description.append(" - part 1");
            self.todos.push(new);
            proof {
                let told = oldtasks[idx as int];
                assert(self.tasks() =~~= oldtasks.update(
                    idx as int,
                    TaskModel { description: told.description + " - part 1"@, ..told },
                ).push(TaskModel { description: told.description + " - part 2"@, done: false, ..told
                }));
            }
            self.recompute_visual_order(idx);
        }
    }
}

/// Everything of the state except the edit session is unchanged.
pub open spec fn state_but_buffer_unchanged(o: App, n: App) -> bool {
    &&& n.todos == o.todos
    &&& n.visual_order == o.visual_order
    &&& n.selected == o.selected
    &&& n.expanded == o.expanded
    &&& n.mode == o.mode
}

/// The session changed only in its selected field's buffer.
pub open spec fn buffer_same_but_field(ob: EditBuffer, nb: EditBuffer) -> bool {
    &&& nb.fields@.len() == ob.fields@.len()
    &&& nb.selected_field == ob.selected_field
    &&& nb.done == ob.done
    &&& forall|i: int|
        0 <= i < ob.fields@.len() && i != ob.selected_field ==> #[trigger] nb.fields@[i]
            == ob.fields@[i]
}

/// The cursor of the selected field moved one character (right if `fwd`,
/// else left), clamped to the text.
pub open spec fn cursor_moved(ob: EditBuffer, nb: EditBuffer, fwd: bool) -> bool {
    &&& buffer_same_but_field(ob, nb)
    &&& ({
        let of = ob.fields@[ob.selected_field as int];
        let nf = nb.fields@[ob.selected_field as int];
        &&& nf.value == of.value
        &&& nf.cursor as int == if fwd {
            if of.cursor < of.value@.len() {
                of.cursor + 1
            } else {
                of.cursor as int
            }
        } else {
            if of.cursor > 0 {
                of.cursor - 1
            } else {
                0int
            }
        }
    })
}

/// One field-selection step in Editing mode: moving down (`fwd`) or up, the
/// left field's cursor reset to its end; at the ends nothing changes.
pub open spec fn field_step(ob: EditBuffer, nb: EditBuffer, fwd: bool) -> bool {
    if fwd {
        if ob.selected_field + 1 < 5 {
            &&& nb.selected_field == ob.selected_field + 1
            &&& nb.done == ob.done
            &&& nb.fields@.len() == ob.fields@.len()
            &&& forall|i: int|
                0 <= i < ob.fields@.len() && i != ob.selected_field ==> #[trigger] nb.fields@[i]
                    == ob.fields@[i]
            &&& nb.fields@[ob.selected_field as int].value == ob.fields@[ob.selected_field as int].value
            &&& nb.fields@[ob.selected_field as int].cursor == ob.fields@[ob.selected_field as int].value@.len()
        } else {
            nb == ob
        }
    } else {
        if ob.selected_field > 0 {
            &&& nb.selected_field == ob.selected_field - 1
            &&& nb.done == ob.done
            &&& nb.fields@.len() == ob.fields@.len()
            &&& forall|i: int|
                0 <= i < ob.fields@.len() && i != ob.selected_field ==> #[trigger] nb.fields@[i]
                    == ob.fields@[i]
            &&& nb.fields@[ob.selected_field as int].value == ob.fields@[ob.selected_field as int].value
            &&& nb.fields@[ob.selected_field as int].cursor == ob.fields@[ob.selected_field as int].value@.len()
        } else {
            nb == ob
        }
    }
}


/// The whole state is unchanged.
pub open spec fn same_state(o: App, n: App) -> bool {
    &&& n.todos == o.todos
    &&& n.visual_order == o.visual_order
    &&& n.selected == o.selected
    &&& n.expanded == o.expanded
    &&& n.mode == o.mode
    &&& n.edit_buffer == o.edit_buffer
}

/// One Normal-mode selection step (down if `down`), everything else
/// unchanged.
pub open spec fn nav_step(o: App, n: App, down: bool) -> bool {
    &&& n.todos == o.todos
    &&& n.visual_order == o.visual_order
    &&& n.expanded == o.expanded
    &&& n.mode == o.mode
    &&& n.edit_buffer == o.edit_buffer
    &&& n.selected as int == if down {
        if o.selected + 1 < o.visual_order@.len() {
            o.selected + 1
        } else {
            o.selected as int
        }
    } else {
        if o.selected > 0 {
            o.selected - 1
        } else {
            0int
        }
    }
}

/// The selected task's `done` flipped, everything else unchanged.
pub open spec fn done_toggled(o: App, n: App) -> bool {
    &&& n.visual_order == o.visual_order
    &&& n.selected == o.selected
    &&& n.expanded == o.expanded
    &&& n.mode == o.mode
    &&& n.edit_buffer == o.edit_buffer
    &&& o.visual_order@.len() == 0 ==> n.todos == o.todos
    &&& o.visual_order@.len() > 0 ==> n.tasks() == o.tasks().update(
        o.sel_index() as int,
        TaskModel { done: !o.tasks()[o.sel_index() as int].done, ..o.tasks()[o.sel_index() as int] },
    )
}

/// The expansion toggled on the selected task, everything else unchanged.
pub open spec fn expand_toggled(o: App, n: App) -> bool {
    &&& n.todos == o.todos
    &&& n.visual_order == o.visual_order
    &&& n.selected == o.selected
    &&& n.mode == o.mode
    &&& n.edit_buffer == o.edit_buffer
    &&& o.visual_order@.len() == 0 ==> n.expanded == o.expanded
    &&& o.visual_order@.len() > 0 ==> n.expanded == (if o.expanded == Some(o.sel_index()) {
        None::<usize>
    } else {
        Some(o.sel_index())
    })
}

/// The selected task removed, per `App::remove_selected`.
pub open spec fn task_removed(o: App, n: App) -> bool {
    &&& n.mode == o.mode
    &&& n.expanded == o.expanded
    &&& n.edit_buffer == o.edit_buffer
    &&& o.visual_order@.len() == 0 ==> n.todos == o.todos && n.visual_order == o.visual_order
        && n.selected == o.selected
    &&& o.visual_order@.len() > 0 ==> {
        &&& n.tasks() == o.tasks().remove(o.sel_index() as int)
        &&& n.visual_order@.len() == o.visual_order@.len() - 1
        &&& n.selected as int == if o.selected > 0 {
            o.selected - 1
        } else {
            0int
        }
    }
}

/// A fresh edit session opened over the selected task.
pub open spec fn edit_entered(o: App, n: App) -> bool {
    &&& n.mode is Editing
    &&& n.todos == o.todos
    &&& n.visual_order == o.visual_order
    &&& n.selected == o.selected
    &&& n.expanded == o.expanded
    &&& (n.edit_buffer matches Some(nb) && renders(nb, o.tasks()[o.sel_index() as int]))
}

/// The session committed onto the selected task and closed, per
/// `App::toggle_mode` leaving Editing mode.
pub open spec fn edit_exited(o: App, n: App) -> bool {
    &&& n.mode is Normal
    &&& n.edit_buffer is None
    &&& n.expanded == o.expanded
    &&& o.visual_order@.len() == 0 ==> n.todos == o.todos && n.visual_order == o.visual_order
        && n.selected == o.selected
    &&& o.visual_order@.len() > 0 ==> (o.edit_buffer matches Some(ob) ==> {
        let idx = o.sel_index();
        &&& n.tasks() == o.tasks().update(idx as int, commit_model(ob, o.tasks()[idx as int]))
        &&& n.visual_order@.len() > 0
        &&& n.sel_index() == idx
    })
}

/// The selected task's priority raised one step, per
/// `App::promote_selected` (`raise`), or lowered one step, per
/// `App::demote_selected`.
pub open spec fn priority_stepped(o: App, n: App, raise: bool) -> bool {
    &&& n.mode == o.mode
    &&& n.expanded == o.expanded
    &&& n.edit_buffer == o.edit_buffer
    &&& {
        let idx = o.sel_index();
        let t = o.tasks()[idx as int];
        let newp = if raise {
            promoted_priority(t.priority, last_defined_priority(o.tasks(), o.visual_order@))
        } else {
            demoted_priority(t.priority)
        };
        &&& n.tasks() == o.tasks().update(idx as int, TaskModel { priority: newp, ..t })
        &&& n.visual_order@.len() == o.visual_order@.len()
        &&& n.sel_index() == idx
        &&& (newp == t.priority ==> n.tasks() == o.tasks() && n.visual_order@ == o.visual_order@
            && n.selected == o.selected)
    }
}

/// The selected task split in two, per `App::split_current`.
pub open spec fn task_split(o: App, n: App) -> bool {
    &&& n.mode == o.mode
    &&& n.expanded == o.expanded
    &&& n.edit_buffer == o.edit_buffer
    &&& o.visual_order@.len() == 0 ==> n.todos == o.todos && n.visual_order == o.visual_order
        && n.selected == o.selected
    &&& o.visual_order@.len() > 0 ==> {
        let idx = o.sel_index();
        let t = o.tasks()[idx as int];
        &&& n.tasks() == o.tasks().update(
            idx as int,
            TaskModel { description: t.description + " - part 1"@, ..t },
        ).push(TaskModel { description: t.description + " - part 2"@, done: false, ..t })
        &&& n.visual_order@.len() == o.visual_order@.len() + 1
        &&& n.sel_index() == idx
    }
}

/// One Editing-mode field-selection step, everything else unchanged.
pub open spec fn edit_nav(o: App, n: App, fwd: bool) -> bool {
    &&& n.todos == o.todos
    &&& n.visual_order == o.visual_order
    &&& n.selected == o.selected
    &&& n.expanded == o.expanded
    &&& n.mode == o.mode
    &&& (o.edit_buffer matches Some(ob) ==> (n.edit_buffer matches Some(nb) && field_step(
        ob,
        nb,
        fwd,
    )))
    &&& (o.edit_buffer is None ==> n.edit_buffer is None)
}

/// The current field's cursor moved one character, everything else
/// unchanged.
pub open spec fn cursor_stepped(o: App, n: App, fwd: bool) -> bool {
    &&& state_but_buffer_unchanged(o, n)
    &&& (o.edit_buffer matches Some(ob) ==> (n.edit_buffer matches Some(nb) && cursor_moved(
        ob,
        nb,
        fwd,
    )))
    &&& (o.edit_buffer is None ==> n.edit_buffer is None)
}

/// `ch` typed into the current field, everything else unchanged.
pub open spec fn char_inserted(o: App, n: App, ch: char) -> bool {
    &&& state_but_buffer_unchanged(o, n)
    &&& (o.edit_buffer matches Some(ob) ==> (n.edit_buffer matches Some(nb)
        && buffer_same_but_field(ob, nb) && {
        let of = ob.fields@[ob.selected_field as int];
        let nf = nb.fields@[ob.selected_field as int];
        nf.value@ == of.value@.insert(of.cursor as int, ch) && nf.cursor == of.cursor + 1
    }))
    &&& (o.edit_buffer is None ==> n.edit_buffer is None)
}

/// A backspace applied to the current field, everything else unchanged.
pub open spec fn char_backspaced(o: App, n: App) -> bool {
    &&& state_but_buffer_unchanged(o, n)
    &&& (o.edit_buffer matches Some(ob) ==> (n.edit_buffer matches Some(nb)
        && buffer_same_but_field(ob, nb) && {
        let of = ob.fields@[ob.selected_field as int];
        let nf = nb.fields@[ob.selected_field as int];
        if of.cursor == 0 {
            nf == of
        } else {
            nf.value@ == of.value@.remove(of.cursor - 1) && nf.cursor == of.cursor - 1
        }
    }))
    &&& (o.edit_buffer is None ==> n.edit_buffer is None)
}

/// The transition relation of the interactive loop: what one abstract input
/// event does to the state in each mode, and when the loop quits and saves.
/// This is the whole dispatch table; operations that need a selected task do
/// nothing on an empty list.
pub open spec fn event_applied(o: App, n: App, event: InputEvent, r: EventOutcome) -> bool {
    match o.mode {
        InputMode::Normal => {
            &&& r.quit == (event is Quit)
            &&& r.save == (event is Quit || event is ToggleDone)
            &&& match event {
                InputEvent::Quit => same_state(o, n),
                InputEvent::Down => nav_step(o, n, true),
                InputEvent::Up => nav_step(o, n, false),
                InputEvent::ToggleDone => done_toggled(o, n),
                InputEvent::ToggleExpand => expand_toggled(o, n),
                InputEvent::Backspace => task_removed(o, n),
                InputEvent::EnableEditing => if o.visual_order@.len() > 0 {
                    edit_entered(o, n)
                } else {
                    same_state(o, n)
                },
                InputEvent::PromotePriority => if o.visual_order@.len() > 0 {
                    priority_stepped(o, n, true)
                } else {
                    same_state(o, n)
                },
                InputEvent::DemotePriority => if o.visual_order@.len() > 0 {
                    priority_stepped(o, n, false)
                } else {
                    same_state(o, n)
                },
                InputEvent::TodoSplit => task_split(o, n),
                _ => same_state(o, n),
            }
        },
        InputMode::Editing => {
            &&& r.quit == false
            &&& r.save == (event is DisableEditing || event is ToggleDone)
            &&& match event {
                InputEvent::Down => edit_nav(o, n, true),
                InputEvent::Up => edit_nav(o, n, false),
                InputEvent::Left => cursor_stepped(o, n, false),
                InputEvent::Right => cursor_stepped(o, n, true),
                InputEvent::DisableEditing => edit_exited(o, n),
                InputEvent::Backspace => char_backspaced(o, n),
                InputEvent::ToggleDone => done_toggled(o, n),
                InputEvent::Char(c) => char_inserted(o, n, c),
                _ => same_state(o, n),
            }
        },
    }
}

/// Law: navigation never moves the selection out of the view. After a
/// selection step on a well-formed state, the selection is inside
/// `[0, len)`; on an empty view it stays 0.
pub proof fn lemma_navigation_stays_in_bounds(o: App, n: App, down: bool)
    requires
        o.wf(),
        nav_step(o, n, down),
    ensures
        o.visual_order@.len() > 0 ==> n.selected < o.visual_order@.len(),
        o.visual_order@.len() == 0 ==> n.selected == 0,
{
}

/// Law: raising the priority of a task already at priority 0 changes
/// nothing, so repeated promotion is idempotent at the floor.
pub proof fn lemma_promote_at_floor_idempotent(o: App, n: App)
    requires
        o.wf(),
        o.visual_order@.len() > 0,
        o.tasks()[o.sel_index() as int].priority == Some(0u8),
        priority_stepped(o, n, true),
    ensures
        n.tasks() == o.tasks(),
        n.visual_order@ == o.visual_order@,
        n.selected == o.selected,
{
}

/// Law: lowering the priority of a task that has none changes nothing, so
/// repeated demotion is idempotent once the priority is cleared.
pub proof fn lemma_demote_at_none_idempotent(o: App, n: App)
    requires
        o.wf(),
        o.visual_order@.len() > 0,
        o.tasks()[o.sel_index() as int].priority is None,
        priority_stepped(o, n, false),
    ensures
        n.tasks() == o.tasks(),
        n.visual_order@ == o.visual_order@,
        n.selected == o.selected,
{
}

impl App {
    /// Applies one abstract input event, as the interactive loop dispatches
    /// it: navigation, editing, and the list operations, with a save owed
    /// after a done-toggle, after an edit commit, and on quit.
    pub fn handle_event(&mut self, event: InputEvent) -> (r: EventOutcome)
        requires
            old(self).wf(),
        ensures
            final(self).wf(),
            event_applied(*old(self), *final(self), event, r),
    {
        match self.mode {
            InputMode::Normal => {
                match event {
                    InputEvent::Quit => {
                        return EventOutcome { quit: true, save: true };
                    },
                    InputEvent::Down => self.next(),
                    InputEvent::Up => self.previous(),
                    InputEvent::ToggleDone => {
                        self.toggle_done();
                        return EventOutcome { quit: false, save: true };
                    },
                    InputEvent::ToggleExpand => self.toggle_expanded(),
                    InputEvent::Backspace => self.remove_selected(),
                    InputEvent::EnableEditing => {
                        if self.visual_order.len() > 0 {
                            self.toggle_mode();
                        }
                    },
                    InputEvent::PromotePriority => {
                        if self.visual_order.len() > 0 {
                            self.promote_selected();
                        }
                    },
                    InputEvent::DemotePriority => {
                        if self.visual_order.len() > 0 {
                            self.demote_selected();
                        }
                    },
                    InputEvent::TodoSplit => self.split_current(),
                    _ => {},
                }
            },
            InputMode::Editing => {
                match event {
                    InputEvent::Down => self.next(),
                    InputEvent::Up => self.previous(),
                    InputEvent::Left => self.left(),
                    InputEvent::Right => self.right(),
                    InputEvent::DisableEditing => {
                        self.toggle_mode();
                        return EventOutcome { quit: false, save: true };
                    },
                    InputEvent::Backspace => self.edit_backspace(),
                    InputEvent::ToggleDone => {
                        self.toggle_done();
                        return EventOutcome { quit: false, save: true };
                    },
                    InputEvent::Char(c) => self.edit_insert(c),
                    _ => {},
                }
            },
        }
        EventOutcome { quit: false, save: false }
    }
}

} // verus!

