//! The task record and its ghost model.
//!
//! Reading and writing the on-disk task store is I/O and lives outside this
//! library; the record itself, and the one piece of task-building logic
//! (splitting a task in two), are verified here.

use vstd::prelude::*;
use vstd::string::StringExecFns;

verus! {

/// The mathematical model of a task: every text field as its character
/// sequence.
#[verifier::ext_equal]
pub ghost struct TaskModel {
    pub description: Seq<char>,
    pub priority: Option<u8>,
    pub due: Option<Seq<char>>,
    pub tags: Option<Seq<Seq<char>>>,
    pub done: bool,
    pub notes: Option<Seq<char>>,
}

/// One task of the list. `priority` is optional; `None` sorts as if it were
/// 99, but is never stored as 99.
#[derive(Debug)]
pub struct TodoItem {
    pub description: String,
    pub priority: Option<u8>,
    pub due: Option<String>,
    pub tags: Option<Vec<String>>,
    pub done: bool,
    pub notes: Option<String>,
}

impl View for TodoItem {
    type V = TaskModel;

    open spec fn view(&self) -> TaskModel {
        TaskModel {
            description: self.description@,
            priority: self.priority,
            due: match self.due {
                Some(d) => Some(d@),
                None => None,
            },
            tags: match self.tags {
                Some(ts) => Some(ts.deep_view()),
                None => None,
            },
            done: self.done,
            notes: match self.notes {
                Some(n) => Some(n@),
                None => None,
            },
        }
    }
}

impl DeepView for TodoItem {
    type V = TaskModel;

    open spec fn deep_view(&self) -> TaskModel {
        self.view()
    }
}

impl Clone for TodoItem {
    /// Cloning preserves the task model exactly.
    fn clone(&self) -> (r: Self)
        ensures
            r@ == self@,
    {
        let r = TodoItem {
            description: self.description.clone(),
            priority: self.priority,
            due: match &self.due {
                Some(d) => Some(d.clone()),
                None => None,
            },
            tags: match &self.tags {
                Some(ts) => {
                    let c = ts.clone();
                    proof {
                        assert forall|i: int| 0 <= i < c@.len() implies c@[i]@ == ts@[i]@ by {
                            assert(cloned::<String>(ts@[i], c@[i]));
                        }
                        assert(c.deep_view() =~= ts.deep_view());
                    }
                    Some(c)
                },
                None => None,
            },
            done: self.done,
            notes: match &self.notes {
                Some(n) => Some(n.clone()),
                None => None,
            },
        };
        proof {
            assert(r@ =~~= self@);
        }
        r
    }
}

impl TodoItem {
    /// The second half of a split task: the same attributes, `" - part 2"`
    /// appended to the description, and not done.
    pub fn create_part_two(todo: TodoItem) -> (r: TodoItem)
        ensures
            r@ == (TaskModel { description: todo@.description + " - part 2"@, done: false, ..todo@
            }),
    {
        let r = TodoItem {
            description: todo.description.concat(" - part 2"),
            priority: todo.priority,
            due: todo.due,
            tags: todo.tags,
            done: false,
            notes: todo.notes,
        };
        proof {
            assert(r@ =~~= (TaskModel {
                description: todo@.description + " - part 2"@,
                done: false,
                ..todo@
            }));
        }
        r
    }
}

} // verus!
