//! Render-ready rows of the task list: a header for each priority group,
//! then the group's tasks. Drawing the rows is presentation and lives
//! outside this library.

use crate::storage::TaskModel;
use crate::storage::TodoItem;
use crate::text::chars_to_string;
use crate::text::dec_digits;
use crate::text::string_to_chars;
use crate::text::u8_to_chars;
use crate::tui::order::sort_key;
use vstd::prelude::*;
use vstd::string::StringExecFns;

verus! {

/// A render-ready row: a priority group header, or one task with its
/// expansion flag.
pub enum Row<'a> {
    Header(String),
    Todo { item: &'a TodoItem, is_expanded: bool },
}

/// Whether view position `j` starts a new priority group: it is the first
/// position, or its sort key differs from its predecessor's.
pub open spec fn group_boundary(tasks: Seq<TaskModel>, vo: Seq<usize>, j: int) -> bool {
    j == 0 || sort_key(tasks[vo[j] as int]) != sort_key(tasks[vo[j - 1] as int])
}

/// How many group headers stand before view position `upto`.
pub open spec fn group_count(tasks: Seq<TaskModel>, vo: Seq<usize>, upto: int) -> int
    decreases upto,
{
    if upto <= 0 {
        0
    } else {
        group_count(tasks, vo, upto - 1) + if group_boundary(tasks, vo, upto - 1) {
            1int
        } else {
            0int
        }
    }
}

/// The row index of the task at view position `j`: the `j` tasks before it
/// plus every header at or before it.
pub open spec fn row_pos(tasks: Seq<TaskModel>, vo: Seq<usize>, j: int) -> int {
    j + group_count(tasks, vo, j + 1)
}

/// The header text of a priority group: `"Priority "` and the key's decimal
/// digits, or `"Priority None"` for the no-priority group (key 99).
pub open spec fn header_text(key: int) -> Seq<char> {
    if key == 99 {
        "Priority None"@
    } else {
        "Priority "@ + dec_digits(key)
    }
}

/// The header string for the group with sort key `key`.
pub fn header_string(key: u8) -> (r: String)
    ensures
        r@ == header_text(key as int),
{
    if key == 99 {
        String::from_str("Priority None")
    } else {
        let mut v = string_to_chars("Priority ");
        let mut d = u8_to_chars(key);
        v.append(&mut d);
        chars_to_string(&v)
    }
}

} // verus!
