//! The listing filter: which tasks a `list` invocation shows. Loading the
//! store and printing are I/O and live outside this library.

use crate::storage::TaskModel;
use crate::storage::TodoItem;
use vstd::prelude::*;

verus! {

/// Whether a task passes the listing filters: done tasks only with `all`,
/// and optional priority, tag and due-date filters, each matching exactly.
pub open spec fn item_matches(
    t: TaskModel,
    show_all: bool,
    filter_priority: Option<u8>,
    filter_tag: Option<Seq<char>>,
    filter_due: Option<Seq<char>>,
) -> bool {
    &&& (show_all || !t.done)
    &&& (filter_priority matches Some(p) ==> t.priority == Some(p))
    &&& (filter_tag matches Some(tag) ==> (t.tags matches Some(ts) && ts.contains(tag)))
    &&& (filter_due matches Some(d) ==> t.due == Some(d))
}

fn contains_string(ts: &Vec<String>, s: &String) -> (r: bool)
    ensures
        r == ts.deep_view().contains(s@),
{
    let n = ts.len();
    let mut i: usize = 0;
    while i < n
        invariant
            i <= n,
            n == ts@.len(),
            ts.deep_view().len() == n,
            forall|j: int| 0 <= j < n ==> ts.deep_view()[j] == ts@[j]@,
            forall|j: int| 0 <= j < i ==> ts.deep_view()[j] != s@,
        decreases n - i,
    {
        if ts[i] == *s {
            proof {
                assert(ts.deep_view()[i as int] == s@);
            }
            return true;
        }
        i += 1;
    }
    false
}

/// The storage indices of the tasks a `list` invocation shows, in storage
/// order: exactly those that pass the filters.
pub fn filter_items(
    items: &Vec<TodoItem>,
    show_all: bool,
    filter_priority: Option<u8>,
    filter_tag: &Option<String>,
    filter_due: &Option<String>,
) -> (r: Vec<usize>)
    ensures
        forall|j: int| 0 <= j < r@.len() ==> (#[trigger] r@[j]) < items@.len(),
        forall|i: int, j: int| 0 <= i < j < r@.len() ==> r@[i] < r@[j],
        forall|j: int|
            0 <= j < r@.len() ==> item_matches(
                items.deep_view()[(#[trigger] r@[j]) as int],
                show_all,
                filter_priority,
                match *filter_tag {
                    Some(tg) => Some(tg@),
                    None => None,
                },
                match *filter_due {
                    Some(d) => Some(d@),
                    None => None,
                },
            ),
        forall|i: int|
            0 <= i < items@.len() && item_matches(
                items.deep_view()[i],
                show_all,
                filter_priority,
                match *filter_tag {
                    Some(tg) => Some(tg@),
                    None => None,
                },
                match *filter_due {
                    Some(d) => Some(d@),
                    None => None,
                },
            ) ==> r@.contains(#[trigger] (i as usize)),
{
    let ghost ftag: Option<Seq<char>> = match filter_tag {
        Some(tg) => Some(tg@),
        None => None,
    };
    let ghost fdue: Option<Seq<char>> = match filter_due {
        Some(d) => Some(d@),
        None => None,
    };
    let n = items.len();
    let mut r: Vec<usize> = Vec::new();
    let mut i: usize = 0;
    while i < n
        invariant
            i <= n,
            n == items@.len(),
            items.deep_view().len() == n,
            ftag == (match *filter_tag {
                Some(tg) => Some(tg@),
                None => None,
            }),
            fdue == (match *filter_due {
                Some(d) => Some(d@),
                None => None,
            }),
            forall|j: int| 0 <= j < r@.len() ==> (#[trigger] r@[j]) < i,
            forall|a: int, b: int| 0 <= a < b < r@.len() ==> r@[a] < r@[b],
            forall|j: int|
                0 <= j < r@.len() ==> item_matches(
                    items.deep_view()[(#[trigger] r@[j]) as int],
                    show_all,
                    filter_priority,
                    ftag,
                    fdue,
                ),
            forall|k: int|
                0 <= k < i && item_matches(items.deep_view()[k], show_all, filter_priority, ftag, fdue)
                    ==> r@.contains(#[trigger] (k as usize)),
        decreases n - i,
    {
        proof {
            assert(items.deep_view()[i as int] == items@[i as int]@);
        }
        let item = &items[i];
        let done_ok = show_all || !item.done;
        let prio_ok = match filter_priority {
            Some(p) => match item.priority {
                Some(q) => q == p,
                None => false,
            },
            None => true,
        };
        let tag_ok = match filter_tag {
            Some(tag) => match &item.tags {
                Some(ts) => contains_string(ts, tag),
                None => false,
            },
            None => true,
        };
        let due_ok = match filter_due {
            Some(d) => match &item.due {
                Some(x) => *x == *d,
                None => false,
            },
            None => true,
        };
        if done_ok && prio_ok && tag_ok && due_ok {
            let ghost oldr = r@;
            r.push(i);
            proof {
                assert forall|k: int|
                    0 <= k < i + 1 && item_matches(
                        items.deep_view()[k],
                        show_all,
                        filter_priority,
                        ftag,
                        fdue,
                    ) implies r@.contains(#[trigger] (k as usize)) by {
                    if k < i {
                        let w = choose|w: int| 0 <= w < oldr.len() && oldr[w] == k as usize;
                        assert(r@[w] == k as usize);
                    } else {
                        assert(r@[r@.len() - 1] == i);
                    }
                }
            }
        } else {
            proof {
                assert(!item_matches(items.deep_view()[i as int], show_all, filter_priority, ftag, fdue));
            }
        }
        i += 1;
    }
    r
}

} // verus!
