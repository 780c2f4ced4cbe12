//! The priority-sorted view order: a permutation of the task storage indices,
//! ascending by priority with `None` sorting last (as the sentinel key 99),
//! ties kept in storage order (a stable sort).

use crate::storage::TaskModel;
use crate::storage::TodoItem;
use vstd::prelude::*;

verus! {

/// The sort key of a task: its priority, with `None` treated as 99.
pub open spec fn sort_key(t: TaskModel) -> int {
    match t.priority {
        Some(p) => p as int,
        None => 99,
    }
}

/// Strict order of two storage indices in the view: ascending sort key, ties
/// broken by storage index. This is exactly the order a stable sort by key
/// leaves the indices in.
pub open spec fn view_lt(tasks: Seq<TaskModel>, a: usize, b: usize) -> bool {
    ||| sort_key(tasks[a as int]) < sort_key(tasks[b as int])
    ||| (sort_key(tasks[a as int]) == sort_key(tasks[b as int]) && a < b)
}

/// `vo` is the view order of `tasks`: every storage index appears, every
/// entry is a storage index, and the entries ascend strictly by
/// (sort key, storage index).
pub open spec fn view_order_wf(vo: Seq<usize>, tasks: Seq<TaskModel>) -> bool {
    &&& tasks.len() <= usize::MAX
    &&& vo.len() == tasks.len()
    &&& forall|i: int| 0 <= i < vo.len() ==> (#[trigger] vo[i]) < tasks.len()
    &&& forall|i: int, j: int|
        #![trigger vo[i], vo[j]]
        0 <= i < j < vo.len() ==> view_lt(tasks, vo[i], vo[j])
    &&& forall|k: int| 0 <= k < tasks.len() ==> vo.contains(#[trigger] (k as usize))
}

/// In a well-formed view order the entries are distinct.
pub proof fn lemma_view_order_distinct(vo: Seq<usize>, tasks: Seq<TaskModel>, i: int, j: int)
    requires
        view_order_wf(vo, tasks),
        0 <= i < vo.len(),
        0 <= j < vo.len(),
        i != j,
    ensures
        vo[i] != vo[j],
{
    if i < j {
        assert(view_lt(tasks, vo[i], vo[j]));
    } else {
        assert(view_lt(tasks, vo[j], vo[i]));
    }
}

/// Two strictly ascending sequences with the same members are equal.
proof fn lemma_sorted_same_members_equal(a: Seq<usize>, b: Seq<usize>, tasks: Seq<TaskModel>)
    requires
        forall|i: int, j: int| #![trigger a[i], a[j]] 0 <= i < j < a.len() ==> view_lt(tasks, a[i], a[j]),
        forall|i: int, j: int| #![trigger b[i], b[j]] 0 <= i < j < b.len() ==> view_lt(tasks, b[i], b[j]),
        forall|x: usize| a.contains(x) <==> b.contains(x),
    ensures
        a =~= b,
    decreases a.len(),
{
    if a.len() == 0 {
        if b.len() > 0 {
            assert(b.contains(b[0]));
            assert(a.contains(b[0]));
        }
    } else {
        assert(a.contains(a[0]));
        assert(b.contains(a[0]));
        let p = choose|p: int| 0 <= p < b.len() && b[p] == a[0];
        if p > 0 {
            assert(view_lt(tasks, b[0], b[p]));
            assert(a.contains(b[0]));
            let q = choose|q: int| 0 <= q < a.len() && a[q] == b[0];
            if q > 0 {
                assert(view_lt(tasks, a[0], a[q]));
            }
            assert(false);
        }
        assert(a[0] == b[0]);
        let at = a.drop_first();
        let bt = b.drop_first();
        assert forall|x: usize| at.contains(x) implies bt.contains(x) by {
            let i = choose|i: int| 0 <= i < at.len() && at[i] == x;
            assert(a[i + 1] == x);
            assert(view_lt(tasks, a[0], x));
            assert(b.contains(x));
            let j = choose|j: int| 0 <= j < b.len() && b[j] == x;
            if j == 0 {
                assert(view_lt(tasks, a[0], a[0]));
            }
            assert(bt[j - 1] == x);
        }
        assert forall|x: usize| bt.contains(x) implies at.contains(x) by {
            let i = choose|i: int| 0 <= i < bt.len() && bt[i] == x;
            assert(b[i + 1] == x);
            assert(view_lt(tasks, b[0], x));
            assert(a.contains(x));
            let j = choose|j: int| 0 <= j < a.len() && a[j] == x;
            if j == 0 {
                assert(view_lt(tasks, b[0], b[0]));
            }
            assert(at[j - 1] == x);
        }
        lemma_sorted_same_members_equal(at, bt, tasks);
        assert(at =~= bt);
        assert forall|i: int| 0 <= i < a.len() implies a[i] == b[i] by {
            if i > 0 {
                assert(a[i] == at[i - 1]);
                assert(b[i] == bt[i - 1]);
            }
        }
        assert(a =~= b);
    }
}

/// The view order of a task list is unique: any two well-formed view orders
/// of the same tasks are the same permutation.
pub proof fn lemma_view_order_unique(a: Seq<usize>, b: Seq<usize>, tasks: Seq<TaskModel>)
    requires
        view_order_wf(a, tasks),
        view_order_wf(b, tasks),
    ensures
        a =~= b,
{
    assert forall|x: usize| a.contains(x) implies b.contains(x) by {
        let i = choose|i: int| 0 <= i < a.len() && a[i] == x;
        assert(a[i] < tasks.len());
        assert(b.contains((x as int) as usize));
    }
    assert forall|x: usize| b.contains(x) implies a.contains(x) by {
        let i = choose|i: int| 0 <= i < b.len() && b[i] == x;
        assert(b[i] < tasks.len());
        assert(a.contains((x as int) as usize));
    }
    lemma_sorted_same_members_equal(a, b, tasks);
}

/// The sort key of a task, as executable code computes it.
pub fn priority_key(t: &TodoItem) -> (k: u8)
    ensures
        k as int == sort_key(t@),
{
    match t.priority {
        Some(p) => p,
        None => 99,
    }
}

/// Computes the view order of `todos`: the stable sort of the storage
/// indices by priority, tasks without a priority last.
pub fn compute_visual_order(todos: &Vec<TodoItem>) -> (vo: Vec<usize>)
    ensures
        view_order_wf(vo@, todos.deep_view()),
{
    let ghost tasks = todos.deep_view();
    let n = todos.len();
    proof {
        assert(tasks.len() == n);
    }
    let mut vo: Vec<usize> = Vec::new();
    let mut idx: usize = 0;
    while idx < n
        invariant
            idx <= n,
            n == todos@.len(),
            tasks == todos.deep_view(),
            tasks.len() == n,
            vo@.len() == idx,
            forall|i: int| 0 <= i < vo@.len() ==> (#[trigger] vo@[i]) < idx,
            forall|i: int, j: int|
                #![trigger vo@[i], vo@[j]]
                0 <= i < j < vo@.len() ==> view_lt(tasks, vo@[i], vo@[j]),
            forall|k: int| 0 <= k < idx ==> vo@.contains(#[trigger] (k as usize)),
        decreases n - idx,
    {
        proof {
            assert(tasks[idx as int] == todos@[idx as int]@);
        }
        let k = priority_key(&todos[idx]);
        let mut p: usize = 0;
        while p < vo.len() && priority_key(&todos[vo[p]]) <= k
            invariant
                p <= vo@.len(),
                vo@.len() == idx <= n,
                n == todos@.len(),
                tasks == todos.deep_view(),
                tasks.len() == n,
                k as int == sort_key(tasks[idx as int]),
                forall|i: int| 0 <= i < vo@.len() ==> (#[trigger] vo@[i]) < idx,
                forall|i: int| 0 <= i < p ==> sort_key(tasks[(#[trigger] vo@[i]) as int]) <= k,
            decreases vo@.len() - p,
        {
            proof {
                assert(tasks[vo@[p as int] as int] == todos@[vo@[p as int] as int]@);
            }
            p += 1;
        }
        let ghost oldvo = vo@;
        vo.insert(p, idx);
        proof {
            oldvo.insert_ensures(p as int, idx);
            if (p as int) < oldvo.len() {
                assert(tasks[oldvo[p as int] as int] == todos@[oldvo[p as int] as int]@);
                assert(sort_key(tasks[oldvo[p as int] as int]) > k);
            }
            assert forall|i: int, j: int|
                #![trigger vo@[i], vo@[j]]
                0 <= i < j < vo@.len() implies view_lt(tasks, vo@[i], vo@[j]) by {
                let pi = p as int;
                if j < pi {
                    assert(vo@[i] == oldvo[i] && vo@[j] == oldvo[j]);
                } else if j == pi {
                    assert(vo@[i] == oldvo[i]);
                    assert(vo@[j] == idx);
                    assert(sort_key(tasks[oldvo[i] as int]) <= k);
                    assert(oldvo[i] < idx);
                } else if i < pi {
                    assert(vo@[i] == oldvo[i] && vo@[j] == oldvo[j - 1]);
                    assert(view_lt(tasks, oldvo[i], oldvo[j - 1]));
                } else if i == pi {
                    assert(vo@[i] == idx && vo@[j] == oldvo[j - 1]);
                    assert(sort_key(tasks[oldvo[j - 1] as int]) > k);
                } else {
                    assert(vo@[i] == oldvo[i - 1] && vo@[j] == oldvo[j - 1]);
                }
            }
            assert forall|k2: int| 0 <= k2 < idx + 1 implies vo@.contains(#[trigger] (k2 as usize)) by {
                if k2 == idx {
                    assert(vo@[p as int] == idx);
                } else {
                    let wi = choose|wi: int| 0 <= wi < oldvo.len() && oldvo[wi] == k2 as usize;
                    if wi < p {
                        assert(vo@[wi] == k2 as usize);
                    } else {
                        assert(vo@[wi + 1] == k2 as usize);
                    }
                }
            }
        }
        idx += 1;
    }
    vo
}

/// The position of storage index `idx` in the view order.
pub fn position_of(vo: &Vec<usize>, idx: usize) -> (p: usize)
    requires
        vo@.contains(idx),
    ensures
        p < vo@.len(),
        vo@[p as int] == idx,
{
    let n = vo.len();
    let mut p: usize = 0;
    while p < n
        invariant
            p <= n,
            n == vo@.len(),
            vo@.contains(idx),
            forall|i: int| 0 <= i < p ==> vo@[i] != idx,
        decreases n - p,
    {
        if vo[p] == idx {
            return p;
        }
        p += 1;
    }
    proof {
        let wi = choose|wi: int| 0 <= wi < vo@.len() && vo@[wi] == idx;
        assert(false);
    }
    0
}

/// A view order stays well-formed when the tasks change without any sort key
/// changing (toggling `done`, editing text).
pub proof fn lemma_order_wf_same_keys(vo: Seq<usize>, a: Seq<TaskModel>, b: Seq<TaskModel>)
    requires
        view_order_wf(vo, a),
        b.len() == a.len(),
        forall|i: int| 0 <= i < a.len() ==> sort_key(#[trigger] b[i]) == sort_key(a[i]),
    ensures
        view_order_wf(vo, b),
{
    assert forall|i: int, j: int|
        #![trigger vo[i], vo[j]]
        0 <= i < j < vo.len() implies view_lt(b, vo[i], vo[j]) by {
        assert(view_lt(a, vo[i], vo[j]));
        assert(sort_key(b[vo[i] as int]) == sort_key(a[vo[i] as int]));
        assert(sort_key(b[vo[j] as int]) == sort_key(a[vo[j] as int]));
    }
}

/// How a storage index shifts when the task at `idx` is removed: indices
/// above it come down by one.
pub open spec fn shift_entry(v: usize, idx: usize) -> usize {
    if v > idx {
        (v - 1) as usize
    } else {
        v
    }
}

/// Removing the viewed task at view position `s` keeps the view order
/// well-formed: dropping that position and shifting the storage indices
/// above the removed one yields the view order of the shortened task list.
pub proof fn lemma_view_order_remove(vo: Seq<usize>, tasks: Seq<TaskModel>, s: int, nvo: Seq<usize>)
    requires
        view_order_wf(vo, tasks),
        0 <= s < vo.len(),
        nvo.len() == vo.len() - 1,
        forall|j: int| 0 <= j < nvo.len() ==> #[trigger] nvo[j] == shift_entry(vo.remove(s)[j], vo[s]),
    ensures
        view_order_wf(nvo, tasks.remove(vo[s] as int)),
{
    let idx = vo[s];
    let base = vo.remove(s);
    let nt = tasks.remove(idx as int);
    vo.remove_ensures(s);
    tasks.remove_ensures(idx as int);
    assert(nt.len() == tasks.len() - 1);
    assert forall|j: int| 0 <= j < base.len() implies (#[trigger] base[j]) != idx && base[j]
        < tasks.len() by {
        if j < s {
            assert(base[j] == vo[j]);
            lemma_view_order_distinct(vo, tasks, j, s);
        } else {
            assert(base[j] == vo[j + 1]);
            lemma_view_order_distinct(vo, tasks, j + 1, s);
        }
    }
    assert forall|j: int| 0 <= j < base.len() implies sort_key(
        nt[(#[trigger] shift_entry(base[j], idx)) as int],
    ) == sort_key(tasks[base[j] as int]) && shift_entry(base[j], idx) < nt.len() by {
        let v = base[j];
        if v > idx {
            assert(nt[v - 1] == tasks[v as int]);
        } else {
            assert(nt[v as int] == tasks[v as int]);
        }
    }
    assert forall|i: int, j: int| 0 <= i < j < base.len() implies view_lt(tasks, base[i], base[j]) by {
        if j < s {
            assert(base[i] == vo[i] && base[j] == vo[j]);
            assert(view_lt(tasks, vo[i], vo[j]));
        } else if i < s {
            assert(base[i] == vo[i] && base[j] == vo[j + 1]);
            assert(view_lt(tasks, vo[i], vo[j + 1]));
        } else {
            assert(base[i] == vo[i + 1] && base[j] == vo[j + 1]);
            assert(view_lt(tasks, vo[i + 1], vo[j + 1]));
        }
    }
    assert forall|i: int, j: int|
        #![trigger nvo[i], nvo[j]]
        0 <= i < j < nvo.len() implies view_lt(nt, nvo[i], nvo[j]) by {
        let a = base[i];
        let b = base[j];
        assert(view_lt(tasks, a, b));
        assert(nvo[i] == shift_entry(a, idx));
        assert(nvo[j] == shift_entry(b, idx));
        assert(sort_key(nt[shift_entry(a, idx) as int]) == sort_key(tasks[a as int]));
        assert(sort_key(nt[shift_entry(b, idx) as int]) == sort_key(tasks[b as int]));
    }
    assert forall|k: int| 0 <= k < nt.len() implies nvo.contains(#[trigger] (k as usize)) by {
        if k < idx {
            assert(vo.contains((k as int) as usize));
            let p = choose|p: int| 0 <= p < vo.len() && vo[p] == k as usize;
            assert(p != s);
            let q = if p < s {
                p
            } else {
                p - 1
            };
            assert(base[q] == k as usize);
            assert(nvo[q] == shift_entry(k as usize, idx));
            assert(nvo[q] == k as usize);
        } else {
            assert(0 <= k + 1 < tasks.len());
            assert(vo.contains(((k + 1) as int) as usize));
            let p = choose|p: int| 0 <= p < vo.len() && vo[p] == (k + 1) as usize;
            assert(p != s);
            let q = if p < s {
                p
            } else {
                p - 1
            };
            assert(base[q] == (k + 1) as usize);
            assert(nvo[q] == shift_entry((k + 1) as usize, idx));
            assert(nvo[q] == k as usize);
        }
    }
}

/// The priority of the last task in view order that has one: scanning the
/// view from the end, the first defined priority.
pub open spec fn last_defined_priority(tasks: Seq<TaskModel>, vo: Seq<usize>) -> Option<u8>
    decreases vo.len(),
{
    if vo.len() == 0 {
        None
    } else if tasks[vo.last() as int].priority is Some {
        tasks[vo.last() as int].priority
    } else {
        last_defined_priority(tasks, vo.drop_last())
    }
}

} // verus!
