//! Fan-in: results come back tagged with the position of their task, in
//! whatever order the concurrent units finish, and are put back in
//! submission order. A position that never reports is left out.
use vstd::prelude::*;

use crate::executor::{fetch_model, run_task, task_outcome};
use crate::task::{Config, TaskInput, TaskOutput};

verus! {

/// The result that the arrivals hold for position `i`: the last one
/// tagged with `i`, if any.
pub open spec fn latest_for(arrivals: Seq<(usize, TaskOutput)>, i: int) -> Option<TaskOutput>
    decreases arrivals.len(),
{
    if arrivals.len() == 0 {
        None
    } else if arrivals.last().0 as int == i {
        Some(arrivals.last().1)
    } else {
        latest_for(arrivals.drop_last(), i)
    }
}

/// The results held by the slots, in slot order, empty slots left out.
pub open spec fn present(slots: Seq<Option<TaskOutput>>) -> Seq<TaskOutput>
    decreases slots.len(),
{
    if slots.len() == 0 {
        seq![]
    } else {
        let rest = present(slots.drop_last());
        match slots.last() {
            Some(o) => rest.push(o),
            None => rest,
        }
    }
}

/// Some arrival is tagged with position `i`.
pub open spec fn has_report(arrivals: Seq<(usize, TaskOutput)>, i: int) -> bool {
    exists|j: int| 0 <= j < arrivals.len() && #[trigger] arrivals[j].0 as int == i
}

/// The slots of a batch of `n` tasks after `arrivals`.
pub open spec fn slots_after(n: nat, arrivals: Seq<(usize, TaskOutput)>) -> Seq<Option<TaskOutput>> {
    Seq::new(n, |i: int| latest_for(arrivals, i))
}

/// The reassembled result list of a batch of `n` tasks after `arrivals`.
pub open spec fn reassembled(n: nat, arrivals: Seq<(usize, TaskOutput)>) -> Seq<TaskOutput> {
    present(slots_after(n, arrivals))
}

/// No two arrivals are tagged with the same position.
pub open spec fn distinct_positions(arrivals: Seq<(usize, TaskOutput)>) -> bool {
    forall|j: int, k: int|
        0 <= j < arrivals.len() && 0 <= k < arrivals.len() && arrivals[j].0 == arrivals[k].0
            ==> j == k
}

/// Puts each arrival into the slot of its position; a later arrival for
/// a position replaces an earlier one, and one tagged past the end is
/// ignored.
pub fn place_results(n: usize, arrivals: Vec<(usize, TaskOutput)>) -> (r: Vec<Option<TaskOutput>>)
    ensures
        r@ == slots_after(n as nat, arrivals@),
{
    let ghost all = arrivals@;
    let mut slots: Vec<Option<TaskOutput>> = Vec::new();
    let mut k: usize = 0;
    while k < n
        invariant
            k <= n,
            slots@.len() == k,
            forall|i: int| 0 <= i < k ==> slots@[i] is None,
        decreases n - k,
    {
        slots.push(None);
        k = k + 1;
    }
    let mut rest = arrivals;
    while rest.len() > 0
        invariant
            slots@.len() == n,
            forall|i: int|
                0 <= i < n ==> (match #[trigger] slots@[i] {
                    Some(o) => latest_for(all, i) == Some(o),
                    None => latest_for(all, i) == latest_for(rest@, i),
                }),
        decreases rest@.len(),
    {
        let ghost before = rest@;
        let item = rest.pop();
        if let Some((pos, out)) = item {
            assert(rest@ == before.drop_last());
            if pos < n && slots[pos].is_none() {
                slots.set(pos, Some(out));
            }
        }
    }
    assert(slots@ =~= slots_after(n as nat, all));
    slots
}

/// The results held by the slots, in slot order, empty slots left out.
pub fn gather_results(slots: &Vec<Option<TaskOutput>>) -> (r: Vec<TaskOutput>)
    ensures
        r@ == present(slots@),
{
    let mut out: Vec<TaskOutput> = Vec::new();
    let mut k: usize = 0;
    while k < slots.len()
        invariant
            k <= slots@.len(),
            out@ == present(slots@.take(k as int)),
        decreases slots@.len() - k,
    {
        assert(slots@.take(k + 1).drop_last() =~= slots@.take(k as int));
        match &slots[k] {
            Some(o) => {
                out.push(o.duplicate());
            },
            None => {},
        }
        k = k + 1;
    }
    assert(slots@.take(slots@.len() as int) =~= slots@);
    out
}

/// Reassembles the results of a batch of `n` tasks from arrivals tagged
/// with their task's position, in submission order whatever the order of
/// arrival.
pub fn reassemble(n: usize, arrivals: Vec<(usize, TaskOutput)>) -> (r: Vec<TaskOutput>)
    ensures
        r@ == reassembled(n as nat, arrivals@),
{
    let slots = place_results(n, arrivals);
    gather_results(&slots)
}

/// Runs every task of a batch to its end, task `i` against a network whose
/// fetch yields `fetches[i]`, and lists the results in input order.
pub fn run_batch(tasks: &Vec<TaskInput>, config: &Config, fetches: &Vec<Result<(), String>>) -> (r:
    Vec<TaskOutput>)
    requires
        fetches@.len() == tasks@.len(),
    ensures
        r@.len() == tasks@.len(),
        forall|i: int|
            0 <= i < tasks@.len() ==> r@[i]@ == task_outcome(tasks@[i]@, fetch_model(&fetches@[i])),
        forall|i: int| 0 <= i < tasks@.len() ==> r@[i].task_id == tasks@[i].task_id,
{
    let mut out: Vec<TaskOutput> = Vec::new();
    let mut k: usize = 0;
    while k < tasks.len()
        invariant
            k <= tasks@.len(),
            fetches@.len() == tasks@.len(),
            out@.len() == k,
            forall|i: int|
                0 <= i < k ==> out@[i]@ == task_outcome(tasks@[i]@, fetch_model(&fetches@[i])),
        decreases tasks@.len() - k,
    {
        let o = run_task(&tasks[k], config, &fetches[k]);
        out.push(o);
        k = k + 1;
    }
    out
}

proof fn lemma_latest_for_position(arrivals: Seq<(usize, TaskOutput)>, j: int)
    requires
        distinct_positions(arrivals),
        0 <= j < arrivals.len(),
    ensures
        latest_for(arrivals, arrivals[j].0 as int) == Some(arrivals[j].1),
    decreases arrivals.len(),
{
    let last = arrivals.len() - 1;
    if j != last {
        let shorter = arrivals.drop_last();
        assert(arrivals[last].0 != arrivals[j].0);
        assert(distinct_positions(shorter)) by {
            assert forall|a: int, b: int|
                0 <= a < shorter.len() && 0 <= b < shorter.len() && shorter[a].0 == shorter[b].0
                implies a == b by {
                assert(shorter[a] == arrivals[a] && shorter[b] == arrivals[b]);
            }
        }
        lemma_latest_for_position(shorter, j);
        assert(shorter[j] == arrivals[j]);
    }
}

proof fn lemma_latest_for_found(arrivals: Seq<(usize, TaskOutput)>, i: int)
    ensures
        latest_for(arrivals, i) matches Some(v) ==> exists|j: int|
            0 <= j < arrivals.len() && #[trigger] arrivals[j] == (i as usize, v) && i == arrivals[j].0
                as int,
        latest_for(arrivals, i) is None ==> forall|j: int|
            0 <= j < arrivals.len() ==> #[trigger] arrivals[j].0 as int != i,
    decreases arrivals.len(),
{
    if arrivals.len() > 0 {
        let shorter = arrivals.drop_last();
        lemma_latest_for_found(shorter, i);
        if let Some(v) = latest_for(arrivals, i) {
            if arrivals.last().0 as int != i {
                let j = choose|j: int|
                    0 <= j < shorter.len() && #[trigger] shorter[j] == (i as usize, v) && i
                        == shorter[j].0 as int;
                assert(arrivals[j] == shorter[j]);
            } else {
                assert(arrivals[arrivals.len() - 1] == (i as usize, v));
            }
        } else {
            assert forall|j: int| 0 <= j < arrivals.len() implies #[trigger] arrivals[j].0 as int
                != i by {
                if j < shorter.len() {
                    assert(arrivals[j] == shorter[j]);
                }
            }
        }
    }
}

proof fn lemma_present_all_filled(slots: Seq<Option<TaskOutput>>)
    requires
        forall|i: int| 0 <= i < slots.len() ==> #[trigger] slots[i] is Some,
    ensures
        present(slots).len() == slots.len(),
        forall|i: int| 0 <= i < slots.len() ==> Some(#[trigger] present(slots)[i]) == slots[i],
    decreases slots.len(),
{
    if slots.len() > 0 {
        let shorter = slots.drop_last();
        assert forall|i: int| 0 <= i < shorter.len() implies #[trigger] shorter[i] is Some by {
            assert(shorter[i] == slots[i]);
        }
        lemma_present_all_filled(shorter);
        assert(slots[slots.len() - 1] is Some);
        assert forall|i: int| 0 <= i < slots.len() implies Some(#[trigger] present(slots)[i])
            == slots[i] by {
            if i < shorter.len() {
                assert(shorter[i] == slots[i]);
            }
        }
    }
}

/// When every task of a batch reports exactly once, each result tagged with
/// the position of its task and carrying that task's identifier, the
/// reassembled list has one row per task, the row at each position is the
/// one reported for it, and its identifier is that of the task at the same
/// position.
pub proof fn lemma_complete_batch_keeps_rows(tasks: Seq<TaskInput>, arrivals: Seq<(usize, TaskOutput)>)
    requires
        distinct_positions(arrivals),
        forall|j: int|
            0 <= j < arrivals.len() ==> (#[trigger] arrivals[j]).0 < tasks.len()
                && arrivals[j].1.task_id == tasks[arrivals[j].0 as int].task_id,
        forall|i: int| 0 <= i < tasks.len() ==> #[trigger] has_report(arrivals, i),
    ensures
        reassembled(tasks.len(), arrivals).len() == tasks.len(),
        forall|j: int|
            0 <= j < arrivals.len() ==> reassembled(tasks.len(), arrivals)[#[trigger] arrivals[j].0 as int]
                == arrivals[j].1,
        forall|i: int|
            0 <= i < tasks.len() ==> (#[trigger] reassembled(tasks.len(), arrivals)[i]).task_id
                == tasks[i].task_id,
{
    let n = tasks.len();
    let slots = slots_after(n, arrivals);
    assert forall|i: int| 0 <= i < n implies #[trigger] slots[i] is Some by {
        assert(has_report(arrivals, i));
        let j = choose|j: int| 0 <= j < arrivals.len() && #[trigger] arrivals[j].0 as int == i;
        lemma_latest_for_position(arrivals, j);
    }
    lemma_present_all_filled(slots);
    assert forall|j: int| 0 <= j < arrivals.len() implies reassembled(n, arrivals)[
        #[trigger] arrivals[j].0 as int] == arrivals[j].1 by {
        lemma_latest_for_position(arrivals, j);
    }
    assert forall|i: int| 0 <= i < n implies (#[trigger] reassembled(n, arrivals)[i]).task_id
        == tasks[i].task_id by {
        assert(has_report(arrivals, i));
        let j = choose|j: int| 0 <= j < arrivals.len() && #[trigger] arrivals[j].0 as int == i;
        lemma_latest_for_position(arrivals, j);
    }
}

/// The reassembled list does not depend on the order in which results
/// arrive: two arrival sequences that hold the same tagged results, each
/// position at most once, give the same list.
pub proof fn lemma_arrival_order_irrelevant(
    n: nat,
    first: Seq<(usize, TaskOutput)>,
    second: Seq<(usize, TaskOutput)>,
)
    requires
        distinct_positions(first),
        distinct_positions(second),
        forall|x: (usize, TaskOutput)| first.contains(x) <==> second.contains(x),
    ensures
        reassembled(n, first) == reassembled(n, second),
{
    assert forall|i: int| 0 <= i < n implies latest_for(first, i) == latest_for(second, i) by {
        lemma_latest_for_found(first, i);
        lemma_latest_for_found(second, i);
        if let Some(v) = latest_for(first, i) {
            let j = choose|j: int|
                0 <= j < first.len() && #[trigger] first[j] == (i as usize, v) && i == first[j].0 as int;
            assert(first.contains(first[j]));
            assert(second.contains(first[j]));
            let k = choose|k: int| 0 <= k < second.len() && second[k] == first[j];
            lemma_latest_for_position(second, k);
        } else if let Some(w) = latest_for(second, i) {
            let k = choose|k: int|
                0 <= k < second.len() && #[trigger] second[k] == (i as usize, w) && i == second[k].0
                    as int;
            assert(second.contains(second[k]));
            assert(first.contains(second[k]));
            let j = choose|j: int| 0 <= j < first.len() && first[j] == second[k];
            assert(first[j].0 as int == i);
        }
    }
    assert(slots_after(n, first) =~= slots_after(n, second));
}

} // verus!
