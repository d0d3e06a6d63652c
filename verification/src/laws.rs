//! Laws of the store and of the decisions, proved of their mathematical
//! models.

use crate::args::{ArgsView, Mode};
use crate::controller::{
    ns_plan, ns_store, out_of_bounds, recall_plan, remove_plan, removed, toggle_found,
    OutcomeView, Pending, PlanView,
};
use crate::snapshot::{
    first_match, lemma_first_match, lemma_some_match, satisfies, selection, window_ids,
    CriterionView, WindowView,
};
use crate::store::{
    distinct_ids, has_id, in_bounds, is_selection, kept_positions, lemma_kept_positions,
    lemma_reconcile_keeps_distinct, list_line, marked, reconcile, EntryView,
};
use vstd::prelude::*;

verus! {

/// Every entry of the store is for a live window.
pub open spec fn all_live(store: Seq<EntryView>, live: Set<i64>) -> bool {
    forall|i: int| 0 <= i < store.len() ==> live.contains((#[trigger] store[i]).id)
}

/// Exactly one entry of the store is for the window with this id.
pub open spec fn exactly_one(store: Seq<EntryView>, id: i64) -> bool {
    exists|i: int|
        0 <= i < store.len() && (#[trigger] store[i]).id == id && forall|j: int|
            0 <= j < store.len() && (#[trigger] store[j]).id == id ==> j == i
}

/// Every entry that reconciling keeps is for a live window.
pub proof fn reconciled_is_live(store: Seq<EntryView>, live: Set<i64>)
    ensures
        all_live(reconcile(store, live), live),
{
    lemma_kept_positions(store, live);
    let at = kept_positions(store, live);
    let chosen = reconcile(store, live);
    assert forall|k: int| 0 <= k < chosen.len() implies live.contains((#[trigger] chosen[k]).id) by {
        assert(at.contains(at[k]));
        assert(chosen[k] == store[at[k]]);
    }
}

/// Reconciling drops nothing from a store whose entries are all for live
/// windows.
pub proof fn reconcile_keeps_live_store(store: Seq<EntryView>, live: Set<i64>)
    requires
        all_live(store, live),
    ensures
        reconcile(store, live) == store,
    decreases store.len(),
{
    if store.len() > 0 {
        let shorter = store.drop_last();
        assert forall|i: int| 0 <= i < shorter.len() implies live.contains(
            (#[trigger] shorter[i]).id,
        ) by {
            assert(shorter[i] == store[i]);
        }
        reconcile_keeps_live_store(shorter, live);
        assert(live.contains(store[store.len() - 1].id));
        assert(shorter.push(store.last()) =~= store);
    }
}

/// Reconciling is idempotent: against the same live windows, reconciling a
/// reconciled store changes nothing.
pub proof fn reconcile_is_idempotent(store: Seq<EntryView>, live: Set<i64>)
    ensures
        reconcile(reconcile(store, live), live) == reconcile(store, live),
{
    reconciled_is_live(store, live);
    reconcile_keeps_live_store(reconcile(store, live), live);
}

/// Reconciling is correct: every entry it keeps is for a live window, every
/// entry for a live window is kept, and the kept entries stand in the order
/// in which they stood in the store.
pub proof fn reconcile_is_correct(store: Seq<EntryView>, live: Set<i64>)
    ensures
        all_live(reconcile(store, live), live),
        forall|i: int|
            0 <= i < store.len() && live.contains((#[trigger] store[i]).id) ==> reconcile(
                store,
                live,
            ).contains(store[i]),
        exists|at: Seq<int>|
            {
                &&& #[trigger] is_selection(reconcile(store, live), store, at)
                &&& forall|i: int|
                    0 <= i < store.len() ==> (live.contains((#[trigger] store[i]).id)
                        <==> at.contains(i))
            },
{
    reconciled_is_live(store, live);
    lemma_kept_positions(store, live);
    let at = kept_positions(store, live);
    let chosen = reconcile(store, live);
    assert forall|i: int|
        0 <= i < store.len() && live.contains((#[trigger] store[i]).id) implies chosen.contains(
        store[i],
    ) by {
        let k = choose|k: int| 0 <= k < at.len() && at[k] == i;
        assert(chosen[k] == store[i]);
    }
    assert(is_selection(chosen, store, at));
}

/// Marking is idempotent: marking a window a second time leaves the store
/// as the first marking left it, with exactly one entry for that window.
pub proof fn mark_is_idempotent(store: Seq<EntryView>, w: WindowView)
    requires
        distinct_ids(store),
    ensures
        marked(marked(store, w), w) == marked(store, w),
        exactly_one(marked(store, w), w.id),
        distinct_ids(marked(store, w)),
{
    let once = marked(store, w);
    if has_id(store, w.id) {
        let i = choose|i: int| 0 <= i < store.len() && (#[trigger] store[i]).id == w.id;
        assert forall|j: int| 0 <= j < store.len() && (#[trigger] store[j]).id == w.id implies j
            == i by {
            if j < i {
                assert(store[j].id != store[i].id);
            } else if i < j {
                assert(store[i].id != store[j].id);
            }
        }
    } else {
        let last = store.len() as int;
        assert(once[last].id == w.id);
        assert(has_id(once, w.id));
        assert forall|j: int| 0 <= j < once.len() && (#[trigger] once[j]).id == w.id implies j
            == last by {
            if j < last {
                assert(once[j] == store[j]);
            }
        }
        assert forall|i: int, j: int| 0 <= i < j < once.len() implies (#[trigger] once[i]).id != (
        #[trigger] once[j]).id by {
            assert(once[i] == store[i]);
            if j < last {
                assert(once[j] == store[j]);
            }
        }
    }
}

/// Marking twice in a row, against the same snapshot with a focused window:
/// after the second run the store is as after the first, with exactly one
/// entry for the focused window, and the second run neither saves nor asks
/// anything of the compositor.
pub proof fn second_mark_does_nothing(
    args: ArgsView,
    scratch_workspace: Seq<char>,
    store: Seq<EntryView>,
    windows: Seq<WindowView>,
)
    requires
        distinct_ids(store),
        args.mode() == Mode::Mark,
        first_match(windows, CriterionView::Focused).is_some(),
    ensures
        ({
            let focused = windows[first_match(windows, CriterionView::Focused).unwrap()];
            let once = ns_store(args, store, windows);
            &&& ns_store(args, once, windows) == once
            &&& exactly_one(once, focused.id)
            &&& ns_plan(args, scratch_workspace, once, windows) == PlanView {
                save: false,
                outcome: OutcomeView::Exit { code: 0 },
            }
        }),
{
    let live = window_ids(windows);
    lemma_first_match(windows, CriterionView::Focused);
    let i = first_match(windows, CriterionView::Focused).unwrap();
    let focused = windows[i];
    assert(live.contains(focused.id));
    let reconciled = reconcile(store, live);
    lemma_reconcile_keeps_distinct(store, live);
    reconciled_is_live(store, live);
    mark_is_idempotent(reconciled, focused);
    let once = marked(reconciled, focused);
    assert(once == ns_store(args, store, windows));
    assert(all_live(once, live)) by {
        assert forall|k: int| 0 <= k < once.len() implies live.contains((#[trigger] once[k]).id) by {
            if k < reconciled.len() {
                assert(once[k] == reconciled[k]);
            }
        }
    }
    reconcile_keeps_live_store(once, live);
    assert(has_id(once, focused.id));
}

/// Positions are counted from one: zero and every position past the end
/// are out of bounds. Out of bounds, removal and recall report the error
/// and leave the store as it is. In bounds, removal takes out the entry at
/// that position, and recall looks for the window of that entry.
pub proof fn index_bounds(
    store: Seq<EntryView>,
    windows: Seq<WindowView>,
    index: usize,
    scratch_workspace: Seq<char>,
    animations: bool,
)
    ensures
        in_bounds(store, index) <==> !(index == 0 || index > store.len()),
        !in_bounds(store, index) ==> {
            &&& removed(store, index) == store
            &&& remove_plan(store, windows, index) == out_of_bounds()
            &&& recall_plan(store, windows, index, scratch_workspace, animations)
                == out_of_bounds()
        },
        in_bounds(store, index) ==> {
            let entry = store[index - 1];
            let window = selection(windows, CriterionView::Id(entry.id));
            &&& removed(store, index) == store.remove(index - 1)
            &&& remove_plan(store, windows, index).save
            &&& remove_plan(store, windows, index).outcome == if window.found {
                OutcomeView::Await { pending: Pending::Restore(entry.id) }
            } else {
                OutcomeView::Exit { code: 0 }
            }
            &&& !recall_plan(store, windows, index, scratch_workspace, animations).save
            &&& recall_plan(store, windows, index, scratch_workspace, animations).outcome
                == if window.found {
                toggle_found(window, scratch_workspace, animations)
            } else {
                OutcomeView::Exit { code: 0 }
            }
        },
{
    if in_bounds(store, index) {
        id_is_live_iff_found(windows, store[index - 1].id);
    }
}

/// A window with a given id is found exactly where the snapshot holds that
/// id, and the window found has that id.
pub proof fn id_is_live_iff_found(windows: Seq<WindowView>, id: i64)
    ensures
        selection(windows, CriterionView::Id(id)).found <==> window_ids(windows).contains(id),
        selection(windows, CriterionView::Id(id)).found ==> selection(
            windows,
            CriterionView::Id(id),
        ).id == id,
{
    let c = CriterionView::Id(id);
    lemma_first_match(windows, c);
    if window_ids(windows).contains(id) {
        let i = choose|i: int| 0 <= i < windows.len() && #[trigger] windows[i].id == id;
        assert(satisfies(windows[i], c));
        lemma_some_match(windows, c, i);
    }
    if selection(windows, c).found {
        let k = first_match(windows, c).unwrap();
        assert(windows[k].id == id);
    }
}

/// Removal shifts what follows: after removing the entry at position `k`,
/// counted from one, the store is one entry shorter, the entries before `k`
/// are where they were, and each entry after `k` is one position lower and
/// is listed under the number that is one less.
pub proof fn remove_then_list(store: Seq<EntryView>, k: usize)
    requires
        in_bounds(store, k),
    ensures
        ({
            let rest = removed(store, k);
            &&& rest.len() == store.len() - 1
            &&& forall|i: int| 0 <= i < k - 1 ==> #[trigger] rest[i] == store[i]
            &&& forall|i: int| k - 1 <= i < rest.len() ==> #[trigger] rest[i] == store[i + 1]
            &&& forall|i: int|
                0 <= i < k - 1 ==> #[trigger] list_line(i, rest[i]) == list_line(i, store[i])
            &&& forall|i: int|
                k - 1 <= i < rest.len() ==> #[trigger] list_line(i, rest[i]) == list_line(
                    i,
                    store[i + 1],
                )
        }),
{
}

/// Within one run no entry is stale: the store is reconciled against the
/// snapshot that the decision reads, so a recall in bounds always toggles
/// its window, and a removal in bounds always gives its window back.
pub proof fn run_meets_no_stale_entry(
    args: ArgsView,
    scratch_workspace: Seq<char>,
    store: Seq<EntryView>,
    windows: Seq<WindowView>,
)
    ensures
        ({
            let live = reconcile(store, window_ids(windows));
            let outcome = ns_plan(args, scratch_workspace, store, windows).outcome;
            match args.mode() {
                Mode::Recall(index) => in_bounds(live, index) ==> {
                    let window = selection(windows, CriterionView::Id(live[index - 1].id));
                    &&& window.found
                    &&& window.id == live[index - 1].id
                    &&& outcome == toggle_found(window, scratch_workspace, args.animations)
                },
                Mode::Remove(index) => in_bounds(live, index) ==> outcome == (OutcomeView::Await {
                    pending: Pending::Restore(live[index - 1].id),
                }),
                _ => true,
            }
        }),
{
    let ids = window_ids(windows);
    let live = reconcile(store, ids);
    reconciled_is_live(store, ids);
    match args.mode() {
        Mode::Recall(index) => {
            if in_bounds(live, index) {
                assert(ids.contains(live[index - 1].id));
                id_is_live_iff_found(windows, live[index - 1].id);
            }
        },
        Mode::Remove(index) => {
            if in_bounds(live, index) {
                assert(ids.contains(live[index - 1].id));
            }
        },
        _ => {},
    }
}

} // verus!
