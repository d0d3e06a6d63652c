//! The persistent list of scratchpads: which windows are marked, in the order
//! in which they were marked.

use crate::snapshot::{window_ids, window_views, Window, WindowView};
use crate::text::{decimal, integer_to_string};
use vstd::prelude::*;
use vstd::string::*;

verus! {

/// One marked window.
#[derive(Clone, Debug, PartialEq, Eq)]
pub struct ScratchEntry {
    pub id: i64,
    pub title: String,
    pub app_id: String,
    /// The workspace the window was on when it was marked.
    pub workspace: i64,
}

/// Mathematical model of a [`ScratchEntry`].
pub ghost struct EntryView {
    pub id: i64,
    pub title: Seq<char>,
    pub app_id: Seq<char>,
    pub workspace: i64,
}

impl View for ScratchEntry {
    type V = EntryView;

    open spec fn view(&self) -> EntryView {
        EntryView {
            id: self.id,
            title: self.title@,
            app_id: self.app_id@,
            workspace: self.workspace,
        }
    }
}

/// The models of a list of entries, in order.
pub open spec fn entry_views(entries: Seq<ScratchEntry>) -> Seq<EntryView> {
    entries.map_values(|e: ScratchEntry| e@)
}

/// Whether some entry is for the window with this id.
pub open spec fn has_id(store: Seq<EntryView>, id: i64) -> bool {
    exists|i: int| 0 <= i < store.len() && (#[trigger] store[i]).id == id
}

/// No two entries are for the same window.
pub open spec fn distinct_ids(store: Seq<EntryView>) -> bool {
    forall|i: int, j: int|
        0 <= i < j < store.len() ==> (#[trigger] store[i]).id != (#[trigger] store[j]).id
}

/// The store without the entries whose window is not live, the others in
/// their order.
pub open spec fn reconcile(store: Seq<EntryView>, live: Set<i64>) -> Seq<EntryView>
    decreases store.len(),
{
    if store.len() == 0 {
        Seq::empty()
    } else {
        let before = reconcile(store.drop_last(), live);
        if live.contains(store.last().id) {
            before.push(store.last())
        } else {
            before
        }
    }
}

/// The text that stands for a missing title or application identifier.
pub open spec fn unknown() -> Seq<char> {
    "unknown"@
}

/// The entry that marking a window records.
pub open spec fn entry_of(w: WindowView) -> EntryView {
    EntryView {
        id: w.id,
        title: match w.title {
            Some(t) => t,
            None => unknown(),
        },
        app_id: match w.app_id {
            Some(a) => a,
            None => unknown(),
        },
        workspace: w.workspace_id,
    }
}

/// The store after marking a window: unchanged where the window is marked
/// already, else with the window's entry at the end.
pub open spec fn marked(store: Seq<EntryView>, w: WindowView) -> Seq<EntryView> {
    if has_id(store, w.id) {
        store
    } else {
        store.push(entry_of(w))
    }
}

/// Whether `index`, counted from one, names an entry of the store.
pub open spec fn in_bounds(store: Seq<EntryView>, index: usize) -> bool {
    1 <= index <= store.len()
}

/// The line that lists the entry at position `i`, counted from zero.
pub open spec fn list_line(i: int, e: EntryView) -> Seq<char> {
    "["@ + decimal(i + 1) + "] "@ + e.app_id + " | "@ + e.title + " | from workspace "@ + decimal(
        e.workspace - 1,
    ) + "\n"@
}

/// The lines that list the first `n` entries.
pub open spec fn list_lines(store: Seq<EntryView>, n: nat) -> Seq<char>
    decreases n,
{
    if n == 0 {
        Seq::empty()
    } else {
        list_lines(store, (n - 1) as nat) + list_line(n - 1, store[n - 1])
    }
}

/// The text that lists a store: a heading, then one line for each entry in
/// order, or the word `none` where there is no entry.
pub open spec fn list_message(store: Seq<EntryView>) -> Seq<char> {
    "Scratchpads:\n\n"@ + if store.len() == 0 {
        "none"@
    } else {
        list_lines(store, store.len())
    }
}

/// The ordered list of marked windows.
#[derive(Clone, Debug, PartialEq, Eq)]
pub struct ScratchState {
    windows: Vec<ScratchEntry>,
}

impl View for ScratchState {
    type V = Seq<EntryView>;

    closed spec fn view(&self) -> Seq<EntryView> {
        entry_views(self.windows@)
    }
}

impl Default for ScratchState {
    fn default() -> (r: ScratchState)
        ensures
            r@ == Seq::<EntryView>::empty(),
            r.wf(),
    {
        ScratchState::new()
    }
}

impl ScratchState {
    /// The store is well formed: no two entries are for the same window.
    pub open spec fn wf(&self) -> bool {
        distinct_ids(self@)
    }

    /// The store without entries.
    pub fn new() -> (r: ScratchState)
        ensures
            r@ == Seq::<EntryView>::empty(),
            r.wf(),
    {
        let r = ScratchState { windows: Vec::new() };
        assert(r@ =~= Seq::empty());
        r
    }

    /// The store that holds the given entries, where no two of them are for
    /// the same window; `None` where two are.
    pub fn from_entries(entries: Vec<ScratchEntry>) -> (r: Option<ScratchState>)
        ensures
            match r {
                Some(state) => state@ == entry_views(entries@) && state.wf(),
                None => !distinct_ids(entry_views(entries@)),
            },
    {
        let ghost views = entry_views(entries@);
        let mut j: usize = 0;
        while j < entries.len()
            invariant
                j <= entries.len(),
                views == entry_views(entries@),
                forall|a: int, b: int|
                    0 <= a < b < j ==> (#[trigger] views[a]).id != (#[trigger] views[b]).id,
            decreases entries.len() - j,
        {
            let mut i: usize = 0;
            while i < j
                invariant
                    i <= j < entries.len(),
                    views == entry_views(entries@),
                    forall|a: int| 0 <= a < i ==> (#[trigger] views[a]).id != views[j as int].id,
                decreases j - i,
            {
                if entries[i].id == entries[j].id {
                    assert(views[i as int].id == views[j as int].id);
                    return None;
                }
                i += 1;
            }
            j += 1;
        }
        Some(ScratchState { windows: entries })
    }

    /// The entries, in order.
    pub fn entries(&self) -> (r: &Vec<ScratchEntry>)
        ensures
            entry_views(r@) == self@,
    {
        &self.windows
    }

    /// The number of entries.
    pub fn len(&self) -> (n: usize)
        ensures
            n == self@.len(),
    {
        self.windows.len()
    }

    /// Whether some entry is for the window with this id.
    pub fn contains_id(&self, id: i64) -> (r: bool)
        ensures
            r == has_id(self@, id),
    {
        let mut i: usize = 0;
        while i < self.windows.len()
            invariant
                i <= self.windows.len(),
                forall|k: int| 0 <= k < i ==> (#[trigger] self@[k]).id != id,
            decreases self.windows.len() - i,
        {
            if self.windows[i].id == id {
                assert(self@[i as int].id == id);
                return true;
            }
            i += 1;
        }
        false
    }

    /// The id of the window of the entry at `index`, counted from one;
    /// `None` where the store has no entry there.
    pub fn id_at(&self, index: usize) -> (r: Option<i64>)
        ensures
            r == (if in_bounds(self@, index) {
                Some(self@[index - 1].id)
            } else {
                None
            }),
    {
        if index == 0 || index > self.windows.len() {
            None
        } else {
            Some(self.windows[index - 1].id)
        }
    }

    /// Marks a window: where no entry is for it yet, its entry is put at
    /// the end and `true` is returned; else the store stays as it is.
    pub fn mark(&mut self, w: &Window) -> (added: bool)
        ensures
            final(self)@ == marked(old(self)@, w@),
            added == !has_id(old(self)@, w.id),
            old(self).wf() ==> final(self).wf(),
    {
        if self.contains_id(w.id) {
            return false;
        }
        let title = match &w.title {
            Some(t) => t.clone(),
            None => "unknown".to_owned(),
        };
        let app_id = match &w.app_id {
            Some(a) => a.clone(),
            None => "unknown".to_owned(),
        };
        let entry = ScratchEntry { id: w.id, title, app_id, workspace: w.workspace_id };
        assert(entry@ == entry_of(w@));
        self.windows.push(entry);
        assert(self@ =~= old(self)@.push(entry_of(w@)));
        true
    }

    /// Removes the entry at `index`, counted from one, and returns it; where
    /// the store has no entry there it stays as it is.
    pub fn remove(&mut self, index: usize) -> (r: Option<ScratchEntry>)
        ensures
            match r {
                Some(entry) => {
                    &&& in_bounds(old(self)@, index)
                    &&& entry@ == old(self)@[index - 1]
                    &&& final(self)@ == old(self)@.remove(index - 1)
                },
                None => !in_bounds(old(self)@, index) && final(self)@ == old(self)@,
            },
            old(self).wf() ==> final(self).wf(),
    {
        if index == 0 || index > self.windows.len() {
            None
        } else {
            let entry = self.windows.remove(index - 1);
            assert(self@ =~= old(self)@.remove(index - 1));
            Some(entry)
        }
    }
}

/// Whether the snapshot holds a window with this id.
pub fn is_live(windows: &Vec<Window>, id: i64) -> (r: bool)
    ensures
        r == window_ids(window_views(windows@)).contains(id),
{
    let ghost views = window_views(windows@);
    let mut i: usize = 0;
    while i < windows.len()
        invariant
            i <= windows.len(),
            views == window_views(windows@),
            forall|k: int| 0 <= k < i ==> (#[trigger] views[k]).id != id,
        decreases windows.len() - i,
    {
        if windows[i].id == id {
            assert(views[i as int].id == id);
            return true;
        }
        i += 1;
    }
    false
}

/// Reconciling a store whose last entry is known is reconciling what is
/// before it, and keeping the last where its window is live.
pub proof fn lemma_reconcile_push(store: Seq<EntryView>, e: EntryView, live: Set<i64>)
    ensures
        reconcile(store.push(e), live) == if live.contains(e.id) {
            reconcile(store, live).push(e)
        } else {
            reconcile(store, live)
        },
{
    assert(store.push(e).drop_last() =~= store);
}

/// Drops every entry whose window is not in the snapshot; the other entries
/// keep their order.
pub fn reconcile_state(state: &mut ScratchState, windows: &Vec<Window>)
    ensures
        final(state)@ == reconcile(old(state)@, window_ids(window_views(windows@))),
        old(state).wf() ==> final(state).wf(),
{
    let ghost live = window_ids(window_views(windows@));
    let ghost before = state@;
    let mut kept: usize = 0;
    let ghost mut seen: int = 0;
    assert(before.take(0) =~= Seq::empty());
    assert(before.skip(0) =~= before);
    assert(Seq::<EntryView>::empty() + before =~= before);
    while kept < state.windows.len()
        invariant
            0 <= seen <= before.len(),
            kept == reconcile(before.take(seen), live).len(),
            state@ == reconcile(before.take(seen), live) + before.skip(seen),
            live == window_ids(window_views(windows@)),
        decreases before.len() - seen,
    {
        let ghost done = reconcile(before.take(seen), live);
        assert(state@[kept as int] == before.skip(seen)[0]);
        assert(before.take(seen + 1) =~= before.take(seen).push(before[seen]));
        proof {
            lemma_reconcile_push(before.take(seen), before[seen], live);
        }
        if is_live(windows, state.windows[kept].id) {
            assert(state@ =~= done.push(before[seen]) + before.skip(seen + 1));
            kept += 1;
        } else {
            let ghost full = state@;
            state.windows.remove(kept);
            assert(state@ =~= full.remove(kept as int));
            assert(full.remove(kept as int) =~= done + before.skip(seen + 1));
        }
        proof {
            seen = seen + 1;
        }
    }
    proof {
        assert(before.skip(seen).len() == 0);
        assert(before.take(seen) =~= before);
        assert(state@ =~= reconcile(before, live));
        if distinct_ids(before) {
            lemma_reconcile_keeps_distinct(before, live);
        }
    }
}

/// A store that reconciling leaves as long as it was is left as it was.
pub proof fn lemma_reconcile_len(store: Seq<EntryView>, live: Set<i64>)
    ensures
        reconcile(store, live).len() <= store.len(),
        reconcile(store, live).len() == store.len() ==> reconcile(store, live) == store,
    decreases store.len(),
{
    if store.len() > 0 {
        lemma_reconcile_len(store.drop_last(), live);
        if reconcile(store, live).len() == store.len() {
            assert(store.drop_last().push(store.last()) =~= store);
        }
    }
}

/// Every entry of a reconciled store is an entry of the store, at a position
/// that grows with the position in the reconciled store.
pub open spec fn is_selection(chosen: Seq<EntryView>, store: Seq<EntryView>, at: Seq<int>) -> bool {
    &&& at.len() == chosen.len()
    &&& forall|k: int|
        0 <= k < chosen.len() ==> 0 <= #[trigger] at[k] < store.len() && chosen[k] == store[at[k]]
    &&& forall|a: int, b: int| 0 <= a < b < at.len() ==> #[trigger] at[a] < #[trigger] at[b]
}

/// The positions in the store of the entries that reconciling keeps.
pub open spec fn kept_positions(store: Seq<EntryView>, live: Set<i64>) -> Seq<int>
    decreases store.len(),
{
    if store.len() == 0 {
        Seq::empty()
    } else {
        let before = kept_positions(store.drop_last(), live);
        if live.contains(store.last().id) {
            before.push(store.len() - 1)
        } else {
            before
        }
    }
}

/// The reconciled store is the store read at the kept positions, which grow
/// and are exactly the positions of the entries whose window is live.
pub proof fn lemma_kept_positions(store: Seq<EntryView>, live: Set<i64>)
    ensures
        is_selection(reconcile(store, live), store, kept_positions(store, live)),
        forall|i: int|
            0 <= i < store.len() ==> (live.contains((#[trigger] store[i]).id) <==> kept_positions(
                store,
                live,
            ).contains(i)),
    decreases store.len(),
{
    let at = kept_positions(store, live);
    let chosen = reconcile(store, live);
    if store.len() == 0 {
    } else {
        let shorter = store.drop_last();
        let last = store.len() - 1;
        lemma_kept_positions(shorter, live);
        let at0 = kept_positions(shorter, live);
        let chosen0 = reconcile(shorter, live);
        assert forall|k: int| 0 <= k < chosen.len() implies 0 <= #[trigger] at[k] < store.len()
            && chosen[k] == store[at[k]] by {
            if k < chosen0.len() {
                assert(at[k] == at0[k]);
                assert(chosen[k] == chosen0[k]);
                assert(shorter[at0[k]] == store[at0[k]]);
            }
        }
        assert forall|a: int, b: int| 0 <= a < b < at.len() implies #[trigger] at[a]
            < #[trigger] at[b] by {
            assert(at[a] == at0[a]);
            assert(at0[a] < shorter.len());
            if b < at0.len() {
                assert(at[b] == at0[b]);
            }
        }
        assert forall|i: int| 0 <= i < store.len() implies (live.contains((#[trigger] store[i]).id)
            <==> at.contains(i)) by {
            if i < last {
                assert(store[i] == shorter[i]);
                if at0.contains(i) {
                    let k = choose|k: int| 0 <= k < at0.len() && at0[k] == i;
                    assert(at[k] == i);
                }
                if at.contains(i) {
                    let k = choose|k: int| 0 <= k < at.len() && at[k] == i;
                    if k < at0.len() {
                        assert(at0[k] == i);
                    }
                }
            } else {
                if live.contains(store[i].id) {
                    assert(at[at.len() - 1] == i);
                }
                if at.contains(i) {
                    let k = choose|k: int| 0 <= k < at.len() && at[k] == i;
                    if k < at0.len() {
                        assert(at0[k] < shorter.len());
                    }
                }
            }
        }
    }
}

/// Reconciling keeps a store well formed.
pub proof fn lemma_reconcile_keeps_distinct(store: Seq<EntryView>, live: Set<i64>)
    requires
        distinct_ids(store),
    ensures
        distinct_ids(reconcile(store, live)),
{
    lemma_kept_positions(store, live);
    let at = kept_positions(store, live);
    let chosen = reconcile(store, live);
    assert forall|i: int, j: int| 0 <= i < j < chosen.len() implies (#[trigger] chosen[i]).id != (
    #[trigger] chosen[j]).id by {
        assert(at[i] < at[j]);
        assert(chosen[i] == store[at[i]]);
        assert(chosen[j] == store[at[j]]);
    }
}

/// The text that lists the scratchpads for the user.
pub fn notify_workspace_list(state: &ScratchState) -> (message: String)
    ensures
        message@ == list_message(state@),
{
    let mut message = String::from_str("Scratchpads:\n\n");
    let n = state.windows.len();
    let mut i: usize = 0;
    assert(message@ =~= "Scratchpads:\n\n"@ + list_lines(state@, 0));
    while i < n
        invariant
            i <= n,
            n == state.windows.len(),
            message@ == "Scratchpads:\n\n"@ + list_lines(state@, i as nat),
        decreases n - i,
    {
        let entry = &state.windows[i];
        let ghost listed = message@;
        assert(state@[i as int] == entry@);
        message.append("[");
        message.append(integer_to_string(i as i128 + 1).as_str());
        message.append("] ");
        message.append(entry.app_id.as_str());
        message.append(" | ");
        message.append(entry.title.as_str());
        message.append(" | from workspace ");
        message.append(integer_to_string(entry.workspace as i128 - 1).as_str());
        message.append("\n");
        assert(message@ =~= listed + list_line(i as int, entry@));
        assert(listed + list_line(i as int, entry@) =~= "Scratchpads:\n\n"@ + list_lines(
            state@,
            (i + 1) as nat,
        ));
        i += 1;
    }
    if n == 0 {
        message.append("none");
    }
    message
}

} // verus!
