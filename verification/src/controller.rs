//! The decisions of one run: what to hide, show, mark, forget or launch, and
//! what to tell the user, from the request, the store and the snapshots.

use crate::action::{
    action_views, bring_scratchpad_window_to_focus, hide_actions, move_window_to_scratchpad,
    restore_actions, restore_window, show_actions, spawn_action, spawn_of, Action, ActionView,
};
use crate::args::{Args, ArgsView, Mode};
use crate::snapshot::{
    build_scratch_from_id, fetch_focused_window_full, fetch_focused_workspace, find_scratch_window,
    first_focused, first_match, lemma_first_match, selection, window_ids, window_views,
    workspace_views, CriterionView, FocusedWorkspace, FocusedWorkspaceView, ScratchWindow, Window,
    WindowView, Workspace, WorkspaceView,
};
use crate::store::{
    has_id, in_bounds, lemma_reconcile_len, list_message, marked, notify_workspace_list,
    reconcile, reconcile_state, EntryView, ScratchState,
};
use vstd::prelude::*;

verus! {

/// What the user is told when a position names no scratchpad.
pub const NO_SCRATCHPAD_AT_INDEX: &'static str = "No scratchpad window at this index";

/// What the user is told when no window is selected and nothing is launched.
pub const NO_SCRATCHPAD_FOUND: &'static str = "No scratchpad window found.";

/// What is left to decide once the focused workspace is known.
#[derive(Clone, Copy, Debug, PartialEq, Eq, Structural)]
pub enum Pending {
    /// Show the window where it is not on the focused workspace, hide it
    /// where it is.
    Toggle(ScratchWindow),
    /// Give the window with this id back to the focused workspace.
    Restore(i64),
}

/// How a run goes on after its decision.
#[derive(Clone, Debug, PartialEq, Eq)]
pub enum Outcome {
    /// Nothing is left to do: exit with this code.
    Exit { code: u8 },
    /// Tell the user this text, then exit with this code.
    Notify { message: String, code: u8 },
    /// Ask the compositor for these actions in order, then exit with
    /// success.
    Dispatch { actions: Vec<Action> },
    /// Query the workspaces and settle what is pending.
    Await { pending: Pending },
}

/// Mathematical model of an [`Outcome`].
pub ghost enum OutcomeView {
    Exit { code: u8 },
    Notify { message: Seq<char>, code: u8 },
    Dispatch { actions: Seq<ActionView> },
    Await { pending: Pending },
}

impl View for Outcome {
    type V = OutcomeView;

    open spec fn view(&self) -> OutcomeView {
        match *self {
            Outcome::Exit { code } => OutcomeView::Exit { code },
            Outcome::Notify { message, code } => OutcomeView::Notify { message: message@, code },
            Outcome::Dispatch { actions } => OutcomeView::Dispatch {
                actions: action_views(actions@),
            },
            Outcome::Await { pending } => OutcomeView::Await { pending },
        }
    }
}

/// The decision of a run: whether the store is to be written back, and how
/// the run goes on.
#[derive(Clone, Debug, PartialEq, Eq)]
pub struct Plan {
    /// The store differs from what was loaded and is to be saved before
    /// anything else is done.
    pub save: bool,
    pub outcome: Outcome,
}

/// Mathematical model of a [`Plan`].
pub ghost struct PlanView {
    pub save: bool,
    pub outcome: OutcomeView,
}

impl View for Plan {
    type V = PlanView;

    open spec fn view(&self) -> PlanView {
        PlanView { save: self.save, outcome: self.outcome@ }
    }
}

/// The report that a position names no scratchpad: nothing is saved, the
/// run fails.
pub open spec fn out_of_bounds() -> PlanView {
    PlanView {
        save: false,
        outcome: OutcomeView::Notify { message: NO_SCRATCHPAD_AT_INDEX@, code: 1 },
    }
}

/// Toggling a window that was found: a focused window is hidden at once;
/// for any other the focused workspace decides.
pub open spec fn toggle_found(window: ScratchWindow, scratch_workspace: Seq<char>, animations: bool)
    -> OutcomeView {
    if window.is_focused {
        OutcomeView::Dispatch { actions: hide_actions(window.id, scratch_workspace, animations) }
    } else {
        OutcomeView::Await { pending: Pending::Toggle(window) }
    }
}

/// The store after removal at `index`, counted from one: without that entry
/// where the position is in bounds, unchanged where it is not.
pub open spec fn removed(store: Seq<EntryView>, index: usize) -> Seq<EntryView> {
    if in_bounds(store, index) {
        store.remove(index - 1)
    } else {
        store
    }
}

/// The decision of a removal. Out of bounds, the user is told and the run
/// fails. In bounds the store is saved; the window goes back to the focused
/// workspace where it is still live.
pub open spec fn remove_plan(store: Seq<EntryView>, windows: Seq<WindowView>, index: usize)
    -> PlanView {
    if !in_bounds(store, index) {
        out_of_bounds()
    } else {
        let id = store[index - 1].id;
        PlanView {
            save: true,
            outcome: if window_ids(windows).contains(id) {
                OutcomeView::Await { pending: Pending::Restore(id) }
            } else {
                OutcomeView::Exit { code: 0 }
            },
        }
    }
}

/// The store after marking the focused window of the snapshot.
pub open spec fn mark_store(store: Seq<EntryView>, windows: Seq<WindowView>) -> Seq<EntryView> {
    match first_match(windows, CriterionView::Focused) {
        Some(i) => marked(store, windows[i]),
        None => store,
    }
}

/// The decision of marking. Without a focused window the run fails. A
/// window that is marked already changes nothing. Any other is recorded,
/// the store is saved, and the window is hidden.
pub open spec fn mark_plan(
    store: Seq<EntryView>,
    windows: Seq<WindowView>,
    scratch_workspace: Seq<char>,
    animations: bool,
) -> PlanView {
    match first_match(windows, CriterionView::Focused) {
        None => PlanView { save: false, outcome: OutcomeView::Exit { code: 1 } },
        Some(i) => if has_id(store, windows[i].id) {
            PlanView { save: false, outcome: OutcomeView::Exit { code: 0 } }
        } else {
            PlanView {
                save: true,
                outcome: OutcomeView::Dispatch {
                    actions: hide_actions(windows[i].id, scratch_workspace, animations),
                },
            }
        },
    }
}

/// The decision of a recall. Out of bounds, the user is told and the run
/// fails. An entry whose window is not live is passed over in silence.
/// Else the window is toggled.
pub open spec fn recall_plan(
    store: Seq<EntryView>,
    windows: Seq<WindowView>,
    index: usize,
    scratch_workspace: Seq<char>,
    animations: bool,
) -> PlanView {
    if !in_bounds(store, index) {
        out_of_bounds()
    } else {
        let window = selection(windows, CriterionView::Id(store[index - 1].id));
        PlanView {
            save: false,
            outcome: if window.found {
                toggle_found(window, scratch_workspace, animations)
            } else {
                OutcomeView::Exit { code: 0 }
            },
        }
    }
}

/// What is done where toggling selects no window: the command line given
/// for that case is launched; where none is given, or it names no program,
/// the user is told and the run fails.
pub open spec fn not_found(spawn: Option<Seq<char>>) -> OutcomeView {
    match spawn {
        Some(command) => match spawn_of(command) {
            Some(launch) => OutcomeView::Dispatch { actions: seq![launch] },
            None => OutcomeView::Notify { message: NO_SCRATCHPAD_FOUND@, code: 1 },
        },
        None => OutcomeView::Notify { message: NO_SCRATCHPAD_FOUND@, code: 1 },
    }
}

/// The decision of toggling by application identifier or title.
pub open spec fn toggle_plan(args: ArgsView, windows: Seq<WindowView>, scratch_workspace: Seq<char>)
    -> PlanView {
    let window = selection(windows, args.criterion());
    PlanView {
        save: false,
        outcome: if window.found {
            toggle_found(window, scratch_workspace, args.animations)
        } else {
            not_found(args.spawn)
        },
    }
}

/// The store after a run: reconciled with the snapshot, then changed as the
/// mode says.
pub open spec fn ns_store(args: ArgsView, store: Seq<EntryView>, windows: Seq<WindowView>) -> Seq<
    EntryView,
> {
    let live = reconcile(store, window_ids(windows));
    match args.mode() {
        Mode::Remove(index) => removed(live, index),
        Mode::Mark => mark_store(live, windows),
        _ => live,
    }
}

/// The decision of the mode, on the reconciled store.
pub open spec fn mode_plan(
    args: ArgsView,
    scratch_workspace: Seq<char>,
    live: Seq<EntryView>,
    windows: Seq<WindowView>,
) -> PlanView {
    match args.mode() {
        Mode::List => PlanView {
            save: false,
            outcome: OutcomeView::Notify { message: list_message(live), code: 0 },
        },
        Mode::Remove(index) => remove_plan(live, windows, index),
        Mode::Mark => mark_plan(live, windows, scratch_workspace, args.animations),
        Mode::Recall(index) => recall_plan(
            live,
            windows,
            index,
            scratch_workspace,
            args.animations,
        ),
        Mode::Toggle => toggle_plan(args, windows, scratch_workspace),
    }
}

/// The decision of a run: that of the mode on the reconciled store; the
/// store is saved where reconciling or the mode changed it.
pub open spec fn ns_plan(
    args: ArgsView,
    scratch_workspace: Seq<char>,
    store: Seq<EntryView>,
    windows: Seq<WindowView>,
) -> PlanView {
    let live = reconcile(store, window_ids(windows));
    let plan = mode_plan(args, scratch_workspace, live, windows);
    PlanView { save: live != store || plan.save, outcome: plan.outcome }
}

/// What settles a pending decision once the focused workspace is known. A
/// window to toggle is shown where it is on another workspace than the
/// focused one, and hidden where it is on the focused one. A window to give
/// back is given back.
pub open spec fn settled(
    pending: Pending,
    args: ArgsView,
    scratch_workspace: Seq<char>,
    focused: FocusedWorkspaceView,
    focused_id: i64,
) -> Seq<ActionView> {
    match pending {
        Pending::Toggle(window) => if window.workspace_id != focused_id {
            show_actions(window.id, args.multi_monitor, args.animations, window.is_floating, focused)
        } else {
            hide_actions(window.id, scratch_workspace, args.animations)
        },
        Pending::Restore(id) => restore_actions(id, args.multi_monitor, focused),
    }
}

/// The actions that settle a pending decision, from the snapshot of the
/// workspaces; `None` where no workspace is focused.
pub open spec fn resumed(
    pending: Pending,
    args: ArgsView,
    scratch_workspace: Seq<char>,
    workspaces: Seq<WorkspaceView>,
) -> Option<Seq<ActionView>> {
    match first_focused(workspaces) {
        Some(i) => Some(
            settled(
                pending,
                args,
                scratch_workspace,
                FocusedWorkspaceView { idx: workspaces[i].idx, output: workspaces[i].output },
                workspaces[i].id,
            ),
        ),
        None => None,
    }
}

/// The plan that tells the user that a position names no scratchpad.
fn report_out_of_bounds() -> (plan: Plan)
    ensures
        plan@ == out_of_bounds(),
{
    Plan {
        save: false,
        outcome: Outcome::Notify { message: NO_SCRATCHPAD_AT_INDEX.to_owned(), code: 1 },
    }
}

/// Toggles a window that was found: hides it at once where it has the
/// focus, and leaves the decision to the focused workspace where it has not.
pub fn toggle_window(window: ScratchWindow, scratch_workspace: &str, animations: bool) -> (outcome:
    Outcome)
    ensures
        outcome@ == toggle_found(window, scratch_workspace@, animations),
{
    if window.is_focused {
        Outcome::Dispatch {
            actions: move_window_to_scratchpad(window.id, scratch_workspace, animations),
        }
    } else {
        Outcome::Await { pending: Pending::Toggle(window) }
    }
}

/// Forgets the scratchpad at `index`, counted from one.
pub fn remove_scratchpad(index: usize, state: &mut ScratchState, windows: &Vec<Window>) -> (plan:
    Plan)
    ensures
        final(state)@ == removed(old(state)@, index),
        plan@ == remove_plan(old(state)@, window_views(windows@), index),
        old(state).wf() ==> final(state).wf(),
{
    match state.remove(index) {
        None => report_out_of_bounds(),
        Some(entry) => {
            let scratch_window = build_scratch_from_id(entry.id, windows);
            Plan {
                save: true,
                outcome: if scratch_window.found {
                    Outcome::Await { pending: Pending::Restore(entry.id) }
                } else {
                    Outcome::Exit { code: 0 }
                },
            }
        },
    }
}

/// Marks the focused window as a scratchpad and hides it.
pub fn mark_scratchpad(
    state: &mut ScratchState,
    windows: &Vec<Window>,
    scratch_workspace: &str,
    animations: bool,
) -> (plan: Plan)
    ensures
        final(state)@ == mark_store(old(state)@, window_views(windows@)),
        plan@ == mark_plan(old(state)@, window_views(windows@), scratch_workspace@, animations),
        old(state).wf() ==> final(state).wf(),
{
    match fetch_focused_window_full(windows) {
        None => Plan { save: false, outcome: Outcome::Exit { code: 1 } },
        Some(window) => {
            proof {
                lemma_first_match(window_views(windows@), CriterionView::Focused);
                let i = first_match(window_views(windows@), CriterionView::Focused).unwrap();
                assert(window_views(windows@)[i] == window@);
            }
            if state.mark(window) {
                Plan {
                    save: true,
                    outcome: Outcome::Dispatch {
                        actions: move_window_to_scratchpad(window.id, scratch_workspace, animations),
                    },
                }
            } else {
                Plan { save: false, outcome: Outcome::Exit { code: 0 } }
            }
        },
    }
}

/// Shows or hides the scratchpad at `index`, counted from one.
pub fn recall_scratchpad(
    index: usize,
    state: &ScratchState,
    windows: &Vec<Window>,
    scratch_workspace: &str,
    animations: bool,
) -> (plan: Plan)
    ensures
        plan@ == recall_plan(
            state@,
            window_views(windows@),
            index,
            scratch_workspace@,
            animations,
        ),
{
    match state.id_at(index) {
        None => report_out_of_bounds(),
        Some(window_id) => {
            let scratch_window = build_scratch_from_id(window_id, windows);
            Plan {
                save: false,
                outcome: if scratch_window.found {
                    toggle_window(scratch_window, scratch_workspace, animations)
                } else {
                    Outcome::Exit { code: 0 }
                },
            }
        },
    }
}

/// Shows or hides the window selected by application identifier or title,
/// or launches the command line given for the case that there is none.
pub fn toggle_scratchpad(args: &Args, windows: &Vec<Window>, scratch_workspace: &str) -> (plan:
    Plan)
    ensures
        plan@ == toggle_plan(args@, window_views(windows@), scratch_workspace@),
{
    let scratch_window = find_scratch_window(args, windows);
    if scratch_window.found {
        return Plan {
            save: false,
            outcome: toggle_window(scratch_window, scratch_workspace, args.animations),
        };
    }
    let launch = match &args.spawn {
        Some(command) => spawn_action(command.as_str()),
        None => None,
    };
    match launch {
        Some(action) => {
            let mut actions: Vec<Action> = Vec::new();
            actions.push(action);
            assert(action_views(actions@) =~= seq![action@]);
            Plan { save: false, outcome: Outcome::Dispatch { actions } }
        },
        None => Plan {
            save: false,
            outcome: Outcome::Notify { message: NO_SCRATCHPAD_FOUND.to_owned(), code: 1 },
        },
    }
}

/// Decides one run. The store is first reconciled with the snapshot of the
/// windows; then the mode that the options select is carried out on it.
pub fn ns(args: &Args, scratch_workspace: &str, state: &mut ScratchState, windows: &Vec<Window>)
    -> (plan: Plan)
    ensures
        final(state)@ == ns_store(args@, old(state)@, window_views(windows@)),
        plan@ == ns_plan(args@, scratch_workspace@, old(state)@, window_views(windows@)),
        old(state).wf() ==> final(state).wf(),
{
    let loaded = state.len();
    reconcile_state(state, windows);
    let dropped = state.len() != loaded;
    proof {
        lemma_reconcile_len(old(state)@, window_ids(window_views(windows@)));
    }
    let plan = match args.mode() {
        Mode::List => Plan {
            save: false,
            outcome: Outcome::Notify { message: notify_workspace_list(state), code: 0 },
        },
        Mode::Remove(index) => remove_scratchpad(index, state, windows),
        Mode::Mark => mark_scratchpad(state, windows, scratch_workspace, args.animations),
        Mode::Recall(index) => recall_scratchpad(
            index,
            state,
            windows,
            scratch_workspace,
            args.animations,
        ),
        Mode::Toggle => toggle_scratchpad(args, windows, scratch_workspace),
    };
    Plan { save: dropped || plan.save, outcome: plan.outcome }
}

/// Settles what a run left pending, from the snapshot of the workspaces:
/// the actions to ask of the compositor, or `None` where no workspace is
/// focused.
pub fn resume(pending: Pending, args: &Args, scratch_workspace: &str, workspaces: &Vec<Workspace>)
    -> (actions: Option<Vec<Action>>)
    ensures
        match actions {
            Some(list) => resumed(pending, args@, scratch_workspace@, workspace_views(workspaces@))
                == Some(action_views(list@)),
            None => resumed(
                pending,
                args@,
                scratch_workspace@,
                workspace_views(workspaces@),
            ).is_none(),
        },
{
    let mut focused_workspace = FocusedWorkspace::default();
    match fetch_focused_workspace(&mut focused_workspace, workspaces) {
        None => None,
        Some(workspace_id) => {
            let ghost i = first_focused(workspace_views(workspaces@)).unwrap();
            assert(workspace_views(workspaces@)[i] == workspaces@[i]@);
            Some(
                match pending {
                    Pending::Toggle(window) => if window.workspace_id != workspace_id {
                        bring_scratchpad_window_to_focus(
                            window.id,
                            args,
                            &window,
                            &focused_workspace,
                        )
                    } else {
                        move_window_to_scratchpad(window.id, scratch_workspace, args.animations)
                    },
                    Pending::Restore(id) => restore_window(id, args, &focused_workspace),
                },
            )
        },
    }
}

} // verus!
