//! The actions asked of the compositor, the argument lists that spell them,
//! and the sequences of actions that hide, show and give back a window.

use crate::args::Args;
use crate::snapshot::{FocusedWorkspace, FocusedWorkspaceView, ScratchWindow};
use crate::text::{decimal, integer_to_string, split_whitespace, texts, words};
use vstd::prelude::*;

verus! {

/// The workspace that a window is moved to.
#[derive(Clone, Debug, PartialEq, Eq)]
pub enum Target {
    /// The workspace of this name.
    Named(String),
    /// The workspace at this index of its output.
    Index(i64),
}

/// Mathematical model of a [`Target`].
pub ghost enum TargetView {
    Named(Seq<char>),
    Index(i64),
}

impl View for Target {
    type V = TargetView;

    open spec fn view(&self) -> TargetView {
        match *self {
            Target::Named(name) => TargetView::Named(name@),
            Target::Index(idx) => TargetView::Index(idx),
        }
    }
}

/// One action asked of the compositor.
#[derive(Clone, Debug, PartialEq, Eq)]
pub enum Action {
    /// Move a window to a workspace; with `focus` unset the focus stays
    /// where it is.
    MoveWindowToWorkspace { window: i64, target: Target, focus: bool },
    /// Put a window into the tiling layout.
    MoveWindowToTiling { window: i64 },
    /// Make a window floating.
    MoveWindowToFloating { window: i64 },
    /// Move a window to an output.
    MoveWindowToMonitor { window: i64, output: String },
    /// Give a window the focus.
    FocusWindow { window: i64 },
    /// Launch a program with arguments.
    Spawn { program: String, args: Vec<String> },
}

/// Mathematical model of an [`Action`].
pub ghost enum ActionView {
    MoveWindowToWorkspace { window: i64, target: TargetView, focus: bool },
    MoveWindowToTiling { window: i64 },
    MoveWindowToFloating { window: i64 },
    MoveWindowToMonitor { window: i64, output: Seq<char> },
    FocusWindow { window: i64 },
    Spawn { program: Seq<char>, args: Seq<Seq<char>> },
}

impl View for Action {
    type V = ActionView;

    open spec fn view(&self) -> ActionView {
        match *self {
            Action::MoveWindowToWorkspace { window, target, focus } => {
                ActionView::MoveWindowToWorkspace { window, target: target@, focus }
            },
            Action::MoveWindowToTiling { window } => ActionView::MoveWindowToTiling { window },
            Action::MoveWindowToFloating { window } => ActionView::MoveWindowToFloating { window },
            Action::MoveWindowToMonitor { window, output } => {
                ActionView::MoveWindowToMonitor { window, output: output@ }
            },
            Action::FocusWindow { window } => ActionView::FocusWindow { window },
            Action::Spawn { program, args } => {
                ActionView::Spawn { program: program@, args: texts(args@) }
            },
        }
    }
}

/// The models of a list of actions, in order.
pub open spec fn action_views(actions: Seq<Action>) -> Seq<ActionView> {
    actions.map_values(|a: Action| a@)
}

impl TargetView {
    /// The argument that names the workspace: the name itself, or the index
    /// in decimal.
    pub open spec fn arg(self) -> Seq<char> {
        match self {
            TargetView::Named(name) => name,
            TargetView::Index(idx) => decimal(idx as int),
        }
    }
}

impl ActionView {
    /// The arguments that spell the action on the compositor's command line:
    /// the action's name, then its operands.
    pub open spec fn args(self) -> Seq<Seq<char>> {
        match self {
            ActionView::MoveWindowToWorkspace { window, target, focus } => {
                let moved = seq![
                    "move-window-to-workspace"@,
                    "--window-id"@,
                    decimal(window as int),
                    target.arg(),
                ];
                if focus {
                    moved
                } else {
                    moved.push("--focus=false"@)
                }
            },
            ActionView::MoveWindowToTiling { window } => {
                seq!["move-window-to-tiling"@, "--id"@, decimal(window as int)]
            },
            ActionView::MoveWindowToFloating { window } => {
                seq!["move-window-to-floating"@, "--id"@, decimal(window as int)]
            },
            ActionView::MoveWindowToMonitor { window, output } => {
                seq!["move-window-to-monitor"@, "--id"@, decimal(window as int), output]
            },
            ActionView::FocusWindow { window } => {
                seq!["focus-window"@, "--id"@, decimal(window as int)]
            },
            ActionView::Spawn { program, args } => seq!["spawn"@, "--"@, program] + args,
        }
    }
}

/// Appends a text to a list of texts.
fn push_text(list: &mut Vec<String>, t: String)
    ensures
        texts(final(list)@) == texts(old(list)@).push(t@),
{
    list.push(t);
    assert(texts(list@) =~= texts(old(list)@).push(t@));
}

/// A list that holds an action's name, an option's name and a window id.
fn window_args(name: &str, option: &str, window: i64) -> (r: Vec<String>)
    ensures
        texts(r@) == seq![name@, option@, decimal(window as int)],
{
    let mut list: Vec<String> = Vec::new();
    assert(texts(list@) =~= Seq::empty());
    push_text(&mut list, name.to_owned());
    push_text(&mut list, option.to_owned());
    push_text(&mut list, integer_to_string(window as i128));
    assert(texts(list@) =~= seq![name@, option@, decimal(window as int)]);
    list
}

impl Target {
    /// The argument that names the workspace.
    pub fn to_arg(&self) -> (r: String)
        ensures
            r@ == self@.arg(),
    {
        match self {
            Target::Named(name) => name.clone(),
            Target::Index(idx) => integer_to_string(*idx as i128),
        }
    }
}

impl Action {
    /// The arguments that spell the action on the compositor's command line.
    pub fn to_args(&self) -> (r: Vec<String>)
        ensures
            texts(r@) == self@.args(),
    {
        match self {
            Action::MoveWindowToWorkspace { window, target, focus } => {
                let mut list = window_args("move-window-to-workspace", "--window-id", *window);
                push_text(&mut list, target.to_arg());
                if !*focus {
                    push_text(&mut list, "--focus=false".to_owned());
                }
                assert(texts(list@) =~= self@.args());
                list
            },
            Action::MoveWindowToTiling { window } => {
                window_args("move-window-to-tiling", "--id", *window)
            },
            Action::MoveWindowToFloating { window } => {
                window_args("move-window-to-floating", "--id", *window)
            },
            Action::MoveWindowToMonitor { window, output } => {
                let mut list = window_args("move-window-to-monitor", "--id", *window);
                push_text(&mut list, output.clone());
                assert(texts(list@) =~= self@.args());
                list
            },
            Action::FocusWindow { window } => window_args("focus-window", "--id", *window),
            Action::Spawn { program, args } => {
                let mut list: Vec<String> = Vec::new();
                assert(texts(list@) =~= Seq::empty());
                push_text(&mut list, "spawn".to_owned());
                push_text(&mut list, "--".to_owned());
                push_text(&mut list, program.clone());
                let ghost head = texts(list@);
                assert(head =~= seq!["spawn"@, "--"@, program@]);
                let mut i: usize = 0;
                while i < args.len()
                    invariant
                        i <= args.len(),
                        texts(list@) == head + texts(args@).take(i as int),
                    decreases args.len() - i,
                {
                    push_text(&mut list, args[i].clone());
                    assert(texts(args@).take(i + 1) =~= texts(args@).take(i as int).push(
                        args@[i as int]@,
                    ));
                    i += 1;
                }
                assert(texts(args@).take(args.len() as int) =~= texts(args@));
                list
            },
        }
    }
}

/// Hiding a window: it moves to the scratch workspace while the focus stays
/// where it is; with animations asked for it is then put into the tiling
/// layout, so that showing it later animates.
pub open spec fn hide_actions(window: i64, scratch_workspace: Seq<char>, animations: bool) -> Seq<
    ActionView,
> {
    let moved = seq![
        ActionView::MoveWindowToWorkspace {
            window,
            target: TargetView::Named(scratch_workspace),
            focus: false,
        },
    ];
    if animations {
        moved.push(ActionView::MoveWindowToTiling { window })
    } else {
        moved
    }
}

/// Showing a window: it moves to the focused workspace; with several
/// monitors asked for, to the focused output; with animations asked for and
/// the window not floating, it is made floating; last it gets the focus.
pub open spec fn show_actions(
    window: i64,
    multi_monitor: bool,
    animations: bool,
    is_floating: bool,
    focused: FocusedWorkspaceView,
) -> Seq<ActionView> {
    let moved = seq![
        ActionView::MoveWindowToWorkspace {
            window,
            target: TargetView::Index(focused.idx),
            focus: true,
        },
    ];
    let placed = if multi_monitor {
        moved.push(ActionView::MoveWindowToMonitor { window, output: focused.output })
    } else {
        moved
    };
    let floated = if animations && !is_floating {
        placed.push(ActionView::MoveWindowToFloating { window })
    } else {
        placed
    };
    floated.push(ActionView::FocusWindow { window })
}

/// Giving a window back: it moves to the focused workspace and into the
/// tiling layout; with several monitors asked for, to the focused output;
/// last it gets the focus.
pub open spec fn restore_actions(window: i64, multi_monitor: bool, focused: FocusedWorkspaceView)
    -> Seq<ActionView> {
    let tiled = seq![
        ActionView::MoveWindowToWorkspace {
            window,
            target: TargetView::Index(focused.idx),
            focus: true,
        },
        ActionView::MoveWindowToTiling { window },
    ];
    let placed = if multi_monitor {
        tiled.push(ActionView::MoveWindowToMonitor { window, output: focused.output })
    } else {
        tiled
    };
    placed.push(ActionView::FocusWindow { window })
}

/// Launching a command line: its first word is the program, the words after
/// it are the arguments. A command line without a word launches nothing.
pub open spec fn spawn_of(command: Seq<char>) -> Option<ActionView> {
    let parts = words(command);
    if parts.len() == 0 {
        None
    } else {
        Some(ActionView::Spawn { program: parts[0], args: parts.skip(1) })
    }
}

/// Appends an action to a list of actions.
fn push_action(list: &mut Vec<Action>, a: Action)
    ensures
        action_views(final(list)@) == action_views(old(list)@).push(a@),
{
    list.push(a);
    assert(action_views(list@) =~= action_views(old(list)@).push(a@));
}

/// The actions that hide a window on the scratch workspace.
pub fn move_window_to_scratchpad(window_id: i64, scratch_workspace: &str, animations: bool) -> (r:
    Vec<Action>)
    ensures
        action_views(r@) == hide_actions(window_id, scratch_workspace@, animations),
{
    let mut list: Vec<Action> = Vec::new();
    assert(action_views(list@) =~= Seq::empty());
    push_action(
        &mut list,
        Action::MoveWindowToWorkspace {
            window: window_id,
            target: Target::Named(scratch_workspace.to_owned()),
            focus: false,
        },
    );
    if animations {
        push_action(&mut list, Action::MoveWindowToTiling { window: window_id });
    }
    assert(action_views(list@) =~= hide_actions(window_id, scratch_workspace@, animations));
    list
}

/// The actions that show a window on the focused workspace and focus it.
pub fn bring_scratchpad_window_to_focus(
    window_id: i64,
    args: &Args,
    scratch_window: &ScratchWindow,
    focused_workspace: &FocusedWorkspace,
) -> (r: Vec<Action>)
    ensures
        action_views(r@) == show_actions(
            window_id,
            args.multi_monitor,
            args.animations,
            scratch_window.is_floating,
            focused_workspace@,
        ),
{
    let mut list: Vec<Action> = Vec::new();
    assert(action_views(list@) =~= Seq::empty());
    push_action(
        &mut list,
        Action::MoveWindowToWorkspace {
            window: window_id,
            target: Target::Index(focused_workspace.idx),
            focus: true,
        },
    );
    if args.multi_monitor {
        push_action(
            &mut list,
            Action::MoveWindowToMonitor {
                window: window_id,
                output: focused_workspace.output.clone(),
            },
        );
    }
    if args.animations && !scratch_window.is_floating {
        push_action(&mut list, Action::MoveWindowToFloating { window: window_id });
    }
    push_action(&mut list, Action::FocusWindow { window: window_id });
    assert(action_views(list@) =~= show_actions(
        window_id,
        args.multi_monitor,
        args.animations,
        scratch_window.is_floating,
        focused_workspace@,
    ));
    list
}

/// The actions that give a window that is no scratchpad any more back to
/// the focused workspace.
pub fn restore_window(window_id: i64, args: &Args, focused_workspace: &FocusedWorkspace) -> (r:
    Vec<Action>)
    ensures
        action_views(r@) == restore_actions(window_id, args.multi_monitor, focused_workspace@),
{
    let mut list: Vec<Action> = Vec::new();
    assert(action_views(list@) =~= Seq::empty());
    push_action(
        &mut list,
        Action::MoveWindowToWorkspace {
            window: window_id,
            target: Target::Index(focused_workspace.idx),
            focus: true,
        },
    );
    push_action(&mut list, Action::MoveWindowToTiling { window: window_id });
    if args.multi_monitor {
        push_action(
            &mut list,
            Action::MoveWindowToMonitor {
                window: window_id,
                output: focused_workspace.output.clone(),
            },
        );
    }
    push_action(&mut list, Action::FocusWindow { window: window_id });
    assert(action_views(list@) =~= restore_actions(
        window_id,
        args.multi_monitor,
        focused_workspace@,
    ));
    list
}

/// The action that launches a command line, if the command line names a
/// program.
pub fn spawn_action(command: &str) -> (r: Option<Action>)
    ensures
        match r {
            Some(a) => spawn_of(command@) == Some(a@),
            None => spawn_of(command@).is_none(),
        },
{
    let mut parts = split_whitespace(command);
    if parts.len() == 0 {
        assert(texts(parts@).len() == 0);
        None
    } else {
        let ghost all = texts(parts@);
        let program = parts.remove(0);
        assert(texts(parts@) =~= all.skip(1));
        assert(all[0] == program@);
        Some(Action::Spawn { program, args: parts })
    }
}

} // verus!
