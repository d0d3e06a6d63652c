use nscratch::action::{Action, Target};
use nscratch::args::Args;
use nscratch::controller::{
    mark_scratchpad, ns, recall_scratchpad, remove_scratchpad, resume, toggle_scratchpad,
    toggle_window, Outcome, Pending, Plan, NO_SCRATCHPAD_AT_INDEX, NO_SCRATCHPAD_FOUND,
};
use nscratch::snapshot::{ScratchWindow, Window, Workspace};
use nscratch::store::{ScratchEntry, ScratchState};

fn entry(id: i64) -> ScratchEntry {
    ScratchEntry { id, title: format!("title{}", id), app_id: format!("app{}", id), workspace: 1 }
}

fn store(ids: &[i64]) -> ScratchState {
    ScratchState::from_entries(ids.iter().map(|&id| entry(id)).collect()).unwrap()
}

fn ids(state: &ScratchState) -> Vec<i64> {
    state.entries().iter().map(|e| e.id).collect()
}

fn window(id: i64, workspace_id: i64, is_focused: bool) -> Window {
    Window {
        id,
        app_id: Some(format!("app{}", id)),
        title: Some(format!("title{}", id)),
        workspace_id,
        is_focused,
        is_floating: false,
    }
}

fn workspace(id: i64, idx: i64, output: &str, is_focused: bool) -> Workspace {
    Workspace { id, idx, output: output.to_string(), is_focused }
}

fn by_app_id(app_id: &str) -> Args {
    Args { app_id: Some(app_id.to_string()), ..Args::default() }
}

fn hidden(id: i64, scratch: &str) -> Vec<Action> {
    vec![Action::MoveWindowToWorkspace {
        window: id,
        target: Target::Named(scratch.to_string()),
        focus: false,
    }]
}

fn selected(w: &Window) -> ScratchWindow {
    ScratchWindow {
        id: w.id,
        workspace_id: w.workspace_id,
        is_focused: w.is_focused,
        is_floating: w.is_floating,
        found: true,
    }
}

#[test]
fn toggle_of_the_focused_window_hides_it() {
    let mut state = store(&[5]);
    let windows = vec![window(5, 2, true)];
    let plan = ns(&by_app_id("app5"), "scratch", &mut state, &windows);
    assert_eq!(
        plan,
        Plan { save: false, outcome: Outcome::Dispatch { actions: hidden(5, "scratch") } }
    );
    assert_eq!(ids(&state), vec![5]);
    match plan.outcome {
        Outcome::Dispatch { actions } => {
            assert_eq!(actions.len(), 1);
            assert_eq!(
                actions[0].to_args(),
                vec!["move-window-to-workspace", "--window-id", "5", "scratch", "--focus=false"]
            );
        }
        other => panic!("unexpected outcome {:?}", other),
    }
}

#[test]
fn toggle_of_a_window_on_another_workspace_brings_it_to_focus() {
    let mut state = store(&[5]);
    let windows = vec![window(5, 9, false)];
    let args = by_app_id("app5");
    let plan = ns(&args, "scratch", &mut state, &windows);
    let pending = Pending::Toggle(selected(&windows[0]));
    assert_eq!(plan, Plan { save: false, outcome: Outcome::Await { pending } });
    let workspaces = vec![workspace(9, 1, "DP-2", false), workspace(2, 2, "DP-1", true)];
    let actions = resume(pending, &args, "scratch", &workspaces).unwrap();
    assert_eq!(
        actions,
        vec![
            Action::MoveWindowToWorkspace { window: 5, target: Target::Index(2), focus: true },
            Action::FocusWindow { window: 5 },
        ]
    );
    assert_eq!(actions[0].to_args(), vec!["move-window-to-workspace", "--window-id", "5", "2"]);
    assert_eq!(actions[1].to_args(), vec!["focus-window", "--id", "5"]);
}

#[test]
fn toggle_of_an_unfocused_window_on_the_focused_workspace_hides_it() {
    let mut state = store(&[5]);
    let windows = vec![window(5, 2, false)];
    let args = by_app_id("app5");
    let plan = ns(&args, "scratch", &mut state, &windows);
    let pending = Pending::Toggle(selected(&windows[0]));
    assert_eq!(plan.outcome, Outcome::Await { pending });
    let workspaces = vec![workspace(2, 2, "DP-1", true)];
    assert_eq!(resume(pending, &args, "scratch", &workspaces), Some(hidden(5, "scratch")));
}

#[test]
fn toggle_without_match_spawns_the_command_line() {
    let mut state = ScratchState::new();
    let args = Args {
        app_id: Some("foo".to_string()),
        spawn: Some("foo --bar".to_string()),
        ..Args::default()
    };
    let plan = ns(&args, "scratch", &mut state, &vec![window(1, 1, true)]);
    let launch = Action::Spawn { program: "foo".to_string(), args: vec!["--bar".to_string()] };
    assert_eq!(launch.to_args(), vec!["spawn", "--", "foo", "--bar"]);
    assert_eq!(plan, Plan { save: false, outcome: Outcome::Dispatch { actions: vec![launch] } });
    assert_eq!(state.len(), 0);
}

#[test]
fn toggle_without_match_and_without_spawn_fails() {
    let mut state = ScratchState::new();
    let plan = ns(&by_app_id("foo"), "scratch", &mut state, &vec![window(1, 1, true)]);
    assert_eq!(
        plan,
        Plan {
            save: false,
            outcome: Outcome::Notify { message: "No scratchpad window found.".to_string(), code: 1 },
        }
    );
    assert_eq!(state.len(), 0);
}

#[test]
fn toggle_with_a_blank_spawn_command_fails_like_no_command() {
    let args = Args { spawn: Some("  ".to_string()), ..by_app_id("foo") };
    let plan = toggle_scratchpad(&args, &Vec::new(), "scratch");
    assert_eq!(
        plan.outcome,
        Outcome::Notify { message: NO_SCRATCHPAD_FOUND.to_string(), code: 1 }
    );
}

#[test]
fn toggle_without_selector_spawns() {
    let args = Args { spawn: Some("kitty".to_string()), ..Args::default() };
    let plan = toggle_scratchpad(&args, &vec![window(1, 1, true)], "scratch");
    assert_eq!(
        plan.outcome,
        Outcome::Dispatch {
            actions: vec![Action::Spawn { program: "kitty".to_string(), args: Vec::new() }],
        }
    );
}

#[test]
fn toggle_does_not_spawn_where_a_window_matches() {
    let args = Args { spawn: Some("kitty".to_string()), animations: true, ..by_app_id("app1") };
    let plan = toggle_scratchpad(&args, &vec![window(1, 1, true)], "pad");
    assert_eq!(
        plan.outcome,
        Outcome::Dispatch {
            actions: vec![
                Action::MoveWindowToWorkspace {
                    window: 1,
                    target: Target::Named("pad".to_string()),
                    focus: false,
                },
                Action::MoveWindowToTiling { window: 1 },
            ],
        }
    );
}

#[test]
fn toggle_window_decides_by_focus() {
    let focused = ScratchWindow { id: 3, workspace_id: 1, is_focused: true, is_floating: false, found: true };
    assert_eq!(
        toggle_window(focused, "scratch", false),
        Outcome::Dispatch { actions: hidden(3, "scratch") }
    );
    let other = ScratchWindow { is_focused: false, ..focused };
    assert_eq!(
        toggle_window(other, "scratch", false),
        Outcome::Await { pending: Pending::Toggle(other) }
    );
}

#[test]
fn messages() {
    assert_eq!(NO_SCRATCHPAD_AT_INDEX, "No scratchpad window at this index");
    assert_eq!(NO_SCRATCHPAD_FOUND, "No scratchpad window found.");
}

#[test]
fn run_reconciles_first_and_saves_what_it_dropped() {
    let mut state = store(&[1, 2, 3]);
    let windows = vec![window(3, 1, false), window(1, 1, true)];
    let plan = ns(&Args { list: true, ..Args::default() }, "scratch", &mut state, &windows);
    assert_eq!(ids(&state), vec![1, 3]);
    assert!(plan.save);
    assert_eq!(
        plan.outcome,
        Outcome::Notify {
            message: "Scratchpads:\n\n[1] app1 | title1 | from workspace 0\n[2] app3 | title3 | from workspace 0\n"
                .to_string(),
            code: 0,
        }
    );
}

#[test]
fn run_does_not_save_an_unchanged_store() {
    let mut state = store(&[1, 3]);
    let windows = vec![window(3, 1, false), window(1, 1, true)];
    let plan = ns(&Args { list: true, ..Args::default() }, "scratch", &mut state, &windows);
    assert!(!plan.save);
    assert_eq!(ids(&state), vec![1, 3]);
}

#[test]
fn list_of_nothing() {
    let mut state = store(&[1]);
    let plan = ns(&Args { list: true, ..Args::default() }, "scratch", &mut state, &Vec::new());
    assert_eq!(
        plan,
        Plan {
            save: true,
            outcome: Outcome::Notify { message: "Scratchpads:\n\nnone".to_string(), code: 0 },
        }
    );
}

#[test]
fn remove_out_of_bounds_reports_and_changes_nothing() {
    for index in [0usize, 4, 100] {
        let mut state = store(&[1, 2, 3]);
        let windows = vec![window(1, 1, false), window(2, 1, false), window(3, 1, false)];
        let plan = remove_scratchpad(index, &mut state, &windows);
        assert_eq!(
            plan,
            Plan {
                save: false,
                outcome: Outcome::Notify {
                    message: "No scratchpad window at this index".to_string(),
                    code: 1,
                },
            }
        );
        assert_eq!(ids(&state), vec![1, 2, 3]);
    }
}

#[test]
fn remove_gives_a_live_window_back() {
    let mut state = store(&[1, 2, 3]);
    let windows = vec![window(1, 1, false), window(2, 7, false), window(3, 1, false)];
    let plan = remove_scratchpad(2, &mut state, &windows);
    assert_eq!(
        plan,
        Plan { save: true, outcome: Outcome::Await { pending: Pending::Restore(2) } }
    );
    assert_eq!(ids(&state), vec![1, 3]);
    let args = Args { remove: Some(2), ..Args::default() };
    let workspaces = vec![workspace(4, 3, "DP-1", true)];
    assert_eq!(
        resume(Pending::Restore(2), &args, "scratch", &workspaces),
        Some(vec![
            Action::MoveWindowToWorkspace { window: 2, target: Target::Index(3), focus: true },
            Action::MoveWindowToTiling { window: 2 },
            Action::FocusWindow { window: 2 },
        ])
    );
}

#[test]
fn remove_of_a_closed_window_still_succeeds() {
    let mut state = store(&[1, 2, 3]);
    let plan = remove_scratchpad(2, &mut state, &vec![window(1, 1, false)]);
    assert_eq!(plan, Plan { save: true, outcome: Outcome::Exit { code: 0 } });
    assert_eq!(ids(&state), vec![1, 3]);
}

#[test]
fn remove_in_a_run_counts_positions_after_reconciling() {
    let mut state = store(&[1, 2, 3]);
    let windows = vec![window(1, 1, false), window(3, 1, false)];
    let plan = ns(&Args { remove: Some(2), ..Args::default() }, "scratch", &mut state, &windows);
    assert_eq!(
        plan,
        Plan { save: true, outcome: Outcome::Await { pending: Pending::Restore(3) } }
    );
    assert_eq!(ids(&state), vec![1]);
}

#[test]
fn remove_out_of_bounds_in_a_run_still_saves_what_reconciling_dropped() {
    let mut state = store(&[1, 2, 3]);
    let windows = vec![window(1, 1, false), window(3, 1, false)];
    let plan = ns(&Args { remove: Some(3), ..Args::default() }, "scratch", &mut state, &windows);
    assert_eq!(
        plan,
        Plan {
            save: true,
            outcome: Outcome::Notify { message: NO_SCRATCHPAD_AT_INDEX.to_string(), code: 1 },
        }
    );
    assert_eq!(ids(&state), vec![1, 3]);
}

#[test]
fn mark_without_focused_window_fails() {
    let mut state = store(&[1]);
    let plan = mark_scratchpad(&mut state, &vec![window(1, 1, false)], "scratch", false);
    assert_eq!(plan, Plan { save: false, outcome: Outcome::Exit { code: 1 } });
    assert_eq!(ids(&state), vec![1]);
}

#[test]
fn mark_records_and_hides_the_focused_window() {
    let mut state = store(&[1]);
    let windows = vec![window(1, 1, false), window(8, 4, true)];
    let plan = mark_scratchpad(&mut state, &windows, "scratch", true);
    assert_eq!(
        plan,
        Plan {
            save: true,
            outcome: Outcome::Dispatch {
                actions: vec![
                    Action::MoveWindowToWorkspace {
                        window: 8,
                        target: Target::Named("scratch".to_string()),
                        focus: false,
                    },
                    Action::MoveWindowToTiling { window: 8 },
                ],
            },
        }
    );
    assert_eq!(
        state.entries()[1],
        ScratchEntry { id: 8, title: "title8".to_string(), app_id: "app8".to_string(), workspace: 4 }
    );
}

#[test]
fn mark_twice_changes_nothing_the_second_time() {
    let mut state = ScratchState::new();
    let windows = vec![window(8, 4, true)];
    let args = Args { mark: true, ..Args::default() };
    let first = ns(&args, "scratch", &mut state, &windows);
    assert_eq!(first, Plan { save: true, outcome: Outcome::Dispatch { actions: hidden(8, "scratch") } });
    let once = state.clone();
    let second = ns(&args, "scratch", &mut state, &windows);
    assert_eq!(second, Plan { save: false, outcome: Outcome::Exit { code: 0 } });
    assert_eq!(state, once);
    assert_eq!(ids(&state), vec![8]);
}

#[test]
fn recall_out_of_bounds_reports() {
    for index in [0usize, 3, usize::MAX] {
        let state = store(&[1, 2]);
        let windows = vec![window(1, 1, false), window(2, 1, false)];
        let plan = recall_scratchpad(index, &state, &windows, "scratch", false);
        assert_eq!(
            plan,
            Plan {
                save: false,
                outcome: Outcome::Notify { message: NO_SCRATCHPAD_AT_INDEX.to_string(), code: 1 },
            }
        );
    }
}

#[test]
fn recall_resolves_the_position_to_its_entry() {
    let state = store(&[10, 20, 30]);
    let windows = vec![window(30, 3, false), window(20, 2, true), window(10, 1, false)];
    assert_eq!(
        recall_scratchpad(1, &state, &windows, "scratch", false).outcome,
        Outcome::Await { pending: Pending::Toggle(selected(&windows[2])) }
    );
    assert_eq!(
        recall_scratchpad(2, &state, &windows, "scratch", false).outcome,
        Outcome::Dispatch { actions: hidden(20, "scratch") }
    );
    assert_eq!(
        recall_scratchpad(3, &state, &windows, "scratch", false).outcome,
        Outcome::Await { pending: Pending::Toggle(selected(&windows[0])) }
    );
}

#[test]
fn recall_of_a_closed_window_is_passed_over() {
    let state = store(&[10, 20]);
    let plan = recall_scratchpad(2, &state, &vec![window(10, 1, false)], "scratch", false);
    assert_eq!(plan, Plan { save: false, outcome: Outcome::Exit { code: 0 } });
}

#[test]
fn recall_in_a_run() {
    let mut state = store(&[10, 20, 30]);
    let windows = vec![window(30, 3, false), window(10, 1, false)];
    let args = Args { index: Some(2), multi_monitor: true, ..Args::default() };
    let plan = ns(&args, "scratch", &mut state, &windows);
    let pending = Pending::Toggle(selected(&windows[0]));
    assert_eq!(plan, Plan { save: true, outcome: Outcome::Await { pending } });
    assert_eq!(ids(&state), vec![10, 30]);
    let workspaces = vec![workspace(1, 1, "DP-1", true), workspace(3, 1, "DP-2", false)];
    assert_eq!(
        resume(pending, &args, "scratch", &workspaces),
        Some(vec![
            Action::MoveWindowToWorkspace { window: 30, target: Target::Index(1), focus: true },
            Action::MoveWindowToMonitor { window: 30, output: "DP-1".to_string() },
            Action::FocusWindow { window: 30 },
        ])
    );
}

#[test]
fn resume_compares_workspace_ids_and_moves_to_the_index() {
    let window = ScratchWindow { id: 5, workspace_id: 2, is_focused: false, is_floating: false, found: true };
    let args = Args::default();
    let same_idx_other_id = vec![workspace(40, 2, "DP-1", true)];
    assert_eq!(
        resume(Pending::Toggle(window), &args, "scratch", &same_idx_other_id),
        Some(vec![
            Action::MoveWindowToWorkspace { window: 5, target: Target::Index(2), focus: true },
            Action::FocusWindow { window: 5 },
        ])
    );
    let same_id_other_idx = vec![workspace(2, 7, "DP-1", true)];
    assert_eq!(
        resume(Pending::Toggle(window), &args, "scratch", &same_id_other_idx),
        Some(hidden(5, "scratch"))
    );
}

#[test]
fn resume_without_focused_workspace_is_nothing() {
    let window = ScratchWindow { id: 5, workspace_id: 2, is_focused: false, is_floating: false, found: true };
    let args = Args::default();
    assert_eq!(resume(Pending::Toggle(window), &args, "scratch", &Vec::new()), None);
    let unfocused = vec![workspace(1, 1, "DP-1", false)];
    assert_eq!(resume(Pending::Restore(5), &args, "scratch", &unfocused), None);
}

#[test]
fn run_uses_the_scratch_workspace_it_is_given() {
    let mut state = ScratchState::new();
    let plan = ns(&by_app_id("app5"), "hidden", &mut state, &vec![window(5, 2, true)]);
    assert_eq!(plan.outcome, Outcome::Dispatch { actions: hidden(5, "hidden") });
}
