use nscratch::args::{scratch_workspace_name, Args, Mode, DEFAULT_SCRATCH_WORKSPACE};
use nscratch::snapshot::{
    build_scratch_from_id, fetch_focused_window_full, fetch_focused_workspace,
    find_scratch_window, position, select, Criterion, FocusedWorkspace, ScratchWindow, Window,
    Workspace,
};

fn window(id: i64, app_id: Option<&str>, title: Option<&str>, workspace_id: i64) -> Window {
    Window {
        id,
        app_id: app_id.map(String::from),
        title: title.map(String::from),
        workspace_id,
        is_focused: false,
        is_floating: false,
    }
}

fn snapshot() -> Vec<Window> {
    let mut focused = window(3, Some("kitty"), Some("editor"), 2);
    focused.is_focused = true;
    let mut floating = window(4, Some("pavucontrol"), Some("Volume"), 5);
    floating.is_floating = true;
    vec![
        window(1, Some("firefox"), Some("Mozilla Firefox"), 1),
        window(2, Some("kitty"), Some("shell"), 1),
        focused,
        floating,
        window(5, None, None, 7),
        window(6, Some("editor"), Some("kitty"), 8),
        window(2, Some("late"), Some("same id"), 9),
    ]
}

fn workspace(id: i64, idx: i64, output: &str, is_focused: bool) -> Workspace {
    Workspace { id, idx, output: output.to_string(), is_focused }
}

#[test]
fn default_selection_found_nothing() {
    assert_eq!(
        ScratchWindow::default(),
        ScratchWindow { id: 0, workspace_id: 0, is_focused: false, is_floating: false, found: false }
    );
}

#[test]
fn mode_of_no_option_is_toggle() {
    assert_eq!(Args::default().mode(), Mode::Toggle);
}

#[test]
fn mode_of_each_option() {
    assert_eq!(Args { list: true, ..Args::default() }.mode(), Mode::List);
    assert_eq!(Args { remove: Some(2), ..Args::default() }.mode(), Mode::Remove(2));
    assert_eq!(Args { mark: true, ..Args::default() }.mode(), Mode::Mark);
    assert_eq!(Args { index: Some(3), ..Args::default() }.mode(), Mode::Recall(3));
    assert_eq!(Args { app_id: Some("kitty".to_string()), ..Args::default() }.mode(), Mode::Toggle);
}

#[test]
fn mode_priority() {
    let all = Args {
        list: true,
        remove: Some(1),
        mark: true,
        index: Some(2),
        ..Args::default()
    };
    assert_eq!(all.mode(), Mode::List);
    assert_eq!(Args { list: false, ..all.clone() }.mode(), Mode::Remove(1));
    assert_eq!(Args { list: false, remove: None, ..all.clone() }.mode(), Mode::Mark);
    assert_eq!(
        Args { list: false, remove: None, mark: false, ..all.clone() }.mode(),
        Mode::Recall(2)
    );
}

#[test]
fn criterion_prefers_the_application_identifier() {
    let both = Args {
        app_id: Some("kitty".to_string()),
        title: Some("Volume".to_string()),
        ..Args::default()
    };
    assert!(matches!(both.criterion(), Criterion::AppId(a) if a == "kitty"));
    let title = Args { title: Some("Volume".to_string()), ..Args::default() };
    assert!(matches!(title.criterion(), Criterion::Title(t) if t == "Volume"));
    assert!(matches!(Args::default().criterion(), Criterion::Nothing));
}

#[test]
fn window_meets_criteria() {
    let w = window(2, Some("kitty"), Some("shell"), 1);
    let kitty = "kitty".to_string();
    let shell = "shell".to_string();
    assert!(w.meets(&Criterion::AppId(&kitty)));
    assert!(!w.meets(&Criterion::AppId(&shell)));
    assert!(w.meets(&Criterion::Title(&shell)));
    assert!(!w.meets(&Criterion::Title(&kitty)));
    assert!(w.meets(&Criterion::Id(2)));
    assert!(!w.meets(&Criterion::Id(3)));
    assert!(!w.meets(&Criterion::Focused));
    assert!(!w.meets(&Criterion::Nothing));
}

#[test]
fn window_without_texts_meets_no_text_criterion() {
    let w = window(5, None, None, 7);
    let empty = String::new();
    let unknown = "unknown".to_string();
    assert!(!w.meets(&Criterion::AppId(&empty)));
    assert!(!w.meets(&Criterion::Title(&empty)));
    assert!(!w.meets(&Criterion::AppId(&unknown)));
    assert!(w.meets(&Criterion::Id(5)));
}

#[test]
fn position_is_that_of_the_first_match() {
    let windows = snapshot();
    let kitty = "kitty".to_string();
    assert_eq!(position(&windows, &Criterion::AppId(&kitty)), Some(1));
    assert_eq!(position(&windows, &Criterion::Title(&kitty)), Some(5));
    assert_eq!(position(&windows, &Criterion::Id(2)), Some(1));
    assert_eq!(position(&windows, &Criterion::Focused), Some(2));
    assert_eq!(position(&windows, &Criterion::Id(77)), None);
    assert_eq!(position(&windows, &Criterion::Nothing), None);
    assert_eq!(position(&Vec::new(), &Criterion::Focused), None);
}

#[test]
fn select_copies_the_attributes() {
    let windows = snapshot();
    assert_eq!(
        select(&windows, &Criterion::Focused),
        ScratchWindow { id: 3, workspace_id: 2, is_focused: true, is_floating: false, found: true }
    );
    assert_eq!(
        select(&windows, &Criterion::Id(4)),
        ScratchWindow { id: 4, workspace_id: 5, is_focused: false, is_floating: true, found: true }
    );
    assert_eq!(select(&windows, &Criterion::Id(40)), ScratchWindow::default());
}

#[test]
fn find_by_application_identifier_takes_the_first() {
    let args = Args { app_id: Some("kitty".to_string()), ..Args::default() };
    assert_eq!(
        find_scratch_window(&args, &snapshot()),
        ScratchWindow { id: 2, workspace_id: 1, is_focused: false, is_floating: false, found: true }
    );
}

#[test]
fn find_by_title() {
    let args = Args { title: Some("Volume".to_string()), ..Args::default() };
    assert_eq!(
        find_scratch_window(&args, &snapshot()),
        ScratchWindow { id: 4, workspace_id: 5, is_focused: false, is_floating: true, found: true }
    );
}

#[test]
fn find_ignores_the_title_where_an_application_identifier_is_given() {
    let args = Args {
        app_id: Some("nothing".to_string()),
        title: Some("Volume".to_string()),
        ..Args::default()
    };
    assert_eq!(find_scratch_window(&args, &snapshot()), ScratchWindow::default());
}

#[test]
fn find_is_exact() {
    let args = Args { app_id: Some("Kitty".to_string()), ..Args::default() };
    assert!(!find_scratch_window(&args, &snapshot()).found);
    let args = Args { app_id: Some("kitt".to_string()), ..Args::default() };
    assert!(!find_scratch_window(&args, &snapshot()).found);
    let args = Args { title: Some("".to_string()), ..Args::default() };
    assert!(!find_scratch_window(&args, &snapshot()).found);
}

#[test]
fn find_without_selector_finds_nothing() {
    assert_eq!(find_scratch_window(&Args::default(), &snapshot()), ScratchWindow::default());
}

#[test]
fn build_from_id_takes_the_first_window_with_the_id() {
    assert_eq!(
        build_scratch_from_id(2, &snapshot()),
        ScratchWindow { id: 2, workspace_id: 1, is_focused: false, is_floating: false, found: true }
    );
}

#[test]
fn build_from_id_of_a_closed_window() {
    assert_eq!(build_scratch_from_id(99, &snapshot()), ScratchWindow::default());
    assert_eq!(build_scratch_from_id(1, &Vec::new()), ScratchWindow::default());
}

#[test]
fn focused_window_is_the_first_focused() {
    let mut windows = snapshot();
    windows[5].is_focused = true;
    assert_eq!(fetch_focused_window_full(&windows).map(|w| w.id), Some(3));
    assert_eq!(fetch_focused_window_full(&windows), Some(&windows[2]));
}

#[test]
fn focused_window_may_be_missing() {
    let windows = vec![window(1, Some("a"), Some("b"), 1)];
    assert_eq!(fetch_focused_window_full(&windows), None);
    assert_eq!(fetch_focused_window_full(&Vec::new()), None);
}

#[test]
fn focused_workspace_default() {
    assert_eq!(FocusedWorkspace::default(), FocusedWorkspace { idx: 0, output: String::new() });
}

#[test]
fn focused_workspace_is_found() {
    let workspaces = vec![
        workspace(10, 1, "DP-1", false),
        workspace(11, 2, "DP-1", true),
        workspace(12, 1, "DP-2", true),
    ];
    let mut focused = FocusedWorkspace::default();
    assert_eq!(fetch_focused_workspace(&mut focused, &workspaces), Some(11));
    assert_eq!(focused, FocusedWorkspace { idx: 2, output: "DP-1".to_string() });
}

#[test]
fn focused_workspace_missing_leaves_the_record() {
    let workspaces = vec![workspace(10, 1, "DP-1", false), workspace(11, 2, "DP-1", false)];
    let mut focused = FocusedWorkspace { idx: 6, output: "old".to_string() };
    assert_eq!(fetch_focused_workspace(&mut focused, &workspaces), None);
    assert_eq!(focused, FocusedWorkspace { idx: 6, output: "old".to_string() });
    assert_eq!(fetch_focused_workspace(&mut focused, &Vec::new()), None);
}

#[test]
fn scratch_workspace_defaults_to_scratch() {
    assert_eq!(DEFAULT_SCRATCH_WORKSPACE, "scratch");
    assert_eq!(scratch_workspace_name(None), "scratch");
    assert_eq!(scratch_workspace_name(Some("hidden".to_string())), "hidden");
    assert_eq!(scratch_workspace_name(Some(String::new())), "");
}
