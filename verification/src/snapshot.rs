//! Point-in-time records of the compositor's windows and workspaces, and the
//! selection of one window out of a snapshot.

use crate::args::Args;
use vstd::prelude::*;

verus! {

/// The characters of an optional text, if it is there.
pub open spec fn optional_text(t: Option<String>) -> Option<Seq<char>> {
    match t {
        Some(s) => Some(s@),
        None => None,
    }
}

/// One live window, as the compositor reported it.
#[derive(Clone, Debug, PartialEq, Eq)]
pub struct Window {
    pub id: i64,
    pub app_id: Option<String>,
    pub title: Option<String>,
    pub workspace_id: i64,
    pub is_focused: bool,
    pub is_floating: bool,
}

/// Mathematical model of a [`Window`].
pub ghost struct WindowView {
    pub id: i64,
    pub app_id: Option<Seq<char>>,
    pub title: Option<Seq<char>>,
    pub workspace_id: i64,
    pub is_focused: bool,
    pub is_floating: bool,
}

impl View for Window {
    type V = WindowView;

    open spec fn view(&self) -> WindowView {
        WindowView {
            id: self.id,
            app_id: optional_text(self.app_id),
            title: optional_text(self.title),
            workspace_id: self.workspace_id,
            is_focused: self.is_focused,
            is_floating: self.is_floating,
        }
    }
}

/// The models of the windows of a snapshot, in snapshot order.
pub open spec fn window_views(windows: Seq<Window>) -> Seq<WindowView> {
    windows.map_values(|w: Window| w@)
}

/// The ids of the windows of a snapshot.
pub open spec fn window_ids(windows: Seq<WindowView>) -> Set<i64> {
    Set::new(|id: i64| exists|i: int| 0 <= i < windows.len() && #[trigger] windows[i].id == id)
}

/// What a window is selected by.
pub enum Criterion<'a> {
    /// The application identifier is exactly this text.
    AppId(&'a String),
    /// The title is exactly this text.
    Title(&'a String),
    /// The window has this id.
    Id(i64),
    /// The window has the focus.
    Focused,
    /// No window is asked for.
    Nothing,
}

/// Mathematical model of a [`Criterion`].
pub ghost enum CriterionView {
    AppId(Seq<char>),
    Title(Seq<char>),
    Id(i64),
    Focused,
    Nothing,
}

impl<'a> View for Criterion<'a> {
    type V = CriterionView;

    open spec fn view(&self) -> CriterionView {
        match *self {
            Criterion::AppId(a) => CriterionView::AppId(a@),
            Criterion::Title(t) => CriterionView::Title(t@),
            Criterion::Id(id) => CriterionView::Id(id),
            Criterion::Focused => CriterionView::Focused,
            Criterion::Nothing => CriterionView::Nothing,
        }
    }
}

/// Whether a window meets a criterion. A window without an application
/// identifier or title meets no criterion on that attribute.
pub open spec fn satisfies(w: WindowView, c: CriterionView) -> bool {
    match c {
        CriterionView::AppId(a) => w.app_id == Some(a),
        CriterionView::Title(t) => w.title == Some(t),
        CriterionView::Id(id) => w.id == id,
        CriterionView::Focused => w.is_focused,
        CriterionView::Nothing => false,
    }
}

/// Position `i` holds the first window of the snapshot that meets `c`.
pub open spec fn is_first_match(windows: Seq<WindowView>, c: CriterionView, i: int) -> bool {
    &&& 0 <= i < windows.len()
    &&& satisfies(windows[i], c)
    &&& forall|j: int| 0 <= j < i ==> !satisfies(#[trigger] windows[j], c)
}

/// The position of the first window that meets `c`, if any window does.
pub open spec fn first_match(windows: Seq<WindowView>, c: CriterionView) -> Option<int> {
    if exists|i: int| is_first_match(windows, c, i) {
        Some(choose|i: int| is_first_match(windows, c, i))
    } else {
        None
    }
}

/// A snapshot has at most one first match, and `first_match` names it; with
/// no window meeting the criterion there is none.
pub proof fn lemma_first_match(windows: Seq<WindowView>, c: CriterionView)
    ensures
        forall|i: int| is_first_match(windows, c, i) ==> first_match(windows, c) == Some(i),
        (forall|j: int| 0 <= j < windows.len() ==> !satisfies(#[trigger] windows[j], c))
            ==> first_match(windows, c).is_none(),
        first_match(windows, c) matches Some(i) ==> is_first_match(windows, c, i),
{
    assert forall|i: int| is_first_match(windows, c, i) implies first_match(windows, c) == Some(
        i,
    ) by {
        let k = choose|k: int| is_first_match(windows, c, k);
        assert(is_first_match(windows, c, k));
        if k < i {
            assert(!satisfies(windows[k], c));
        } else if i < k {
            assert(!satisfies(windows[i], c));
        }
    }
}

/// Where some window meets the criterion, there is a first one that does.
pub proof fn lemma_some_match(windows: Seq<WindowView>, c: CriterionView, i: int)
    requires
        0 <= i < windows.len(),
        satisfies(windows[i], c),
    ensures
        first_match(windows, c) matches Some(k) && k <= i,
    decreases i,
{
    if exists|j: int| 0 <= j < i && satisfies(#[trigger] windows[j], c) {
        let j = choose|j: int| 0 <= j < i && satisfies(#[trigger] windows[j], c);
        lemma_some_match(windows, c, j);
    } else {
        assert(is_first_match(windows, c, i));
        lemma_first_match(windows, c);
    }
}

impl Window {
    /// Whether this window meets the criterion.
    pub fn meets(&self, c: &Criterion) -> (r: bool)
        ensures
            r == satisfies(self@, c@),
    {
        match c {
            Criterion::AppId(a) => match &self.app_id {
                Some(mine) => *mine == **a,
                None => false,
            },
            Criterion::Title(t) => match &self.title {
                Some(mine) => *mine == **t,
                None => false,
            },
            Criterion::Id(id) => self.id == *id,
            Criterion::Focused => self.is_focused,
            Criterion::Nothing => false,
        }
    }
}

/// The position of the first window of the snapshot that meets the criterion.
pub fn position(windows: &Vec<Window>, c: &Criterion) -> (r: Option<usize>)
    ensures
        match r {
            Some(i) => first_match(window_views(windows@), c@) == Some(i as int),
            None => first_match(window_views(windows@), c@).is_none(),
        },
{
    let mut i: usize = 0;
    while i < windows.len()
        invariant
            i <= windows.len(),
            forall|j: int| 0 <= j < i ==> !satisfies(#[trigger] window_views(windows@)[j], c@),
        decreases windows.len() - i,
    {
        if windows[i].meets(c) {
            proof {
                assert(window_views(windows@)[i as int] == windows@[i as int]@);
                assert(is_first_match(window_views(windows@), c@, i as int));
                lemma_first_match(window_views(windows@), c@);
            }
            return Some(i);
        }
        assert(window_views(windows@)[i as int] == windows@[i as int]@);
        i += 1;
    }
    proof {
        lemma_first_match(window_views(windows@), c@);
    }
    None
}

/// What the selection of a window found: whether one matched and, if so, the
/// attributes the decisions read.
#[derive(Clone, Copy, Debug, PartialEq, Eq, Structural)]
pub struct ScratchWindow {
    pub id: i64,
    pub workspace_id: i64,
    pub is_focused: bool,
    pub is_floating: bool,
    pub found: bool,
}

impl ScratchWindow {
    /// The selection that found no window.
    pub open spec fn absent() -> ScratchWindow {
        ScratchWindow { id: 0, workspace_id: 0, is_focused: false, is_floating: false, found: false }
    }

    /// The selection that found this window.
    pub open spec fn of(w: WindowView) -> ScratchWindow {
        ScratchWindow {
            id: w.id,
            workspace_id: w.workspace_id,
            is_focused: w.is_focused,
            is_floating: w.is_floating,
            found: true,
        }
    }
}

impl Default for ScratchWindow {
    fn default() -> (r: ScratchWindow)
        ensures
            r == ScratchWindow::absent(),
    {
        ScratchWindow { id: 0, workspace_id: 0, is_focused: false, is_floating: false, found: false }
    }
}

/// The selection of the first window that meets `c`: its attributes, or
/// [`ScratchWindow::absent`] where no window meets it.
pub open spec fn selection(windows: Seq<WindowView>, c: CriterionView) -> ScratchWindow {
    match first_match(windows, c) {
        Some(i) => ScratchWindow::of(windows[i]),
        None => ScratchWindow::absent(),
    }
}

/// Selects the first window of the snapshot that meets the criterion.
pub fn select(windows: &Vec<Window>, c: &Criterion) -> (r: ScratchWindow)
    ensures
        r == selection(window_views(windows@), c@),
        r.found <==> exists|i: int|
            0 <= i < windows.len() && satisfies(#[trigger] windows[i]@, c@),
{
    proof {
        lemma_first_match(window_views(windows@), c@);
    }
    match position(windows, c) {
        Some(i) => {
            let w = &windows[i];
            assert(window_views(windows@)[i as int] == w@);
            assert(satisfies(windows[i as int]@, c@));
            ScratchWindow {
                id: w.id,
                workspace_id: w.workspace_id,
                is_focused: w.is_focused,
                is_floating: w.is_floating,
                found: true,
            }
        },
        None => {
            assert forall|i: int| 0 <= i < windows.len() implies !satisfies(
                #[trigger] windows[i]@,
                c@,
            ) by {
                if satisfies(windows[i]@, c@) {
                    lemma_some_match(window_views(windows@), c@, i);
                }
            }
            ScratchWindow::default()
        },
    }
}

/// Selects the window that toggling works on: the first whose application
/// identifier is the one asked for or, where none is asked for, the first
/// whose title is the one asked for.
pub fn find_scratch_window(args: &Args, windows: &Vec<Window>) -> (r: ScratchWindow)
    ensures
        r == selection(window_views(windows@), args@.criterion()),
{
    let c = args.criterion();
    select(windows, &c)
}

/// Selects the live window with the given id.
pub fn build_scratch_from_id(id: i64, windows: &Vec<Window>) -> (r: ScratchWindow)
    ensures
        r == selection(window_views(windows@), CriterionView::Id(id)),
        r.found <==> window_ids(window_views(windows@)).contains(id),
        r.found ==> r.id == id,
{
    let r = select(windows, &Criterion::Id(id));
    proof {
        let views = window_views(windows@);
        lemma_first_match(views, CriterionView::Id(id));
        if r.found {
            let i = choose|i: int|
                0 <= i < windows.len() && satisfies(#[trigger] windows[i]@, CriterionView::Id(id));
            assert(views[i].id == id);
        }
        if window_ids(views).contains(id) {
            let i = choose|i: int| 0 <= i < views.len() && #[trigger] views[i].id == id;
            assert(satisfies(windows[i]@, CriterionView::Id(id)));
        }
    }
    r
}

/// The first window of the snapshot that has the focus.
pub fn fetch_focused_window_full(windows: &Vec<Window>) -> (r: Option<&Window>)
    ensures
        match first_match(window_views(windows@), CriterionView::Focused) {
            Some(i) => r == Some(&windows[i]),
            None => r.is_none(),
        },
{
    match position(windows, &Criterion::Focused) {
        Some(i) => Some(&windows[i]),
        None => None,
    }
}

/// One workspace, as the compositor reported it.
#[derive(Clone, Debug, PartialEq, Eq)]
pub struct Workspace {
    pub id: i64,
    pub idx: i64,
    pub output: String,
    pub is_focused: bool,
}

/// Mathematical model of a [`Workspace`].
pub ghost struct WorkspaceView {
    pub id: i64,
    pub idx: i64,
    pub output: Seq<char>,
    pub is_focused: bool,
}

impl View for Workspace {
    type V = WorkspaceView;

    open spec fn view(&self) -> WorkspaceView {
        WorkspaceView {
            id: self.id,
            idx: self.idx,
            output: self.output@,
            is_focused: self.is_focused,
        }
    }
}

/// The models of the workspaces of a snapshot, in snapshot order.
pub open spec fn workspace_views(workspaces: Seq<Workspace>) -> Seq<WorkspaceView> {
    workspaces.map_values(|w: Workspace| w@)
}

/// Where the user currently is: the index of the focused workspace and the
/// output that shows it.
#[derive(Clone, Debug, PartialEq, Eq)]
pub struct FocusedWorkspace {
    pub idx: i64,
    pub output: String,
}

/// Mathematical model of a [`FocusedWorkspace`].
pub ghost struct FocusedWorkspaceView {
    pub idx: i64,
    pub output: Seq<char>,
}

impl View for FocusedWorkspace {
    type V = FocusedWorkspaceView;

    open spec fn view(&self) -> FocusedWorkspaceView {
        FocusedWorkspaceView { idx: self.idx, output: self.output@ }
    }
}

impl Default for FocusedWorkspace {
    fn default() -> (r: FocusedWorkspace)
        ensures
            r@ == (FocusedWorkspaceView { idx: 0, output: Seq::empty() }),
    {
        FocusedWorkspace { idx: 0, output: String::new() }
    }
}

/// Position `i` holds the first focused workspace of the snapshot.
pub open spec fn is_first_focused(workspaces: Seq<WorkspaceView>, i: int) -> bool {
    &&& 0 <= i < workspaces.len()
    &&& workspaces[i].is_focused
    &&& forall|j: int| 0 <= j < i ==> !(#[trigger] workspaces[j]).is_focused
}

/// The position of the first focused workspace, if any is focused.
pub open spec fn first_focused(workspaces: Seq<WorkspaceView>) -> Option<int> {
    if exists|i: int| is_first_focused(workspaces, i) {
        Some(choose|i: int| is_first_focused(workspaces, i))
    } else {
        None
    }
}

/// A snapshot has at most one first focused workspace, and `first_focused`
/// names it; with no workspace focused there is none.
pub proof fn lemma_first_focused(workspaces: Seq<WorkspaceView>)
    ensures
        forall|i: int| is_first_focused(workspaces, i) ==> first_focused(workspaces) == Some(i),
        (forall|j: int| 0 <= j < workspaces.len() ==> !(#[trigger] workspaces[j]).is_focused)
            ==> first_focused(workspaces).is_none(),
        first_focused(workspaces) matches Some(i) ==> is_first_focused(workspaces, i),
{
    assert forall|i: int| is_first_focused(workspaces, i) implies first_focused(workspaces)
        == Some(i) by {
        let k = choose|k: int| is_first_focused(workspaces, k);
        assert(is_first_focused(workspaces, k));
        if k < i {
            assert(!workspaces[k].is_focused);
        } else if i < k {
            assert(!workspaces[i].is_focused);
        }
    }
}

/// Finds the focused workspace. Where one is focused, `focused` receives the
/// index and output of the first such workspace and its id is returned; where
/// none is, `focused` is left as it was and `None` is returned.
pub fn fetch_focused_workspace(focused: &mut FocusedWorkspace, workspaces: &Vec<Workspace>) -> (r:
    Option<i64>)
    ensures
        match first_focused(workspace_views(workspaces@)) {
            Some(i) => {
                &&& r == Some(workspaces[i].id)
                &&& final(focused).idx == workspaces[i].idx
                &&& final(focused).output@ == workspaces[i].output@
            },
            None => r.is_none() && *final(focused) == *old(focused),
        },
{
    let mut i: usize = 0;
    while i < workspaces.len()
        invariant
            i <= workspaces.len(),
            *focused == *old(focused),
            forall|j: int| 0 <= j < i ==> !(#[trigger] workspace_views(workspaces@)[j]).is_focused,
        decreases workspaces.len() - i,
    {
        let ws = &workspaces[i];
        assert(workspace_views(workspaces@)[i as int] == ws@);
        if ws.is_focused {
            proof {
                assert(is_first_focused(workspace_views(workspaces@), i as int));
                lemma_first_focused(workspace_views(workspaces@));
            }
            focused.idx = ws.idx;
            focused.output = ws.output.clone();
            return Some(ws.id);
        }
        i += 1;
    }
    proof {
        lemma_first_focused(workspace_views(workspaces@));
    }
    None
}

} // verus!
