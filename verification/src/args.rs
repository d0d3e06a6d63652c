//! The request of one run: what the command line asked for.

use crate::snapshot::{optional_text, Criterion, CriterionView};
use vstd::prelude::*;

verus! {

/// The options of one invocation.
#[derive(Clone, Debug, Default)]
pub struct Args {
    /// Select the window whose application identifier is exactly this.
    pub app_id: Option<String>,
    /// Select the window whose title is exactly this.
    pub title: Option<String>,
    /// Command line to launch when no window is selected.
    pub spawn: Option<String>,
    /// Work around the compositor's placement of windows that animate.
    pub animations: bool,
    /// Also move a window that is shown to the focused output.
    pub multi_monitor: bool,
    /// Mark the focused window as a scratchpad.
    pub mark: bool,
    /// Show or hide the scratchpad at this position, counted from one.
    pub index: Option<usize>,
    /// Forget the scratchpad at this position, counted from one.
    pub remove: Option<usize>,
    /// List the scratchpads.
    pub list: bool,
}

/// Mathematical model of [`Args`].
pub ghost struct ArgsView {
    pub app_id: Option<Seq<char>>,
    pub title: Option<Seq<char>>,
    pub spawn: Option<Seq<char>>,
    pub animations: bool,
    pub multi_monitor: bool,
    pub mark: bool,
    pub index: Option<usize>,
    pub remove: Option<usize>,
    pub list: bool,
}

impl View for Args {
    type V = ArgsView;

    open spec fn view(&self) -> ArgsView {
        ArgsView {
            app_id: optional_text(self.app_id),
            title: optional_text(self.title),
            spawn: optional_text(self.spawn),
            animations: self.animations,
            multi_monitor: self.multi_monitor,
            mark: self.mark,
            index: self.index,
            remove: self.remove,
            list: self.list,
        }
    }
}

/// The one thing a run does.
#[derive(Clone, Copy, Debug, PartialEq, Eq, Structural)]
pub enum Mode {
    /// Enumerate the scratchpads.
    List,
    /// Forget the scratchpad at a position and give its window back.
    Remove(usize),
    /// Make the focused window a scratchpad.
    Mark,
    /// Show or hide the scratchpad at a position.
    Recall(usize),
    /// Show or hide the window selected by application identifier or title.
    Toggle,
}

impl ArgsView {
    /// The mode that the options select: listing before removal, removal
    /// before marking, marking before recall, and toggling when none of the
    /// four is asked for.
    pub open spec fn mode(self) -> Mode {
        if self.list {
            Mode::List
        } else if let Some(index) = self.remove {
            Mode::Remove(index)
        } else if self.mark {
            Mode::Mark
        } else if let Some(index) = self.index {
            Mode::Recall(index)
        } else {
            Mode::Toggle
        }
    }

    /// The criterion by which toggling selects its window: the application
    /// identifier where one is given, else the title, else nothing.
    pub open spec fn criterion(self) -> CriterionView {
        match (self.app_id, self.title) {
            (Some(app_id), _) => CriterionView::AppId(app_id),
            (None, Some(title)) => CriterionView::Title(title),
            (None, None) => CriterionView::Nothing,
        }
    }
}

/// The name of the scratch workspace where none is configured.
pub const DEFAULT_SCRATCH_WORKSPACE: &'static str = "scratch";

/// The name of the workspace that hides the scratchpads: the configured
/// one, or `scratch` where none is configured.
pub fn scratch_workspace_name(configured: Option<String>) -> (name: String)
    ensures
        name@ == match configured {
            Some(n) => n@,
            None => DEFAULT_SCRATCH_WORKSPACE@,
        },
{
    match configured {
        Some(n) => n,
        None => DEFAULT_SCRATCH_WORKSPACE.to_owned(),
    }
}

impl Args {
    /// The mode that these options select.
    pub fn mode(&self) -> (m: Mode)
        ensures
            m == self@.mode(),
    {
        if self.list {
            Mode::List
        } else if let Some(index) = self.remove {
            Mode::Remove(index)
        } else if self.mark {
            Mode::Mark
        } else if let Some(index) = self.index {
            Mode::Recall(index)
        } else {
            Mode::Toggle
        }
    }

    /// The criterion by which toggling selects its window.
    pub fn criterion(&self) -> (c: Criterion<'_>)
        ensures
            c@ == self@.criterion(),
    {
        match (&self.app_id, &self.title) {
            (Some(app_id), _) => Criterion::AppId(app_id),
            (None, Some(title)) => Criterion::Title(title),
            (None, None) => Criterion::Nothing,
        }
    }
}

} // verus!
