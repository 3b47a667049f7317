//! The landing view and its sub-views.

use vstd::prelude::*;
use self::new_workspace::NewWorkspaceView;

pub mod new_workspace;

verus! {

/// The landing view: which sub-view it shows.
#[derive(Debug, Clone)]
pub struct LandingView {
    subview: SubView,
}

/// The sub-views of the landing view.
#[derive(Debug, Clone)]
pub enum SubView {
    /// The welcome screen with its buttons.
    Blank,
    NewWorkspace(NewWorkspaceView),
    OpenWorkspace(),
    CloudWorkspace(),
}

impl LandingView {
    /// The sub-view shown.
    pub closed spec fn spec_subview(&self) -> SubView {
        self.subview
    }

    /// The landing view starts on the form of a new workspace.
    pub fn new() -> (r: LandingView)
        ensures
            r.spec_subview() matches SubView::NewWorkspace(v) && v.workspace_name is None
                && v.workspace_path is None && !v.parent_folder_exists && !v.enable_plugins
                && v.template_id is None,
    {
        LandingView { subview: SubView::NewWorkspace(NewWorkspaceView::new()) }
    }

    /// The sub-view shown.
    pub fn subview(&self) -> (r: &SubView)
        ensures
            *r == self.spec_subview(),
    {
        &self.subview
    }
}

} // verus!
