use vstd::prelude::*;

verus! {

/// The form of a new workspace: its name and path, whether the parent folder
/// exists, whether plugins are enabled, and the template chosen.
#[derive(Debug, Clone)]
pub struct NewWorkspaceView {
    pub workspace_name: Option<String>,
    pub workspace_path: Option<String>,
    pub parent_folder_exists: bool,
    pub enable_plugins: bool,
    pub template_id: Option<String>,
}

impl NewWorkspaceView {
    /// An empty form.
    pub fn new() -> (r: Self)
        ensures
            r.workspace_name is None,
            r.workspace_path is None,
            !r.parent_folder_exists,
            !r.enable_plugins,
            r.template_id is None,
    {
        Self {
            workspace_name: None,
            workspace_path: None,
            parent_folder_exists: false,
            enable_plugins: false,
            template_id: None,
        }
    }
}

} // verus!
