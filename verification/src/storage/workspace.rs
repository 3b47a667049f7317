//! The workspace data model and the `$PROJECT_DIR` path notation.

use vstd::prelude::*;

pub mod buffer;
pub mod layout;
use crate::utils::text::{
    chars_of, has_prefix, second_piece, second_split_piece, starts_with, string_from_chars,
};

verus! {

/// An entry of a workspace's file tree.
pub enum FileEntry {
    File(String),
    Dir(String, Vec<FileEntry>),
}

/// Where remote assets are cached.
#[derive(Debug, Copy, Clone, PartialEq, Eq, Structural)]
pub enum AssetCachingStrategy {
    /// Store remote assets in memory.
    Memory,
    /// Store remote assets, encrypted, in the workspace database.
    Blob,
    /// Store remote assets unencrypted in the `.assets` directory.
    Disk,
}

/// Which remote data may be fetched.
#[derive(Debug, Copy, Clone, PartialEq, Eq, Structural)]
pub enum RemoteDataStrategy {
    /// Fetch no remote data.
    Disallow,
    /// Fetch remote data from specified domains only.
    AllowSpecific,
    /// Fetch all remote data.
    All,
}

/// Why a workspace could not be opened or created.
#[derive(Debug)]
pub enum WorkspaceError {
    WorkspaceInvalid(String),
    WorkspaceNotFound(String),
    RootNotFound(String),
}

/// Joins a path segment onto a path as a Unix `PathBuf::push` does: an
/// absolute segment replaces the path, otherwise a `/` separates the two
/// unless the path is empty or already ends with one.
pub open spec fn path_join(base: Seq<char>, segment: Seq<char>) -> Seq<char> {
    if segment.len() > 0 && segment[0] == '/' {
        segment
    } else if base.len() == 0 || base.last() == '/' {
        base + segment
    } else {
        base + seq!['/'] + segment
    }
}

/// Pushes a path segment onto a path, with Unix path semantics.
pub fn push_path(base: &Vec<char>, segment: &Vec<char>) -> (r: Vec<char>)
    ensures
        r@ == path_join(base@, segment@),
{
    if segment.len() > 0 && segment[0] == '/' {
        return segment.clone();
    }
    let mut out = base.clone();
    let n = out.len();
    if n > 0 && out[n - 1] != '/' {
        out.push('/');
    }
    let m = segment.len();
    let ghost start = out@;
    for i in 0..m
        invariant
            m == segment@.len(),
            out@ == start + segment@.take(i as int),
    {
        out.push(segment[i]);
        assert(out@ =~= start + segment@.take(i + 1));
    }
    assert(segment@.take(m as int) =~= segment@);
    out
}

/// The marker that stands for the workspace root in stored paths.
pub open spec fn project_dir_marker() -> Seq<char> {
    "$PROJECT_DIR"@
}

/// The marker followed by a separator.
pub open spec fn project_dir_prefix() -> Seq<char> {
    "$PROJECT_DIR/"@
}

/// The paths `render_directory` accepts: one that starts with the marker
/// must hold the marker followed by a separator somewhere.
pub open spec fn render_defined(path: Seq<char>) -> bool {
    starts_with(path, project_dir_marker()) ==> second_split_piece(path, project_dir_prefix()) is Some
}

/// The directory a stored path stands for: a path starting with
/// `$PROJECT_DIR` is the workspace directory joined with `noot` and with the
/// text that follows the first `$PROJECT_DIR/` (up to a next one); any other
/// path gives the workspace directory itself.
pub open spec fn spec_render_directory(path: Seq<char>, workspace_directory: Seq<char>) -> Seq<char> {
    if starts_with(path, project_dir_marker()) {
        path_join(
            path_join(workspace_directory, "noot"@),
            second_split_piece(path, project_dir_prefix()).unwrap(),
        )
    } else {
        workspace_directory
    }
}

/// Expands the `$PROJECT_DIR` notation of a stored path into a directory
/// under the workspace directory.
pub fn render_directory(path: String, workspace_directory: String) -> (r: String)
    requires
        render_defined(path@),
    ensures
        r@ == spec_render_directory(path@, workspace_directory@),
{
    let path_chars = chars_of(path.as_str());
    let workspace_dir = chars_of(workspace_directory.as_str());
    let marker = chars_of("$PROJECT_DIR");
    if has_prefix(&path_chars, &marker) {
        let prefix = chars_of("$PROJECT_DIR/");
        let noot = chars_of("noot");
        let with_noot = push_path(&workspace_dir, &noot);
        match second_piece(&path_chars, &prefix) {
            Some(rest) => {
                let joined = push_path(&with_noot, &rest);
                string_from_chars(joined.as_slice())
            },
            None => {
                assert(false);
                workspace_directory
            },
        }
    } else {
        workspace_directory
    }
}

/// The stored form of a path: a path starting with the workspace directory
/// becomes `$PROJECT_DIR/` followed by the text after the directory (up to
/// its next occurrence); any other path is kept.
pub open spec fn spec_minify_directory(path: Seq<char>, workspace_directory: Seq<char>) -> Seq<char> {
    if starts_with(path, workspace_directory) {
        project_dir_prefix() + second_split_piece(path, workspace_directory).unwrap()
    } else {
        path
    }
}

/// Replaces the workspace directory at the start of a path by the
/// `$PROJECT_DIR` notation.
pub fn minify_directory(path: String, workspace_directory: String) -> (r: String)
    ensures
        r@ == spec_minify_directory(path@, workspace_directory@),
{
    let path_chars = chars_of(path.as_str());
    let workspace_dir = chars_of(workspace_directory.as_str());
    if has_prefix(&path_chars, &workspace_dir) {
        match second_piece(&path_chars, &workspace_dir) {
            Some(rest) => {
                let tail = string_from_chars(rest.as_slice());
                String::from_str("$PROJECT_DIR/").concat(tail.as_str())
            },
            None => {
                assert(false);
                path
            },
        }
    } else {
        path
    }
}

/// Whether a workspace directory can be opened, given whether its path
/// exists and is a directory: a directory opens; an existing path that is
/// not a directory is invalid; a missing one is not found. `display` is the
/// path as shown in the messages.
pub fn check_workspace_dir(exists: bool, is_dir: bool, display: &str) -> (r: Result<(), WorkspaceError>)
    ensures
        exists && is_dir ==> r is Ok,
        exists && !is_dir ==> (r matches Err(WorkspaceError::WorkspaceInvalid(m)) && m@ == "The path '"@
            + display@ + "' is not a directory"@),
        !exists ==> (r matches Err(WorkspaceError::WorkspaceNotFound(m)) && m@ == display@),
{
    if exists && is_dir {
        Ok(())
    } else if exists && !is_dir {
        Err(
            WorkspaceError::WorkspaceInvalid(
                String::from_str("The path '").concat(display).concat("' is not a directory"),
            ),
        )
    } else {
        Err(WorkspaceError::WorkspaceNotFound(String::from_str(display)))
    }
}

} // verus!
