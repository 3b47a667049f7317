//! Decisions of the application runtime: what to open when the application
//! starts, and what to do once a window has closed.

use vstd::prelude::*;
use crate::storage::process::Workspace;
use crate::utils::text::text_eq;
use crate::runtime::state::{registered, register_all, lemma_registered_keys, WorkspaceMap};

pub mod messaging;
pub mod state;
pub mod windows;
pub mod workers;

verus! {

/// The window that lists, creates and opens workspaces.
pub open spec fn workspace_manager_window() -> Seq<char> {
    seq!['w', 'o', 'r', 'k', 's', 'p', 'a', 'c', 'e', '-', 'm', 'a', 'n', 'a', 'g', 'e', 'r']
}

/// What the first tick of the application does.
#[derive(Debug)]
pub enum StartupAction {
    /// Open the window with this name.
    OpenWindow(String),
    /// Open the workspace with this id in an editor.
    OpenWorkspace(String),
    /// Quit the application.
    Exit,
}

/// The ids of a list of workspaces, as text.
pub open spec fn id_texts(ids: Seq<String>) -> Seq<Seq<char>> {
    ids.map_values(|s: String| s@)
}

/// How many entries of `ids` equal `id`.
pub open spec fn occurrences(ids: Seq<Seq<char>>, id: Seq<char>) -> nat
    decreases ids.len(),
{
    if ids.len() == 0 {
        0
    } else {
        occurrences(ids.drop_last(), id) + if ids.last() == id {
            1nat
        } else {
            0nat
        }
    }
}

/// The action of the first tick, given the known workspaces (most recently
/// accessed first), the workspace requested on the command line and the
/// `workspace.load_last` setting.
pub open spec fn spec_startup_action(
    ids: Seq<Seq<char>>,
    requested: Option<Seq<char>>,
    load_last_used: bool,
) -> (Option<Seq<char>>, Option<Seq<char>>) {
    if ids.len() == 0 {
        (Some(workspace_manager_window()), None)
    } else {
        match requested {
            Some(w) => if occurrences(ids, w) == 1 {
                (None, Some(w))
            } else {
                (None, None)
            },
            None => if load_last_used {
                (None, Some(ids.last()))
            } else {
                (Some(workspace_manager_window()), None)
            },
        }
    }
}

/// The action as a pair: the window to open, or the workspace to open, or
/// neither (exit).
pub open spec fn action_view(a: StartupAction) -> (Option<Seq<char>>, Option<Seq<char>>) {
    match a {
        StartupAction::OpenWindow(w) => (Some(w@), None),
        StartupAction::OpenWorkspace(w) => (None, Some(w@)),
        StartupAction::Exit => (None, None),
    }
}

fn manager_window_name() -> (r: String)
    ensures
        r@ == workspace_manager_window(),
{
    let s = String::from_str("workspace-manager");
    proof {
        reveal_strlit("workspace-manager");
    }
    s
}

/// Decides the first tick of the application: with no workspace, the
/// workspace manager opens; a workspace requested on the command line opens
/// when exactly one known workspace has its id, and the application exits
/// otherwise; else the last workspace of the list opens when
/// `workspace.load_last` is set, and the workspace manager when it is not.
pub fn startup_action(workspace_ids: &Vec<String>, load_workspace: &Option<String>, load_last_used: bool) -> (r: StartupAction)
    ensures
        action_view(r) == spec_startup_action(
            id_texts(workspace_ids@),
            match load_workspace {
                Some(w) => Some(w@),
                None => None,
            },
            load_last_used,
        ),
{
    let n = workspace_ids.len();
    if n == 0 {
        return StartupAction::OpenWindow(manager_window_name());
    }
    let ghost ids = id_texts(workspace_ids@);
    match load_workspace {
        Some(wsp) => {
            let mut count: usize = 0;
            let mut i: usize = 0;
            while i < n
                invariant
                    n == workspace_ids@.len(),
                    ids == id_texts(workspace_ids@),
                    0 <= i <= n,
                    count == occurrences(ids.take(i as int), wsp@),
                    count <= i,
                decreases n - i,
            {
                assert(ids.take(i + 1).drop_last() =~= ids.take(i as int));
                if workspace_ids[i] == *wsp {
                    count = count + 1;
                }
                i = i + 1;
            }
            assert(ids.take(n as int) =~= ids);
            if count == 1 {
                StartupAction::OpenWorkspace(wsp.clone())
            } else {
                StartupAction::Exit
            }
        },
        None => {
            if load_last_used {
                StartupAction::OpenWorkspace(workspace_ids[n - 1].clone())
            } else {
                StartupAction::OpenWindow(manager_window_name())
            }
        },
    }
}

/// The ids of a list of workspaces, as text.
pub open spec fn workspace_id_texts(ws: Seq<Workspace>) -> Seq<Seq<char>> {
    ws.map_values(|w: Workspace| w.id@)
}

fn ids_of(listed: &Vec<Workspace>) -> (r: Vec<String>)
    ensures
        id_texts(r@) == workspace_id_texts(listed@),
{
    let mut ids: Vec<String> = Vec::new();
    let n = listed.len();
    let mut i: usize = 0;
    while i < n
        invariant
            n == listed@.len(),
            0 <= i <= n,
            ids@.len() == i,
            forall|k: int| 0 <= k < i ==> (#[trigger] ids@[k])@ == listed@[k].id@,
        decreases n - i,
    {
        ids.push(listed[i].id.clone());
        i = i + 1;
    }
    assert(id_texts(ids@) =~= workspace_id_texts(listed@));
    ids
}

/// The first tick of the application: every listed workspace (most
/// recently accessed first) is registered in `known` under its id, and the
/// action is that of `startup_action` on their ids. With no workspace
/// listed, `known` is left as it was and the workspace manager opens.
pub fn first_tick(
    known: &mut WorkspaceMap,
    listed: &Vec<Workspace>,
    load_workspace: &Option<String>,
    load_last_used: bool,
) -> (r: StartupAction)
    ensures
        final(known)@ == registered(old(known)@, listed@),
        listed@.len() == 0 ==> final(known)@ == old(known)@,
        forall|i: int| 0 <= i < listed@.len() ==> final(known)@.contains_key(#[trigger] listed@[i].id@),
        action_view(r) == spec_startup_action(
            workspace_id_texts(listed@),
            match load_workspace {
                Some(w) => Some(w@),
                None => None,
            },
            load_last_used,
        ),
{
    if listed.len() == 0 {
        return StartupAction::OpenWindow(manager_window_name());
    }
    register_all(known, listed);
    proof {
        lemma_registered_keys(old(known)@, listed@);
    }
    let ids = ids_of(listed);
    startup_action(&ids, load_workspace, load_last_used)
}

/// What follows the closing of a window.
#[derive(Debug, PartialEq, Eq, Structural)]
pub enum CloseFollowUp {
    /// Windows remain open: nothing more.
    Continue,
    /// The last window closed in daemon mode: tell the user the application
    /// keeps running in the background.
    NotifyBackground,
    /// The last window closed outside daemon mode: quit.
    Exit,
}

/// What follows the closing of a window when `remaining` windows stay open.
pub open spec fn close_follow_up(remaining: nat, daemon_mode: bool) -> CloseFollowUp {
    if remaining > 0 {
        CloseFollowUp::Continue
    } else if daemon_mode {
        CloseFollowUp::NotifyBackground
    } else {
        CloseFollowUp::Exit
    }
}

/// Decides what follows the closing of a window, given the number of windows
/// that remain and the `runtime.daemon.enable` setting.
pub fn after_window_closed(remaining_windows: usize, daemon_mode: bool) -> (r: CloseFollowUp)
    ensures
        r == close_follow_up(remaining_windows as nat, daemon_mode),
        remaining_windows > 0 ==> r == CloseFollowUp::Continue,
        remaining_windows == 0 && daemon_mode ==> r == CloseFollowUp::NotifyBackground,
        remaining_windows == 0 && !daemon_mode ==> r == CloseFollowUp::Exit,
{
    if remaining_windows == 0 && daemon_mode {
        CloseFollowUp::NotifyBackground
    } else if remaining_windows == 0 && !daemon_mode {
        CloseFollowUp::Exit
    } else {
        CloseFollowUp::Continue
    }
}

/// A window that closed: its own close task runs first, then the follow-up.
#[derive(Debug, PartialEq, Eq, Structural)]
pub struct WindowClosed {
    /// The window whose close task runs.
    pub id: u64,
    /// What follows once it has closed.
    pub follow_up: CloseFollowUp,
}

/// Closes the window `id` among the open windows (each open window is
/// listed once). An unknown id changes nothing and gives `None`. A known
/// one leaves the open windows, the others stay, and the result names it
/// with what follows: nothing while windows remain, else a background
/// notice in daemon mode or quitting outside it.
pub fn close_window(open: &mut Vec<u64>, id: u64, daemon_mode: bool) -> (r: Option<WindowClosed>)
    requires
        old(open)@.no_duplicates(),
    ensures
        final(open)@.no_duplicates(),
        !old(open)@.contains(id) ==> r is None && final(open)@ == old(open)@,
        old(open)@.contains(id) ==> {
            &&& r == Some(WindowClosed { id, follow_up: close_follow_up(final(open)@.len(), daemon_mode) })
            &&& !final(open)@.contains(id)
            &&& final(open)@.len() == old(open)@.len() - 1
            &&& forall|w: u64| w != id ==> (final(open)@.contains(w) <==> old(open)@.contains(w))
        },
{
    let n = open.len();
    let mut i: usize = 0;
    while i < n
        invariant
            n == open@.len(),
            open@ == old(open)@,
            open@.no_duplicates(),
            0 <= i <= n,
            forall|k: int| 0 <= k < i ==> open@[k] != id,
        decreases n - i,
    {
        if open[i] == id {
            let ghost before = open@;
            open.remove(i);
            proof {
                assert(before[i as int] == id);
                assert forall|k: int| 0 <= k < open@.len() implies #[trigger] open@[k] == if k < i {
                    before[k]
                } else {
                    before[k + 1]
                } by {}
                assert forall|w: u64| w != id implies (open@.contains(w) <==> before.contains(w)) by {
                    if before.contains(w) {
                        let k = choose|k: int| 0 <= k < before.len() && before[k] == w;
                        if k < i {
                            assert(open@[k] == w);
                        } else {
                            assert(k != i);
                            assert(open@[k - 1] == w);
                        }
                    }
                }
                if open@.contains(id) {
                    let k = choose|k: int| 0 <= k < open@.len() && open@[k] == id;
                    if k < i {
                        assert(before[k] == before[i as int]);
                    } else {
                        assert(before[k + 1] == before[i as int]);
                    }
                }
            }
            let follow_up = after_window_closed(open.len(), daemon_mode);
            return Some(WindowClosed { id, follow_up });
        }
        i = i + 1;
    }
    None
}

/// Where a window message goes.
#[derive(Debug, PartialEq, Eq, Structural)]
pub enum WindowRoute {
    /// To the open window with this id.
    To(u64),
    /// Nowhere: the message is dropped.
    Dropped,
}

/// Routes a window message: a message with a source goes to that window
/// (which must be open); one without goes to the splash window when there
/// is one and it is still open, and is dropped otherwise.
pub fn route_window_message(source: Option<u64>, splash: Option<u64>, open_windows: &Vec<u64>) -> (r: WindowRoute)
    requires
        source matches Some(id) ==> open_windows@.contains(id),
    ensures
        r == match source {
            Some(id) => WindowRoute::To(id),
            None => match splash {
                Some(s) => if open_windows@.contains(s) {
                    WindowRoute::To(s)
                } else {
                    WindowRoute::Dropped
                },
                None => WindowRoute::Dropped,
            },
        },
{
    match source {
        Some(id) => WindowRoute::To(id),
        None => match splash {
            Some(s) => {
                let mut i: usize = 0;
                let n = open_windows.len();
                while i < n
                    invariant
                        n == open_windows@.len(),
                        source is None,
                        splash == Some(s),
                        0 <= i <= n,
                        forall|j: int| 0 <= j < i ==> open_windows@[j] != s,
                    decreases n - i,
                {
                    if open_windows[i] == s {
                        assert(open_windows@[i as int] == s);
                        return WindowRoute::To(s);
                    }
                    i = i + 1;
                }
                WindowRoute::Dropped
            },
            None => WindowRoute::Dropped,
        },
    }
}

/// The kinds of window the application opens by name.
#[derive(Debug, PartialEq, Eq, Structural)]
pub enum WindowKind {
    /// The window that lists, creates and opens workspaces.
    WorkspaceManager,
    /// An editor on the open workspace.
    Editor,
}

/// The window a name opens: `workspace-manager` and `editor`; any other name
/// opens nothing.
pub fn window_for_name(name: &str) -> (r: Option<WindowKind>)
    ensures
        r == if name@ == workspace_manager_window() {
            Some(WindowKind::WorkspaceManager)
        } else if name@ == "editor"@ {
            Some(WindowKind::Editor)
        } else {
            None
        },
{
    proof {
        reveal_strlit("workspace-manager");
        assert(workspace_manager_window() =~= "workspace-manager"@);
    }
    if text_eq(name, "workspace-manager") {
        Some(WindowKind::WorkspaceManager)
    } else if text_eq(name, "editor") {
        Some(WindowKind::Editor)
    } else {
        None
    }
}

/// The global key bindings.
#[derive(Debug, Clone, Copy, PartialEq, Eq, Structural)]
pub enum Keybind {
    /// Open the most recently used workspace in an editor.
    OpenLastEditor,
    /// Switch the dyslexia-friendly font on or off.
    ToggleDyslexia,
}

/// What a key binding asks of the runtime.
#[derive(Debug)]
pub enum KeybindAction {
    /// Open the workspace with this id.
    OpenWorkspace(String),
    /// Store this value of the `appearance.font.dyslexic.enable` setting.
    SetDyslexia(bool),
}

/// The value the `appearance.font.dyslexic.enable` setting takes when the
/// dyslexia font is toggled from `v`.
pub open spec fn toggled(v: bool) -> bool {
    !v
}

/// Toggling the dyslexia font twice restores the setting it started from:
/// the value a second toggle stores, after the first stored its own, is the
/// original value.
pub proof fn lemma_toggle_dyslexia_twice(v: bool)
    ensures
        toggled(toggled(v)) == v,
{
}

/// Decides a key binding: opening the last editor opens the first of the
/// known workspaces (they are listed most recently used first; there must
/// be one); toggling the dyslexia font stores the opposite of its setting.
pub fn keybind_action(key: Keybind, workspace_ids: &Vec<String>, dyslexia_enabled: bool) -> (r: KeybindAction)
    requires
        key == Keybind::OpenLastEditor ==> workspace_ids@.len() > 0,
    ensures
        key == Keybind::OpenLastEditor ==> (r matches KeybindAction::OpenWorkspace(id) && id@
            == workspace_ids@[0]@),
        key == Keybind::ToggleDyslexia ==> (r matches KeybindAction::SetDyslexia(v) && v
            == toggled(dyslexia_enabled)),
{
    match key {
        Keybind::OpenLastEditor => KeybindAction::OpenWorkspace(workspace_ids[0].clone()),
        Keybind::ToggleDyslexia => KeybindAction::SetDyslexia(!dyslexia_enabled),
    }
}

} // verus!
