//! The workspace manager window: its phases, the validation of a new
//! workspace's name and path, and its message handling.

use vstd::prelude::*;
use crate::storage::workspace::{path_join, push_path, render_defined, render_directory, spec_render_directory};
use crate::utils::path::{pop_path, unix_pop};
use crate::utils::text::{chars_of, string_from_chars, starts_with, second_split_piece};

verus! {

/// The text that `stringcase::kebab_case` makes of a string.
pub uninterp spec fn kebab_case_of(s: Seq<char>) -> Seq<char>;

/// Trusted: `stringcase::kebab_case`.
#[verifier::external_body]
fn kebab_case(s: &str) -> (r: String)
    ensures
        r@ == kebab_case_of(s@),
{
    stringcase::kebab_case(s)
}

/// A whitespace character in the sense of the Unicode `White_Space`
/// property (what `\s` matches in a regular expression).
pub open spec fn is_unicode_whitespace(c: char) -> bool {
    let v = c as u32;
    (0x9 <= v && v <= 0xD) || v == 0x20 || v == 0x85 || v == 0xA0 || v == 0x1680 || (0x2000 <= v
        && v <= 0x200A) || v == 0x2028 || v == 0x2029 || v == 0x202F || v == 0x205F || v == 0x3000
}

/// A character allowed in a workspace name: an ASCII letter or digit, `_`,
/// `-` or whitespace.
pub open spec fn name_char(c: char) -> bool {
    let v = c as u32;
    (0x61 <= v && v <= 0x7A) || (0x41 <= v && v <= 0x5A) || (0x30 <= v && v <= 0x39) || v == 0x5F
        || v == 0x2D || is_unicode_whitespace(c)
}

/// A character allowed in a workspace path: a name character, `\`, `/` or
/// `:`.
pub open spec fn path_char(c: char) -> bool {
    let v = c as u32;
    name_char(c) || v == 0x5C || v == 0x2F || v == 0x3A
}

/// Some character of `s` is not a name character.
pub open spec fn has_invalid_name_char(s: Seq<char>) -> bool {
    exists|i: int| 0 <= i < s.len() && !name_char(#[trigger] s[i])
}

/// Some character of `s` is not a path character.
pub open spec fn has_invalid_path_char(s: Seq<char>) -> bool {
    exists|i: int| 0 <= i < s.len() && !path_char(#[trigger] s[i])
}

fn is_whitespace_char(c: char) -> (r: bool)
    ensures
        r == is_unicode_whitespace(c),
{
    let v = c as u32;
    (0x9 <= v && v <= 0xD) || v == 0x20 || v == 0x85 || v == 0xA0 || v == 0x1680 || (0x2000 <= v
        && v <= 0x200A) || v == 0x2028 || v == 0x2029 || v == 0x202F || v == 0x205F || v == 0x3000
}

fn is_name_char(c: char) -> (r: bool)
    ensures
        r == name_char(c),
{
    let v = c as u32;
    (0x61 <= v && v <= 0x7A) || (0x41 <= v && v <= 0x5A) || (0x30 <= v && v <= 0x39) || v == 0x5F
        || v == 0x2D || is_whitespace_char(c)
}

fn is_path_char(c: char) -> (r: bool)
    ensures
        r == path_char(c),
{
    let v = c as u32;
    is_name_char(c) || v == 0x5C || v == 0x2F || v == 0x3A
}

fn find_invalid_name_char(s: &str) -> (r: bool)
    ensures
        r == has_invalid_name_char(s@),
{
    let chars = chars_of(s);
    let n = chars.len();
    for i in 0..n
        invariant
            n == chars@.len(),
            chars@ == s@,
            forall|j: int| 0 <= j < i ==> name_char(#[trigger] s@[j]),
    {
        if !is_name_char(chars[i]) {
            return true;
        }
    }
    false
}

fn find_invalid_path_char(s: &str) -> (r: bool)
    ensures
        r == has_invalid_path_char(s@),
{
    let chars = chars_of(s);
    let n = chars.len();
    for i in 0..n
        invariant
            n == chars@.len(),
            chars@ == s@,
            forall|j: int| 0 <= j < i ==> path_char(#[trigger] s@[j]),
    {
        if !is_path_char(chars[i]) {
            return true;
        }
    }
    false
}

/// The translation key of the message for a name with invalid characters.
pub open spec fn name_invalid_characters_key() -> Seq<char> {
    "windows.workspace-manager.new.fields.name.validation.invalid-characters"@
}

/// The translation key of the message for a name that is too short.
pub open spec fn name_too_short_key() -> Seq<char> {
    "windows.workspace-manager.new.fields.name.validation.too-short"@
}

/// The translation key of the message for a name that is too long.
pub open spec fn name_too_long_key() -> Seq<char> {
    "windows.workspace-manager.new.fields.name.validation.too-long"@
}

/// The translation key of the message for a path with invalid characters.
pub open spec fn path_invalid_characters_key() -> Seq<char> {
    "windows.workspace-manager.new.fields.path.validation.invalid-characters"@
}

/// The phase the workspace manager window is in.
#[derive(Debug, Clone)]
pub enum WorkspacePhase {
    Menu,
    New(NewWorkspaceData),
    Local(String),
}

/// The name and path of a workspace being created, with the result of their
/// validation: whether each is valid, and the translation key of the message
/// that explains why not (empty when valid).
#[derive(Debug)]
pub struct NewWorkspaceData {
    pub name: String,
    pub path: String,
    pub name_valid: (bool, String),
    pub path_valid: (bool, String),
}

impl Clone for NewWorkspaceData {
    fn clone(&self) -> (r: Self)
        ensures
            r == *self,
    {
        NewWorkspaceData {
            name: self.name.clone(),
            path: self.path.clone(),
            name_valid: (self.name_valid.0, self.name_valid.1.clone()),
            path_valid: (self.path_valid.0, self.path_valid.1.clone()),
        }
    }
}

/// The default name of a new workspace.
pub open spec fn default_workspace_name() -> Seq<char> {
    "My Cool Workspace"@
}

/// The default stored path of a new workspace.
pub open spec fn default_workspace_path() -> Seq<char> {
    "$PROJECT_DIR/my-cool-workspace"@
}

/// The byte length of a text in UTF-8, as `str::len` gives it.
pub open spec fn utf8_len(s: Seq<char>) -> usize {
    vstd::utf8::encode_utf8(s).len() as usize
}

impl NewWorkspaceData {
    /// The data a new workspace starts with: the default name, and the
    /// default path expanded under `workspace_directory`; both valid.
    pub fn new(workspace_directory: String) -> (r: NewWorkspaceData)
        ensures
            r.name@ == default_workspace_name(),
            r.path@ == spec_render_directory(default_workspace_path(), workspace_directory@),
            r.name_valid.0 && r.name_valid.1@.len() == 0,
            r.path_valid.0 && r.path_valid.1@.len() == 0,
    {
        let default_path = String::from_str("$PROJECT_DIR/my-cool-workspace");
        proof {
            reveal_strlit("$PROJECT_DIR/my-cool-workspace");
            reveal_strlit("$PROJECT_DIR/");
            assert(default_path@.subrange(0, 13) =~= "$PROJECT_DIR/"@);
            lemma_default_path_expands(default_path@);
        }
        let path = render_directory(default_path, workspace_directory);
        NewWorkspaceData {
            name: String::from_str("My Cool Workspace"),
            path,
            name_valid: (true, String::new()),
            path_valid: (true, String::new()),
        }
    }

    /// Sets the name and validates it: a name with a character other than
    /// an ASCII letter or digit, `_`, `-` or whitespace, one shorter than 2
    /// bytes or one longer than 30 bytes is invalid and leaves the path as
    /// it was; a valid name replaces the last component of the path by the
    /// name in kebab case, and the new path is validated.
    pub fn update_name(self, new: String) -> (r: Self)
        ensures
            r.name@ == new@,
            if has_invalid_name_char(new@) {
                &&& !r.name_valid.0
                &&& r.name_valid.1@ == name_invalid_characters_key()
                &&& r.path@ == self.path@
                &&& r.path_valid == self.path_valid
            } else if utf8_len(new@) < 2 {
                &&& !r.name_valid.0
                &&& r.name_valid.1@ == name_too_short_key()
                &&& r.path@ == self.path@
                &&& r.path_valid == self.path_valid
            } else if utf8_len(new@) > 30 {
                &&& !r.name_valid.0
                &&& r.name_valid.1@ == name_too_long_key()
                &&& r.path@ == self.path@
                &&& r.path_valid == self.path_valid
            } else {
                &&& r.name_valid.0
                &&& r.name_valid.1@.len() == 0
                &&& r.path@ == path_join(unix_pop(self.path@), kebab_case_of(new@))
                &&& r.path_valid.0 == !has_invalid_path_char(r.path@)
                &&& r.path_valid.1@ == if r.path_valid.0 {
                    Seq::<char>::empty()
                } else {
                    path_invalid_characters_key()
                }
            },
    {
        let mut s = self;
        s.name = new;
        if find_invalid_name_char(s.name.as_str()) {
            s.name_valid = (
                false,
                String::from_str("windows.workspace-manager.new.fields.name.validation.invalid-characters"),
            );
            return s;
        } else if s.name.as_str().len() < 2 {
            s.name_valid = (
                false,
                String::from_str("windows.workspace-manager.new.fields.name.validation.too-short"),
            );
            return s;
        } else if s.name.as_str().len() > 30 {
            s.name_valid = (
                false,
                String::from_str("windows.workspace-manager.new.fields.name.validation.too-long"),
            );
            return s;
        } else {
            s.name_valid = (true, String::new());
        }
        let current = chars_of(s.path.as_str());
        let parent = pop_path(&current);
        let kebab = kebab_case(s.name.as_str());
        let kebab_chars = chars_of(kebab.as_str());
        let joined = push_path(&parent, &kebab_chars);
        let new_path = string_from_chars(joined.as_slice());
        s.update_path(new_path)
    }

    /// Sets the path and validates it: a path with a character other than a
    /// name character, `\`, `/` or `:` is invalid.
    pub fn update_path(self, new: String) -> (r: Self)
        ensures
            r.name == self.name,
            r.name_valid == self.name_valid,
            r.path@ == new@,
            r.path_valid.0 == !has_invalid_path_char(new@),
            r.path_valid.1@ == if r.path_valid.0 {
                Seq::<char>::empty()
            } else {
                path_invalid_characters_key()
            },
    {
        let mut s = self;
        s.path = new;
        if find_invalid_path_char(s.path.as_str()) {
            s.path_valid = (
                false,
                String::from_str("windows.workspace-manager.new.fields.path.validation.invalid-characters"),
            );
        } else {
            s.path_valid = (true, String::new());
        }
        s
    }
}

/// A path that starts with the marker followed by a separator can be
/// expanded.
proof fn lemma_default_path_expands(p: Seq<char>)
    requires
        p.len() >= 13,
        p.subrange(0, 13) == "$PROJECT_DIR/"@,
    ensures
        render_defined(p),
{
    reveal_strlit("$PROJECT_DIR/");
    assert(second_split_piece(p, "$PROJECT_DIR/"@) is Some);
}

/// The path a new workspace's field suggests for a name: the stored path
/// `$PROJECT_DIR/` followed by the name in kebab case, expanded under the
/// workspace directory.
pub fn path_placeholder(name: &str, workspace_directory: String) -> (r: String)
    ensures
        r@ == spec_render_directory("$PROJECT_DIR/"@ + kebab_case_of(name@), workspace_directory@),
{
    let stored = String::from_str("$PROJECT_DIR/").concat(kebab_case(name).as_str());
    proof {
        reveal_strlit("$PROJECT_DIR/");
        assert(stored@.subrange(0, 13) =~= "$PROJECT_DIR/"@);
        lemma_default_path_expands(stored@);
    }
    render_directory(stored, workspace_directory)
}

/// The messages the workspace manager window receives.
#[derive(Debug, Clone)]
pub enum WorkspaceWindowMessageKind {
    Tick,
    PhaseChange(WorkspacePhase),
    CreateWorkspace(String, String),
    LoadWorkspaceFromClick(String),
    WorkspaceHovered(String),
}

/// What the workspace manager window asks of the runtime after a message.
#[derive(Debug)]
pub enum WorkspaceWindowAction {
    /// Nothing.
    Nothing,
    /// Create a workspace with this name at this path; once it exists, open
    /// it and close the window.
    Create(String, String),
    /// Open the workspace with this id and close the window.
    OpenAndClose(String),
}

/// The state of the workspace manager window.
#[derive(Debug)]
pub struct WorkspaceWindowState {
    pub phase: WorkspacePhase,
    pub hovered_workspace: String,
}

impl WorkspaceWindowState {
    /// The window starts at the menu, with no workspace hovered.
    pub fn new() -> (r: Self)
        ensures
            r.phase is Menu,
            r.hovered_workspace@.len() == 0,
    {
        WorkspaceWindowState { phase: WorkspacePhase::Menu, hovered_workspace: String::new() }
    }

    /// Handles a message: a phase change replaces the phase, a hover records
    /// the hovered workspace, a click on a workspace opens it, a creation is
    /// handed to the runtime; a tick does nothing.
    pub fn update(&mut self, message: WorkspaceWindowMessageKind) -> (r: WorkspaceWindowAction)
        ensures
            match message {
                WorkspaceWindowMessageKind::PhaseChange(p) => {
                    &&& final(self).phase == p
                    &&& final(self).hovered_workspace == old(self).hovered_workspace
                    &&& r is Nothing
                },
                WorkspaceWindowMessageKind::WorkspaceHovered(id) => {
                    &&& final(self).phase == old(self).phase
                    &&& final(self).hovered_workspace == id
                    &&& r is Nothing
                },
                WorkspaceWindowMessageKind::LoadWorkspaceFromClick(id) => {
                    &&& *final(self) == *old(self)
                    &&& r matches WorkspaceWindowAction::OpenAndClose(w) && w == id
                },
                WorkspaceWindowMessageKind::CreateWorkspace(name, path) => {
                    &&& *final(self) == *old(self)
                    &&& r matches WorkspaceWindowAction::Create(n, p) && n == name && p == path
                },
                WorkspaceWindowMessageKind::Tick => *final(self) == *old(self) && r is Nothing,
            },
    {
        match message {
            WorkspaceWindowMessageKind::PhaseChange(new_phase) => {
                self.phase = new_phase;
                WorkspaceWindowAction::Nothing
            },
            WorkspaceWindowMessageKind::WorkspaceHovered(id) => {
                self.hovered_workspace = id;
                WorkspaceWindowAction::Nothing
            },
            WorkspaceWindowMessageKind::LoadWorkspaceFromClick(id) => WorkspaceWindowAction::OpenAndClose(id),
            WorkspaceWindowMessageKind::CreateWorkspace(name, path) => WorkspaceWindowAction::Create(name, path),
            WorkspaceWindowMessageKind::Tick => WorkspaceWindowAction::Nothing,
        }
    }
}

} // verus!
