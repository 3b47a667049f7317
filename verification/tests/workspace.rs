use noot::runtime::windows::workspace::{
    NewWorkspaceData, WorkspacePhase, WorkspaceWindowAction, WorkspaceWindowMessageKind,
    WorkspaceWindowState,
};
use noot::storage::workspace::{minify_directory, push_path, render_directory};
use noot::runtime::windows::workspace::path_placeholder;

fn chars(s: &str) -> Vec<char> {
    s.chars().collect()
}

#[test]
fn render_directory_expands_project_dir() {
    let r = render_directory("$PROJECT_DIR/notes".to_string(), "/home/ada".to_string());
    assert_eq!(r, "/home/ada/noot/notes");
}

#[test]
fn render_directory_keeps_workspace_dir_for_plain_paths() {
    let r = render_directory("/elsewhere/notes".to_string(), "/home/ada".to_string());
    assert_eq!(r, "/home/ada");
}

#[test]
fn render_directory_takes_piece_up_to_next_marker() {
    let r = render_directory(
        "$PROJECT_DIR/a$PROJECT_DIR/b".to_string(),
        "/w/".to_string(),
    );
    assert_eq!(r, "/w/noot/a");
}

#[test]
fn render_directory_with_absolute_rest_replaces_path() {
    let r = render_directory("$PROJECT_DIR//abs".to_string(), "/w".to_string());
    assert_eq!(r, "/abs");
}

#[test]
fn minify_directory_replaces_workspace_prefix() {
    let r = minify_directory("/home/ada/noot/notes".to_string(), "/home/ada".to_string());
    assert_eq!(r, "$PROJECT_DIR//noot/notes");
}

#[test]
fn minify_directory_keeps_other_paths() {
    let r = minify_directory("/tmp/notes".to_string(), "/home/ada".to_string());
    assert_eq!(r, "/tmp/notes");
}

#[test]
fn push_path_follows_unix_rules() {
    assert_eq!(push_path(&chars("a"), &chars("b")), chars("a/b"));
    assert_eq!(push_path(&chars("a/"), &chars("b")), chars("a/b"));
    assert_eq!(push_path(&chars(""), &chars("b")), chars("b"));
    assert_eq!(push_path(&chars("a"), &chars("/b")), chars("/b"));
}

#[test]
fn new_workspace_data_defaults() {
    let d = NewWorkspaceData::new("/home/ada".to_string());
    assert_eq!(d.name, "My Cool Workspace");
    assert_eq!(d.path, "/home/ada/noot/my-cool-workspace");
    assert!(d.name_valid.0);
    assert!(d.path_valid.0);
    assert_eq!(d.name_valid.1, "");
}

#[test]
fn update_name_renames_last_path_component() {
    let d = NewWorkspaceData::new("/home/ada".to_string()).update_name("Hello World".to_string());
    assert!(d.name_valid.0);
    assert_eq!(d.path, "/home/ada/noot/hello-world");
    assert!(d.path_valid.0);
}

#[test]
fn update_name_rejects_invalid_characters() {
    let d = NewWorkspaceData::new("/home/ada".to_string()).update_name("bad!name".to_string());
    assert!(!d.name_valid.0);
    assert_eq!(
        d.name_valid.1,
        "windows.workspace-manager.new.fields.name.validation.invalid-characters"
    );
    assert_eq!(d.path, "/home/ada/noot/my-cool-workspace");
}

#[test]
fn update_name_rejects_short_and_long_names() {
    let short = NewWorkspaceData::new("/w".to_string()).update_name("a".to_string());
    assert!(!short.name_valid.0);
    assert_eq!(short.name_valid.1, "windows.workspace-manager.new.fields.name.validation.too-short");
    let long = NewWorkspaceData::new("/w".to_string()).update_name("a".repeat(31));
    assert!(!long.name_valid.0);
    assert_eq!(long.name_valid.1, "windows.workspace-manager.new.fields.name.validation.too-long");
    let edge = NewWorkspaceData::new("/w".to_string()).update_name("a".repeat(30));
    assert!(edge.name_valid.0);
}

#[test]
fn update_path_validates_characters() {
    let ok = NewWorkspaceData::new("/w".to_string()).update_path("C:\\notes/my_ws".to_string());
    assert!(ok.path_valid.0);
    let bad = NewWorkspaceData::new("/w".to_string()).update_path("/tmp/$x".to_string());
    assert!(!bad.path_valid.0);
    assert_eq!(
        bad.path_valid.1,
        "windows.workspace-manager.new.fields.path.validation.invalid-characters"
    );
    assert_eq!(bad.path, "/tmp/$x");
}

#[test]
fn workspace_window_state_transitions() {
    let mut s = WorkspaceWindowState::new();
    assert!(matches!(s.phase, WorkspacePhase::Menu));
    let a = s.update(WorkspaceWindowMessageKind::WorkspaceHovered("w1".to_string()));
    assert!(matches!(a, WorkspaceWindowAction::Nothing));
    assert_eq!(s.hovered_workspace, "w1");
    let a = s.update(WorkspaceWindowMessageKind::PhaseChange(WorkspacePhase::Local("x".to_string())));
    assert!(matches!(a, WorkspaceWindowAction::Nothing));
    assert!(matches!(s.phase, WorkspacePhase::Local(_)));
    match s.update(WorkspaceWindowMessageKind::LoadWorkspaceFromClick("w2".to_string())) {
        WorkspaceWindowAction::OpenAndClose(id) => assert_eq!(id, "w2"),
        _ => panic!("expected OpenAndClose"),
    }
    match s.update(WorkspaceWindowMessageKind::CreateWorkspace("n".to_string(), "p".to_string())) {
        WorkspaceWindowAction::Create(n, p) => {
            assert_eq!(n, "n");
            assert_eq!(p, "p");
        }
        _ => panic!("expected Create"),
    }
    assert!(matches!(s.update(WorkspaceWindowMessageKind::Tick), WorkspaceWindowAction::Nothing));
}

#[test]
fn path_placeholder_follows_name() {
    assert_eq!(path_placeholder("My Notes", "/home/ada".to_string()), "/home/ada/noot/my-notes");
}
