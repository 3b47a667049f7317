use noot::utils::state_table::{text_less, StateTable};
use noot::windows::build_info_window::{BuildInfoAction, BuildInfoMessage, BuildInfoState};

fn pairs(rows: Vec<(String, String)>) -> Vec<(String, String)> {
    rows
}

fn row(k: &str, v: &str) -> (String, String) {
    (k.to_string(), v.to_string())
}

#[test]
fn table_keeps_names_in_order() {
    let mut t = StateTable::new();
    t.insert("workspace_path".to_string(), "/ws".to_string());
    t.insert("Ready".to_string(), "False".to_string());
    t.insert("current_file".to_string(), "a.md".to_string());
    t.insert("Ready".to_string(), "true".to_string());
    assert_eq!(
        pairs(t.rows()),
        vec![row("Ready", "true"), row("current_file", "a.md"), row("workspace_path", "/ws")]
    );
}

#[test]
fn text_order_is_by_code_point() {
    assert!(text_less("B", "a"));
    assert!(text_less("ab", "abc"));
    assert!(!text_less("abc", "abc"));
    assert!(text_less("é", "ê"));
    assert!(!text_less("z", "Z"));
}

#[test]
fn build_info_lists_fields_by_name() {
    let mut w = BuildInfoState::new("Noot", "0.1.0", "abc123");
    assert_eq!(
        pairs(w.state.rows()),
        vec![row("Build ID", "abc123"), row("Name", "Noot"), row("Version", "0.1.0")]
    );
    assert_eq!(
        w.update(BuildInfoMessage::SetState("Commit".to_string(), "f00".to_string())),
        BuildInfoAction::Redraw
    );
    assert_eq!(w.state.rows()[1], row("Commit", "f00"));
    assert_eq!(w.update(BuildInfoMessage::RequestExit), BuildInfoAction::Close);
    assert_eq!(w.state.rows().len(), 4);
}
