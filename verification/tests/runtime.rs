use noot::runtime::windows::editor::settings::{null, EditorSettings};
use noot::runtime::windows::splash::{SplashAction, SplashProgress, SplashWindowMessage, SplashWindowMessageKind};
use noot::runtime::workers::{Job, JobError, JobKind, JobQueue};
use noot::runtime::{after_window_closed, startup_action, CloseFollowUp, StartupAction};
use noot::runtime::{close_window, first_tick, WindowClosed};
use noot::runtime::state::WorkspaceMap;
use noot::storage::process::Workspace;
use noot::storage::workspace::{AssetCachingStrategy, RemoteDataStrategy};
use noot::subsystems::discord::config::{has_digit_run_of_18, Configuration, RichPresenceConfig, ValidationError};
use noot::subsystems::discord::{presence_update, PresenceUpdate, MIN_WAIT_TIME};
use noot::subsystems::events::{EventManager, TaskState};
use noot::subsystems::resolver::{MediaAsset, MediaError, MediaResolver};
use noot::utils::components::buttons::{
    button_status, mouse_interaction, on_pointer_event, ButtonAction, ButtonMessageKind,
    ButtonState, EventOutcome, MouseInteraction, PointerEvent, PressState, Status,
};
use noot::utils::components::widgets::editor::Cursor;
use noot::views::landing::{LandingView, SubView};
use noot::views::settings::{Settings, SettingsMessage};
use noot::windows::editor_window::{activity_details, activity_is_idle, activity_start, activity_state};
use std::sync::Arc;
use noot::runtime::{route_window_message, window_for_name, WindowKind, WindowRoute};
use noot::runtime::workers::{asset_cache_path, fetchable_scheme};
use noot::utils::cryptography::hashing::hash_str;
use noot::storage::workspace::{check_workspace_dir, WorkspaceError};
use noot::utils::components::widgets::status_bar::clock::{ClockFace, ClockWidget};
use noot::runtime::{keybind_action, Keybind, KeybindAction};

fn ids(v: &[&str]) -> Vec<String> {
    v.iter().map(|s| s.to_string()).collect()
}

#[test]
fn startup_without_workspaces_opens_manager() {
    match startup_action(&vec![], &Some("x".to_string()), true) {
        StartupAction::OpenWindow(w) => assert_eq!(w, "workspace-manager"),
        other => panic!("unexpected {:?}", other),
    }
}

#[test]
fn startup_opens_requested_workspace_once() {
    match startup_action(&ids(&["a", "b"]), &Some("b".to_string()), false) {
        StartupAction::OpenWorkspace(w) => assert_eq!(w, "b"),
        other => panic!("unexpected {:?}", other),
    }
    assert!(matches!(
        startup_action(&ids(&["a", "b"]), &Some("c".to_string()), false),
        StartupAction::Exit
    ));
    assert!(matches!(
        startup_action(&ids(&["b", "b"]), &Some("b".to_string()), false),
        StartupAction::Exit
    ));
}

#[test]
fn startup_load_last_setting() {
    match startup_action(&ids(&["a", "b", "c"]), &None, true) {
        StartupAction::OpenWorkspace(w) => assert_eq!(w, "c"),
        other => panic!("unexpected {:?}", other),
    }
    match startup_action(&ids(&["a"]), &None, false) {
        StartupAction::OpenWindow(w) => assert_eq!(w, "workspace-manager"),
        other => panic!("unexpected {:?}", other),
    }
}

#[test]
fn closing_windows() {
    assert_eq!(after_window_closed(2, true), CloseFollowUp::Continue);
    assert_eq!(after_window_closed(0, true), CloseFollowUp::NotifyBackground);
    assert_eq!(after_window_closed(0, false), CloseFollowUp::Exit);
}

#[test]
fn splash_closes_on_twenty_sixth_tick() {
    let mut p = SplashProgress::new();
    for tick in 1..=25 {
        assert_eq!(p.update(&SplashWindowMessageKind::SplashSurvived), SplashAction::Stay);
        assert_eq!(p.progress, 4 * tick);
        assert!(p.tick);
    }
    assert_eq!(p.update(&SplashWindowMessageKind::SplashSurvived), SplashAction::Close);
    assert_eq!(p.progress, 100);
    assert!(!p.tick);
    let msg = SplashWindowMessage::new(SplashWindowMessageKind::StatusMessage("x".to_string()));
    assert_eq!(p.update(msg.kind()), SplashAction::Stay);
    assert!(matches!(SplashWindowMessage::splash_survived().kind(), SplashWindowMessageKind::SplashSurvived));
}

#[test]
fn events_are_first_in_first_out() {
    let mut m: EventManager<u32> = EventManager::new();
    assert!(m.poll().is_none());
    m.emit(1);
    m.emit(2);
    assert_eq!(m.queue.len(), 2);
    assert_eq!(m.queue[0].state, TaskState::Pending);
    assert_eq!(m.queue[0].id.len(), 10);
    let first = m.poll().unwrap();
    assert_eq!(first.data, 1);
    assert_eq!(first.state, TaskState::Processing);
    assert_eq!(m.poll().unwrap().data, 2);
    assert!(m.poll().is_none());
    assert!(m.poll_response().is_none());
}

#[test]
fn registered_button_hover_and_click() {
    let mut b = ButtonState {
        component_id: "save".to_string(),
        has_on_click: true,
        disabled: false,
        hovered: false,
    };
    assert_eq!(b.update(&ButtonMessageKind::MouseOver("other".to_string())), ButtonAction::Nothing);
    assert!(!b.hovered);
    b.update(&ButtonMessageKind::MouseOver("save".to_string()));
    assert!(b.hovered);
    b.update(&ButtonMessageKind::MouseOut("save".to_string()));
    assert!(!b.hovered);
    assert_eq!(b.update(&ButtonMessageKind::Clicked("save".to_string())), ButtonAction::Click);
    assert_eq!(b.update(&ButtonMessageKind::Clicked("other".to_string())), ButtonAction::Nothing);
    b.has_on_click = false;
    assert_eq!(b.update(&ButtonMessageKind::Clicked("save".to_string())), ButtonAction::Nothing);
}

#[test]
fn rich_button_press_and_release() {
    let mut s = PressState { is_pressed: false, is_hovered: false };
    let r = on_pointer_event(&mut s, PointerEvent::Pressed, true, true, false);
    assert_eq!(r, EventOutcome { captured: true, publish: false });
    assert!(s.is_pressed);
    let r = on_pointer_event(&mut s, PointerEvent::Released, true, true, false);
    assert_eq!(r, EventOutcome { captured: true, publish: true });
    assert!(!s.is_pressed);
    on_pointer_event(&mut s, PointerEvent::Pressed, true, true, false);
    let r = on_pointer_event(&mut s, PointerEvent::Released, false, true, false);
    assert_eq!(r, EventOutcome { captured: true, publish: false });
    let r = on_pointer_event(&mut s, PointerEvent::Pressed, true, false, false);
    assert_eq!(r, EventOutcome { captured: false, publish: false });
    assert!(!s.is_pressed);
    let r = on_pointer_event(&mut s, PointerEvent::Pressed, true, true, true);
    assert_eq!(r, EventOutcome { captured: true, publish: false });
    assert!(!s.is_pressed);
}

#[test]
fn rich_button_hover_and_finger_lost() {
    let mut s = PressState { is_pressed: true, is_hovered: false };
    on_pointer_event(&mut s, PointerEvent::CursorMoved, true, true, false);
    assert!(s.is_hovered);
    on_pointer_event(&mut s, PointerEvent::CursorMoved, false, true, false);
    assert!(!s.is_hovered);
    on_pointer_event(&mut s, PointerEvent::FingerLost, false, true, false);
    assert!(!s.is_pressed);
}

#[test]
fn button_status_and_cursor() {
    assert_eq!(button_status(false, true, true), Status::Disabled);
    assert_eq!(button_status(true, true, true), Status::Pressed);
    assert_eq!(button_status(true, true, false), Status::Hovered);
    assert_eq!(button_status(true, false, true), Status::Active);
    assert_eq!(mouse_interaction(true, true), MouseInteraction::Pointer);
    assert_eq!(mouse_interaction(true, false), MouseInteraction::NotAllowed);
    assert_eq!(mouse_interaction(false, true), MouseInteraction::Idle);
}

#[test]
fn presence_config_defaults_and_validation() {
    let cfg = RichPresenceConfig::default();
    assert!(!cfg.is_enabled());
    assert_eq!(cfg.client_id(), "1343225099834101810");
    assert!(!cfg.is_enable_idle());
    assert!(!cfg.can_show_current_workspace());
    assert!(!cfg.can_show_current_file());
    assert!(cfg.validate("drpc").is_empty());

    let mut bad = cfg.clone();
    bad.client_id = Some("12345".to_string());
    assert!(bad.validate("drpc").is_empty());
    assert!(!has_digit_run_of_18("12345"));
    assert!(!has_digit_run_of_18("abc"));
    assert!(has_digit_run_of_18("1343225099834101810"));

    let mut embedded = cfg.clone();
    embedded.client_id = Some("id-123456789012345678-x".to_string());
    assert!(has_digit_run_of_18("id-123456789012345678-x"));
    assert!(!has_digit_run_of_18("id-12345678901234567-x"));
    assert!(embedded.validate("drpc").is_empty());
    embedded.repair();
    assert_eq!(embedded.client_id(), "id-123456789012345678-x");
    let v = ValidationError::new("f", "m");
    assert_eq!(v.field, "f");
    assert_eq!(v.message, "m");
}

#[test]
fn presence_updates_are_throttled() {
    assert_eq!(presence_update(false, 10_000, false), PresenceUpdate::NotConnected);
    assert_eq!(presence_update(true, MIN_WAIT_TIME - 1, true), PresenceUpdate::Throttled);
    assert_eq!(presence_update(true, MIN_WAIT_TIME - 1, false), PresenceUpdate::Send);
    assert_eq!(presence_update(true, MIN_WAIT_TIME, true), PresenceUpdate::Send);
}

#[test]
fn resolver_serves_builtin_pages() {
    let mut r = MediaResolver::new(b"# Welcome", b"# Test");
    let landing = r.resolve("noot://internal/landing").unwrap();
    assert_eq!(landing.url, "noot://internal/landing");
    assert_eq!(landing.mime, "text/markdown");
    assert_eq!(landing.size, 9);
    assert!(landing.locked);
    assert_eq!(landing.meta_hash, noot::subsystems::cryptography::hash::sha256("# Welcome"));
    assert_eq!(r.resolve("noot://internal/test").unwrap().size, 6);
    assert_eq!(r.resolve("noot://internal/other").unwrap_err(), MediaError::MediaNotFound);
    assert_eq!(r.resolve("https://example.com/landing").unwrap_err(), MediaError::MediaNotSupported);
    assert!(r.try_resolve("not a url").is_none());
    let asset = MediaAsset::internal("u", b"abc");
    assert_eq!(asset.clone().meta_hash, asset.meta_hash);
    r.purge_caches();
    assert_eq!(r.resolve("noot://internal/landing").unwrap().size, 9);
}

#[test]
fn editor_settings_defaults() {
    let s = EditorSettings::new();
    assert!(!s.plugins().enable);
    assert!(!s.plugins().allow_unpacked);
    assert_eq!(s.assets().cache_strategy, AssetCachingStrategy::Blob);
    assert_eq!(s.assets().fetch_remote, RemoteDataStrategy::All);
    assert!(null().is_none());
}

#[test]
fn settings_panel_toggles() {
    let mut s: Settings<u8, u8> = Settings::new(Arc::new(1), Arc::new(2));
    assert!(!s.show);
    s.toggle();
    assert!(s.show);
    s.update(SettingsMessage::ContentChanged("a".to_string(), "b".to_string()));
    assert!(s.show);
    s.toggle();
    assert!(!s.show);
}

#[test]
fn cursor_accessors() {
    let c = Cursor::new(3, 7);
    assert_eq!(c.line(), 3);
    assert_eq!(c.column(), 7);
    assert_eq!(c.line_and_column(), (3, 7));
}

#[test]
fn landing_view_starts_on_new_workspace_form() {
    let v = LandingView::new();
    match v.subview() {
        SubView::NewWorkspace(form) => {
            assert!(form.workspace_name.is_none());
            assert!(form.workspace_path.is_none());
            assert!(!form.parent_folder_exists);
            assert!(!form.enable_plugins);
            assert!(form.template_id.is_none());
        }
        other => panic!("unexpected {:?}", other),
    }
}

#[test]
fn activity_reporting() {
    assert_eq!(activity_is_idle(100, 60), (true, 60));
    assert_eq!(activity_is_idle(100, 70), (false, 0));
    assert_eq!(activity_start(100, 60, 10), 60);
    assert_eq!(activity_start(100, 80, 10), 10);
    assert_eq!(activity_state(100, 60, "a.md"), "idle");
    assert_eq!(activity_state(100, 90, "a.md"), "Working on 'a.md'");
    assert_eq!(activity_details(&Some("Notes".to_string())), "Notes");
    assert_eq!(activity_details(&None), "Unknown Workspace");
}

#[test]
fn job_error_from_reason() {
    let _error = JobError::new("boom".to_string());
}

#[test]
fn window_messages_are_routed() {
    assert_eq!(route_window_message(Some(3), Some(1), &vec![1, 3]), WindowRoute::To(3));
    assert_eq!(route_window_message(None, Some(1), &vec![1, 3]), WindowRoute::To(1));
    assert_eq!(route_window_message(None, Some(2), &vec![1, 3]), WindowRoute::Dropped);
    assert_eq!(route_window_message(None, None, &vec![1]), WindowRoute::Dropped);
    assert_eq!(window_for_name("workspace-manager"), Some(WindowKind::WorkspaceManager));
    assert_eq!(window_for_name("editor"), Some(WindowKind::Editor));
    assert_eq!(window_for_name("splash"), None);
}

#[test]
fn asset_cache_location_and_schemes() {
    let url = "https://example.com/cat.png";
    assert_eq!(
        asset_cache_path("/ws/notes/today.md", url),
        format!("/ws/notes/.assets/{}", hash_str(url))
    );
    assert!(fetchable_scheme("http"));
    assert!(fetchable_scheme("https"));
    assert!(!fetchable_scheme("file"));
}

#[test]
fn workspace_directory_checks() {
    assert!(check_workspace_dir(true, true, "/ws").is_ok());
    match check_workspace_dir(true, false, "/ws") {
        Err(WorkspaceError::WorkspaceInvalid(m)) => assert_eq!(m, "The path '/ws' is not a directory"),
        other => panic!("unexpected {:?}", other),
    }
    match check_workspace_dir(false, false, "/ws") {
        Err(WorkspaceError::WorkspaceNotFound(m)) => assert_eq!(m, "/ws"),
        other => panic!("unexpected {:?}", other),
    }
}

#[test]
fn clock_starts_on_24_hour_face() {
    let c = ClockWidget::new(42);
    assert_eq!(c.mode, ClockFace::Hours24);
    assert!(!c.flash);
    assert!(!c.show_seconds);
    assert_eq!(c.time, 42);
}

fn job(path: &str) -> Job {
    Job::new(JobKind::PreRender(path.to_string(), 1))
}

#[test]
fn job_queue_is_bounded_fifo() {
    let mut q = JobQueue::new(2);
    assert!(q.pop().is_none());
    let a = job("a.md");
    let a_id = a.id.clone();
    assert_eq!(a_id.len(), 5);
    assert!(q.push(a).is_ok());
    assert!(q.push(job("b.md")).is_ok());
    let refused = q.push(job("c.md")).unwrap_err();
    assert!(matches!(refused.kind, JobKind::PreRender(ref p, 1) if p == "c.md"));
    assert_eq!(q.pop().unwrap().id, a_id);
    assert!(matches!(q.pop().unwrap().kind, JobKind::PreRender(ref p, _) if p == "b.md"));
    assert!(q.pop().is_none());
}

#[test]
fn enqueue_all_reports_refused_jobs() {
    let mut q = JobQueue::new(3);
    q.enqueue_every(vec![job("x")]);
    let jobs = vec![job("1"), job("2"), job("3"), job("4")];
    let ids: Vec<String> = jobs.iter().map(|j| j.id.clone()).collect();
    let refused = q.enqueue_all(jobs);
    assert_eq!(refused, vec![ids[2].clone(), ids[3].clone()]);
    assert!(matches!(q.pop().unwrap().kind, JobKind::PreRender(ref p, _) if p == "x"));
    assert_eq!(q.pop().unwrap().id, ids[0]);
    assert_eq!(q.pop().unwrap().id, ids[1]);
    assert!(q.pop().is_none());
}

#[test]
fn key_bindings() {
    match keybind_action(Keybind::OpenLastEditor, &ids(&["recent", "old"]), false) {
        KeybindAction::OpenWorkspace(id) => assert_eq!(id, "recent"),
        other => panic!("unexpected {:?}", other),
    }
    assert!(matches!(keybind_action(Keybind::ToggleDyslexia, &vec![], true), KeybindAction::SetDyslexia(false)));
}

fn workspace(id: &str, name: &str) -> Workspace {
    Workspace {
        id: id.to_string(),
        long_id: format!("long-{}", id),
        name: name.to_string(),
        disk_path: format!("/tmp/{}", name),
        last_accessed: 1_700_000_000,
    }
}

#[test]
fn closing_a_window_removes_it_and_decides_what_follows() {
    let mut open = vec![3u64, 7, 9];
    assert_eq!(close_window(&mut open, 8, false), None);
    assert_eq!(open, vec![3, 7, 9]);

    let closed = close_window(&mut open, 7, false).unwrap();
    assert_eq!(closed, WindowClosed { id: 7, follow_up: CloseFollowUp::Continue });
    assert_eq!(open, vec![3, 9]);

    assert_eq!(close_window(&mut open, 3, true).unwrap().follow_up, CloseFollowUp::Continue);
    assert_eq!(
        close_window(&mut open, 9, true),
        Some(WindowClosed { id: 9, follow_up: CloseFollowUp::NotifyBackground })
    );
    assert!(open.is_empty());

    let mut last = vec![4u64];
    assert_eq!(close_window(&mut last, 4, false).unwrap().follow_up, CloseFollowUp::Exit);
    assert_eq!(close_window(&mut last, 4, false), None);
}

#[test]
fn first_tick_registers_listed_workspaces() {
    let mut known = WorkspaceMap::new();
    let none: Vec<Workspace> = Vec::new();
    match first_tick(&mut known, &none, &None, true) {
        StartupAction::OpenWindow(w) => assert_eq!(w, "workspace-manager"),
        other => panic!("unexpected {:?}", other),
    }
    assert!(known.get("abcde").is_none());

    let listed = vec![workspace("abcde", "notes"), workspace("fghij", "work")];
    match first_tick(&mut known, &listed, &None, true) {
        StartupAction::OpenWorkspace(w) => assert_eq!(w, "fghij"),
        other => panic!("unexpected {:?}", other),
    }
    assert_eq!(known.get("abcde").unwrap().name, "notes");
    assert_eq!(known.get("fghij").unwrap().disk_path, "/tmp/work");
    assert!(known.get("zzzzz").is_none());

    match first_tick(&mut known, &listed, &Some("abcde".to_string()), false) {
        StartupAction::OpenWorkspace(w) => assert_eq!(w, "abcde"),
        other => panic!("unexpected {:?}", other),
    }
    match first_tick(&mut known, &listed, &Some("nope1".to_string()), false) {
        StartupAction::Exit => {}
        other => panic!("unexpected {:?}", other),
    }
}

#[test]
fn workspace_map_later_registration_wins() {
    let mut known = WorkspaceMap::new();
    known.insert(workspace("abcde", "first"));
    known.insert(workspace("abcde", "second"));
    assert_eq!(known.get("abcde").unwrap().name, "second");
    let twice = vec![workspace("xyz12", "a"), workspace("xyz12", "b")];
    match first_tick(&mut known, &twice, &Some("xyz12".to_string()), false) {
        StartupAction::Exit => {}
        other => panic!("unexpected {:?}", other),
    }
    assert_eq!(known.get("xyz12").unwrap().name, "b");
}

#[test]
fn toggling_dyslexia_twice_restores_the_setting() {
    let ids: Vec<String> = Vec::new();
    let once = match keybind_action(Keybind::ToggleDyslexia, &ids, false) {
        KeybindAction::SetDyslexia(v) => v,
        other => panic!("unexpected {:?}", other),
    };
    assert!(once);
    let twice = match keybind_action(Keybind::ToggleDyslexia, &ids, once) {
        KeybindAction::SetDyslexia(v) => v,
        other => panic!("unexpected {:?}", other),
    };
    assert!(!twice);
}
