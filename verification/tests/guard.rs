use clipboard_guard::config::Config;
use clipboard_guard::guard::{is_cross_app, toggle_label, ClipboardEvent, ClipboardState};
use clipboard_guard::rules::{default_rules, BlockRule, RuleAction};

fn event(id: Option<&str>, name: Option<&str>) -> ClipboardEvent {
    ClipboardEvent {
        source_app_id: id.map(|s| s.to_string()),
        source_app_name: name.map(|s| s.to_string()),
    }
}

#[test]
fn initial_state() {
    let state = ClipboardState::new(default_rules());
    assert!(state.get_enabled());
    assert!(state.get_clipboard_source().is_none());
    assert!(!state.blocking_active);
    assert_eq!(state.get_rules().len(), 8);
}

#[test]
fn enable_toggle_roundtrip() {
    let mut state = ClipboardState::new(vec![]);
    assert!(state.get_enabled());
    state.set_enabled(false);
    assert!(!state.get_enabled());
    state.set_enabled(true);
    assert!(state.get_enabled());
}

#[test]
fn rules_swap() {
    let mut state = ClipboardState::new(default_rules());
    let custom = vec![BlockRule {
        from_app_id: Some("editor".to_string()),
        from_app_name: None,
        to_app_id: Some("term.app".to_string()),
        to_app_name: None,
        action: RuleAction::Block,
    }];
    state.set_rules(custom.clone());
    assert_eq!(state.get_rules(), custom);
}

#[test]
fn cross_app_check() {
    assert!(!is_cross_app(&event(Some("Term.App"), None), "term.app"));
    assert!(is_cross_app(&event(Some("editor"), None), "term.app"));
    // An unresolved source always counts as cross-app.
    assert!(is_cross_app(&event(None, None), "term.app"));
}

#[test]
fn toggle_labels() {
    assert_eq!(toggle_label(true), "Disable Guard");
    assert_eq!(toggle_label(false), "Enable Guard");
}

#[test]
fn config_first_run() {
    let mut c = Config::default();
    assert!(!c.autostart_initialized);
    assert!(c.take_autostart_init());
    assert!(c.autostart_initialized);
    // Once initialized, later runs do not re-enable autostart.
    assert!(!c.take_autostart_init());
    assert!(c.autostart_initialized);
}
