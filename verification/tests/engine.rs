use clipboard_guard::blocker::BlockerMsg;
use clipboard_guard::engine::{tick, MonitorState, NoteKind, Notification, TickSample};
use clipboard_guard::guard::ClipboardState;
use clipboard_guard::rules::{BlockRule, RuleAction};

fn sample(id: Option<&str>, name: Option<&str>, count: u64, permission: bool) -> TickSample {
    TickSample {
        frontmost_id: id.map(|s| s.to_string()),
        frontmost_name: name.map(|s| s.to_string()),
        change_count: count,
        permission_granted: permission,
    }
}

fn block_term_rule() -> BlockRule {
    BlockRule {
        from_app_id: None,
        from_app_name: None,
        to_app_id: Some("term.app".to_string()),
        to_app_name: Some("Terminal".to_string()),
        action: RuleAction::Block,
    }
}

fn notify_term_rule() -> BlockRule {
    BlockRule {
        from_app_id: None,
        from_app_name: None,
        to_app_id: Some("term.app".to_string()),
        to_app_name: Some("Terminal".to_string()),
        action: RuleAction::Notify,
    }
}

/// Copy in `editor`, then switch to `term.app` with the permission granted:
/// the warning is blocked and suppression is armed.
#[test]
fn block_rule_blocks_with_permission() {
    let mut guard = ClipboardState::new(vec![block_term_rule()]);
    let mut mon = MonitorState::new(0);

    // Clipboard change observed while `editor` is frontmost.
    let out = tick(&mut guard, &mut mon, &sample(Some("editor"), Some("Editor"), 1, true));
    let ev = out.clipboard_event.expect("change event");
    assert_eq!(ev.source_app_id.as_deref(), Some("editor"));
    assert!(out.warning.is_none());
    assert!(out.commands.is_empty());

    // Focus switches to the terminal.
    let out = tick(&mut guard, &mut mon, &sample(Some("term.app"), Some("Terminal"), 1, true));
    let w = out.warning.expect("warning");
    assert_eq!(w.source_app_id.as_deref(), Some("editor"));
    assert_eq!(w.dest_app_id.as_deref(), Some("term.app"));
    assert!(w.blocked);
    assert_eq!(out.commands, vec![BlockerMsg::Arm]);
    assert!(guard.blocking_active);
    let note = out.notification.expect("notification");
    assert_eq!(note.kind, NoteKind::PasteBlocked);
    assert_eq!(note.body(), "Paste blocked: Editor into Terminal");
    assert_eq!(note.title(), "Clipboard Guard");
}

/// The same switch without the permission degrades to a notification that
/// names the gap; suppression stays inert.
#[test]
fn block_rule_degrades_without_permission() {
    let mut guard = ClipboardState::new(vec![block_term_rule()]);
    let mut mon = MonitorState::new(0);

    tick(&mut guard, &mut mon, &sample(Some("editor"), Some("Editor"), 1, false));
    let out = tick(&mut guard, &mut mon, &sample(Some("term.app"), Some("Terminal"), 1, false));
    let w = out.warning.expect("warning");
    assert!(!w.blocked);
    assert!(out.commands.is_empty());
    assert!(!guard.blocking_active);
    let note = out.notification.expect("notification");
    assert_eq!(note.kind, NoteKind::BlockUnavailable);
    assert_eq!(
        note.body(),
        "Clipboard from Editor. Pasting into Terminal would be blocked (grant Accessibility)."
    );
}

/// After a block, switching to a third application disarms suppression and
/// emits no new warning when no rule matches the new destination.
#[test]
fn switching_away_disarms() {
    let mut guard = ClipboardState::new(vec![block_term_rule()]);
    let mut mon = MonitorState::new(0);

    tick(&mut guard, &mut mon, &sample(Some("editor"), Some("Editor"), 1, true));
    tick(&mut guard, &mut mon, &sample(Some("term.app"), Some("Terminal"), 1, true));
    assert!(guard.blocking_active);

    let out = tick(&mut guard, &mut mon, &sample(Some("notes"), Some("Notes"), 1, true));
    assert_eq!(out.commands, vec![BlockerMsg::Disarm]);
    assert!(out.warning.is_none());
    assert!(out.notification.is_none());
    assert!(!guard.blocking_active);
}

/// A clipboard change while blocking is active disarms immediately, even
/// though focus has not moved, and resets the dedup key.
#[test]
fn clipboard_change_disarms_and_resets_dedup() {
    let mut guard = ClipboardState::new(vec![block_term_rule()]);
    let mut mon = MonitorState::new(0);

    tick(&mut guard, &mut mon, &sample(Some("editor"), Some("Editor"), 1, true));
    tick(&mut guard, &mut mon, &sample(Some("term.app"), Some("Terminal"), 1, true));
    assert!(guard.blocking_active);

    // Something is copied while the terminal stays focused.
    let out = tick(&mut guard, &mut mon, &sample(Some("term.app"), Some("Terminal"), 2, true));
    assert_eq!(out.commands, vec![BlockerMsg::Disarm]);
    assert!(!guard.blocking_active);
    assert!(out.warning.is_none());
    let ev = out.clipboard_event.expect("change event");
    assert_eq!(ev.source_app_id.as_deref(), Some("term.app"));
    // Provenance now points at the terminal itself.
    let src = guard.get_clipboard_source().expect("source");
    assert_eq!(src.source_app_id.as_deref(), Some("term.app"));
}

/// Between clipboard changes, the same source/destination pair is warned
/// about at most once, even across switches to non-matching applications.
#[test]
fn no_repeat_warning_for_same_pair() {
    let mut guard = ClipboardState::new(vec![notify_term_rule()]);
    let mut mon = MonitorState::new(0);

    tick(&mut guard, &mut mon, &sample(Some("editor"), Some("Editor"), 1, true));
    let out = tick(&mut guard, &mut mon, &sample(Some("term.app"), Some("Terminal"), 1, true));
    assert!(out.warning.is_some());

    // Parked on the terminal: no switch, no warning.
    let out = tick(&mut guard, &mut mon, &sample(Some("term.app"), Some("Terminal"), 1, true));
    assert!(out.warning.is_none());

    // Excursion to a non-matching app and back: the key still dedups.
    let out = tick(&mut guard, &mut mon, &sample(Some("notes"), Some("Notes"), 1, true));
    assert!(out.warning.is_none());
    let out = tick(&mut guard, &mut mon, &sample(Some("term.app"), Some("Terminal"), 1, true));
    assert!(out.warning.is_none());

    // A fresh copy resets the evaluation: the pair warns again.
    let out = tick(&mut guard, &mut mon, &sample(Some("editor"), Some("Editor"), 2, true));
    assert!(out.warning.is_none());
    let out = tick(&mut guard, &mut mon, &sample(Some("term.app"), Some("Terminal"), 2, true));
    assert!(out.warning.is_some());
}

/// The dedup key remembers only the most recent warning: after a warning
/// for a different pair, an earlier pair is warned about again.
#[test]
fn warning_key_is_single_slot() {
    let rules = vec![
        BlockRule {
            from_app_id: None,
            from_app_name: None,
            to_app_id: Some("term.app".to_string()),
            to_app_name: None,
            action: RuleAction::Notify,
        },
        BlockRule {
            from_app_id: None,
            from_app_name: None,
            to_app_id: Some("shell.app".to_string()),
            to_app_name: None,
            action: RuleAction::Notify,
        },
    ];
    let mut guard = ClipboardState::new(rules);
    let mut mon = MonitorState::new(0);

    tick(&mut guard, &mut mon, &sample(Some("editor"), Some("Editor"), 1, true));
    let out = tick(&mut guard, &mut mon, &sample(Some("term.app"), None, 1, true));
    assert!(out.warning.is_some());
    let out = tick(&mut guard, &mut mon, &sample(Some("shell.app"), None, 1, true));
    assert!(out.warning.is_some());
    // The key now holds the shell pair, so the terminal pair warns anew.
    let out = tick(&mut guard, &mut mon, &sample(Some("term.app"), None, 1, true));
    assert!(out.warning.is_some());
}

/// Switching into the application the clipboard came from never warns, also
/// when the ids differ only in case.
#[test]
fn same_app_is_exempt() {
    let mut guard = ClipboardState::new(vec![notify_term_rule()]);
    let mut mon = MonitorState::new(0);

    tick(&mut guard, &mut mon, &sample(Some("Term.APP"), Some("Terminal"), 1, true));
    tick(&mut guard, &mut mon, &sample(Some("notes"), Some("Notes"), 1, true));
    let out = tick(&mut guard, &mut mon, &sample(Some("term.app"), Some("Terminal"), 1, true));
    assert!(out.warning.is_none());
    assert!(out.notification.is_none());
}

/// While disabled the guard neither warns nor arms, but clipboard
/// provenance keeps updating and change events keep flowing.
#[test]
fn disabled_still_tracks_provenance() {
    let mut guard = ClipboardState::new(vec![block_term_rule()]);
    let mut mon = MonitorState::new(0);
    guard.set_enabled(false);

    let out = tick(&mut guard, &mut mon, &sample(Some("editor"), Some("Editor"), 1, true));
    assert!(out.clipboard_event.is_some());
    let src = guard.get_clipboard_source().expect("source");
    assert_eq!(src.source_app_id.as_deref(), Some("editor"));

    let out = tick(&mut guard, &mut mon, &sample(Some("term.app"), Some("Terminal"), 1, true));
    assert!(out.warning.is_none());
    assert!(out.notification.is_none());
    assert!(out.commands.is_empty());
    assert!(!guard.blocking_active);

    // Re-enabling: the tracked source is current, so the next switch warns.
    guard.set_enabled(true);
    tick(&mut guard, &mut mon, &sample(Some("notes"), Some("Notes"), 1, true));
    let out = tick(&mut guard, &mut mon, &sample(Some("term.app"), Some("Terminal"), 1, true));
    assert!(out.warning.is_some());
}

/// An unresolved foreground application yields no evaluation, and an
/// unresolved source name falls back to a placeholder in the body.
#[test]
fn unresolved_identities() {
    let mut guard = ClipboardState::new(vec![notify_term_rule()]);
    let mut mon = MonitorState::new(0);

    // Copy with an unresolved foreground app: provenance is recorded as unknown.
    let out = tick(&mut guard, &mut mon, &sample(None, None, 1, true));
    assert!(out.clipboard_event.is_some());

    // Switch to the terminal: an unknown source still counts as cross-app.
    let out = tick(&mut guard, &mut mon, &sample(Some("term.app"), Some("Terminal"), 1, true));
    let w = out.warning.expect("warning");
    assert_eq!(w.source_app_id, None);
    assert!(!w.blocked);
    let note = out.notification.expect("notification");
    assert_eq!(note.body(), "Clipboard from Unknown app. Be careful pasting into Terminal.");

    // Switch to an unresolved app: no destination, no evaluation.
    let out = tick(&mut guard, &mut mon, &sample(None, None, 1, true));
    assert!(out.warning.is_none());
}

#[test]
fn notification_bodies() {
    let n = Notification {
        kind: NoteKind::CrossAppRisk,
        source_name: "Editor".to_string(),
        dest_name: "Terminal".to_string(),
    };
    assert_eq!(n.body(), "Clipboard from Editor. Be careful pasting into Terminal.");
    let n = Notification {
        kind: NoteKind::PasteBlocked,
        source_name: "A".to_string(),
        dest_name: "B".to_string(),
    };
    assert_eq!(n.body(), "Paste blocked: A into B");
}
