use clipboard_guard::blocker::{
    blocker_next, blocker_step, blocker_teardown, hook_should_consume, tap_should_consume,
    BlockerAction, BlockerMsg, COMMAND_FLAG_MASK,
};

/// Arming twice without an intervening disarm installs exactly one listener.
#[test]
fn rearm_is_idempotent() {
    let mut installed = false;
    assert_eq!(blocker_step(installed, BlockerMsg::Arm), BlockerAction::InstallListener);
    installed = blocker_next(installed, BlockerMsg::Arm, true);
    assert!(installed);
    // A second Arm touches nothing.
    assert_eq!(blocker_step(installed, BlockerMsg::Arm), BlockerAction::KeepAsIs);
    installed = blocker_next(installed, BlockerMsg::Arm, false);
    assert!(installed);
}

#[test]
fn disarm_releases_and_is_idempotent() {
    assert_eq!(blocker_step(true, BlockerMsg::Disarm), BlockerAction::RemoveListener);
    assert!(!blocker_next(true, BlockerMsg::Disarm, false));
    assert_eq!(blocker_step(false, BlockerMsg::Disarm), BlockerAction::KeepAsIs);
    assert!(!blocker_next(false, BlockerMsg::Disarm, false));
}

#[test]
fn failed_install_leaves_suppression_inert() {
    let installed = blocker_next(false, BlockerMsg::Arm, false);
    assert!(!installed);
    // A later Arm tries again.
    assert_eq!(blocker_step(installed, BlockerMsg::Arm), BlockerAction::InstallListener);
}

#[test]
fn teardown_releases_when_installed() {
    assert_eq!(blocker_teardown(true), BlockerAction::RemoveListener);
    assert_eq!(blocker_teardown(false), BlockerAction::KeepAsIs);
}

#[test]
fn tap_consumes_only_the_paste_chord() {
    assert!(tap_should_consume(9, COMMAND_FLAG_MASK));
    assert!(tap_should_consume(9, COMMAND_FLAG_MASK | 0b1));
    assert!(!tap_should_consume(8, COMMAND_FLAG_MASK));
    assert!(!tap_should_consume(9, 0));
}

#[test]
fn hook_consumes_only_while_armed() {
    assert!(hook_should_consume(true, 0, true, 0x56, true));
    // Disarmed: nothing is ever swallowed.
    assert!(!hook_should_consume(false, 0, true, 0x56, true));
    // Other keys, key-ups, negative hook codes, no control: pass through.
    assert!(!hook_should_consume(true, 0, true, 0x41, true));
    assert!(!hook_should_consume(true, 0, false, 0x56, true));
    assert!(!hook_should_consume(true, -1, true, 0x56, true));
    assert!(!hook_should_consume(true, 0, true, 0x56, false));
}
