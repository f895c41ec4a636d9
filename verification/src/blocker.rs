//! The keystroke-suppression control protocol and its decisions.
//!
//! A dedicated worker owns the native input listener (an event tap on one
//! platform, a low-level keyboard hook on another) and its event pump. The
//! monitor drives it over an asynchronous channel with two messages, `Arm`
//! and `Disarm`. The worker's decisions — when to install or release the
//! native handle, and whether a given keystroke is the paste chord to be
//! consumed — are pure functions defined and verified here; the native calls
//! themselves happen outside the library.

use vstd::prelude::*;

verus! {

/// The two-message control protocol from the decision engine to the
/// suppression worker.
#[derive(Debug, Clone, Copy, PartialEq, Eq, Structural)]
pub enum BlockerMsg {
    Arm,
    Disarm,
}

/// What the worker must do with the native listener handle on receiving a
/// control message.
#[derive(Debug, Clone, Copy, PartialEq, Eq, Structural)]
pub enum BlockerAction {
    /// Install a listener and enable interception.
    InstallListener,
    /// Disable interception and fully release the native handle.
    RemoveListener,
    /// Leave the listener as it is.
    KeepAsIs,
}

/// The action a message demands, given whether a listener is installed:
/// arming is a no-op while armed, disarming is a no-op while disarmed, so at
/// most one listener handle ever exists.
pub open spec fn blocker_action(installed: bool, msg: BlockerMsg) -> BlockerAction {
    match msg {
        BlockerMsg::Arm => if installed {
            BlockerAction::KeepAsIs
        } else {
            BlockerAction::InstallListener
        },
        BlockerMsg::Disarm => if installed {
            BlockerAction::RemoveListener
        } else {
            BlockerAction::KeepAsIs
        },
    }
}

/// Whether a listener is installed after acting on `msg`, where `install_ok`
/// says whether an attempted installation succeeded. A failed installation
/// leaves suppression inert until a future `Arm` succeeds.
pub open spec fn blocker_installed_after(installed: bool, msg: BlockerMsg, install_ok: bool) -> bool {
    match msg {
        BlockerMsg::Arm => installed || install_ok,
        BlockerMsg::Disarm => false,
    }
}

/// Decide what to do with the native listener for one control message.
pub fn blocker_step(installed: bool, msg: BlockerMsg) -> (a: BlockerAction)
    ensures
        a == blocker_action(installed, msg),
{
    match msg {
        BlockerMsg::Arm => if installed {
            BlockerAction::KeepAsIs
        } else {
            BlockerAction::InstallListener
        },
        BlockerMsg::Disarm => if installed {
            BlockerAction::RemoveListener
        } else {
            BlockerAction::KeepAsIs
        },
    }
}

/// Track whether a listener is installed after acting on `msg`.
pub fn blocker_next(installed: bool, msg: BlockerMsg, install_ok: bool) -> (r: bool)
    ensures
        r == blocker_installed_after(installed, msg, install_ok),
{
    match msg {
        BlockerMsg::Arm => installed || install_ok,
        BlockerMsg::Disarm => false,
    }
}

/// Re-arming is idempotent: an `Arm` that found or produced an installed
/// listener leaves exactly that one listener in place, and a further `Arm`
/// without an intervening `Disarm` installs nothing.
pub proof fn lemma_rearm_idempotent(installed: bool, later_ok: bool)
    ensures
        blocker_installed_after(installed, BlockerMsg::Arm, true),
        blocker_action(true, BlockerMsg::Arm) == BlockerAction::KeepAsIs,
        blocker_installed_after(true, BlockerMsg::Arm, later_ok),
{
}

/// Tearing down (on channel disconnection or process exit) releases the
/// listener exactly when one is installed; afterwards none remains.
pub open spec fn teardown_action(installed: bool) -> BlockerAction {
    if installed {
        BlockerAction::RemoveListener
    } else {
        BlockerAction::KeepAsIs
    }
}

/// Decide the teardown step when the control channel disconnects.
pub fn blocker_teardown(installed: bool) -> (a: BlockerAction)
    ensures
        a == teardown_action(installed),
{
    if installed {
        BlockerAction::RemoveListener
    } else {
        BlockerAction::KeepAsIs
    }
}

/// The keycode of the paste key in the session event-tap encoding.
pub const PASTE_KEYCODE: i64 = 9;

/// The event-flags bit for the command modifier in the same encoding.
pub const COMMAND_FLAG_MASK: u64 = 1u64 << 20;

/// The virtual-key code of the paste key in the low-level hook encoding.
pub const VK_PASTE_KEY: u32 = 0x56;

/// The event-tap consume decision: swallow exactly a key-down of the paste
/// key with the command modifier held; everything else passes through.
pub fn tap_should_consume(keycode: i64, flags: u64) -> (consume: bool)
    ensures
        consume == (keycode == PASTE_KEYCODE && flags & COMMAND_FLAG_MASK != 0),
{
    keycode == PASTE_KEYCODE && flags & COMMAND_FLAG_MASK != 0
}

/// The low-level hook consume decision: swallow exactly a key-down of the
/// paste key while the armed flag is set, the hook code asks for processing,
/// and the control modifier is held (queried live, since this hook's events
/// do not carry modifier state). While disarmed, nothing is ever swallowed.
pub fn hook_should_consume(
    armed: bool,
    hook_code: i32,
    is_keydown: bool,
    vk_code: u32,
    ctrl_down: bool,
) -> (consume: bool)
    ensures
        consume == (armed && hook_code >= 0 && is_keydown && vk_code == VK_PASTE_KEY && ctrl_down),
        !armed ==> !consume,
{
    armed && hook_code >= 0 && is_keydown && vk_code == VK_PASTE_KEY && ctrl_down
}

} // verus!
