//! First-run application configuration.

use vstd::prelude::*;

verus! {

/// Persistent application configuration. `autostart_initialized` records
/// whether launch-at-login has been set up once, so it is enabled exactly on
/// the first run and the user's later choice is respected.
#[derive(Debug, Clone, Copy, PartialEq, Eq, Structural)]
pub struct Config {
    pub autostart_initialized: bool,
}

impl Default for Config {
    /// The configuration assumed when none has been stored yet.
    fn default() -> (c: Self)
        ensures
            c == (Config { autostart_initialized: false }),
    {
        Config { autostart_initialized: false }
    }
}

impl Config {
    /// The first-run decision: report whether launch-at-login still needs to
    /// be enabled, and record that it has now been taken care of.
    pub fn take_autostart_init(&mut self) -> (enable: bool)
        ensures
            enable == !old(self).autostart_initialized,
            final(self).autostart_initialized,
    {
        let enable = !self.autostart_initialized;
        self.autostart_initialized = true;
        enable
    }
}

} // verus!
