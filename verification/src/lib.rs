//! Cross-application paste-risk guard.
//!
//! The library tracks clipboard provenance (which application last wrote to
//! the clipboard) and the currently focused application, matches
//! source/destination pairs against an ordered rule list, and decides when to
//! warn about or actively block a risky paste. All decision logic is pure and
//! verified: [`engine::tick`] consumes one poll sample and says exactly what
//! to emit, notify and send to the keystroke-suppression worker, whose own
//! decisions live in [`blocker`]. The operating-system sampling, event
//! delivery and native keystroke interception that surround the library are
//! unverifiable and live outside it.

pub mod blocker;
pub mod config;
pub mod engine;
pub mod guard;
pub mod identity;
pub mod rules;
