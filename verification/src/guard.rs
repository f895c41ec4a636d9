//! Shared guard state and the events the monitor emits.
//!
//! `ClipboardState` is the record shared between the polling loop and the
//! control surface (tray menu, settings window): the most recent clipboard
//! provenance, the enabled flag, the active rule list, and whether keystroke
//! suppression is currently armed.

use vstd::prelude::*;

use crate::rules::{clone_opt_string, clone_rule, ids_match, rules_view, BlockRule, RuleV};

verus! {

/// A detected clipboard change: a snapshot of the foreground application at
/// the moment the change was observed.
#[derive(Debug, Clone)]
pub struct ClipboardEvent {
    pub source_app_id: Option<String>,
    pub source_app_name: Option<String>,
}

/// Model of a clipboard event: the provenance id and display name.
#[verifier::ext_equal]
pub ghost struct EventV {
    pub id: Option<Seq<char>>,
    pub name: Option<Seq<char>>,
}

impl View for ClipboardEvent {
    type V = EventV;

    open spec fn view(&self) -> EventV {
        EventV { id: self.source_app_id.deep_view(), name: self.source_app_name.deep_view() }
    }
}

impl DeepView for ClipboardEvent {
    type V = EventV;

    open spec fn deep_view(&self) -> EventV {
        self.view()
    }
}

/// The outcome of a risk evaluation on an app switch, emitted once per
/// triggering switch.
#[derive(Debug, Clone)]
pub struct PasteWarning {
    pub source_app_id: Option<String>,
    pub source_app_name: Option<String>,
    pub dest_app_id: Option<String>,
    pub dest_app_name: Option<String>,
    pub blocked: bool,
}

/// Model of a paste warning.
#[verifier::ext_equal]
pub ghost struct WarningV {
    pub source_id: Option<Seq<char>>,
    pub source_name: Option<Seq<char>>,
    pub dest_id: Option<Seq<char>>,
    pub dest_name: Option<Seq<char>>,
    pub blocked: bool,
}

impl View for PasteWarning {
    type V = WarningV;

    open spec fn view(&self) -> WarningV {
        WarningV {
            source_id: self.source_app_id.deep_view(),
            source_name: self.source_app_name.deep_view(),
            dest_id: self.dest_app_id.deep_view(),
            dest_name: self.dest_app_name.deep_view(),
            blocked: self.blocked,
        }
    }
}

impl DeepView for PasteWarning {
    type V = WarningV;

    open spec fn deep_view(&self) -> WarningV {
        self.view()
    }
}

/// The shared guard record: last clipboard provenance, enabled flag, rules,
/// and whether suppression is armed.
pub struct ClipboardState {
    pub last_copy_source: Option<ClipboardEvent>,
    pub enabled: bool,
    pub rules: Vec<BlockRule>,
    pub blocking_active: bool,
}

/// Model of the shared guard record.
#[verifier::ext_equal]
pub ghost struct GuardV {
    pub last_copy_source: Option<EventV>,
    pub enabled: bool,
    pub rules: Seq<RuleV>,
    pub blocking_active: bool,
}

impl View for ClipboardState {
    type V = GuardV;

    open spec fn view(&self) -> GuardV {
        GuardV {
            last_copy_source: self.last_copy_source.deep_view(),
            enabled: self.enabled,
            rules: rules_view(self.rules@),
            blocking_active: self.blocking_active,
        }
    }
}

/// The guard record at process start: provenance unknown, guard enabled,
/// suppression inactive, rules as loaded.
pub open spec fn initial_guard(rules: Seq<RuleV>) -> GuardV {
    GuardV { last_copy_source: Option::None, enabled: true, rules, blocking_active: false }
}

pub(crate) fn clone_event(e: &ClipboardEvent) -> (r: ClipboardEvent)
    ensures
        r == *e,
{
    ClipboardEvent {
        source_app_id: clone_opt_string(&e.source_app_id),
        source_app_name: clone_opt_string(&e.source_app_name),
    }
}

pub(crate) fn clone_rules(rs: &Vec<BlockRule>) -> (r: Vec<BlockRule>)
    ensures
        r@ == rs@,
{
    let mut out: Vec<BlockRule> = Vec::new();
    let mut i: usize = 0;
    while i < rs.len()
        invariant
            i <= rs@.len(),
            out@ == rs@.take(i as int),
        decreases rs@.len() - i,
    {
        out.push(clone_rule(&rs[i]));
        proof {
            assert(out@ =~= rs@.take(i as int + 1));
        }
        i += 1;
    }
    proof {
        assert(rs@.take(rs@.len() as int) =~= rs@);
    }
    out
}

impl ClipboardState {
    /// The guard record created once at startup with the loaded rules.
    pub fn new(rules: Vec<BlockRule>) -> (s: Self)
        ensures
            s@ == initial_guard(rules_view(rules@)),
    {
        ClipboardState { last_copy_source: None, enabled: true, rules, blocking_active: false }
    }

    /// The most recent clipboard provenance, if any change has been observed.
    pub fn get_clipboard_source(&self) -> (r: Option<ClipboardEvent>)
        ensures
            r.deep_view() == self@.last_copy_source,
    {
        match &self.last_copy_source {
            Option::None => Option::None,
            Option::Some(e) => Option::Some(clone_event(e)),
        }
    }

    /// Whether the guard is currently enabled.
    pub fn get_enabled(&self) -> (r: bool)
        ensures
            r == self@.enabled,
    {
        self.enabled
    }

    /// Enable or disable the guard; everything else is untouched.
    pub fn set_enabled(&mut self, enabled: bool)
        ensures
            final(self)@ == (GuardV { enabled, ..old(self)@ }),
    {
        self.enabled = enabled;
    }

    /// The current rule list, in precedence order.
    pub fn get_rules(&self) -> (r: Vec<BlockRule>)
        ensures
            rules_view(r@) == self@.rules,
    {
        clone_rules(&self.rules)
    }

    /// Replace the in-memory rule list; persistence is the caller's concern,
    /// and the swap happens even if persisting failed, so the running session
    /// sees what the user just authored.
    pub fn set_rules(&mut self, new_rules: Vec<BlockRule>)
        ensures
            final(self)@ == (GuardV { rules: rules_view(new_rules@), ..old(self)@ }),
    {
        self.rules = new_rules;
    }
}

/// Whether a paste from `source` into the application `dest_app_id` would
/// cross an application boundary. An unresolved source counts as cross-app.
pub open spec fn cross_app(source: EventV, dest_id: Seq<char>) -> bool {
    match source.id {
        Option::Some(src_id) => !ids_match(src_id, dest_id),
        Option::None => true,
    }
}

/// Decide whether `source` and the destination are different applications;
/// same-app pastes are never treated as risk.
pub fn is_cross_app(source: &ClipboardEvent, dest_app_id: &str) -> (r: bool)
    ensures
        r == cross_app(source@, dest_app_id@),
{
    match &source.source_app_id {
        Option::Some(src_id) => !crate::rules::eq_ignore_ascii_case(src_id.as_str(), dest_app_id),
        Option::None => true,
    }
}

/// The tray toggle label for the current enabled state.
pub fn toggle_label(enabled: bool) -> (r: &'static str)
    ensures
        enabled ==> r@ == "Disable Guard"@,
        !enabled ==> r@ == "Enable Guard"@,
{
    if enabled {
        "Disable Guard"
    } else {
        "Enable Guard"
    }
}

} // verus!
