//! The paste-risk decision engine.
//!
//! The poller samples, at a fixed cadence, the foreground application and the
//! clipboard change counter, and hands each sample to [`tick`]. One tick
//! performs, in order: clipboard-change handling (provenance update, warning
//! dedup reset, disarm), the enabled check, app-switch detection, disarm on
//! switching away, and — for a genuine cross-app switch — rule matching,
//! warning deduplication and the matched rule's action. The tick itself is
//! pure: it updates the two state records and reports what to emit, notify
//! and send to the suppression worker; performing those effects is the
//! surrounding loop's concern.

use vstd::prelude::*;

use crate::blocker::BlockerMsg;
use crate::guard::{clone_event, cross_app, ClipboardEvent, ClipboardState, EventV, GuardV,
    PasteWarning, WarningV};
use crate::rules::{clone_opt_string, first_match, matches_rule, RuleAction, RuleV};

verus! {

/// One poll sample: the foreground application observed exactly once this
/// tick, the clipboard change counter, and whether the elevated-input
/// permission needed for enforcement is granted. On platforms without an
/// interception facility the permission is reported as absent, which degrades
/// every `Block` action to notify-only.
pub struct TickSample {
    pub frontmost_id: Option<String>,
    pub frontmost_name: Option<String>,
    pub change_count: u64,
    pub permission_granted: bool,
}

/// Model of a poll sample.
#[verifier::ext_equal]
pub ghost struct SampleV {
    pub id: Option<Seq<char>>,
    pub name: Option<Seq<char>>,
    pub change_count: u64,
    pub permission_granted: bool,
}

impl View for TickSample {
    type V = SampleV;

    open spec fn view(&self) -> SampleV {
        SampleV {
            id: self.frontmost_id.deep_view(),
            name: self.frontmost_name.deep_view(),
            change_count: self.change_count,
            permission_granted: self.permission_granted,
        }
    }
}

/// The deduplication key of a warning: the pair of ids it was issued for.
pub struct WarnKey {
    pub source_id: Option<String>,
    pub dest_id: Option<String>,
}

/// Model of a deduplication key.
#[verifier::ext_equal]
pub ghost struct WarnKeyV {
    pub source_id: Option<Seq<char>>,
    pub dest_id: Option<Seq<char>>,
}

impl View for WarnKey {
    type V = WarnKeyV;

    open spec fn view(&self) -> WarnKeyV {
        WarnKeyV { source_id: self.source_id.deep_view(), dest_id: self.dest_id.deep_view() }
    }
}

/// The monitor loop's private state between ticks.
pub struct MonitorState {
    pub last_change_count: u64,
    pub last_frontmost_id: Option<String>,
    pub last_warned: Option<WarnKey>,
    pub block_active: bool,
}

/// Model of the monitor state.
#[verifier::ext_equal]
pub ghost struct MonitorV {
    pub last_change_count: u64,
    pub last_frontmost_id: Option<Seq<char>>,
    pub last_warned: Option<WarnKeyV>,
    pub block_active: bool,
}

impl View for MonitorState {
    type V = MonitorV;

    open spec fn view(&self) -> MonitorV {
        MonitorV {
            last_change_count: self.last_change_count,
            last_frontmost_id: self.last_frontmost_id.deep_view(),
            last_warned: self.last_warned.deep_view(),
            block_active: self.block_active,
        }
    }
}

impl DeepView for WarnKey {
    type V = WarnKeyV;

    open spec fn deep_view(&self) -> WarnKeyV {
        self.view()
    }
}

/// The monitor state at the start of the loop: no warning issued, no switch
/// seen, suppression inactive, counter as first sampled.
pub open spec fn initial_monitor(change_count: u64) -> MonitorV {
    MonitorV {
        last_change_count: change_count,
        last_frontmost_id: Option::None,
        last_warned: Option::None,
        block_active: false,
    }
}

impl MonitorState {
    /// The monitor state at loop start, seeded with the first counter sample.
    pub fn new(change_count: u64) -> (m: Self)
        ensures
            m@ == initial_monitor(change_count),
    {
        MonitorState {
            last_change_count: change_count,
            last_frontmost_id: None,
            last_warned: None,
            block_active: false,
        }
    }
}

/// Which notification a tick requests.
#[derive(Debug, Clone, Copy, PartialEq, Eq, Structural)]
pub enum NoteKind {
    /// A matched notify-only rule: warn about the cross-app paste.
    CrossAppRisk,
    /// A matched block rule with the permission granted: the paste keystroke
    /// is being suppressed.
    PasteBlocked,
    /// A matched block rule without the permission: degrade to a warning that
    /// names the missing permission.
    BlockUnavailable,
}

/// A notification request: what happened and the display names to mention.
pub struct Notification {
    pub kind: NoteKind,
    pub source_name: String,
    pub dest_name: String,
}

/// Model of a notification request.
#[verifier::ext_equal]
pub ghost struct NoteV {
    pub kind: NoteKind,
    pub source_name: Seq<char>,
    pub dest_name: Seq<char>,
}

impl View for Notification {
    type V = NoteV;

    open spec fn view(&self) -> NoteV {
        NoteV { kind: self.kind, source_name: self.source_name@, dest_name: self.dest_name@ }
    }
}

impl DeepView for Notification {
    type V = NoteV;

    open spec fn deep_view(&self) -> NoteV {
        self.view()
    }
}

/// Everything one tick asks the surrounding loop to do: emit a
/// clipboard-change event, emit a paste warning, show a notification, and
/// send control messages to the suppression worker, in order.
pub struct TickOutput {
    pub clipboard_event: Option<ClipboardEvent>,
    pub warning: Option<PasteWarning>,
    pub notification: Option<Notification>,
    pub commands: Vec<BlockerMsg>,
}

/// Model of a tick's outputs.
#[verifier::ext_equal]
pub ghost struct OutputV {
    pub event: Option<EventV>,
    pub warning: Option<WarningV>,
    pub note: Option<NoteV>,
    pub commands: Seq<BlockerMsg>,
}

impl View for TickOutput {
    type V = OutputV;

    open spec fn view(&self) -> OutputV {
        OutputV {
            event: self.clipboard_event.deep_view(),
            warning: self.warning.deep_view(),
            note: self.notification.deep_view(),
            commands: self.commands@,
        }
    }
}

/// Model of a whole tick: both state records after it, and its outputs.
#[verifier::ext_equal]
pub ghost struct TickResult {
    pub guard: GuardV,
    pub mon: MonitorV,
    pub out: OutputV,
}

/// The title every notification carries.
pub open spec fn note_title() -> Seq<char> {
    "Clipboard Guard"@
}

/// The notification body for a request: names the source and destination,
/// and — when enforcement is unavailable — the permission to grant.
pub open spec fn note_body_spec(n: NoteV) -> Seq<char> {
    match n.kind {
        NoteKind::CrossAppRisk => "Clipboard from "@ + n.source_name
            + ". Be careful pasting into "@ + n.dest_name + "."@,
        NoteKind::PasteBlocked => "Paste blocked: "@ + n.source_name + " into "@ + n.dest_name,
        NoteKind::BlockUnavailable => "Clipboard from "@ + n.source_name + ". Pasting into "@
            + n.dest_name + " would be blocked (grant Accessibility)."@,
    }
}

impl Notification {
    /// The notification title.
    pub fn title(&self) -> (r: &'static str)
        ensures
            r@ == note_title(),
    {
        "Clipboard Guard"
    }

    /// Render the notification body.
    pub fn body(&self) -> (r: String)
        ensures
            r@ == note_body_spec(self@),
    {
        match self.kind {
            NoteKind::CrossAppRisk => {
                let mut s = String::from_str("Clipboard from ");
                s.append(self.source_name.as_str());
                s.append(". Be careful pasting into ");
                s.append(self.dest_name.as_str());
                s.append(".");
                proof {
                    assert(s@ =~= note_body_spec(self@));
                }
                s
            },
            NoteKind::PasteBlocked => {
                let mut s = String::from_str("Paste blocked: ");
                s.append(self.source_name.as_str());
                s.append(" into ");
                s.append(self.dest_name.as_str());
                proof {
                    assert(s@ =~= note_body_spec(self@));
                }
                s
            },
            NoteKind::BlockUnavailable => {
                let mut s = String::from_str("Clipboard from ");
                s.append(self.source_name.as_str());
                s.append(". Pasting into ");
                s.append(self.dest_name.as_str());
                s.append(" would be blocked (grant Accessibility).");
                proof {
                    assert(s@ =~= note_body_spec(self@));
                }
                s
            },
        }
    }
}

/// The display name used when the OS could not resolve one.
pub open spec fn display_name(n: Option<Seq<char>>) -> Seq<char> {
    match n {
        Option::Some(x) => x,
        Option::None => "Unknown app"@,
    }
}

/// The deduplication key of a warning.
pub open spec fn warn_key(w: WarningV) -> WarnKeyV {
    WarnKeyV { source_id: w.source_id, dest_id: w.dest_id }
}

/// The tail of a tick, reached only on a genuine app switch while enabled,
/// with suppression already released: skip unless a resolved destination, a
/// known copy source, a cross-app pair, a matching rule and a fresh dedup
/// key all line up; then take the rule's action, degrading `Block` to
/// notify-only when the permission is absent.
pub open spec fn eval_switch_spec(
    g: GuardV,
    m: MonitorV,
    s: SampleV,
    event: Option<EventV>,
    cmds: Seq<BlockerMsg>,
) -> TickResult {
    let skip = TickResult {
        guard: g,
        mon: m,
        out: OutputV { event, warning: Option::None, note: Option::None, commands: cmds },
    };
    if s.id is None || g.last_copy_source is None {
        skip
    } else {
        let dest_id = s.id->0;
        let source = g.last_copy_source->0;
        if !cross_app(source, dest_id) {
            skip
        } else {
            match first_match(g.rules, source.id, dest_id) {
                Option::None => skip,
                Option::Some(rule) => {
                    let key = WarnKeyV { source_id: source.id, dest_id: s.id };
                    if m.last_warned == Option::Some(key) {
                        skip
                    } else {
                        let m1 = MonitorV { last_warned: Option::Some(key), ..m };
                        let src_name = display_name(source.name);
                        let dst_name = display_name(s.name);
                        let blocks = rule.action == RuleAction::Block && s.permission_granted;
                        let kind = if rule.action == RuleAction::Notify {
                            NoteKind::CrossAppRisk
                        } else if s.permission_granted {
                            NoteKind::PasteBlocked
                        } else {
                            NoteKind::BlockUnavailable
                        };
                        TickResult {
                            guard: GuardV { blocking_active: blocks || g.blocking_active, ..g },
                            mon: MonitorV { block_active: blocks, ..m1 },
                            out: OutputV {
                                event,
                                warning: Option::Some(WarningV {
                                    source_id: source.id,
                                    source_name: source.name,
                                    dest_id: s.id,
                                    dest_name: s.name,
                                    blocked: blocks,
                                }),
                                note: Option::Some(NoteV { kind, source_name: src_name, dest_name: dst_name }),
                                commands: if blocks { cmds.push(BlockerMsg::Arm) } else { cmds },
                            },
                        }
                    }
                },
            }
        }
    }
}

/// One tick of the decision engine over the models: clipboard-change
/// handling, the enabled check, switch detection, disarm on switching away,
/// and the switch evaluation.
pub open spec fn tick_spec(g: GuardV, m: MonitorV, s: SampleV) -> TickResult {
    let changed = s.change_count != m.last_change_count;
    let copied = EventV { id: s.id, name: s.name };
    let g1 = GuardV {
        last_copy_source: if changed {
            Option::Some(copied)
        } else {
            g.last_copy_source
        },
        blocking_active: if changed && m.block_active {
            false
        } else {
            g.blocking_active
        },
        ..g
    };
    let m1 = MonitorV {
        last_change_count: s.change_count,
        last_warned: if changed {
            Option::None
        } else {
            m.last_warned
        },
        block_active: if changed {
            false
        } else {
            m.block_active
        },
        ..m
    };
    let event = if changed {
        Option::Some(copied)
    } else {
        Option::None
    };
    let cmds0: Seq<BlockerMsg> = if changed && m.block_active {
        seq![BlockerMsg::Disarm]
    } else {
        Seq::empty()
    };
    if !g1.enabled {
        TickResult {
            guard: GuardV {
                blocking_active: if m1.block_active {
                    false
                } else {
                    g1.blocking_active
                },
                ..g1
            },
            mon: MonitorV { block_active: false, last_frontmost_id: s.id, ..m1 },
            out: OutputV {
                event,
                warning: Option::None,
                note: Option::None,
                commands: if m1.block_active {
                    cmds0.push(BlockerMsg::Disarm)
                } else {
                    cmds0
                },
            },
        }
    } else {
        let switched = s.id != m1.last_frontmost_id;
        let m2 = MonitorV { last_frontmost_id: s.id, ..m1 };
        if !switched {
            TickResult {
                guard: g1,
                mon: m2,
                out: OutputV { event, warning: Option::None, note: Option::None, commands: cmds0 },
            }
        } else {
            let cmds1 = if m2.block_active {
                cmds0.push(BlockerMsg::Disarm)
            } else {
                cmds0
            };
            let g2 = GuardV {
                blocking_active: if m2.block_active {
                    false
                } else {
                    g1.blocking_active
                },
                ..g1
            };
            let m3 = MonitorV { block_active: false, ..m2 };
            eval_switch_spec(g2, m3, s, event, cmds1)
        }
    }
}

/// The copy source in effect when a tick evaluates a switch: the provenance
/// recorded by this very tick's clipboard change, or else the stored one.
pub open spec fn effective_copy_source(g: GuardV, m: MonitorV, s: SampleV) -> Option<EventV> {
    if s.change_count != m.last_change_count {
        Option::Some(EventV { id: s.id, name: s.name })
    } else {
        g.last_copy_source
    }
}

/// A tick emits a clipboard-change event exactly when the counter moved.
pub proof fn lemma_tick_event_iff_change(g: GuardV, m: MonitorV, s: SampleV)
    ensures
        tick_spec(g, m, s).out.event is Some <==> s.change_count != m.last_change_count,
{
}

/// A tick that emits a warning records that warning's dedup key.
pub proof fn lemma_tick_warning_sets_key(g: GuardV, m: MonitorV, s: SampleV)
    ensures
        tick_spec(g, m, s).out.warning matches Option::Some(w) ==> tick_spec(g, m, s).mon.last_warned
            == Option::Some(warn_key(w)),
{
}

/// A tick that saw no clipboard change and emitted no warning leaves the
/// dedup key as it was.
pub proof fn lemma_tick_key_preserved(g: GuardV, m: MonitorV, s: SampleV)
    requires
        tick_spec(g, m, s).out.event is None,
        tick_spec(g, m, s).out.warning is None,
    ensures
        tick_spec(g, m, s).mon.last_warned == m.last_warned,
{
}

/// While the clipboard is unchanged, a tick never re-issues a warning for
/// the recorded dedup key.
pub proof fn lemma_tick_dedup(g: GuardV, m: MonitorV, s: SampleV, k: WarnKeyV)
    requires
        m.last_warned == Option::Some(k),
        tick_spec(g, m, s).out.event is None,
    ensures
        tick_spec(g, m, s).out.warning matches Option::Some(w) ==> warn_key(w) != k,
{
}

/// Provenance tracking: a tick that saw the counter move replaces the copy
/// source with a snapshot of this tick's foreground identity and emits it;
/// otherwise the stored source is untouched and nothing is emitted. This
/// holds whether or not the guard is enabled.
pub proof fn lemma_tick_provenance(g: GuardV, m: MonitorV, s: SampleV)
    ensures
        ({
            let r = tick_spec(g, m, s);
            &&& (s.change_count != m.last_change_count ==> r.guard.last_copy_source
                == Option::Some(EventV { id: s.id, name: s.name }) && r.out.event
                == r.guard.last_copy_source)
            &&& (s.change_count == m.last_change_count ==> r.guard.last_copy_source
                == g.last_copy_source && r.out.event is None)
            &&& r.mon.last_change_count == s.change_count
        }),
{
}

/// No spurious warning: a warning is emitted only on a genuine app switch
/// while enabled, to a resolved destination, from a known cross-app source,
/// with a matching rule and a fresh dedup key; and its fields are exactly
/// the evaluated pair, with `blocked` reporting an armed block.
pub proof fn lemma_warning_justified(g: GuardV, m: MonitorV, s: SampleV)
    ensures
        ({
            let r = tick_spec(g, m, s);
            r.out.warning matches Option::Some(w) ==> {
                let src = effective_copy_source(g, m, s)->0;
                let rule = first_match(g.rules, src.id, s.id->0)->0;
                &&& g.enabled
                &&& s.id != m.last_frontmost_id
                &&& s.id is Some
                &&& effective_copy_source(g, m, s) is Some
                &&& cross_app(src, s.id->0)
                &&& first_match(g.rules, src.id, s.id->0) is Some
                &&& w.source_id == src.id
                &&& w.source_name == src.name
                &&& w.dest_id == s.id
                &&& w.dest_name == s.name
                &&& w.blocked == (rule.action == RuleAction::Block && s.permission_granted)
                &&& r.out.note is Some
            }
        }),
{
}

/// No missed warning: on a genuine app switch while enabled, with a resolved
/// destination, a known cross-app copy source, a matching rule and a fresh
/// dedup key, the warning is emitted.
pub proof fn lemma_warning_owed(g: GuardV, m: MonitorV, s: SampleV)
    requires
        ({
            let changed = s.change_count != m.last_change_count;
            &&& g.enabled
            &&& s.id is Some
            &&& s.id != m.last_frontmost_id
            &&& effective_copy_source(g, m, s) matches Option::Some(src)
            &&& cross_app(src, s.id->0)
            &&& first_match(g.rules, src.id, s.id->0) is Some
            &&& (!changed ==> m.last_warned != Option::Some(
                WarnKeyV { source_id: src.id, dest_id: s.id },
            ))
        }),
    ensures
        tick_spec(g, m, s).out.warning is Some,
{
}

/// The two state records evolved by a run of ticks.
#[verifier::ext_equal]
pub ghost struct StateV {
    pub guard: GuardV,
    pub mon: MonitorV,
}

/// The state before tick `t` of a run over `inputs`, starting from `init`.
pub open spec fn state_at(init: StateV, inputs: Seq<SampleV>, t: int) -> StateV
    decreases t,
{
    if t <= 0 {
        init
    } else {
        let p = state_at(init, inputs, t - 1);
        let r = tick_spec(p.guard, p.mon, inputs[t - 1]);
        StateV { guard: r.guard, mon: r.mon }
    }
}

/// The outputs of tick `t` of that run.
pub open spec fn output_at(init: StateV, inputs: Seq<SampleV>, t: int) -> OutputV {
    let p = state_at(init, inputs, t);
    tick_spec(p.guard, p.mon, inputs[t]).out
}

proof fn lemma_key_remains(init: StateV, inputs: Seq<SampleV>, k: WarnKeyV, i: int, j: int)
    requires
        0 <= i <= j < inputs.len(),
        state_at(init, inputs, i).mon.last_warned == Option::Some(k),
        forall|t: int| i <= t <= j ==> output_at(init, inputs, t).event is None,
        forall|t: int| i <= t < j ==> output_at(init, inputs, t).warning is None,
    ensures
        state_at(init, inputs, j).mon.last_warned == Option::Some(k),
    decreases j - i,
{
    if i < j {
        let p = state_at(init, inputs, i);
        assert(output_at(init, inputs, i).event is None);
        assert(output_at(init, inputs, i).warning is None);
        lemma_tick_key_preserved(p.guard, p.mon, inputs[i]);
        assert(state_at(init, inputs, i + 1).mon.last_warned == Option::Some(k));
        lemma_key_remains(init, inputs, k, i + 1, j);
    }
}

/// Warning deduplication: as long as no clipboard change and no other
/// warning intervenes, a warning for the same source/destination pair is
/// never issued twice. (A warning for a different pair in between replaces
/// the single recorded key, after which the pair may be warned about again.)
pub proof fn lemma_warning_dedup(init: StateV, inputs: Seq<SampleV>, i: int, j: int)
    requires
        0 <= i < j < inputs.len(),
        output_at(init, inputs, i).warning is Some,
        forall|t: int| i < t <= j ==> output_at(init, inputs, t).event is None,
        forall|t: int| i < t < j ==> output_at(init, inputs, t).warning is None,
    ensures
        output_at(init, inputs, j).warning matches Option::Some(w2) ==> warn_key(w2) != warn_key(
            output_at(init, inputs, i).warning->0,
        ),
{
    let w = output_at(init, inputs, i).warning->0;
    let k = warn_key(w);
    let p = state_at(init, inputs, i);
    lemma_tick_warning_sets_key(p.guard, p.mon, inputs[i]);
    assert(state_at(init, inputs, i + 1).mon.last_warned == Option::Some(k));
    lemma_key_remains(init, inputs, k, i + 1, j);
    let q = state_at(init, inputs, j);
    lemma_tick_dedup(q.guard, q.mon, inputs[j], k);
}

/// Same-app exemption: when the destination id equals the id of the copy
/// source in effect (case-insensitively), a tick never emits a warning.
pub proof fn lemma_same_app_never_warns(g: GuardV, m: MonitorV, s: SampleV)
    requires
        ({
            &&& s.id matches Option::Some(did)
            &&& effective_copy_source(g, m, s) matches Option::Some(src)
            &&& src.id matches Option::Some(sid)
            &&& crate::rules::ids_match(sid, did)
        }),
    ensures
        tick_spec(g, m, s).out.warning is None,
{
}

/// Disabling the guard stops warnings, notifications and arming, but not
/// clipboard-provenance tracking: the copy source still updates, and the
/// change event is still emitted, while disabled.
pub proof fn lemma_disabled_still_tracks(g: GuardV, m: MonitorV, s: SampleV)
    requires
        !g.enabled,
    ensures
        ({
            let r = tick_spec(g, m, s);
            &&& r.out.warning is None
            &&& r.out.note is None
            &&& !r.out.commands.contains(BlockerMsg::Arm)
            &&& r.guard.enabled == g.enabled
            &&& r.guard.rules == g.rules
            &&& r.mon.block_active == false
            &&& (s.change_count != m.last_change_count ==> r.guard.last_copy_source
                == Option::Some(EventV { id: s.id, name: s.name }) && r.out.event
                == r.guard.last_copy_source)
            &&& (s.change_count == m.last_change_count ==> r.guard.last_copy_source
                == g.last_copy_source && r.out.event is None)
        }),
{
    let r = tick_spec(g, m, s);
    assert forall|idx: int| 0 <= idx < r.out.commands.len() implies r.out.commands[idx]
        == BlockerMsg::Disarm by {}
}

/// The shared record's `blocking_active` mirrors the monitor's armed flag:
/// every tick preserves their agreement.
pub proof fn lemma_blocking_flags_agree(g: GuardV, m: MonitorV, s: SampleV)
    requires
        g.blocking_active == m.block_active,
    ensures
        tick_spec(g, m, s).guard.blocking_active == tick_spec(g, m, s).mon.block_active,
{
}

/// Suppression is requested exactly when a blocked warning is emitted, and a
/// warning reports `blocked` only with the elevated-input permission granted;
/// without it the block degrades to a notification that names the gap.
pub proof fn lemma_block_needs_permission(g: GuardV, m: MonitorV, s: SampleV)
    ensures
        ({
            let r = tick_spec(g, m, s);
            &&& r.out.commands.contains(BlockerMsg::Arm) <==> (r.out.warning matches Option::Some(w)
                && w.blocked)
            &&& (r.out.warning matches Option::Some(w) ==> (w.blocked ==> s.permission_granted
                && r.mon.block_active))
            &&& (r.out.note matches Option::Some(n) ==> (n.kind == NoteKind::BlockUnavailable
                ==> !s.permission_granted))
        }),
{
    let r = tick_spec(g, m, s);
    if r.out.warning matches Option::Some(w) && w.blocked {
        assert(r.out.commands.contains(BlockerMsg::Arm)) by {
            assert(r.out.commands[r.out.commands.len() - 1] == BlockerMsg::Arm);
        }
    }
}

/// What a run of control messages leaves installed at the suppression
/// worker, assuming installations succeed.
pub open spec fn apply_commands(installed: bool, cmds: Seq<BlockerMsg>) -> bool
    decreases cmds.len(),
{
    if cmds.len() == 0 {
        installed
    } else {
        apply_commands(
            crate::blocker::blocker_installed_after(installed, cmds[0], true),
            cmds.drop_first(),
        )
    }
}

/// The armed flag after a tick is exactly what the tick's last control
/// message demands — or the old flag when no message was sent.
pub proof fn lemma_commands_track_block_state(g: GuardV, m: MonitorV, s: SampleV)
    ensures
        ({
            let r = tick_spec(g, m, s);
            r.mon.block_active == (if r.out.commands.len() > 0 {
                r.out.commands.last() == BlockerMsg::Arm
            } else {
                m.block_active
            })
        }),
{
}

/// The worker mirrors the engine: replaying a tick's control messages over
/// the suppression worker's state (with installations succeeding) leaves a
/// listener installed exactly when the tick left its armed flag set. So
/// `blocking_active` is true just when an `Arm` is outstanding.
pub proof fn lemma_worker_mirrors_engine(g: GuardV, m: MonitorV, s: SampleV, installed: bool)
    requires
        installed == m.block_active,
    ensures
        apply_commands(installed, tick_spec(g, m, s).out.commands) == tick_spec(
            g,
            m,
            s,
        ).mon.block_active,
{
    let r = tick_spec(g, m, s);
    let cmds = r.out.commands;
    if cmds.len() == 0 {
    } else if cmds.len() == 1 {
        assert(apply_commands(installed, cmds) == apply_commands(
            crate::blocker::blocker_installed_after(installed, cmds[0], true),
            cmds.drop_first(),
        ));
    } else {
        let once = crate::blocker::blocker_installed_after(installed, cmds[0], true);
        let twice = crate::blocker::blocker_installed_after(once, cmds[1], true);
        assert(cmds.drop_first()[0] == cmds[1]);
        assert(apply_commands(installed, cmds) == apply_commands(once, cmds.drop_first()));
        assert(apply_commands(once, cmds.drop_first()) == apply_commands(
            twice,
            cmds.drop_first().drop_first(),
        ));
        assert(cmds.drop_first().drop_first().len() == cmds.len() - 2);
    }
}

fn opt_str_eq(a: &Option<String>, b: &Option<String>) -> (r: bool)
    ensures
        r == (a.deep_view() == b.deep_view()),
{
    match (a, b) {
        (Option::None, Option::None) => true,
        (Option::Some(x), Option::Some(y)) => x.eq(y),
        _ => false,
    }
}

fn as_deref_opt(x: &Option<String>) -> (r: Option<&str>)
    ensures
        r.deep_view() == x.deep_view(),
{
    match x {
        Option::None => Option::None,
        Option::Some(s) => Option::Some(s.as_str()),
    }
}

fn display_name_of(n: &Option<String>) -> (r: String)
    ensures
        r@ == display_name(n.deep_view()),
{
    match n {
        Option::Some(x) => x.clone(),
        Option::None => String::from_str("Unknown app"),
    }
}

/// Run one tick of the decision engine: update the shared guard record and
/// the monitor state exactly as [`tick_spec`] says, and return what to emit,
/// notify and send to the suppression worker.
pub fn tick(guard: &mut ClipboardState, mon: &mut MonitorState, sample: &TickSample) -> (out:
    TickOutput)
    ensures
        ({
            let r = tick_spec(old(guard)@, old(mon)@, sample@);
            &&& final(guard)@ == r.guard
            &&& final(mon)@ == r.mon
            &&& out@ == r.out
        }),
{
    let ghost r = tick_spec(old(guard)@, old(mon)@, sample@);
    let mut commands: Vec<BlockerMsg> = Vec::new();
    let mut clipboard_event: Option<ClipboardEvent> = Option::None;

    // Clipboard-change handling: always performed, even while disabled, so
    // provenance stays current.
    let changed = sample.change_count != mon.last_change_count;
    if changed {
        mon.last_change_count = sample.change_count;
        mon.last_warned = Option::None;
        if mon.block_active {
            commands.push(BlockerMsg::Disarm);
            mon.block_active = false;
            guard.blocking_active = false;
        }
        let event = ClipboardEvent {
            source_app_id: clone_opt_string(&sample.frontmost_id),
            source_app_name: clone_opt_string(&sample.frontmost_name),
        };
        guard.last_copy_source = Option::Some(clone_event(&event));
        clipboard_event = Option::Some(event);
    }

    if !guard.enabled {
        if mon.block_active {
            commands.push(BlockerMsg::Disarm);
            mon.block_active = false;
            guard.blocking_active = false;
        }
        mon.last_frontmost_id = clone_opt_string(&sample.frontmost_id);
        let out = TickOutput {
            clipboard_event,
            warning: Option::None,
            notification: Option::None,
            commands,
        };
        proof {
            assert(guard@ =~~= r.guard);
            assert(mon@ =~~= r.mon);
            assert(out@ =~~= r.out);
        }
        return out;
    }

    let switched = !opt_str_eq(&sample.frontmost_id, &mon.last_frontmost_id);
    mon.last_frontmost_id = clone_opt_string(&sample.frontmost_id);
    if !switched {
        let out = TickOutput {
            clipboard_event,
            warning: Option::None,
            notification: Option::None,
            commands,
        };
        proof {
            assert(guard@ =~~= r.guard);
            assert(mon@ =~~= r.mon);
            assert(out@ =~~= r.out);
        }
        return out;
    }

    // Switching away always cancels an active block: the risk for the old
    // destination is irrelevant once focus left it.
    if mon.block_active {
        commands.push(BlockerMsg::Disarm);
        mon.block_active = false;
        guard.blocking_active = false;
    }

    let out = evaluate_switch(guard, mon, sample, clipboard_event, commands);
    proof {
        assert(guard@ =~~= r.guard);
        assert(mon@ =~~= r.mon);
        assert(out@ =~~= r.out);
    }
    out
}

/// Evaluate a genuine app switch against the copy source and the rules,
/// completing the tick's output. Reached only with suppression already
/// released.
fn evaluate_switch(
    guard: &mut ClipboardState,
    mon: &mut MonitorState,
    sample: &TickSample,
    clipboard_event: Option<ClipboardEvent>,
    commands: Vec<BlockerMsg>,
) -> (out: TickOutput)
    requires
        !old(mon)@.block_active,
    ensures
        ({
            let e = eval_switch_spec(
                old(guard)@,
                old(mon)@,
                sample@,
                clipboard_event.deep_view(),
                commands@,
            );
            &&& final(guard)@ == e.guard
            &&& final(mon)@ == e.mon
            &&& out@ == e.out
        }),
{
    let ghost e = eval_switch_spec(
        old(guard)@,
        old(mon)@,
        sample@,
        clipboard_event.deep_view(),
        commands@,
    );
    let dest_id = match &sample.frontmost_id {
        Option::None => {
            return TickOutput {
                clipboard_event,
                warning: Option::None,
                notification: Option::None,
                commands,
            };
        },
        Option::Some(d) => d,
    };
    let source = match &guard.last_copy_source {
        Option::None => {
            return TickOutput {
                clipboard_event,
                warning: Option::None,
                notification: Option::None,
                commands,
            };
        },
        Option::Some(e) => clone_event(e),
    };
    if !crate::guard::is_cross_app(&source, dest_id.as_str()) {
        return TickOutput {
            clipboard_event,
            warning: Option::None,
            notification: Option::None,
            commands,
        };
    }
    let matched = matches_rule(
        guard.rules.as_slice(),
        as_deref_opt(&source.source_app_id),
        dest_id.as_str(),
    );
    let rule = match matched {
        Option::None => {
            return TickOutput {
                clipboard_event,
                warning: Option::None,
                notification: Option::None,
                commands,
            };
        },
        Option::Some(rule) => rule,
    };
    let key_seen = match &mon.last_warned {
        Option::None => false,
        Option::Some(k) => opt_str_eq(&k.source_id, &source.source_app_id) && opt_str_eq(
            &k.dest_id,
            &sample.frontmost_id,
        ),
    };
    if key_seen {
        return TickOutput {
            clipboard_event,
            warning: Option::None,
            notification: Option::None,
            commands,
        };
    }
    mon.last_warned = Option::Some(
        WarnKey {
            source_id: clone_opt_string(&source.source_app_id),
            dest_id: clone_opt_string(&sample.frontmost_id),
        },
    );
    let is_block = match rule.action {
        RuleAction::Block => true,
        RuleAction::Notify => false,
    };
    let blocks = is_block && sample.permission_granted;
    let kind = if !is_block {
        NoteKind::CrossAppRisk
    } else if sample.permission_granted {
        NoteKind::PasteBlocked
    } else {
        NoteKind::BlockUnavailable
    };
    let mut commands = commands;
    if blocks {
        commands.push(BlockerMsg::Arm);
        mon.block_active = true;
        guard.blocking_active = true;
    }
    let notification = Notification {
        kind,
        source_name: display_name_of(&source.source_app_name),
        dest_name: display_name_of(&sample.frontmost_name),
    };
    let warning = PasteWarning {
        source_app_id: source.source_app_id,
        source_app_name: source.source_app_name,
        dest_app_id: clone_opt_string(&sample.frontmost_id),
        dest_app_name: clone_opt_string(&sample.frontmost_name),
        blocked: blocks,
    };
    let out = TickOutput {
        clipboard_event,
        warning: Option::Some(warning),
        notification: Option::Some(notification),
        commands,
    };
    proof {
        assert(guard@ =~~= e.guard);
        assert(mon@ =~~= e.mon);
        assert(out@ =~~= e.out);
    }
    out
}

} // verus!

