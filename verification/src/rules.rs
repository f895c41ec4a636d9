//! Ordered source/destination rules and the first-match-wins matcher.
//!
//! A rule's `from`/`to` patterns are application ids; an absent pattern
//! matches anything, a present one must equal the observed id up to ASCII
//! case. Rule order encodes precedence: the first matching rule decides.

use vstd::prelude::*;

verus! {

/// What a matched rule asks for: a warning notification only, or active
/// suppression of the paste keystroke.
#[derive(Debug, Clone, Copy, PartialEq, Eq, Structural)]
pub enum RuleAction {
    Notify,
    Block,
}

/// One source/destination rule. `None` patterns match any application; ids
/// are compared case-insensitively, names are informational only.
#[derive(Debug, Clone, PartialEq)]
pub struct BlockRule {
    pub from_app_id: Option<String>,
    pub from_app_name: Option<String>,
    pub to_app_id: Option<String>,
    pub to_app_name: Option<String>,
    pub action: RuleAction,
}

/// Mathematical model of a rule: the same fields over character sequences.
#[verifier::ext_equal]
pub ghost struct RuleV {
    pub from_id: Option<Seq<char>>,
    pub from_name: Option<Seq<char>>,
    pub to_id: Option<Seq<char>>,
    pub to_name: Option<Seq<char>>,
    pub action: RuleAction,
}

impl View for BlockRule {
    type V = RuleV;

    open spec fn view(&self) -> RuleV {
        RuleV {
            from_id: self.from_app_id.deep_view(),
            from_name: self.from_app_name.deep_view(),
            to_id: self.to_app_id.deep_view(),
            to_name: self.to_app_name.deep_view(),
            action: self.action,
        }
    }
}

impl DeepView for BlockRule {
    type V = RuleV;

    open spec fn deep_view(&self) -> RuleV {
        self.view()
    }
}

/// The code point of `c` with ASCII upper-case letters mapped to lower case.
pub open spec fn fold_char(c: char) -> int {
    if 65 <= c as int && c as int <= 90 {
        c as int + 32
    } else {
        c as int
    }
}

/// The sequence of folded code points of `s`: the canonical form under
/// ASCII-case-insensitive comparison.
pub open spec fn fold_id(s: Seq<char>) -> Seq<int> {
    s.map(|_i: int, c: char| fold_char(c))
}

/// Two application ids count as the same when they agree up to ASCII case.
pub open spec fn ids_match(a: Seq<char>, b: Seq<char>) -> bool {
    fold_id(a) == fold_id(b)
}

fn char_fold(c: char) -> (v: u32)
    ensures
        v as int == fold_char(c),
{
    let u = c as u32;
    if 65 <= u && u <= 90 {
        u + 32
    } else {
        u
    }
}

/// ASCII-case-insensitive string equality.
pub fn eq_ignore_ascii_case(a: &str, b: &str) -> (r: bool)
    ensures
        r == ids_match(a@, b@),
{
    let alen = a.unicode_len();
    let blen = b.unicode_len();
    if alen != blen {
        proof {
            assert(fold_id(a@).len() != fold_id(b@).len());
        }
        return false;
    }
    let mut i: usize = 0;
    while i < alen
        invariant
            alen == a@.len(),
            blen == b@.len(),
            alen == blen,
            i <= alen,
            forall|k: int| 0 <= k < i ==> fold_char(a@[k]) == fold_char(b@[k]),
        decreases alen - i,
    {
        let ca = char_fold(a.get_char(i));
        let cb = char_fold(b.get_char(i));
        if ca != cb {
            proof {
                assert(fold_id(a@)[i as int] != fold_id(b@)[i as int]);
            }
            return false;
        }
        i += 1;
    }
    proof {
        assert(fold_id(a@) =~= fold_id(b@));
    }
    true
}

pub(crate) fn clone_opt_string(x: &Option<String>) -> (r: Option<String>)
    ensures
        r == *x,
{
    match x {
        Option::None => Option::None,
        Option::Some(s) => Option::Some(s.clone()),
    }
}

pub(crate) fn clone_rule(r: &BlockRule) -> (c: BlockRule)
    ensures
        c == *r,
{
    BlockRule {
        from_app_id: clone_opt_string(&r.from_app_id),
        from_app_name: clone_opt_string(&r.from_app_name),
        to_app_id: clone_opt_string(&r.to_app_id),
        to_app_name: clone_opt_string(&r.to_app_name),
        action: r.action,
    }
}

/// The models of a sequence of rules, in order.
pub open spec fn rules_view(rs: Seq<BlockRule>) -> Seq<RuleV> {
    rs.map(|_i: int, r: BlockRule| r@)
}

/// A rule's `from` pattern accepts a source id when the pattern is absent,
/// or when the source id is present and agrees with it up to ASCII case.
pub open spec fn from_matches(r: RuleV, source_id: Option<Seq<char>>) -> bool {
    match r.from_id {
        Option::None => true,
        Option::Some(f) => source_id matches Option::Some(s) && ids_match(s, f),
    }
}

/// A rule's `to` pattern accepts a destination id when the pattern is absent
/// or agrees with it up to ASCII case.
pub open spec fn to_matches(r: RuleV, dest_id: Seq<char>) -> bool {
    match r.to_id {
        Option::None => true,
        Option::Some(t) => ids_match(t, dest_id),
    }
}

/// Whether a rule applies to a source/destination pair.
pub open spec fn rule_matches(r: RuleV, source_id: Option<Seq<char>>, dest_id: Seq<char>) -> bool {
    from_matches(r, source_id) && to_matches(r, dest_id)
}

/// The first rule, in order, that applies to the pair, or `None`.
pub open spec fn first_match(
    rules: Seq<RuleV>,
    source_id: Option<Seq<char>>,
    dest_id: Seq<char>,
) -> Option<RuleV>
    decreases rules.len(),
{
    if rules.len() == 0 {
        Option::None
    } else if rule_matches(rules[0], source_id, dest_id) {
        Option::Some(rules[0])
    } else {
        first_match(rules.drop_first(), source_id, dest_id)
    }
}

pub proof fn lemma_first_match_at(
    rules: Seq<RuleV>,
    source_id: Option<Seq<char>>,
    dest_id: Seq<char>,
    i: int,
)
    requires
        0 <= i < rules.len(),
        rule_matches(rules[i], source_id, dest_id),
        forall|k: int| 0 <= k < i ==> !rule_matches(rules[k], source_id, dest_id),
    ensures
        first_match(rules, source_id, dest_id) == Some(rules[i]),
    decreases i,
{
    if i > 0 {
        lemma_first_match_at(rules.drop_first(), source_id, dest_id, i - 1);
    }
}

pub proof fn lemma_first_match_none(
    rules: Seq<RuleV>,
    source_id: Option<Seq<char>>,
    dest_id: Seq<char>,
)
    requires
        forall|k: int| 0 <= k < rules.len() ==> !rule_matches(rules[k], source_id, dest_id),
    ensures
        first_match(rules, source_id, dest_id) is None,
    decreases rules.len(),
{
    if rules.len() > 0 {
        lemma_first_match_none(rules.drop_first(), source_id, dest_id);
    }
}

/// First-match-wins: when an earlier and a later rule both apply to the same
/// source/destination pair, the matcher returns the earliest applying rule,
/// so only that rule's action is ever taken.
pub proof fn lemma_first_match_wins(
    rules: Seq<RuleV>,
    source_id: Option<Seq<char>>,
    dest_id: Seq<char>,
    i: int,
    j: int,
)
    requires
        0 <= i < j < rules.len(),
        rule_matches(rules[i], source_id, dest_id),
        rule_matches(rules[j], source_id, dest_id),
        forall|k: int| 0 <= k < i ==> !rule_matches(rules[k], source_id, dest_id),
    ensures
        first_match(rules, source_id, dest_id) == Some(rules[i]),
{
    lemma_first_match_at(rules, source_id, dest_id, i);
}

/// Find the first rule in order that applies to the source/destination pair,
/// per `first_match`.
pub fn matches_rule(
    rules: &[BlockRule],
    source_app_id: Option<&str>,
    dest_app_id: &str,
) -> (r: Option<BlockRule>)
    ensures
        r.deep_view() == first_match(rules_view(rules@), source_app_id.deep_view(), dest_app_id@),
{
    let ghost src = source_app_id.deep_view();
    let mut i: usize = 0;
    while i < rules.len()
        invariant
            i <= rules@.len(),
            src == source_app_id.deep_view(),
            forall|k: int| 0 <= k < i ==> !rule_matches(rules_view(rules@)[k], src, dest_app_id@),
        decreases rules@.len() - i,
    {
        let r = &rules[i];
        let from_ok = match (&r.from_app_id, source_app_id) {
            (Option::None, _) => true,
            (Option::Some(_), Option::None) => false,
            (Option::Some(f), Option::Some(s)) => eq_ignore_ascii_case(s, f.as_str()),
        };
        let to_ok = match &r.to_app_id {
            Option::None => true,
            Option::Some(t) => eq_ignore_ascii_case(t.as_str(), dest_app_id),
        };
        if from_ok && to_ok {
            proof {
                lemma_first_match_at(rules_view(rules@), src, dest_app_id@, i as int);
            }
            return Some(clone_rule(r));
        }
        i += 1;
    }
    proof {
        lemma_first_match_none(rules_view(rules@), src, dest_app_id@);
    }
    None
}

/// A rule is meaningful only when at least one side names an application.
pub fn is_valid(rule: &BlockRule) -> (r: bool)
    ensures
        r == (rule@.from_id is Some || rule@.to_id is Some),
{
    rule.from_app_id.is_some() || rule.to_app_id.is_some()
}

/// The model of a default rule: warn, never block, on pastes into the named
/// terminal emulator, from any source.
pub open spec fn notify_terminal_rule(id: Seq<char>, name: Seq<char>) -> RuleV {
    RuleV {
        from_id: Option::None,
        from_name: Option::None,
        to_id: Option::Some(id),
        to_name: Option::Some(name),
        action: RuleAction::Notify,
    }
}

/// The out-of-the-box rule set: one notify-only rule per well-known terminal
/// emulator destination.
pub open spec fn spec_default_rules() -> Seq<RuleV> {
    seq![
        notify_terminal_rule("com.apple.Terminal"@, "Terminal"@),
        notify_terminal_rule("com.googlecode.iterm2"@, "iTerm2"@),
        notify_terminal_rule("io.alacritty"@, "Alacritty"@),
        notify_terminal_rule("com.github.wez.wezterm"@, "WezTerm"@),
        notify_terminal_rule("net.kovidgoyal.kitty"@, "kitty"@),
        notify_terminal_rule("co.zeit.hyper"@, "Hyper"@),
        notify_terminal_rule("com.mitchellh.ghostty"@, "Ghostty"@),
        notify_terminal_rule("com.raphaelamorim.rio"@, "Rio"@),
    ]
}

fn terminal_rule(id: &str, name: &str) -> (r: BlockRule)
    ensures
        r@ == notify_terminal_rule(id@, name@),
{
    BlockRule {
        from_app_id: None,
        from_app_name: None,
        to_app_id: Some(id.to_owned()),
        to_app_name: Some(name.to_owned()),
        action: RuleAction::Notify,
    }
}

/// Build the conservative default rule set, used when the user has authored
/// no rules: warn (never block) on pasting into a well-known terminal.
pub fn default_rules() -> (r: Vec<BlockRule>)
    ensures
        rules_view(r@) == spec_default_rules(),
{
    let mut v: Vec<BlockRule> = Vec::new();
    v.push(terminal_rule("com.apple.Terminal", "Terminal"));
    v.push(terminal_rule("com.googlecode.iterm2", "iTerm2"));
    v.push(terminal_rule("io.alacritty", "Alacritty"));
    v.push(terminal_rule("com.github.wez.wezterm", "WezTerm"));
    v.push(terminal_rule("net.kovidgoyal.kitty", "kitty"));
    v.push(terminal_rule("co.zeit.hyper", "Hyper"));
    v.push(terminal_rule("com.mitchellh.ghostty", "Ghostty"));
    v.push(terminal_rule("com.raphaelamorim.rio", "Rio"));
    proof {
        assert(rules_view(v@) =~= spec_default_rules());
    }
    v
}

} // verus!
