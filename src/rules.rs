//! Rule evaluation against the running platform.

use vstd::prelude::*;

use crate::launchermeta::Rule;
use crate::version_meta::{Action, Features};

verus! {

/// What rules are evaluated against.
#[derive(Debug)]
pub struct Platform {
    pub os_name: String,
    pub os_version: String,
    pub os_arch: String,
    pub features: Features,
}

/// The operating-system name under which rules know the running system.
pub open spec fn normalize_os(name: Seq<char>) -> Seq<char> {
    if name == "macos"@ {
        "osx"@
    } else {
        name
    }
}

/// Maps an operating-system name to the one rules use ("macos" becomes "osx").
pub fn normalized_os(name: &String) -> (r: String)
    ensures
        r@ == normalize_os(name@),
{
    let macos = String::from_str("macos");
    if *name == macos {
        String::from_str("osx")
    } else {
        name.clone()
    }
}


/// Whether the pattern `p` matches a prefix of `t`.  Version patterns are
/// regular expressions of a small form: literal characters, `.` (any one
/// character), `\d` (one ASCII digit), `\c` for any other `c` (the character
/// `c` itself), and a final `$` that asks that `t` end there.  Character
/// classes, other class escapes, quantifiers, groups and alternation are not
/// part of it (such a character stands for itself).
pub open spec fn is_digit(c: char) -> bool {
    '0' <= c && c <= '9'
}

pub open spec fn matches_at(p: Seq<char>, t: Seq<char>) -> bool
    decreases p.len(),
{
    if p.len() == 0 {
        true
    } else if p.len() == 1 && p[0] == '$' {
        t.len() == 0
    } else if p.len() >= 2 && p[0] == '\\' && p[1] == 'd' {
        t.len() > 0 && is_digit(t[0]) && matches_at(p.skip(2), t.skip(1))
    } else if p.len() >= 2 && p[0] == '\\' {
        t.len() > 0 && t[0] == p[1] && matches_at(p.skip(2), t.skip(1))
    } else if p[0] == '.' {
        t.len() > 0 && matches_at(p.skip(1), t.skip(1))
    } else {
        t.len() > 0 && t[0] == p[0] && matches_at(p.skip(1), t.skip(1))
    }
}

/// Whether a version pattern matches a version string: anchored at the start
/// when it begins with `^`, else anywhere in the string.
pub open spec fn pattern_matches(p: Seq<char>, t: Seq<char>) -> bool {
    if p.len() > 0 && p[0] == '^' {
        matches_at(p.skip(1), t)
    } else {
        exists|i: int| 0 <= i <= t.len() && #[trigger] matches_at(p, t.skip(i))
    }
}

pub(crate) fn chars_of(s: &str) -> (r: Vec<char>)
    ensures
        r@ == s@,
{
    let n = s.unicode_len();
    let mut v: Vec<char> = Vec::new();
    let mut i: usize = 0;
    while i < n
        invariant
            n == s@.len(),
            i <= n,
            v@ == s@.subrange(0, i as int),
        decreases n - i,
    {
        v.push(s.get_char(i));
        i += 1;
    }
    assert(v@ =~= s@);
    v
}

fn match_from(p: &Vec<char>, pi: usize, t: &Vec<char>, ti: usize) -> (r: bool)
    requires
        pi <= p.len(),
        ti <= t.len(),
    ensures
        r == matches_at(p@.skip(pi as int), t@.skip(ti as int)),
    decreases p.len() - pi,
{
    let ghost ps = p@.skip(pi as int);
    let ghost ts = t@.skip(ti as int);
    if pi == p.len() {
        assert(ps.len() == 0);
        return true;
    }
    assert(ps[0] == p@[pi as int]);
    if ti < t.len() {
        assert(ts[0] == t@[ti as int]);
        assert(ts.skip(1) =~= t@.skip(ti + 1));
    }
    if pi + 1 == p.len() && p[pi] == '$' {
        ti == t.len()
    } else if pi + 1 < p.len() && p[pi] == '\\' && p[pi + 1] == 'd' {
        assert(ps[1] == p@[pi + 1]);
        assert(ps.skip(2) =~= p@.skip(pi + 2));
        ti < t.len() && '0' <= t[ti] && t[ti] <= '9' && match_from(p, pi + 2, t, ti + 1)
    } else if pi + 1 < p.len() && p[pi] == '\\' {
        assert(ps[1] == p@[pi + 1]);
        assert(ps.skip(2) =~= p@.skip(pi + 2));
        ti < t.len() && t[ti] == p[pi + 1] && match_from(p, pi + 2, t, ti + 1)
    } else if p[pi] == '.' {
        assert(ps.skip(1) =~= p@.skip(pi + 1));
        ti < t.len() && match_from(p, pi + 1, t, ti + 1)
    } else {
        assert(ps.skip(1) =~= p@.skip(pi + 1));
        ti < t.len() && t[ti] == p[pi] && match_from(p, pi + 1, t, ti + 1)
    }
}

/// Matches an operating-system version against a rule's version pattern.
pub fn version_matches(pattern: &str, version: &str) -> (r: bool)
    ensures
        r == pattern_matches(pattern@, version@),
{
    let p = chars_of(pattern);
    let t = chars_of(version);
    if p.len() > 0 && p[0] == '^' {
        assert(t@.skip(0) =~= t@);
        return match_from(&p, 1, &t, 0);
    }
    assert(p@.skip(0) =~= p@);
    let n = t.len();
    let mut i: usize = 0;
    loop
        invariant
            p@ == pattern@,
            t@ == version@,
            n == t.len(),
            i <= n,
            !(p@.len() > 0 && p@[0] == '^'),
            forall|j: int| 0 <= j < i ==> !#[trigger] matches_at(p@, t@.skip(j)),
        decreases n - i,
    {
        let found = match_from(&p, 0, &t, i);
        assert(p@.skip(0) =~= p@);
        if found {
            return true;
        }
        if i == n {
            return false;
        }
        i += 1;
    }
}

/// What a rule says, whatever shape the manifest gave it: its action and the
/// predicates it carries (`None`: not checked).
pub struct RuleView {
    pub action: Action,
    pub os_name: Option<Seq<char>>,
    pub os_version: Option<Seq<char>>,
    pub os_arch: Option<Seq<char>>,
    pub features: Option<Features>,
}

/// A rule of any of the manifest's shapes.
pub trait PlatformRule {
    spec fn rule_view(&self) -> RuleView;

    /// Whether every predicate of the rule holds on `platform`.
    fn applies_on(&self, platform: &Platform) -> (r: bool)
        ensures
            r == rule_matches(self.rule_view(), *platform),
    ;

    fn allows(&self) -> (r: bool)
        ensures
            r == (self.rule_view().action == Action::Allow),
    ;
}

/// A flag predicate holds when the rule does not name the flag, or the
/// context has the flag and it is true: a flag that a rule names is a
/// required one, whatever value the rule gives it.
pub open spec fn flag_matches(required: Option<bool>, have: Option<bool>) -> bool {
    required.is_none() || have == Some(true)
}

pub open spec fn features_match(required: Features, have: Features) -> bool {
    flag_matches(required.is_demo_user, have.is_demo_user) && flag_matches(
        required.has_custom_resolution,
        have.has_custom_resolution,
    )
}

/// Whether every predicate that the rule carries holds on the platform.
pub open spec fn rule_matches(rule: RuleView, platform: Platform) -> bool {
    &&& (rule.os_name.is_some() ==> normalize_os(rule.os_name.unwrap()) == normalize_os(platform.os_name@))
    &&& (rule.os_version.is_some() ==> pattern_matches(
        rule.os_version.unwrap(),
        platform.os_version@,
    ))
    &&& (rule.os_arch.is_some() ==> rule.os_arch.unwrap() == platform.os_arch@)
    &&& (rule.features.is_some() ==> features_match(rule.features.unwrap(), platform.features))
}

/// Outcome after the first `n` rules of a non-empty list: the last matching
/// one among them decides, and with none matching the outcome is the inverse
/// of the first rule's action.
pub open spec fn outcome_after(rules: Seq<RuleView>, platform: Platform, n: int) -> bool
    decreases n,
{
    if n <= 0 {
        rules[0].action != Action::Allow
    } else if rule_matches(rules[n - 1], platform) {
        rules[n - 1].action == Action::Allow
    } else {
        outcome_after(rules, platform, n - 1)
    }
}

/// Whether an artifact or argument guarded by `rules` applies on the platform.
pub open spec fn applies(rules: Seq<RuleView>, platform: Platform) -> bool {
    if rules.len() == 0 {
        true
    } else {
        outcome_after(rules, platform, rules.len() as int)
    }
}

/// The views of a list of rules.
pub open spec fn views<R: PlatformRule>(rules: Seq<R>) -> Seq<RuleView> {
    rules.map_values(|r: R| r.rule_view())
}

pub open spec fn opt_view(s: Option<String>) -> Option<Seq<char>> {
    match s {
        Some(v) => Some(v@),
        None => None,
    }
}

fn flag_ok(required: Option<bool>, have: Option<bool>) -> (r: bool)
    ensures
        r == flag_matches(required, have),
{
    match required {
        None => true,
        Some(_) => match have {
            Some(h) => h,
            None => false,
        },
    }
}

/// Checks the operating-system predicates that a rule carries.
pub(crate) fn os_ok(name: &Option<String>, version: &Option<String>, arch: &Option<String>, platform: &Platform) -> (r: bool)
    ensures
        r == ((opt_view(*name).is_some() ==> normalize_os(opt_view(*name).unwrap()) == normalize_os(
            platform.os_name@,
        )) && (opt_view(*version).is_some() ==> pattern_matches(
            opt_view(*version).unwrap(),
            platform.os_version@,
        )) && (opt_view(*arch).is_some() ==> opt_view(*arch).unwrap() == platform.os_arch@)),
{
    let name_ok = match name {
        None => true,
        Some(n) => {
            let wanted = normalized_os(n);
            let current = normalized_os(&platform.os_name);
            wanted == current
        },
    };
    let version_ok = match version {
        None => true,
        Some(v) => version_matches(v.as_str(), platform.os_version.as_str()),
    };
    let arch_ok = match arch {
        None => true,
        Some(a) => *a == platform.os_arch,
    };
    name_ok && version_ok && arch_ok
}

pub(crate) fn features_ok(required: &Features, platform: &Platform) -> (r: bool)
    ensures
        r == features_match(*required, platform.features),
{
    flag_ok(required.is_demo_user, platform.features.is_demo_user) && flag_ok(
        required.has_custom_resolution,
        platform.features.has_custom_resolution,
    )
}

impl PlatformRule for Rule {
    open spec fn rule_view(&self) -> RuleView {
        RuleView {
            action: self.action,
            os_name: match self.os {
                Some(os) => opt_view(os.name),
                None => None,
            },
            os_version: match self.os {
                Some(os) => opt_view(os.version),
                None => None,
            },
            os_arch: match self.os {
                Some(os) => opt_view(os.arch),
                None => None,
            },
            features: self.features,
        }
    }

    fn applies_on(&self, platform: &Platform) -> (r: bool) {
        let os_ok = match &self.os {
            None => true,
            Some(os) => os_ok(&os.name, &os.version, &os.arch, platform),
        };
        let features_ok = match &self.features {
            None => true,
            Some(f) => features_ok(f, platform),
        };
        os_ok && features_ok
    }

    fn allows(&self) -> (r: bool) {
        matches!(self.action, Action::Allow)
    }
}

/// Evaluates a rule list: true when the guarded item applies on `platform`.
pub fn evaluate<R: PlatformRule>(rules: &Vec<R>, platform: &Platform) -> (r: bool)
    ensures
        r == applies(views(rules@), *platform),
{
    let ghost vs = views(rules@);
    if rules.len() == 0 {
        return true;
    }
    let mut result = !rules[0].allows();
    let mut i: usize = 0;
    while i < rules.len()
        invariant
            vs == views(rules@),
            rules.len() > 0,
            i <= rules.len(),
            result == outcome_after(vs, *platform, i as int),
        decreases rules.len() - i,
    {
        if rules[i].applies_on(platform) {
            result = rules[i].allows();
        }
        i += 1;
    }
    result
}

/// With no rules, everything applies.
pub proof fn lemma_no_rules_apply(platform: Platform)
    ensures
        applies(Seq::<RuleView>::empty(), platform),
{
}

/// A matching rule placed last decides the outcome, whatever comes before it:
/// of two conflicting matching rules, the later one wins.
pub proof fn lemma_last_matching_rule_wins(rules: Seq<RuleView>, last: RuleView, platform: Platform)
    requires
        rule_matches(last, platform),
    ensures
        applies(rules.push(last), platform) == (last.action == Action::Allow),
{
    let all = rules.push(last);
    assert(all[all.len() - 1] == last);
}

/// A lone rule that disallows macOS, and checks nothing else, excludes
/// exactly that system.
pub proof fn lemma_disallow_osx(rule: RuleView, platform: Platform)
    requires
        rule.action == Action::Disallow,
        rule.os_name == Some("osx"@),
        rule.os_version.is_none(),
        rule.os_arch.is_none(),
        rule.features.is_none(),
    ensures
        applies(seq![rule], platform) == (normalize_os(platform.os_name@) != "osx"@),
{
    let rs = seq![rule];
    assert(rs[0] == rule);
    assert(outcome_after(rs, platform, 0));
}

} // verus!
