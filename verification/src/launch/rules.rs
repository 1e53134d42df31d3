//! Allow/disallow rules for the current system.

use vstd::prelude::*;
use vstd::string::*;

use crate::launch::version::Rule;
use crate::table::Table;
use crate::text::same_text;

verus! {

broadcast use vstd::seq::group_seq_axioms;

/// The running system, named as the version metadata names it.
pub struct Platform {
    pub name: String,
    pub arch: String,
}

/// The metadata's name for the operating system `os`.
pub open spec fn os_name_text(os: Seq<char>) -> Seq<char> {
    if os == "macos"@ {
        "osx"@
    } else {
        os
    }
}

/// The metadata's name for the processor architecture `arch`.
pub open spec fn os_arch_text(arch: Seq<char>) -> Seq<char> {
    if arch == "aarch64"@ {
        "arm64"@
    } else {
        arch
    }
}

/// The metadata's name for the operating system `os` ("windows", "linux", "macos").
pub fn os_name(os: &str) -> (r: String)
    ensures
        r@ == os_name_text(os@),
{
    if same_text(os, "macos") {
        "osx".to_string()
    } else {
        os.to_string()
    }
}

/// The metadata's name for the processor architecture `arch`.
pub fn os_arch(arch: &str) -> (r: String)
    ensures
        r@ == os_arch_text(arch@),
{
    if same_text(arch, "aarch64") {
        "arm64".to_string()
    } else {
        arch.to_string()
    }
}

impl Platform {
    /// The system with the operating system `os` on the architecture `arch`.
    pub fn new(os: &str, arch: &str) -> (r: Platform)
        ensures
            r.name@ == os_name_text(os@),
            r.arch@ == os_arch_text(arch@),
    {
        Platform { name: os_name(os), arch: os_arch(arch) }
    }
}

/// Whether an optional requirement is met by `actual`.
pub open spec fn meets(required: Option<String>, actual: Seq<char>) -> bool {
    required matches Some(text) ==> text@ == actual
}

/// Whether some feature is required to be on.
pub open spec fn wants_feature(features: Table<bool>) -> bool {
    exists|k: Seq<char>| #[trigger] features@.contains_key(k) && features@[k]
}

/// Whether a rule applies on `platform`, where every feature is off.
pub open spec fn rule_matches(rule: Rule, platform: Platform) -> bool {
    &&& rule.os matches Some(os) ==> meets(os.name, platform.name@) && meets(
        os.arch,
        platform.arch@,
    )
    &&& rule.features matches Some(features) ==> !wants_feature(features)
}

/// What the last matching rule says; `false` where none matches.
pub open spec fn last_match(rules: Seq<Rule>, platform: Platform) -> bool
    decreases rules.len(),
{
    if rules.len() == 0 {
        false
    } else if rule_matches(rules.last(), platform) {
        rules.last().action@ == "allow"@
    } else {
        last_match(rules.drop_last(), platform)
    }
}

/// Whether a rule list admits what it stands in front of: an empty list does, any other goes by
/// its last matching rule.
pub open spec fn allowed(rules: Seq<Rule>, platform: Platform) -> bool {
    rules.len() == 0 || last_match(rules, platform)
}

fn text_meets(required: &Option<String>, actual: &str) -> (r: bool)
    ensures
        r == meets(*required, actual@),
{
    match required {
        Some(text) => same_text(text.as_str(), actual),
        None => true,
    }
}

fn matches(rule: &Rule, platform: &Platform) -> (r: bool)
    ensures
        r == rule_matches(*rule, *platform),
{
    let mut matches = true;
    if let Some(os) = &rule.os {
        if !text_meets(&os.name, platform.name.as_str()) {
            matches = false;
        }
        if !text_meets(&os.arch, platform.arch.as_str()) {
            matches = false;
        }
    }
    if let Some(features) = &rule.features {
        // any required feature flag means "not us" (all our features off)
        if features.any() {
            matches = false;
        }
    }
    matches
}

/// Evaluates an allow/disallow rule list. Features are all considered off (neither demo mode nor
/// custom resolution is enabled).
pub fn rules_allow(rules: &Vec<Rule>, platform: &Platform) -> (r: bool)
    ensures
        r == allowed(rules@, *platform),
{
    let mut admitted = rules.len() == 0;
    let mut i: usize = 0;
    while i < rules.len()
        invariant
            i <= rules@.len(),
            rules@.len() == 0 ==> admitted,
            rules@.len() > 0 ==> admitted == last_match(rules@.take(i as int), *platform),
        decreases rules@.len() - i,
    {
        if matches(&rules[i], platform) {
            admitted = same_text(rules[i].action.as_str(), "allow");
        }
        assert(rules@.take(i + 1).drop_last() =~= rules@.take(i as int));
        i += 1;
    }
    assert(rules@.take(i as int) =~= rules@);
    admitted
}

/// The last rule that matches decides: once a matching rule is added at the end, what stands
/// before it no longer counts.
pub proof fn law_last_matching_rule_decides(rules: Seq<Rule>, rule: Rule, platform: Platform)
    requires
        rule_matches(rule, platform),
    ensures
        allowed(rules.push(rule), platform) == (rule.action@ == "allow"@),
{
    assert(rules.push(rule).drop_last() =~= rules);
}

/// A rule that does not match changes nothing, wherever it is added to a list that is not empty.
pub proof fn law_other_rules_do_not_count(
    rules: Seq<Rule>,
    at: int,
    rule: Rule,
    platform: Platform,
)
    requires
        rules.len() > 0,
        0 <= at <= rules.len(),
        !rule_matches(rule, platform),
    ensures
        allowed(rules.insert(at, rule), platform) == allowed(rules, platform),
{
    lemma_insert(rules, at, rule, platform);
}

proof fn lemma_insert(rules: Seq<Rule>, at: int, rule: Rule, platform: Platform)
    requires
        0 <= at <= rules.len(),
        !rule_matches(rule, platform),
    ensures
        last_match(rules.insert(at, rule), platform) == last_match(rules, platform),
    decreases rules.len(),
{
    let longer = rules.insert(at, rule);
    if at == rules.len() {
        assert(longer.drop_last() =~= rules);
    } else {
        assert(longer.last() == rules.last());
        assert(longer.drop_last() =~= rules.drop_last().insert(at, rule));
        lemma_insert(rules.drop_last(), at, rule, platform);
    }
}

/// A list in which no rule matches, and which is not empty, admits nothing.
pub proof fn law_no_matching_rule_refuses(rules: Seq<Rule>, platform: Platform)
    requires
        rules.len() > 0,
        forall|i: int| 0 <= i < rules.len() ==> !rule_matches(#[trigger] rules[i], platform),
    ensures
        !allowed(rules, platform),
    decreases rules.len(),
{
    reveal_with_fuel(last_match, 2);
    assert(!rule_matches(rules[rules.len() - 1], platform));
    if rules.len() > 1 {
        assert forall|i: int| 0 <= i < rules.drop_last().len() implies !rule_matches(
            #[trigger] rules.drop_last()[i],
            platform,
        ) by {
            assert(rules.drop_last()[i] == rules[i]);
        }
        law_no_matching_rule_refuses(rules.drop_last(), platform);
    }
}

/// Every feature is off: a rule that requires one to be on never matches, on any platform.
pub proof fn law_features_are_off(rule: Rule, feature: Seq<char>, platform: Platform)
    requires
        rule.features matches Some(features) && features@.contains_key(feature) && features@[feature],
    ensures
        !rule_matches(rule, platform),
{
}

/// An empty rule list admits everything.
pub proof fn law_empty_rule_list_admits(rules: Seq<Rule>, platform: Platform)
    requires
        rules.len() == 0,
    ensures
        allowed(rules, platform),
{
}

/// Wherever the last rule that matches stands in a list, the list says what that rule says.
pub proof fn law_rule_list_goes_by_its_last_match(rules: Seq<Rule>, at: int, platform: Platform)
    requires
        0 <= at < rules.len(),
        rule_matches(rules[at], platform),
        forall|j: int| at < j < rules.len() ==> !rule_matches(#[trigger] rules[j], platform),
    ensures
        allowed(rules, platform) == (rules[at].action@ == "allow"@),
    decreases rules.len(),
{
    if at == rules.len() - 1 {
        assert(rules.last() == rules[at]);
    } else {
        let front = rules.drop_last();
        assert(!rule_matches(rules[rules.len() - 1], platform));
        assert forall|j: int| at < j < front.len() implies !rule_matches(
            #[trigger] front[j],
            platform,
        ) by {
            assert(front[j] == rules[j]);
        }
        law_rule_list_goes_by_its_last_match(front, at, platform);
    }
}

/// A rule for this system matches: where it names a system or a processor it names this one, and
/// it wants no feature.
pub proof fn law_rule_for_this_system_matches(rule: Rule, platform: Platform)
    requires
        rule.os matches Some(os) ==> {
            &&& os.name matches Some(name) ==> name@ == platform.name@
            &&& os.arch matches Some(arch) ==> arch@ == platform.arch@
        },
        rule.features matches Some(features) ==> forall|k: Seq<char>| #[trigger]
            features@.contains_key(k) ==> !features@[k],
    ensures
        rule_matches(rule, platform),
{
}

/// A rule for another system or another processor does not match, whatever else it says.
pub proof fn law_rule_for_another_system_does_not_match(rule: Rule, platform: Platform)
    requires
        rule.os matches Some(os) && {
            ||| os.name matches Some(name) && name@ != platform.name@
            ||| os.arch matches Some(arch) && arch@ != platform.arch@
        },
    ensures
        !rule_matches(rule, platform),
{
}

/// Only two names differ between the system and the metadata: `macos` is `osx`, `aarch64` is
/// `arm64`.
pub proof fn law_other_system_names_are_kept(os: Seq<char>, arch: Seq<char>)
    ensures
        os_name_text("macos"@) == "osx"@,
        os != "macos"@ ==> os_name_text(os) == os,
        os_arch_text("aarch64"@) == "arm64"@,
        arch != "aarch64"@ ==> os_arch_text(arch) == arch,
{
}

} // verus!
