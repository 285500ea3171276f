use vstd::prelude::*;

use crate::mc_data::{Artifact, Classifiers, Os, Rule, RuleAction};

verus! {

/// Does the rule's operating-system predicate select the current platform?
/// At least one field must be present, and every present field must match.
pub open spec fn spec_os_applies(os: Os, os_name: Seq<char>, arch: Seq<char>) -> bool {
    &&& (os.name is Some || os.arch is Some)
    &&& (os.name matches Some(n) ==> n@ == os_name)
    &&& (os.arch matches Some(a) ==> a@ == arch)
}

/// The fold over a rule list from index `i`, carrying the running `keep`
/// flag. A bare `Allow` sets the flag; an applicable rule overwrites it with
/// its action, and an applicable `Deny` is authoritative at once.
pub open spec fn spec_eval_rules_from(
    rules: Seq<Rule>,
    i: int,
    keep: bool,
    os_name: Seq<char>,
    arch: Seq<char>,
) -> bool
    decreases rules.len() - i,
{
    if i < 0 || i >= rules.len() {
        keep
    } else {
        match rules[i].os {
            None => if rules[i].action is Allow {
                spec_eval_rules_from(rules, i + 1, true, os_name, arch)
            } else {
                spec_eval_rules_from(rules, i + 1, keep, os_name, arch)
            },
            Some(os) => if spec_os_applies(os, os_name, arch) {
                if rules[i].action is Allow {
                    spec_eval_rules_from(rules, i + 1, true, os_name, arch)
                } else {
                    false
                }
            } else {
                spec_eval_rules_from(rules, i + 1, keep, os_name, arch)
            },
        }
    }
}

/// Platform applicability of a rule list: no rules means keep; otherwise
/// the fold starts excluded and the last applicable rule wins, except that an
/// applicable `Deny` short-circuits.
pub open spec fn spec_evaluate_rules(
    rules: Option<Vec<Rule>>,
    os_name: Seq<char>,
    arch: Seq<char>,
) -> bool {
    match rules {
        None => true,
        Some(rs) => spec_eval_rules_from(rs@, 0, false, os_name, arch),
    }
}

/// Decide whether an artifact guarded by `rules` applies to the platform
/// `(os_name, arch)`, exactly as `spec_evaluate_rules` says.
pub fn evaluate_rules(rules: &Option<Vec<Rule>>, os_name: &String, arch: &String) -> (r: bool)
    ensures
        r == spec_evaluate_rules(*rules, os_name@, arch@),
{
    if rules.is_none() {
        return true;
    }
    let rs: &Vec<Rule> = rules.as_ref().unwrap();
    let mut keep = false;
    let mut i: usize = 0;
    while i < rs.len()
        invariant
            0 <= i <= rs@.len(),
            (*rules) is Some,
            (*rules)->Some_0 == *rs,
            spec_eval_rules_from(rs@, i as int, keep, os_name@, arch@)
                == spec_eval_rules_from(rs@, 0, false, os_name@, arch@),
        decreases rs@.len() - i,
    {
        let rule = &rs[i];
        match &rule.os {
            None => {
                if rule.action == RuleAction::Allow {
                    keep = true;
                }
            },
            Some(os) => {
                let name_ok = match &os.name {
                    Some(n) => *n == *os_name,
                    None => true,
                };
                let arch_ok = match &os.arch {
                    Some(a) => *a == *arch,
                    None => true,
                };
                let present = os.name.is_some() || os.arch.is_some();
                if present && name_ok && arch_ok {
                    if rule.action == RuleAction::Allow {
                        keep = true;
                    } else {
                        proof {
                            assert(spec_os_applies(
                                rs@[i as int].os->Some_0,
                                os_name@,
                                arch@,
                            ));
                            assert(spec_eval_rules_from(
                                rs@,
                                i as int,
                                keep,
                                os_name@,
                                arch@,
                            ) == false);
                        }
                        return false;
                    }
                }
            },
        }
        i = i + 1;
    }
    keep
}

/// The normalized name of the platform's native classifier artifact, or
/// `None` for a platform without one.
pub open spec fn spec_classifier_of(c: Classifiers, os_name: Seq<char>) -> Option<Artifact> {
    if os_name == "osx"@ {
        c.natives_osx
    } else if os_name == "windows"@ {
        c.natives_windows
    } else if os_name == "linux"@ {
        c.natives_linux
    } else {
        None
    }
}

/// Pick the native classifier artifact for the normalized OS name, if the
/// library carries one for that platform.
pub fn select_classifier(c: &Classifiers, os_name: &String) -> (r: Option<Artifact>)
    ensures
        r == spec_classifier_of(*c, os_name@),
{
    let candidate: &Option<Artifact> = if *os_name == String::from_str("osx") {
        &c.natives_osx
    } else if *os_name == String::from_str("windows") {
        &c.natives_windows
    } else if *os_name == String::from_str("linux") {
        &c.natives_linux
    } else {
        &None
    };
    match candidate {
        Some(a) => Some(a.clone()),
        None => None,
    }
}

/// The fixed map from a host platform identifier to the normalized OS name
/// the rule language and classifier names use; `None` for an unknown host.
pub open spec fn spec_normalized_os(host: Seq<char>) -> Option<Seq<char>> {
    if host == "macos"@ {
        Some("osx"@)
    } else if host == "linux"@ {
        Some("linux"@)
    } else if host == "windows"@ {
        Some("windows"@)
    } else {
        None
    }
}

/// Normalize a host platform identifier (`macos`, `linux`, `windows`) to the
/// OS name the version documents use.
pub fn normalize_os(host: &String) -> (r: Option<String>)
    ensures
        match r {
            Some(s) => spec_normalized_os(host@) == Some(s@),
            None => spec_normalized_os(host@) is None,
        },
{
    if *host == String::from_str("macos") {
        Some(String::from_str("osx"))
    } else if *host == String::from_str("linux") {
        Some(String::from_str("linux"))
    } else if *host == String::from_str("windows") {
        Some(String::from_str("windows"))
    } else {
        None
    }
}

} // verus!
