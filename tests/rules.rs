use mc_launcher_core::launchermeta::{Os, Rule};
use mc_launcher_core::rules::{evaluate, normalized_os, version_matches, Platform};
use mc_launcher_core::version_meta::{Action, Features, GameRule, JvmRule, Name, PurpleOs};

fn platform(os: &str) -> Platform {
    Platform {
        os_name: os.to_string(),
        os_version: "10.0".to_string(),
        os_arch: "x86_64".to_string(),
        features: Features { is_demo_user: None, has_custom_resolution: Some(true) },
    }
}

fn os_rule(action: Action, name: &str) -> Rule {
    Rule {
        action,
        os: Some(Os { name: Some(name.to_string()), version: None, arch: None }),
        features: None,
    }
}

#[test]
fn empty_rules_apply() {
    let rules: Vec<Rule> = Vec::new();
    assert!(evaluate(&rules, &platform("linux")));
    assert!(evaluate(&rules, &platform("osx")));
}

#[test]
fn disallow_osx_excludes_only_osx() {
    let rules = vec![os_rule(Action::Disallow, "osx")];
    assert!(!evaluate(&rules, &platform("osx")));
    assert!(!evaluate(&rules, &platform("macos")));
    assert!(evaluate(&rules, &platform("linux")));
    assert!(evaluate(&rules, &platform("windows")));
    let spelled_macos = vec![os_rule(Action::Disallow, "macos")];
    assert!(!evaluate(&spelled_macos, &platform("osx")));
}

#[test]
fn later_matching_rule_wins() {
    let rules = vec![
        Rule { action: Action::Allow, os: None, features: None },
        os_rule(Action::Disallow, "osx"),
    ];
    assert!(evaluate(&rules, &platform("linux")));
    assert!(!evaluate(&rules, &platform("osx")));
    let reversed = vec![
        os_rule(Action::Disallow, "osx"),
        Rule { action: Action::Allow, os: None, features: None },
    ];
    assert!(evaluate(&reversed, &platform("osx")));
}

#[test]
fn allow_only_list_defaults_to_deny() {
    let rules = vec![os_rule(Action::Allow, "osx")];
    assert!(evaluate(&rules, &platform("osx")));
    assert!(!evaluate(&rules, &platform("linux")));
}

#[test]
fn evaluation_is_repeatable() {
    let rules = vec![os_rule(Action::Allow, "windows"), os_rule(Action::Disallow, "linux")];
    let p = platform("linux");
    assert_eq!(evaluate(&rules, &p), evaluate(&rules, &p));
}

#[test]
fn macos_is_normalized() {
    assert_eq!(normalized_os(&"macos".to_string()), "osx");
    assert_eq!(normalized_os(&"linux".to_string()), "linux");
}

#[test]
fn version_patterns() {
    assert!(version_matches("^10\\.", "10.0"));
    assert!(!version_matches("^10\\.", "100"));
    assert!(!version_matches("^10\\.", "6.10.1"));
    assert!(version_matches("10\\.", "6.10.1"));
    assert!(version_matches("^1.\\.", "11.2"));
    assert!(version_matches("^10\\.0$", "10.0"));
    assert!(!version_matches("^10\\.0$", "10.01"));
    assert!(version_matches("", "anything"));
    assert!(version_matches("^10\\.5\\.\\d$", "10.5.8"));
    assert!(!version_matches("^10\\.5\\.\\d$", "10.5.d"));
    assert!(!version_matches("^10\\.5\\.\\d$", "10.5.12"));
}

#[test]
fn os_version_and_arch_predicates() {
    let rule = Rule {
        action: Action::Allow,
        os: Some(Os { name: None, version: Some("^10\\.".to_string()), arch: Some("x86".to_string()) }),
        features: None,
    };
    let rules = vec![rule];
    assert!(!evaluate(&rules, &platform("windows")));
    let mut p = platform("windows");
    p.os_arch = "x86".to_string();
    assert!(evaluate(&rules, &p));
    p.os_version = "6.1".to_string();
    assert!(!evaluate(&rules, &p));
}

#[test]
fn feature_rules_need_present_flags() {
    let demo = vec![GameRule {
        action: Action::Allow,
        features: Features { is_demo_user: Some(true), has_custom_resolution: None },
    }];
    assert!(!evaluate(&demo, &platform("linux")));
    let resolution = vec![GameRule {
        action: Action::Allow,
        features: Features { is_demo_user: None, has_custom_resolution: Some(true) },
    }];
    assert!(evaluate(&resolution, &platform("linux")));
    let disallow_demo = vec![GameRule {
        action: Action::Disallow,
        features: Features { is_demo_user: Some(true), has_custom_resolution: None },
    }];
    assert!(evaluate(&disallow_demo, &platform("linux")));
    let named_false = vec![GameRule {
        action: Action::Allow,
        features: Features { is_demo_user: Some(false), has_custom_resolution: None },
    }];
    let mut not_demo = platform("linux");
    not_demo.features.is_demo_user = Some(false);
    assert!(!evaluate(&named_false, &not_demo));
    not_demo.features.is_demo_user = Some(true);
    assert!(evaluate(&named_false, &not_demo));
}

#[test]
fn jvm_rules_use_enum_names() {
    let rules = vec![JvmRule {
        action: Action::Allow,
        os: PurpleOs { name: Some(Name::Osx), version: None, arch: None },
    }];
    assert!(evaluate(&rules, &platform("macos")));
    assert!(!evaluate(&rules, &platform("windows")));
}
