//! Typed schema of the argument section of a version document.

use vstd::prelude::*;

use crate::rules::{features_ok, opt_view, os_ok, Platform, PlatformRule, RuleView};

verus! {

/// Polarity of a rule.
#[derive(Clone, Copy, Debug, PartialEq, Eq, Structural)]
pub enum Action {
    Allow,
    Disallow,
}

/// Operating systems a rule can name.
#[derive(Clone, Copy, Debug, PartialEq, Eq, Structural)]
pub enum Name {
    Linux,
    Osx,
    Windows,
}

/// Feature flags that a rule may require, or that a launch context enables.
#[derive(Clone, Copy, Debug, PartialEq, Eq, Structural)]
pub struct Features {
    pub is_demo_user: Option<bool>,
    pub has_custom_resolution: Option<bool>,
}

impl Name {
    pub open spec fn spec_str(self) -> Seq<char> {
        match self {
            Name::Linux => "linux"@,
            Name::Osx => "osx"@,
            Name::Windows => "windows"@,
        }
    }

    /// The name as rules spell it.
    pub fn to_text(&self) -> (r: String)
        ensures
            r@ == self.spec_str(),
    {
        match self {
            Name::Linux => String::from_str("linux"),
            Name::Osx => String::from_str("osx"),
            Name::Windows => String::from_str("windows"),
        }
    }
}

/// Operating-system predicate of a JVM argument rule.
#[derive(Debug)]
pub struct PurpleOs {
    pub name: Option<Name>,
    pub version: Option<String>,
    pub arch: Option<String>,
}

/// Rule guarding a game argument: it checks feature flags only.
#[derive(Debug)]
pub struct GameRule {
    pub action: Action,
    pub features: Features,
}

/// Rule guarding a JVM argument: it checks the operating system only.
#[derive(Debug)]
pub struct JvmRule {
    pub action: Action,
    pub os: PurpleOs,
}

/// One argument, or several, that a conditional entry contributes.
#[derive(Debug)]
pub enum Value {
    String(String),
    StringArray(Vec<String>),
}

/// Conditional game argument.
#[derive(Debug)]
pub struct GameClass {
    pub rules: Vec<GameRule>,
    pub value: Value,
}

/// Conditional JVM argument.
#[derive(Debug)]
pub struct JvmClass {
    pub rules: Vec<JvmRule>,
    pub value: Value,
}

/// A game argument: plain, or guarded by rules.
#[derive(Debug)]
pub enum GameElement {
    GameClass(GameClass),
    String(String),
}

/// A JVM argument: plain, or guarded by rules.
#[derive(Debug)]
pub enum JvmElement {
    JvmClass(JvmClass),
    String(String),
}

/// Argument templates of a version.
#[derive(Debug)]
pub struct Arguments {
    pub game: Vec<GameElement>,
    pub jvm: Vec<JvmElement>,
}

/// Descriptor of the asset index a version uses.
#[derive(Debug)]
pub struct AssetIndex {
    pub id: String,
    pub sha1: String,
    pub size: u64,
    pub total_size: Option<u64>,
    pub url: String,
}

/// A downloadable file of a version (the client binary, its mappings).
#[derive(Debug)]
pub struct ClientMappingsClass {
    pub sha1: String,
    pub size: u64,
    pub url: String,
    pub path: Option<String>,
}

impl PlatformRule for GameRule {
    open spec fn rule_view(&self) -> RuleView {
        RuleView {
            action: self.action,
            os_name: None,
            os_version: None,
            os_arch: None,
            features: Some(self.features),
        }
    }

    fn applies_on(&self, platform: &Platform) -> (r: bool) {
        features_ok(&self.features, platform)
    }

    fn allows(&self) -> (r: bool) {
        matches!(self.action, Action::Allow)
    }
}

impl PlatformRule for JvmRule {
    open spec fn rule_view(&self) -> RuleView {
        RuleView {
            action: self.action,
            os_name: match self.os.name {
                Some(n) => Some(n.spec_str()),
                None => None,
            },
            os_version: opt_view(self.os.version),
            os_arch: opt_view(self.os.arch),
            features: None,
        }
    }

    fn applies_on(&self, platform: &Platform) -> (r: bool) {
        let name = match &self.os.name {
            Some(n) => Some(n.to_text()),
            None => None,
        };
        os_ok(&name, &self.os.version, &self.os.arch, platform)
    }

    fn allows(&self) -> (r: bool) {
        matches!(self.action, Action::Allow)
    }
}

} // verus!
