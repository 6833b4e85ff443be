//! Launcher settings.

use vstd::prelude::*;

verus! {

/// Java runtime settings.
#[derive(Debug)]
pub struct JavaConfig {
    pub path: String,
    pub memory: String,
}

/// Launcher settings.
#[derive(Debug)]
pub struct Config {
    pub locale: String,
    pub java: JavaConfig,
    pub last_launched_instance: String,
}

/// Settings of a fresh installation: English, `java` from the search path
/// with 2G of memory, nothing launched yet.
pub fn get_default_config() -> (r: Config)
    ensures
        r.locale@ == "en"@,
        r.java.path@ == "java"@,
        r.java.memory@ == "2G"@,
        r.last_launched_instance@.len() == 0,
{
    Config {
        locale: String::from_str("en"),
        java: JavaConfig { path: String::from_str("java"), memory: String::from_str("2G") },
        last_launched_instance: String::new(),
    }
}

} // verus!
