//! Core of a game launcher: platform rule evaluation, version-manifest
//! resolution, artifact fetch planning, native staging and the credential
//! exchange chain that yields a game session.

pub mod accounts;
pub mod assets;
pub mod chain;
pub mod config;
pub mod fetch;
pub mod launch;
pub mod launchermeta;
pub mod libraries;
pub mod msa;
pub mod profile;
pub mod rules;
pub mod staging;
pub mod utils;
pub mod version_manifest;
pub mod version_meta;
