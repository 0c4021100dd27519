//! The configuration data that drives a run.

use vstd::prelude::*;

verus! {

/// The part of a secondary configuration that matters here: the web prefix
/// that replaces the old one.
pub struct Client {
    pub web_prefix: String,
}

/// A secondary configuration: a nested object whose `client` carries the
/// replacement prefix. It is consulted only when the primary configuration
/// gives no replacement prefix of its own.
pub struct YamlConfig {
    pub client: Client,
}

/// The primary configuration as read from the primary config file.
pub struct FileConfig {
    pub old_web_prefix: String,
    pub new_web_prefix: Option<String>,
    pub local_config_path: Option<String>,
    pub config_path: Option<String>,
    pub exclude_path: Option<Vec<String>>,
    pub source_path: String,
    pub output_path: String,
    pub file_types: Option<Vec<String>>,
}

/// The fully resolved, immutable settings of a run: every optional field of
/// the primary configuration has been given its concrete value.
pub struct Setting {
    pub old_web_prefix: String,
    pub new_web_prefix: String,
    pub exclude_path: Vec<String>,
    pub source_path: String,
    pub output_path: String,
    pub file_types: Vec<String>,
}

} // verus!
