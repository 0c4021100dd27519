//! Batch text-substitution library: resolve a configuration into settings,
//! decide which files of a source tree are visited and transformed, and
//! rewrite a fixed literal prefix inside their content.

pub mod exclude;
pub mod paths;
pub mod replace;
pub mod resolve;
pub mod settings;
pub mod transform;
