//! Discovery of configuration files across the project, user and system tiers.
//!
//! The functions here take what was read from disk and the environment as
//! plain values, and decide which configuration applies.
pub mod document;
pub mod options;
pub mod paths;

pub use crate::options::{Error, FilesystemOptions, IoError, ManifestProblem, Options};
