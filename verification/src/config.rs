//! Where the two stores live.

use vstd::prelude::*;

verus! {

/// The locations of the primary and the backup store, each unset until the
/// user has chosen it.
#[derive(Debug, Clone, PartialEq, Eq)]
pub struct AppConfig {
    pub primary_path: Option<String>,
    pub backup_path: Option<String>,
}

impl Default for AppConfig {
    /// The configuration before anything is chosen.
    fn default() -> (config: Self)
        ensures
            config.primary_path is None,
            config.backup_path is None,
    {
        AppConfig { primary_path: None, backup_path: None }
    }
}

} // verus!
