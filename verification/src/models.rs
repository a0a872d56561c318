//! Plain records that the services around the engine hand to their callers.

use vstd::prelude::*;

verus! {

/// What became of one photo in a bulk rename.
#[derive(Debug, Clone, PartialEq, Eq)]
pub struct RenameResult {
    pub photo_id: i64,
    pub old_name: String,
    pub new_name: String,
    pub success: bool,
    pub error: Option<String>,
}

/// What a bulk rename would do to one photo.
#[derive(Debug, Clone, PartialEq, Eq)]
pub struct RenamePreview {
    pub photo_id: i64,
    pub old_name: String,
    pub new_name: String,
}

/// How far the backup differs from the primary.
#[derive(Debug, Clone, Copy, PartialEq, Eq, Structural)]
pub struct RestoreSummary {
    pub missing_files: i64,
    pub different_files: i64,
}

} // verus!
