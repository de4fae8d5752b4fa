//! Telling the state of a database from the markers in it.

use crate::config::{ConfigView, PatchConfig};
use crate::scan::{bytes_check, first_match, lemma_first_match, occurs};
use vstd::prelude::*;

verus! {

/// What a database is found to be. The markers are looked for in a fixed
/// order: the patch marker first, then the version marker, then the insertion
/// point; the first one found decides.
#[derive(Debug, Clone, Copy, PartialEq, Eq, Structural)]
pub enum DatabaseState {
    /// The patch marker is in it: the patch has been applied.
    Patched,
    /// The version marker is in it: a revision that this patch is not for.
    UnsupportedVersion,
    /// Neither marker is in it, and the insertion point first occurs at
    /// `offset`.
    Patchable { offset: usize },
    /// None of the three is in it.
    Unrecognized,
}

/// The database holds the patch marker.
pub open spec fn is_patched(database: Seq<u8>, config: ConfigView) -> bool {
    occurs(database, config.patch_marker)
}

/// The database holds the version marker and not the patch marker.
pub open spec fn is_unsupported(database: Seq<u8>, config: ConfigView) -> bool {
    !is_patched(database, config) && occurs(database, config.version_marker)
}

/// Where the patch goes: the first occurrence of the insertion point in a
/// database that holds neither the patch marker nor the version marker.
pub open spec fn patch_offset(database: Seq<u8>, config: ConfigView) -> Option<int> {
    if occurs(database, config.patch_marker) || occurs(database, config.version_marker) {
        None
    } else {
        first_match(database, config.insertion_point)
    }
}

/// Finds the state of `database`: scans it for the patch marker, then for the
/// version marker, then for the insertion point, and stops at the first that
/// it finds.
pub fn classify(database: &[u8], config: &PatchConfig) -> (state: DatabaseState)
    ensures
        match state {
            DatabaseState::Patched => is_patched(database@, config@),
            DatabaseState::UnsupportedVersion => is_unsupported(database@, config@),
            DatabaseState::Patchable { offset } => {
                &&& patch_offset(database@, config@) == Some(offset as int)
                &&& offset + config@.insertion_point.len() <= database@.len()
            },
            DatabaseState::Unrecognized => {
                &&& !is_patched(database@, config@)
                &&& !is_unsupported(database@, config@)
                &&& patch_offset(database@, config@).is_none()
            },
        },
{
    if bytes_check(database, config.patch_marker.as_slice()).is_some() {
        return DatabaseState::Patched;
    }
    if bytes_check(database, config.version_marker.as_slice()).is_some() {
        return DatabaseState::UnsupportedVersion;
    }
    match bytes_check(database, config.insertion_point.as_slice()) {
        Some(offset) => {
            proof {
                lemma_first_match(database@, config@.insertion_point);
            }
            DatabaseState::Patchable { offset }
        },
        None => DatabaseState::Unrecognized,
    }
}

} // verus!
