//! Which files left in the temporary directory by earlier runs are removed
//! at startup.
use vstd::prelude::*;

use crate::text::{seq_starts_with, starts_with};

verus! {

/// No more than this many directory entries are looked at, so startup never
/// stalls on a crowded directory.
pub const MAX_SCAN: usize = 4096;

/// Temporary files older than this (one hour) are orphans.
pub const ORPHAN_MAX_AGE_MS: u64 = 3_600_000;

/// What happens to one entry of the temporary directory.
#[derive(Clone, Copy, Debug, PartialEq, Eq, Structural)]
pub enum CleanupStep {
    /// The scan limit is reached: look at no more entries.
    Stop,
    /// Leave the entry alone.
    Keep,
    /// Delete the entry.
    Remove,
}

/// Whether an entry is an orphaned temporary file: a regular file named
/// `rgytui-…` whose modification time (milliseconds since the Unix epoch,
/// `None` when it cannot be read) lies more than `max_age_ms` before
/// `now_ms`.
pub open spec fn spec_is_orphan_tempfile(name: Seq<char>, is_file: bool, modified_ms: Option<u64>, now_ms: u64,
    max_age_ms: u64) -> bool {
    &&& is_file
    &&& seq_starts_with(name, "rgytui-"@)
    &&& modified_ms matches Some(m) && m + max_age_ms < now_ms
}

/// The step for the entry at position `index` of the directory listing
/// (see `spec_is_orphan_tempfile`).
pub fn cleanup_step(index: usize, name: &str, is_file: bool, modified_ms: Option<u64>, now_ms: u64,
    max_age_ms: u64) -> (r: CleanupStep)
    ensures
        index >= MAX_SCAN ==> r == CleanupStep::Stop,
        index < MAX_SCAN ==> r == (if spec_is_orphan_tempfile(name@, is_file, modified_ms, now_ms, max_age_ms) {
            CleanupStep::Remove
        } else {
            CleanupStep::Keep
        }),
{
    if index >= MAX_SCAN {
        return CleanupStep::Stop;
    }
    if !is_file || !starts_with(name, "rgytui-") {
        return CleanupStep::Keep;
    }
    match modified_ms {
        Some(m) => {
            if m < now_ms && now_ms - m > max_age_ms {
                CleanupStep::Remove
            } else {
                CleanupStep::Keep
            }
        },
        None => CleanupStep::Keep,
    }
}

} // verus!
