//! When the log file is rotated. The writer appends to `rgytui.log`; once a
//! session has written the cap, the file is renamed to `rgytui.log.old` and
//! reopened. A rename that fails is not tried again in that session.
use vstd::prelude::*;

verus! {

/// Bytes a session may write to the log before it is rotated.
pub const LOG_MAX_BYTES: u64 = 5242880;

/// Name of the active log file.
pub const LOG_FILE_NAME: &'static str = "rgytui.log";

/// Name the log is rotated to.
pub const LOG_OLD_FILE_NAME: &'static str = "rgytui.log.old";

/// Whether an existing log of `len` bytes (`None`: no log yet) is rotated
/// under a cap of `max_bytes`.
pub fn rotation_needed(len: Option<u64>, max_bytes: u64) -> (b: bool)
    ensures
        b == (len matches Some(l) && l >= max_bytes),
{
    match len {
        Some(l) => l >= max_bytes,
        None => false,
    }
}

/// The writer's count of bytes written to the active file and its latch of
/// a failed rotation.
#[derive(Clone, Copy, Debug, PartialEq, Eq, Structural)]
pub struct LogRotation {
    pub written: u64,
    pub max_bytes: u64,
    pub rotation_failed: bool,
}

impl LogRotation {
    /// The state of a writer opened on a file of `existing_len` bytes (zero
    /// when its size cannot be read) with cap `max_bytes`.
    pub fn open_with_cap(existing_len: u64, max_bytes: u64) -> (r: LogRotation)
        ensures
            r == (LogRotation { written: existing_len, max_bytes, rotation_failed: false }),
    {
        LogRotation { written: existing_len, max_bytes, rotation_failed: false }
    }

    /// Count `n` more bytes written; returns whether a rotation is to be
    /// attempted now: the cap is reached and no rotation has failed.
    pub fn after_write(&mut self, n: u64) -> (rotate: bool)
        requires
            old(self).written + n <= u64::MAX,
        ensures
            (*final(self), rotate) == write_step(*old(self), n),
    {
        self.written = self.written + n;
        self.written >= self.max_bytes && !self.rotation_failed
    }

    /// Record a rotation attempt: whether the rename succeeded (or was not
    /// needed), and the size of the reopened file (`None` when it could not
    /// be reopened, which keeps the count at the cap so the next write tries
    /// again). A failed rename latches.
    pub fn after_rotate(&mut self, rename_ok: bool, reopened_len: Option<u64>)
        ensures
            *final(self) == rotate_step(*old(self), rename_ok, reopened_len),
    {
        self.written = match reopened_len {
            Some(l) => l,
            None => self.max_bytes,
        };
        if !rename_ok {
            self.rotation_failed = true;
        }
    }
}

/// A write of `n` bytes: the count grows, and a rotation is asked for when
/// the cap is reached and no rotation has failed.
pub open spec fn write_step(r: LogRotation, n: u64) -> (LogRotation, bool) {
    let w = (r.written + n) as u64;
    (LogRotation { written: w, ..r }, w >= r.max_bytes && !r.rotation_failed)
}

/// A rotation attempt: the count restarts from the reopened file's size (or
/// stays at the cap when it could not be reopened); a failed rename latches.
pub open spec fn rotate_step(r: LogRotation, rename_ok: bool, reopened_len: Option<u64>) -> LogRotation {
    LogRotation {
        written: match reopened_len { Some(l) => l, None => r.max_bytes },
        rotation_failed: r.rotation_failed || !rename_ok,
        ..r
    }
}

/// Once a rename has failed, no later write of the session asks for another
/// rotation, and later attempts keep the latch; below the cap no write asks
/// for one either.
pub proof fn lemma_failed_rotation_latches(r: LogRotation, n: u64, rename_ok: bool, reopened_len: Option<u64>)
    requires
        r.written + n <= u64::MAX,
    ensures
        r.rotation_failed ==> !write_step(r, n).1,
        r.rotation_failed ==> rotate_step(r, rename_ok, reopened_len).rotation_failed,
        r.written + n < r.max_bytes ==> !write_step(r, n).1,
{
}

} // verus!
