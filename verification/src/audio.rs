//! Decisions of the audio backend that do not touch the device: which songs
//! are kept for recovery, when the output device is watched, what counts as
//! a route change and what a route change does to playback.
use vstd::prelude::*;

use crate::domain::player_state::PlayerState;

verus! {

/// Largest song, in bytes, whose audio is kept in memory so playback can be
/// rebuilt after the output device is lost.
pub const MAX_RETAINED_BYTES: usize = 33554432;

/// Why a route change interrupted playback, as the interface is told.
#[derive(Clone, Copy, Debug, PartialEq, Eq, Structural)]
pub enum RouteChangeNotice {
    /// Playback is paused and can resume where it stopped.
    ResumeAvailable,
    /// Playback stopped; the song has to be played again.
    RestartRequired,
}

/// Whether a song of `data_len` bytes is kept for recovery: only up to the
/// cap.
pub fn should_retain(data_len: usize) -> (b: bool)
    ensures
        b == (data_len <= MAX_RETAINED_BYTES),
{
    data_len <= MAX_RETAINED_BYTES
}

/// Whether the output device is watched for a route change: only while
/// playing with audio still queued (an empty sink is a song that ended).
pub fn should_check_device(state: PlayerState, sink_empty: bool) -> (b: bool)
    ensures
        b == (state == PlayerState::Playing && !sink_empty),
{
    state == PlayerState::Playing && !sink_empty
}

/// Whether the default output device changed: only when a device was
/// recorded when the sink was opened and a current one is known, and they
/// differ.
pub fn device_identity_changed(recorded: &Option<String>, current: &Option<String>) -> (b: bool)
    ensures
        b == (recorded matches Some(r) && current matches Some(c) && r@ != c@),
{
    match (recorded, current) {
        (Some(r), Some(c)) => !crate::text::str_eq(r.as_str(), c.as_str()),
        _ => false,
    }
}

/// What a route change does to playback at position `seek_to`: with the
/// song's bytes retained it pauses and keeps the position to resume from;
/// without them it stops and the song must be played again.
pub open spec fn spec_route_change_plan<T>(retained: bool, seek_to: T) -> (PlayerState, Option<T>, RouteChangeNotice) {
    if retained {
        (PlayerState::Paused, Some(seek_to), RouteChangeNotice::ResumeAvailable)
    } else {
        (PlayerState::Stopped, None, RouteChangeNotice::RestartRequired)
    }
}

/// What a route change does to playback (see `spec_route_change_plan`).
pub fn route_change_plan<T>(retained: bool, seek_to: T) -> (r: (PlayerState, Option<T>, RouteChangeNotice))
    ensures
        r == spec_route_change_plan(retained, seek_to),
{
    if retained {
        (PlayerState::Paused, Some(seek_to), RouteChangeNotice::ResumeAvailable)
    } else {
        (PlayerState::Stopped, None, RouteChangeNotice::RestartRequired)
    }
}

/// A route change never promises a resume it cannot keep: a resume position
/// is kept exactly when the song's bytes are retained, and then playback is
/// paused, never playing.
pub proof fn lemma_route_change_resume_iff_retained<T>(retained: bool, seek_to: T)
    ensures
        ({
            let r = spec_route_change_plan(retained, seek_to);
            &&& (r.1 is Some <==> retained)
            &&& ((r.2 == RouteChangeNotice::ResumeAvailable) <==> r.1 is Some)
            &&& r.0 != PlayerState::Playing
        }),
{
}

/// Minimum time, in milliseconds, between two health checks.
pub const HEALTH_CHECK_INTERVAL_MS: u64 = 500;

/// Time, in milliseconds, the position may stand still while playing before
/// the backend counts as dead.
pub const STALL_TIMEOUT_MS: u64 = 3000;

/// Minimum time, in milliseconds, between two checks of the output device.
pub const DEVICE_CHECK_INTERVAL_MS: u64 = 1000;

/// Milliseconds from `from` to `now`, zero when the clock went back.
pub open spec fn since_ms(from: u64, now: u64) -> u64 {
    if now >= from { (now - from) as u64 } else { 0 }
}

fn exec_since_ms(from: u64, now: u64) -> (r: u64)
    ensures
        r == since_ms(from, now),
{
    if now >= from { now - from } else { 0 }
}

/// The outcome of the stall check.
#[derive(Clone, Copy, Debug, PartialEq, Eq, Structural)]
pub enum StallVerdict {
    /// Playback is moving, or has not been still for long enough.
    Fine,
    /// The position stood still too long: rebuild playback from this
    /// position (nanoseconds).
    Stalled(u64),
}

/// The watchdog's memory between health checks of the audio backend. Times
/// are milliseconds on a monotonic clock; positions are nanoseconds.
#[derive(Clone, Copy, Debug, PartialEq, Eq, Structural)]
pub struct HealthWatch {
    /// When the last health check ran.
    pub last_health_check_ms: Option<u64>,
    /// The last position seen.
    pub last_pos_ns: u64,
    /// When the position last moved (`None`: not since playback started).
    pub last_pos_moved_ms: Option<u64>,
    /// When the output device was last compared.
    pub last_device_check_ms: Option<u64>,
}

/// Whether an event rate-limited by `interval` may run at `now` after the
/// last one at `last`.
pub open spec fn due(last: Option<u64>, now: u64, interval: u64) -> bool {
    match last {
        Some(l) => since_ms(l, now) >= interval,
        None => true,
    }
}

impl HealthWatch {
    /// A watchdog that has seen nothing.
    pub fn new() -> (w: HealthWatch)
        ensures
            w == (HealthWatch { last_health_check_ms: None, last_pos_ns: 0, last_pos_moved_ms: None,
                last_device_check_ms: None }),
    {
        HealthWatch { last_health_check_ms: None, last_pos_ns: 0, last_pos_moved_ms: None, last_device_check_ms: None }
    }

    /// Forget the position tracking (after playback is rebuilt, stopped or
    /// resumed at `pos_ns`).
    pub fn restart_tracking(&mut self, pos_ns: u64)
        ensures
            *final(self) == (HealthWatch { last_pos_ns: pos_ns, last_pos_moved_ms: None,
                last_health_check_ms: None, ..*old(self) }),
    {
        self.last_pos_ns = pos_ns;
        self.last_pos_moved_ms = None;
        self.last_health_check_ms = None;
    }

    /// Start a health check at `now_ms` with the player in `state`: the
    /// check runs (and is remembered) unless the last one was less than
    /// `HEALTH_CHECK_INTERVAL_MS` ago; it goes on only while playing.
    pub fn begin_check(&mut self, now_ms: u64, state: PlayerState) -> (go_on: bool)
        ensures
            due(old(self).last_health_check_ms, now_ms, HEALTH_CHECK_INTERVAL_MS) ==> {
                &&& *final(self) == (HealthWatch { last_health_check_ms: Some(now_ms), ..*old(self) })
                &&& go_on == (state == PlayerState::Playing)
            },
            !due(old(self).last_health_check_ms, now_ms, HEALTH_CHECK_INTERVAL_MS) ==> {
                &&& *final(self) == *old(self)
                &&& !go_on
            },
    {
        match self.last_health_check_ms {
            Some(l) => {
                if exec_since_ms(l, now_ms) < HEALTH_CHECK_INTERVAL_MS {
                    return false;
                }
            },
            None => {},
        }
        self.last_health_check_ms = Some(now_ms);
        state == PlayerState::Playing
    }

    /// Whether the output device may be compared at `now_ms` (at most once
    /// per `DEVICE_CHECK_INTERVAL_MS`); a comparison made is remembered.
    pub fn device_check_due(&mut self, now_ms: u64) -> (b: bool)
        ensures
            b == due(old(self).last_device_check_ms, now_ms, DEVICE_CHECK_INTERVAL_MS),
            b ==> *final(self) == (HealthWatch { last_device_check_ms: Some(now_ms), ..*old(self) }),
            !b ==> *final(self) == *old(self),
    {
        match self.last_device_check_ms {
            Some(l) => {
                if exec_since_ms(l, now_ms) < DEVICE_CHECK_INTERVAL_MS {
                    return false;
                }
            },
            None => {},
        }
        self.last_device_check_ms = Some(now_ms);
        true
    }

    /// Where playback resumes after a route change: the live position, or
    /// the last one seen when that is further (a dead sink reports zero).
    pub fn route_change_seek(&self, pos_ns: u64) -> (r: u64)
        ensures
            r == (if pos_ns >= self.last_pos_ns { pos_ns } else { self.last_pos_ns }),
    {
        if pos_ns >= self.last_pos_ns { pos_ns } else { self.last_pos_ns }
    }

    /// The stall check (see `stall_step`).
    pub fn stall_verdict(&mut self, now_ms: u64, pos_ns: u64) -> (v: StallVerdict)
        ensures
            (*final(self), v) == stall_step(*old(self), now_ms, pos_ns),
    {
        if pos_ns != self.last_pos_ns {
            self.last_pos_ns = pos_ns;
            self.last_pos_moved_ms = Some(now_ms);
            return StallVerdict::Fine;
        }
        match self.last_pos_moved_ms {
            None => {
                self.last_pos_moved_ms = Some(now_ms);
                StallVerdict::Fine
            },
            Some(m) => {
                if exec_since_ms(m, now_ms) < STALL_TIMEOUT_MS {
                    StallVerdict::Fine
                } else {
                    StallVerdict::Stalled(self.last_pos_ns)
                }
            },
        }
    }
}

/// The stall check at `now_ms` with the position at `pos_ns` while playing
/// with audio queued: a moved position is remembered; a position that never
/// moved starts the clock; one that has stood still for `STALL_TIMEOUT_MS`
/// or more is a stall, to be recovered from the last position seen.
pub open spec fn stall_step(w: HealthWatch, now_ms: u64, pos_ns: u64) -> (HealthWatch, StallVerdict) {
    if pos_ns != w.last_pos_ns {
        (HealthWatch { last_pos_ns: pos_ns, last_pos_moved_ms: Some(now_ms), ..w }, StallVerdict::Fine)
    } else {
        match w.last_pos_moved_ms {
            None => (HealthWatch { last_pos_moved_ms: Some(now_ms), ..w }, StallVerdict::Fine),
            Some(m) => (w, if since_ms(m, now_ms) < STALL_TIMEOUT_MS { StallVerdict::Fine }
                else { StallVerdict::Stalled(w.last_pos_ns) }),
        }
    }
}

/// The watchdog never calls a stall before the position has stood still
/// for the whole timeout: a stall needs an unchanged position and a moment
/// of last movement at least `STALL_TIMEOUT_MS` earlier, and it recovers
/// from that very position; a moving position always resets the clock.
pub proof fn lemma_stall_needs_timeout(w: HealthWatch, now_ms: u64, pos_ns: u64)
    ensures
        stall_step(w, now_ms, pos_ns).1 matches StallVerdict::Stalled(seek) ==> {
            &&& pos_ns == w.last_pos_ns
            &&& seek == pos_ns
            &&& w.last_pos_moved_ms is Some
            &&& since_ms(w.last_pos_moved_ms->0, now_ms) >= STALL_TIMEOUT_MS
        },
        pos_ns != w.last_pos_ns ==> stall_step(w, now_ms, pos_ns).1 == StallVerdict::Fine
            && stall_step(w, now_ms, pos_ns).0.last_pos_moved_ms == Some(now_ms),
{
}

} // verus!
