use vstd::prelude::*;

verus! {

/// Severity of a notification, which also decides how long it stays.
#[derive(Clone, Copy, Debug, PartialEq, Eq, Structural)]
pub enum NotificationLevel {
    Info,
    Success,
    Warning,
    Error,
}

/// A transient message shown in the corner of the interface. Times are in
/// milliseconds on the clock given by `now_millis`.
#[derive(Debug)]
pub struct Notification {
    pub message: String,
    pub level: NotificationLevel,
    pub timestamp_ms: u64,
    pub duration_ms: u64,
}

/// How long a notification of the given level stays: errors 8 s, the rest 4 s.
pub open spec fn lifetime_ms(level: NotificationLevel) -> u64 {
    match level {
        NotificationLevel::Error => 8000,
        _ => 4000,
    }
}

/// Time elapsed since the Unix epoch on the system clock (std's
/// `SystemTime::elapsed` on `UNIX_EPOCH`), or `None` when the clock is set
/// before the epoch. Nothing is promised of the value: it is the time.
#[verifier::external_body]
fn epoch_elapsed() -> Option<std::time::Duration> {
    std::time::UNIX_EPOCH.elapsed().ok()
}

/// Whole milliseconds of a duration (std's `Duration::as_millis`). Nothing
/// is promised of the value: the duration is opaque here.
#[verifier::external_body]
fn duration_millis(d: &std::time::Duration) -> u128 {
    d.as_millis()
}

/// Milliseconds since the Unix epoch on the system clock: 0 when the clock
/// is set before the epoch, `u64::MAX` past what a `u64` holds.
pub(crate) fn now_millis() -> u64 {
    match epoch_elapsed() {
        Some(d) => {
            let ms = duration_millis(&d);
            if ms <= 0xffff_ffff_ffff_ffffu128 {
                ms as u64
            } else {
                u64::MAX
            }
        },
        None => 0,
    }
}

impl Clone for Notification {
    fn clone(&self) -> (r: Notification)
        ensures
            r == *self,
    {
        Notification {
            message: self.message.clone(),
            level: self.level,
            timestamp_ms: self.timestamp_ms,
            duration_ms: self.duration_ms,
        }
    }
}

impl Notification {
    /// A notification created at `now_ms`.
    pub fn new_at(message: String, level: NotificationLevel, now_ms: u64) -> (n: Notification)
        ensures
            n.message == message,
            n.level == level,
            n.timestamp_ms == now_ms,
            n.duration_ms == lifetime_ms(level),
    {
        let duration_ms: u64 = match level {
            NotificationLevel::Error => 8000,
            _ => 4000,
        };
        Notification { message, level, timestamp_ms: now_ms, duration_ms }
    }

    /// A notification created now.
    pub fn new(message: String, level: NotificationLevel) -> (n: Notification)
        ensures
            n.message == message,
            n.level == level,
            n.duration_ms == lifetime_ms(level),
    {
        Notification::new_at(message, level, now_millis())
    }

    pub open spec fn spec_icon(&self) -> Seq<char> {
        match self.level {
            NotificationLevel::Info => "ℹ"@,
            NotificationLevel::Success => "✓"@,
            NotificationLevel::Warning => "⚠"@,
            NotificationLevel::Error => "✕"@,
        }
    }

    /// The glyph shown before the message.
    pub fn icon(&self) -> (s: &'static str)
        ensures
            s@ == self.spec_icon(),
    {
        match self.level {
            NotificationLevel::Info => "ℹ",
            NotificationLevel::Success => "✓",
            NotificationLevel::Warning => "⚠",
            NotificationLevel::Error => "✕",
        }
    }

    /// More than its lifetime has passed since it was created.
    pub open spec fn spec_expired_at(&self, now_ms: u64) -> bool {
        now_ms > self.timestamp_ms + self.duration_ms
    }

    pub fn expired_at(&self, now_ms: u64) -> (b: bool)
        ensures
            b == self.spec_expired_at(now_ms),
    {
        now_ms > self.timestamp_ms && now_ms - self.timestamp_ms > self.duration_ms
    }

    /// Whether the notification has outlived its lifetime by now: its
    /// expiry at the time the system clock reads.
    pub fn expired(&self) -> (b: bool)
        ensures
            exists|t: u64| b == #[trigger] self.spec_expired_at(t),
    {
        let now = now_millis();
        self.expired_at(now)
    }
}

/// The notifications still alive at `now_ms`, in order.
pub open spec fn alive_at(s: Seq<Notification>, now_ms: u64) -> Seq<Notification>
    decreases s.len(),
{
    if s.len() == 0 {
        s
    } else if s.last().spec_expired_at(now_ms) {
        alive_at(s.drop_last(), now_ms)
    } else {
        alive_at(s.drop_last(), now_ms).push(s.last())
    }
}

/// The queue after `n` is pushed: at most five are kept, the oldest leave first.
pub open spec fn pushed(s: Seq<Notification>, n: Notification) -> Seq<Notification> {
    if s.len() + 1 > 5 {
        s.push(n).subrange(1, s.len() as int + 1)
    } else {
        s.push(n)
    }
}

/// The notification just pushed is the newest one shown.
pub proof fn lemma_pushed_last(s: Seq<Notification>, n: Notification)
    ensures
        pushed(s, n).last() == n,
        pushed(s, n).len() > 0,
{
}

proof fn lemma_alive_len(s: Seq<Notification>, now_ms: u64)
    ensures
        alive_at(s, now_ms).len() <= s.len(),
    decreases s.len(),
{
    if s.len() > 0 {
        lemma_alive_len(s.drop_last(), now_ms);
    }
}

/// The notifications on screen, newest last, at most five.
#[derive(Debug)]
pub struct NotificationState {
    notifications: Vec<Notification>,
}

impl View for NotificationState {
    type V = Seq<Notification>;

    closed spec fn view(&self) -> Seq<Notification> {
        self.notifications@
    }
}

impl Clone for NotificationState {
    fn clone(&self) -> (r: NotificationState)
        ensures
            r@ == self@,
    {
        let mut v: Vec<Notification> = Vec::new();
        let n = self.notifications.len();
        let mut i: usize = 0;
        while i < n
            invariant
                n == self.notifications@.len(),
                i <= n,
                v@ == self.notifications@.subrange(0, i as int),
            decreases n - i,
        {
            v.push(self.notifications[i].clone());
            i = i + 1;
            assert(v@ =~= self.notifications@.subrange(0, i as int));
        }
        assert(v@ =~= self.notifications@);
        NotificationState { notifications: v }
    }
}

impl NotificationState {
    pub fn new() -> (s: NotificationState)
        ensures
            s@ == Seq::<Notification>::empty(),
    {
        NotificationState { notifications: Vec::new() }
    }

    /// Show `n`; the oldest notification leaves when more than five would show.
    pub fn push_notification(&mut self, n: Notification)
        ensures
            final(self)@ == pushed(old(self)@, n),
    {
        self.notifications.push(n);
        if self.notifications.len() > 5 {
            self.notifications.remove(0);
        }
        proof {
            let s = old(self).notifications@;
            if s.len() + 1 > 5 {
                assert(self.notifications@ =~= s.push(n).subrange(1, s.len() as int + 1));
            }
        }
    }

    /// Show a message created at `now_ms`.
    pub fn push_at(&mut self, message: String, level: NotificationLevel, now_ms: u64)
        ensures
            final(self)@ == pushed(old(self)@, Notification {
                message, level, timestamp_ms: now_ms, duration_ms: lifetime_ms(level) }),
    {
        let n = Notification::new_at(message, level, now_ms);
        self.push_notification(n);
    }

    /// Show a message created now.
    pub fn push(&mut self, message: String, level: NotificationLevel)
        ensures
            final(self)@.len() == pushed(old(self)@, final(self)@.last()).len(),
            final(self)@ == pushed(old(self)@, final(self)@.last()),
            final(self)@.last().message == message,
            final(self)@.last().level == level,
            final(self)@.last().duration_ms == lifetime_ms(level),
    {
        self.push_at(message, level, now_millis());
    }

    /// Drop the notifications that have expired by `now_ms`.
    pub fn dismiss_old_at(&mut self, now_ms: u64)
        ensures
            final(self)@ == alive_at(old(self)@, now_ms),
    {
        let old_v = self.notifications.clone();
        let mut kept: Vec<Notification> = Vec::new();
        let n = old_v.len();
        let mut i: usize = 0;
        while i < n
            invariant
                n == old_v@.len(),
                old_v@ == old(self).notifications@,
                i <= n,
                kept@ == alive_at(old_v@.subrange(0, i as int), now_ms),
            decreases n - i,
        {
            let ghost pre = old_v@.subrange(0, i as int);
            assert(old_v@.subrange(0, i + 1).drop_last() =~= pre);
            if !old_v[i].expired_at(now_ms) {
                kept.push(old_v[i].clone());
            }
            i = i + 1;
        }
        assert(old_v@.subrange(0, n as int) =~= old_v@);
        self.notifications = kept;
    }

    /// Drop the notifications that have expired by now: those alive at the
    /// time the system clock reads stay, in order.
    pub fn dismiss_old(&mut self)
        ensures
            exists|t: u64| final(self)@ == #[trigger] alive_at(old(self)@, t),
    {
        let now = now_millis();
        self.dismiss_old_at(now);
    }

    /// The notifications still alive at `now_ms`.
    pub fn active_at(&self, now_ms: u64) -> (v: Vec<Notification>)
        ensures
            v@ == alive_at(self@, now_ms),
    {
        let mut kept: Vec<Notification> = Vec::new();
        let n = self.notifications.len();
        let mut i: usize = 0;
        while i < n
            invariant
                n == self.notifications@.len(),
                i <= n,
                kept@ == alive_at(self.notifications@.subrange(0, i as int), now_ms),
            decreases n - i,
        {
            assert(self.notifications@.subrange(0, i + 1).drop_last() =~= self.notifications@.subrange(0, i as int));
            if !self.notifications[i].expired_at(now_ms) {
                kept.push(self.notifications[i].clone());
            }
            i = i + 1;
        }
        assert(self.notifications@.subrange(0, n as int) =~= self.notifications@);
        kept
    }

    /// The notifications still alive now: those alive at the time the
    /// system clock reads, in order.
    pub fn active(&self) -> (v: Vec<Notification>)
        ensures
            exists|t: u64| v@ == #[trigger] alive_at(self@, t),
    {
        let now = now_millis();
        self.active_at(now)
    }
}

impl Default for NotificationState {
    fn default() -> (s: NotificationState)
        ensures
            s@ == Seq::<Notification>::empty(),
    {
        NotificationState::new()
    }
}

/// Law: at most five notifications are ever on screen, and dismissing
/// expired ones never adds any.
pub proof fn lemma_notifications_bounded(s: Seq<Notification>, n: Notification, now_ms: u64)
    requires
        s.len() <= 5,
    ensures
        pushed(s, n).len() <= 5,
        pushed(s, n).last() == n,
        alive_at(s, now_ms).len() <= s.len(),
{
    lemma_alive_len(s, now_ms);
}

/// Law: a notification is alive until its lifetime (8 s for errors, 4 s
/// otherwise) has passed, and expired from then on.
pub proof fn lemma_notification_lifetime(message: String, level: NotificationLevel, created: u64, now_ms: u64)
    ensures
        ({
            let n = Notification { message, level, timestamp_ms: created, duration_ms: lifetime_ms(level) };
            n.spec_expired_at(now_ms) <==> now_ms > created + (if level == NotificationLevel::Error { 8000int } else { 4000int })
        }),
{
}

} // verus!
