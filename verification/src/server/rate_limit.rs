//! Fixed-window rate limits per device and per kind of request.

use vstd::prelude::*;
use crate::maps::StrMap;
use crate::text::owned;

verus! {

/// The window and the limit of each bucket.
#[derive(Debug, Clone, Copy)]
pub struct RateLimitProfile {
    window_ms: i64,
    peer_frame_limit: u64,
    blob_request_limit: u64,
    blob_chunk_byte_limit: u64,
    health_check_limit: u64,
}

/// The fields of a profile.
pub struct ProfileView {
    pub window_ms: i64,
    pub peer_frame_limit: u64,
    pub blob_request_limit: u64,
    pub blob_chunk_byte_limit: u64,
    pub health_check_limit: u64,
}

impl View for RateLimitProfile {
    type V = ProfileView;

    closed spec fn view(&self) -> ProfileView {
        ProfileView {
            window_ms: self.window_ms,
            peer_frame_limit: self.peer_frame_limit,
            blob_request_limit: self.blob_request_limit,
            blob_chunk_byte_limit: self.blob_chunk_byte_limit,
            health_check_limit: self.health_check_limit,
        }
    }
}

impl RateLimitProfile {
    /// Refuses, in order, a window that is not positive and any limit of zero.
    pub fn new(
        window_ms: i64,
        peer_frame_limit: u64,
        blob_request_limit: u64,
        blob_chunk_byte_limit: u64,
        health_check_limit: u64,
    ) -> (r: Result<RateLimitProfile, String>)
        ensures
            window_ms <= 0 ==> (r matches Err(e) && e@ == "rate limit window must be greater than zero"@),
            window_ms > 0 && peer_frame_limit == 0 ==> (r matches Err(e) && e@
                == "peer frame rate limit must be greater than zero"@),
            window_ms > 0 && peer_frame_limit > 0 && blob_request_limit == 0 ==> (r matches Err(e) && e@
                == "blob request rate limit must be greater than zero"@),
            window_ms > 0 && peer_frame_limit > 0 && blob_request_limit > 0 && blob_chunk_byte_limit == 0
                ==> (r matches Err(e) && e@ == "blob chunk byte rate limit must be greater than zero"@),
            window_ms > 0 && peer_frame_limit > 0 && blob_request_limit > 0 && blob_chunk_byte_limit > 0
                && health_check_limit == 0 ==> (r matches Err(e) && e@
                == "health check rate limit must be greater than zero"@),
            window_ms > 0 && peer_frame_limit > 0 && blob_request_limit > 0 && blob_chunk_byte_limit > 0
                && health_check_limit > 0 ==> (r matches Ok(p) && p@ == ProfileView {
                window_ms,
                peer_frame_limit,
                blob_request_limit,
                blob_chunk_byte_limit,
                health_check_limit,
            }),
    {
        if window_ms <= 0 {
            return Err(owned("rate limit window must be greater than zero"));
        }
        if peer_frame_limit == 0 {
            return Err(owned("peer frame rate limit must be greater than zero"));
        }
        if blob_request_limit == 0 {
            return Err(owned("blob request rate limit must be greater than zero"));
        }
        if blob_chunk_byte_limit == 0 {
            return Err(owned("blob chunk byte rate limit must be greater than zero"));
        }
        if health_check_limit == 0 {
            return Err(owned("health check rate limit must be greater than zero"));
        }
        Ok(RateLimitProfile { window_ms, peer_frame_limit, blob_request_limit, blob_chunk_byte_limit, health_check_limit })
    }
}

/// The kinds of request that are limited separately.
#[derive(Debug, Clone, Copy, PartialEq, Eq, Structural)]
pub enum RateLimitBucket {
    PeerFrame,
    BlobRequest,
    BlobChunkBytes,
    HealthCheck,
}

/// Use of one bucket in the current window.
#[derive(Debug, Clone, Copy, PartialEq, Eq, Structural)]
pub struct FixedWindowCounter {
    pub window_started_at_unix_ms: i64,
    pub used: u64,
}

/// `a - b` for `i64`, clamped to its range.
pub open spec fn clamp_sub(a: i64, b: i64) -> int {
    if a - b > i64::MAX {
        i64::MAX as int
    } else if a - b < i64::MIN {
        i64::MIN as int
    } else {
        a - b
    }
}

/// `a + b` for `u64`, clamped to its range.
pub open spec fn clamp_add(a: u64, b: u64) -> int {
    if a + b > u64::MAX {
        u64::MAX as int
    } else {
        a + b
    }
}

/// The counter once a new window has started where one was due.
pub open spec fn rolled_spec(c: FixedWindowCounter, now: i64, window_ms: i64) -> FixedWindowCounter {
    if c.window_started_at_unix_ms == 0 || clamp_sub(now, c.window_started_at_unix_ms) >= window_ms {
        FixedWindowCounter { window_started_at_unix_ms: now, used: 0 }
    } else {
        c
    }
}

/// A request opens a new window when it fits the limit at all and either no
/// window was open yet or at least `window_ms` (saturating) have passed since
/// the open one started.
pub open spec fn opens_window(c: FixedWindowCounter, now: i64, window_ms: i64, limit: u64, amount: u64) -> bool {
    amount <= limit && (c.window_started_at_unix_ms == 0 || clamp_sub(now, c.window_started_at_unix_ms) >= window_ms)
}

/// What a request of `amount` does to a counter, and whether it is allowed.
pub open spec fn counter_allow_spec(c: FixedWindowCounter, now: i64, window_ms: i64, limit: u64, amount: u64) -> (
    FixedWindowCounter,
    bool,
) {
    if amount > limit {
        (c, false)
    } else {
        let rolled = rolled_spec(c, now, window_ms);
        if clamp_add(rolled.used, amount) > limit {
            (rolled, false)
        } else {
            (FixedWindowCounter { used: clamp_add(rolled.used, amount) as u64, ..rolled }, true)
        }
    }
}

impl FixedWindowCounter {
    /// An empty counter.
    pub fn new() -> (r: FixedWindowCounter)
        ensures
            r.window_started_at_unix_ms == 0,
            r.used == 0,
    {
        FixedWindowCounter { window_started_at_unix_ms: 0, used: 0 }
    }

    /// Counts a request of `amount` at `now` if the limit allows it.
    pub fn allow(&mut self, now_unix_ms: i64, window_ms: i64, limit: u64, amount: u64) -> (r: bool)
        ensures
            (*final(self), r) == counter_allow_spec(*old(self), now_unix_ms, window_ms, limit, amount),
            opens_window(*old(self), now_unix_ms, window_ms, limit, amount) ==> r
                && final(self).window_started_at_unix_ms == now_unix_ms && final(self).used == amount,
            !opens_window(*old(self), now_unix_ms, window_ms, limit, amount)
                ==> final(self).window_started_at_unix_ms == old(self).window_started_at_unix_ms,
            !opens_window(*old(self), now_unix_ms, window_ms, limit, amount) && r
                ==> final(self).used == clamp_add(old(self).used, amount),
            !r ==> (final(self).used == old(self).used || opens_window(*old(self), now_unix_ms, window_ms, limit, amount)),
            !opens_window(*old(self), now_unix_ms, window_ms, limit, amount) && !r ==> *final(self) == *old(self),
            r <==> (amount <= limit && (opens_window(*old(self), now_unix_ms, window_ms, limit, amount)
                || clamp_add(old(self).used, amount) <= limit)),
    {
        if amount > limit {
            return false;
        }
        let elapsed: i128 = (now_unix_ms as i128) - (self.window_started_at_unix_ms as i128);
        let elapsed: i64 = if elapsed > i64::MAX as i128 {
            i64::MAX
        } else if elapsed < i64::MIN as i128 {
            i64::MIN
        } else {
            elapsed as i64
        };
        if self.window_started_at_unix_ms == 0 || elapsed >= window_ms {
            self.window_started_at_unix_ms = now_unix_ms;
            self.used = 0;
        }
        let total: u64 = if self.used > u64::MAX - amount { u64::MAX } else { self.used + amount };
        if total > limit {
            return false;
        }
        self.used = total;
        true
    }
}

/// The counters of one device.
#[derive(Debug, Clone, Copy, PartialEq, Eq, Structural)]
pub struct DeviceUsage {
    pub peer_frames: FixedWindowCounter,
    pub blob_requests: FixedWindowCounter,
    pub blob_chunk_bytes: FixedWindowCounter,
    pub health_checks: FixedWindowCounter,
}

impl View for DeviceUsage {
    type V = DeviceUsage;

    open spec fn view(&self) -> DeviceUsage {
        *self
    }
}

pub open spec fn empty_usage() -> DeviceUsage {
    DeviceUsage {
        peer_frames: FixedWindowCounter { window_started_at_unix_ms: 0, used: 0 },
        blob_requests: FixedWindowCounter { window_started_at_unix_ms: 0, used: 0 },
        blob_chunk_bytes: FixedWindowCounter { window_started_at_unix_ms: 0, used: 0 },
        health_checks: FixedWindowCounter { window_started_at_unix_ms: 0, used: 0 },
    }
}

/// The counter of a bucket.
pub open spec fn bucket_counter(u: DeviceUsage, bucket: RateLimitBucket) -> FixedWindowCounter {
    match bucket {
        RateLimitBucket::PeerFrame => u.peer_frames,
        RateLimitBucket::BlobRequest => u.blob_requests,
        RateLimitBucket::BlobChunkBytes => u.blob_chunk_bytes,
        RateLimitBucket::HealthCheck => u.health_checks,
    }
}

/// The usage with the counter of a bucket replaced.
pub open spec fn with_counter(u: DeviceUsage, bucket: RateLimitBucket, c: FixedWindowCounter) -> DeviceUsage {
    match bucket {
        RateLimitBucket::PeerFrame => DeviceUsage { peer_frames: c, ..u },
        RateLimitBucket::BlobRequest => DeviceUsage { blob_requests: c, ..u },
        RateLimitBucket::BlobChunkBytes => DeviceUsage { blob_chunk_bytes: c, ..u },
        RateLimitBucket::HealthCheck => DeviceUsage { health_checks: c, ..u },
    }
}

/// The limit of a bucket.
pub open spec fn bucket_limit(p: ProfileView, bucket: RateLimitBucket) -> u64 {
    match bucket {
        RateLimitBucket::PeerFrame => p.peer_frame_limit,
        RateLimitBucket::BlobRequest => p.blob_request_limit,
        RateLimitBucket::BlobChunkBytes => p.blob_chunk_byte_limit,
        RateLimitBucket::HealthCheck => p.health_check_limit,
    }
}

/// The usage of a device, or an empty one for a device not seen yet.
pub open spec fn usage_of(usage: Map<Seq<char>, DeviceUsage>, device: Seq<char>) -> DeviceUsage {
    if usage.contains_key(device) {
        usage[device]
    } else {
        empty_usage()
    }
}

/// What a request of `amount` in a device's bucket at `now` does to the usage
/// of every device, and whether it is allowed: only that device's entry is
/// written, and only that bucket of it changes.
pub open spec fn limiter_allow_spec(
    usage: Map<Seq<char>, DeviceUsage>,
    profile: ProfileView,
    device: Seq<char>,
    bucket: RateLimitBucket,
    amount: u64,
    now: i64,
) -> (Map<Seq<char>, DeviceUsage>, bool) {
    let before = usage_of(usage, device);
    let (counter, allowed) = counter_allow_spec(
        bucket_counter(before, bucket),
        now,
        profile.window_ms,
        bucket_limit(profile, bucket),
        amount,
    );
    (usage.insert(device, with_counter(before, bucket, counter)), allowed)
}

/// Rate limits of every device, each bucket counted in fixed windows.
pub struct RateLimiter {
    profile: RateLimitProfile,
    usage: StrMap<DeviceUsage>,
}

impl RateLimiter {
    pub closed spec fn wf(&self) -> bool {
        self.usage.wf()
    }

    pub closed spec fn profile_spec(&self) -> ProfileView {
        self.profile@
    }

    /// The usage of every device seen so far.
    pub closed spec fn usage_spec(&self) -> Map<Seq<char>, DeviceUsage> {
        self.usage.map()
    }

    pub fn new(profile: RateLimitProfile) -> (r: RateLimiter)
        ensures
            r.wf(),
            r.profile_spec() == profile@,
            r.usage_spec() == Map::<Seq<char>, DeviceUsage>::empty(),
    {
        RateLimiter { profile, usage: StrMap::new() }
    }

    /// Counts a request of `amount` in a device's bucket at `now` if its limit
    /// allows it. Other devices and other buckets are untouched.
    pub fn allow(&mut self, device_id: &str, bucket: RateLimitBucket, amount: u64, now_unix_ms: i64) -> (r: bool)
        requires
            old(self).wf(),
        ensures
            final(self).wf(),
            final(self).profile_spec() == old(self).profile_spec(),
            (final(self).usage_spec(), r) == limiter_allow_spec(
                old(self).usage_spec(),
                old(self).profile_spec(),
                device_id@,
                bucket,
                amount,
                now_unix_ms,
            ),
    {
        let mut usage = match self.usage.get(device_id) {
            Some(u) => *u,
            None => DeviceUsage {
                peer_frames: FixedWindowCounter::new(),
                blob_requests: FixedWindowCounter::new(),
                blob_chunk_bytes: FixedWindowCounter::new(),
                health_checks: FixedWindowCounter::new(),
            },
        };
        let window = self.profile.window_ms;
        let allowed = match bucket {
            RateLimitBucket::PeerFrame => usage.peer_frames.allow(now_unix_ms, window, self.profile.peer_frame_limit, amount),
            RateLimitBucket::BlobRequest => usage.blob_requests.allow(now_unix_ms, window, self.profile.blob_request_limit, amount),
            RateLimitBucket::BlobChunkBytes => usage.blob_chunk_bytes.allow(now_unix_ms, window, self.profile.blob_chunk_byte_limit, amount),
            RateLimitBucket::HealthCheck => usage.health_checks.allow(now_unix_ms, window, self.profile.health_check_limit, amount),
        };
        self.usage.insert(owned(device_id), usage);
        allowed
    }
}

/// Within one window the requests a bucket allows never add up to more than
/// its limit: a counter at or under its limit stays there.
pub proof fn lemma_counter_within_limit(c: FixedWindowCounter, now: i64, window_ms: i64, limit: u64, amount: u64)
    requires
        c.used <= limit,
    ensures
        counter_allow_spec(c, now, window_ms, limit, amount).0.used <= limit,
        counter_allow_spec(c, now, window_ms, limit, amount).1 ==> counter_allow_spec(
            c,
            now,
            window_ms,
            limit,
            amount,
        ).0.used == clamp_add(rolled_spec(c, now, window_ms).used, amount),
{
}

/// A request to a limiter: the device, the bucket, the amount and the time.
pub type RateCall = (Seq<char>, RateLimitBucket, u64, i64);

/// The usage after a run of requests, one after another.
pub open spec fn run_usage(usage: Map<Seq<char>, DeviceUsage>, profile: ProfileView, calls: Seq<RateCall>) -> Map<
    Seq<char>,
    DeviceUsage,
>
    decreases calls.len(),
{
    if calls.len() == 0 {
        usage
    } else {
        let c = calls.last();
        limiter_allow_spec(run_usage(usage, profile, calls.drop_last()), profile, c.0, c.1, c.2, c.3).0
    }
}

/// Whether the last request of a run is allowed.
pub open spec fn last_allowed(usage: Map<Seq<char>, DeviceUsage>, profile: ProfileView, calls: Seq<RateCall>) -> bool
    recommends
        calls.len() > 0,
{
    let c = calls.last();
    limiter_allow_spec(run_usage(usage, profile, calls.drop_last()), profile, c.0, c.1, c.2, c.3).1
}

/// Whether the last request of a run opens a new window of its bucket.
pub open spec fn last_opens_window(usage: Map<Seq<char>, DeviceUsage>, profile: ProfileView, calls: Seq<RateCall>) -> bool
    recommends
        calls.len() > 0,
{
    let c = calls.last();
    let counter = bucket_counter(usage_of(run_usage(usage, profile, calls.drop_last()), c.0), c.1);
    c.2 <= bucket_limit(profile, c.1) && rolled_spec(counter, c.3, profile.window_ms) != counter
}

/// The amounts that a device's bucket allowed in its current window: those
/// of the allowed requests from the one that opened the window on.
pub open spec fn window_allowed_sum(
    usage: Map<Seq<char>, DeviceUsage>,
    profile: ProfileView,
    calls: Seq<RateCall>,
    device: Seq<char>,
    bucket: RateLimitBucket,
) -> int
    decreases calls.len(),
{
    if calls.len() == 0 {
        bucket_counter(usage_of(usage, device), bucket).used as int
    } else {
        let c = calls.last();
        let mine = c.0 == device && c.1 == bucket;
        let counted: int = if mine && last_allowed(usage, profile, calls) { c.2 as int } else { 0 };
        if mine && last_opens_window(usage, profile, calls) {
            counted
        } else {
            window_allowed_sum(usage, profile, calls.drop_last(), device, bucket) + counted
        }
    }
}

proof fn lemma_counter_of_step(
    usage: Map<Seq<char>, DeviceUsage>,
    profile: ProfileView,
    c: RateCall,
    device: Seq<char>,
    bucket: RateLimitBucket,
)
    ensures
        !(c.0 == device && c.1 == bucket) ==> bucket_counter(
            usage_of(limiter_allow_spec(usage, profile, c.0, c.1, c.2, c.3).0, device),
            bucket,
        ) == bucket_counter(usage_of(usage, device), bucket),
        (c.0 == device && c.1 == bucket) ==> bucket_counter(
            usage_of(limiter_allow_spec(usage, profile, c.0, c.1, c.2, c.3).0, device),
            bucket,
        ) == counter_allow_spec(
            bucket_counter(usage_of(usage, device), bucket),
            c.3,
            profile.window_ms,
            bucket_limit(profile, bucket),
            c.2,
        ).0,
{
}

/// Over any run of requests, each device's bucket has allowed, in its
/// current window, exactly the amounts its counter shows, and never more than
/// the bucket's limit; requests to other devices or other buckets change
/// neither.  (A limit of `u64::MAX` is left out: there the count saturates.)
pub proof fn lemma_run_within_limit(
    usage: Map<Seq<char>, DeviceUsage>,
    profile: ProfileView,
    calls: Seq<RateCall>,
    device: Seq<char>,
    bucket: RateLimitBucket,
)
    requires
        bucket_limit(profile, bucket) < u64::MAX,
        bucket_counter(usage_of(usage, device), bucket).used <= bucket_limit(profile, bucket),
    ensures
        bucket_counter(usage_of(run_usage(usage, profile, calls), device), bucket).used == window_allowed_sum(
            usage,
            profile,
            calls,
            device,
            bucket,
        ),
        window_allowed_sum(usage, profile, calls, device, bucket) <= bucket_limit(profile, bucket),
    decreases calls.len(),
{
    if calls.len() > 0 {
        let prev = run_usage(usage, profile, calls.drop_last());
        let c = calls.last();
        lemma_run_within_limit(usage, profile, calls.drop_last(), device, bucket);
        lemma_counter_of_step(prev, profile, c, device, bucket);
        let counter = bucket_counter(usage_of(prev, device), bucket);
        let limit = bucket_limit(profile, bucket);
        lemma_counter_within_limit(counter, c.3, profile.window_ms, limit, c.2);
        let after = bucket_counter(usage_of(run_usage(usage, profile, calls), device), bucket);
        assert(run_usage(usage, profile, calls) == limiter_allow_spec(prev, profile, c.0, c.1, c.2, c.3).0);
        if c.0 == device && c.1 == bucket {
            let step = counter_allow_spec(counter, c.3, profile.window_ms, limit, c.2);
            assert(after == step.0);
            assert(last_allowed(usage, profile, calls) == step.1);
            assert(last_opens_window(usage, profile, calls) == (c.2 <= limit && rolled_spec(counter, c.3, profile.window_ms) != counter));
            if c.2 > limit {
                assert(after == counter);
            } else if rolled_spec(counter, c.3, profile.window_ms) != counter {
                assert(rolled_spec(counter, c.3, profile.window_ms).used == 0);
                assert(step.1);
                assert(after.used == c.2);
            } else {
                if step.1 {
                    assert(after.used == counter.used + c.2);
                } else {
                    assert(after == counter);
                }
            }
        } else {
            assert(after == counter);
        }
    }
}

/// A request for more than its bucket's limit is refused and changes nothing
/// of that bucket.
pub proof fn lemma_oversized_request_refused(
    usage: Map<Seq<char>, DeviceUsage>,
    profile: ProfileView,
    device: Seq<char>,
    bucket: RateLimitBucket,
    amount: u64,
    now: i64,
)
    requires
        amount > bucket_limit(profile, bucket),
    ensures
        !limiter_allow_spec(usage, profile, device, bucket, amount, now).1,
        bucket_counter(usage_of(limiter_allow_spec(usage, profile, device, bucket, amount, now).0, device), bucket)
            == bucket_counter(usage_of(usage, device), bucket),
{
}

/// Whether a request is allowed depends only on its own device's bucket.
pub proof fn lemma_decision_is_per_bucket(
    a: Map<Seq<char>, DeviceUsage>,
    b: Map<Seq<char>, DeviceUsage>,
    profile: ProfileView,
    device: Seq<char>,
    bucket: RateLimitBucket,
    amount: u64,
    now: i64,
)
    requires
        bucket_counter(usage_of(a, device), bucket) == bucket_counter(usage_of(b, device), bucket),
    ensures
        limiter_allow_spec(a, profile, device, bucket, amount, now).1 == limiter_allow_spec(
            b,
            profile,
            device,
            bucket,
            amount,
            now,
        ).1,
{
}

/// Windows are fixed: a request moves the window start, to its own time,
/// only when it opens a new window, which it always may; any other request
/// leaves the start where it was, adds its amount (saturating) when allowed
/// and changes nothing when refused. A request is allowed exactly when it fits the limit
/// and either opens a window or fits beside what the open window has used.
pub proof fn lemma_fixed_window_law(c: FixedWindowCounter, now: i64, window_ms: i64, limit: u64, amount: u64)
    ensures
        ({
            let (after, allowed) = counter_allow_spec(c, now, window_ms, limit, amount);
            &&& opens_window(c, now, window_ms, limit, amount) ==> allowed && after.window_started_at_unix_ms == now
                && after.used == amount
            &&& !opens_window(c, now, window_ms, limit, amount) ==> after.window_started_at_unix_ms
                == c.window_started_at_unix_ms
            &&& !opens_window(c, now, window_ms, limit, amount) && allowed ==> after.used == clamp_add(c.used, amount)
            &&& !opens_window(c, now, window_ms, limit, amount) && !allowed ==> after == c
            &&& allowed <==> (amount <= limit && (opens_window(c, now, window_ms, limit, amount) || clamp_add(c.used, amount)
                <= limit))
        }),
{
}

/// Two requests of one bucket `window_ms` or more apart never fall in the
/// same window: after any request at `t1`, a request at `t2` with
/// `t2 - t1 >= window_ms` that fits the limit opens a new window.
pub proof fn lemma_window_ends(
    c: FixedWindowCounter,
    t1: i64,
    t2: i64,
    window_ms: i64,
    limit: u64,
    a1: u64,
    a2: u64,
)
    requires
        0 < t1,
        t1 <= t2,
        t2 - t1 >= window_ms,
        a2 <= limit,
        c.window_started_at_unix_ms <= t1,
    ensures
        opens_window(counter_allow_spec(c, t1, window_ms, limit, a1).0, t2, window_ms, limit, a2),
        counter_allow_spec(counter_allow_spec(c, t1, window_ms, limit, a1).0, t2, window_ms, limit, a2).1,
{
}

} // verus!
