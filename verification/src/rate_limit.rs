//! Request pacing: at most a given number of requests per one-minute window,
//! and a minimum gap between two requests.
//!
//! Pacing a request sleeps twice in the middle of its decisions, so the
//! decisions are four steps; the caller sleeps for what they return and
//! reads the clock in between:
//! `begin` (window bookkeeping, returns the wait for a full window),
//! `window_wait_done` (after that wait), `interval_wait` (the gap still owed
//! since the previous request) and `finish` (records the request).
//!
//! Times are nanoseconds on the limiter's own monotonic clock (`clock`),
//! which reads one window length at the moment the limiter is made, so that
//! "one window before creation" is time 0.

use vstd::prelude::*;
use crate::cache::{instant_now, nanos_since};

verus! {

/// Length of one counting window (one minute), in nanoseconds.
pub const WINDOW_NANOS: u128 = 60_000_000_000;

/// Nanoseconds in a millisecond.
pub const NANOS_PER_MILLI: u128 = 1_000_000;

/// `later - earlier`, or 0 when `later` is not after `earlier`.
pub open spec fn elapsed(earlier: u128, later: u128) -> u128 {
    if later > earlier { (later - earlier) as u128 } else { 0 }
}

/// The smallest gap between two requests for a given per-window limit:
/// 1000 milliseconds divided by the limit, in whole milliseconds (a limit
/// of 0 counts as 1), given in nanoseconds.
pub open spec fn min_interval_for(requests_per_minute: u32) -> u128 {
    let per: u128 = if requests_per_minute == 0 { 1 } else { requests_per_minute as u128 };
    ((1000u128 / per) * NANOS_PER_MILLI) as u128
}

/// The part of the minimum gap still owed at time `now` when the previous
/// request was made at `last`: nothing once `min_interval` has passed.
pub open spec fn interval_wait_for(last: u128, min_interval: u128, now: u128) -> u128 {
    if elapsed(last, now) < min_interval { (min_interval - elapsed(last, now)) as u128 } else { 0 }
}

/// The wait owed before a request when `count` requests were already made in
/// a window that began `since_start` ago: the rest of the window once the
/// quota is used up, nothing otherwise.
pub open spec fn window_wait_for(count: u32, quota: u32, window: u128, since_start: u128) -> u128 {
    if count >= quota { (window - since_start) as u128 } else { 0 }
}

/// The settings of two limiters agree.
pub open spec fn same_settings(a: RateLimiter, b: RateLimiter) -> bool {
    &&& a.min_interval == b.min_interval
    &&& a.requests_per_window == b.requests_per_window
    &&& a.window_duration == b.window_duration
}

/// `begin` at time `now` takes `s0` to `s1` and returns `wait`: a window that
/// has run out restarts at `now` with a zero count, and the wait is the rest
/// of the window when the quota is used up.
pub open spec fn begin_post(s0: RateLimiter, now: u128, s1: RateLimiter, wait: u128) -> bool {
    let restarted = elapsed(s0.window_start, now) > s0.window_duration;
    &&& same_settings(s0, s1)
    &&& s1.last_request == s0.last_request
    &&& restarted ==> s1.request_count == 0 && s1.window_start == now
    &&& !restarted ==> s1.request_count == s0.request_count && s1.window_start == s0.window_start
    &&& wait == window_wait_for(
        s1.request_count,
        s1.requests_per_window,
        s1.window_duration,
        elapsed(s1.window_start, now),
    )
}

/// `window_wait_done` at time `now` takes `s0` to `s1`: a new window with a
/// zero count starts at `now`.
pub open spec fn wait_done_post(s0: RateLimiter, now: u128, s1: RateLimiter) -> bool {
    &&& same_settings(s0, s1)
    &&& s1.last_request == s0.last_request
    &&& s1.request_count == 0
    &&& s1.window_start == now
}

/// `finish` at time `now` takes `s0` to `s1`: the request is counted and
/// becomes the previous request.
pub open spec fn finish_post(s0: RateLimiter, now: u128, s1: RateLimiter) -> bool {
    &&& same_settings(s0, s1)
    &&& s1.request_count == s0.request_count + 1
    &&& s1.last_request == now
    &&& s1.window_start == s0.window_start
}

/// Pacing state; all times are nanoseconds on the limiter's clock, which
/// counts from `WINDOW_NANOS` at the instant `epoch` the limiter was made.
#[derive(Debug)]
pub struct RateLimiter {
    pub last_request: u128,
    pub min_interval: u128,
    pub request_count: u32,
    pub window_start: u128,
    pub requests_per_window: u32,
    pub window_duration: u128,
    pub epoch: std::time::Instant,
}

impl RateLimiter {
    /// A limiter made now: its window starts now (time `WINDOW_NANOS` on its
    /// clock) with no request yet, and the previous request is taken to be
    /// one window ago (time 0).
    pub fn new(requests_per_minute: u32) -> (r: Self)
        ensures
            r.last_request == 0,
            r.min_interval == min_interval_for(requests_per_minute),
            r.request_count == 0,
            r.window_start == WINDOW_NANOS,
            r.requests_per_window == requests_per_minute,
            r.window_duration == WINDOW_NANOS,
    {
        let per: u128 = if requests_per_minute == 0 { 1u128 } else { requests_per_minute as u128 };
        RateLimiter {
            last_request: 0,
            min_interval: (1000 / per) * NANOS_PER_MILLI,
            request_count: 0,
            window_start: WINDOW_NANOS,
            requests_per_window: requests_per_minute,
            window_duration: WINDOW_NANOS,
            epoch: instant_now(),
        }
    }

    /// The limiter's clock: `WINDOW_NANOS` plus the nanoseconds elapsed
    /// since the limiter was made (capped at `u128::MAX`).
    pub fn clock(&self) -> (now: u128)
        ensures
            now >= WINDOW_NANOS,
    {
        let e: u128 = nanos_since(&self.epoch);
        if e > u128::MAX - WINDOW_NANOS {
            u128::MAX
        } else {
            WINDOW_NANOS + e
        }
    }

    /// First step of a request at time `now`. A window that has run out is
    /// restarted at `now` with a zero count. If the window's quota is used
    /// up, the result is the time until the window ends (the caller sleeps
    /// that long, then calls `window_wait_done`); otherwise it is 0.
    pub fn begin(&mut self, now: u128) -> (wait: u128)
        ensures
            begin_post(*old(self), now, *final(self), wait),
            wait <= final(self).window_duration,
            elapsed(final(self).window_start, now) <= final(self).window_duration,
    {
        let since_start: u128 = if now > self.window_start { now - self.window_start } else { 0 };
        if since_start > self.window_duration {
            self.request_count = 0;
            self.window_start = now;
        }
        if self.request_count >= self.requests_per_window {
            let since_start: u128 = if now > self.window_start { now - self.window_start } else { 0 };
            self.window_duration - since_start
        } else {
            0
        }
    }

    /// After sleeping through the rest of a full window: a new window starts
    /// at `now` with a zero count.
    pub fn window_wait_done(&mut self, now: u128)
        ensures
            wait_done_post(*old(self), now, *final(self)),
    {
        self.request_count = 0;
        self.window_start = now;
    }

    /// The part of the minimum gap still owed at time `now` (the time the
    /// request began), or 0 when the previous request is far enough back.
    pub fn interval_wait(&self, now: u128) -> (wait: u128)
        ensures
            wait == interval_wait_for(self.last_request, self.min_interval, now),
            wait <= self.min_interval,
    {
        let since_last: u128 = if now > self.last_request { now - self.last_request } else { 0 };
        if since_last < self.min_interval {
            self.min_interval - since_last
        } else {
            0
        }
    }

    /// Records a request made at time `now`.
    pub fn finish(&mut self, now: u128)
        requires
            old(self).request_count < u32::MAX,
        ensures
            finish_post(*old(self), now, *final(self)),
    {
        self.request_count = self.request_count + 1;
        self.last_request = now;
    }
}

/// A request that finds the window's quota used up waits exactly until the
/// window ends; a request that finds room in the quota does not wait for the
/// window.
pub proof fn lemma_window_wait(count: u32, quota: u32, window: u128, since_start: u128)
    requires
        since_start <= window,
    ensures
        count >= quota ==> since_start + window_wait_for(count, quota, window, since_start) == window,
        count < quota ==> window_wait_for(count, quota, window, since_start) == 0,
{
}

/// The gap owed never exceeds the minimum interval, and nothing is owed once
/// a full minimum interval has passed since the previous request.
pub proof fn lemma_interval_wait_bounds(last: u128, min_interval: u128, now: u128)
    ensures
        interval_wait_for(last, min_interval, now) <= min_interval,
        elapsed(last, now) >= min_interval ==> interval_wait_for(last, min_interval, now) == 0,
        elapsed(last, now) < min_interval ==> elapsed(last, now) + interval_wait_for(last, min_interval, now)
            == min_interval,
{
}

} // verus!

verus! {

/// A window never holds more requests than its quota: a request made by the
/// steps `begin`, `window_wait_done` (when `begin` asked for a wait) and
/// `finish`, from a state within its quota, leaves the state within its
/// quota. The one exception is a request that begins exactly when its window
/// ends: it neither restarts the window nor waits, and is counted beyond the
/// quota.
pub proof fn lemma_quota_respected(
    s0: RateLimiter,
    now: u128,
    s1: RateLimiter,
    wait: u128,
    s2: RateLimiter,
    t2: u128,
    s3: RateLimiter,
    t3: u128,
)
    requires
        s0.requests_per_window >= 1,
        s0.request_count <= s0.requests_per_window,
        elapsed(s0.window_start, now) != s0.window_duration,
        begin_post(s0, now, s1, wait),
        wait > 0 ==> wait_done_post(s1, t2, s2),
        wait == 0 ==> s2 == s1,
        finish_post(s2, t3, s3),
    ensures
        s3.request_count <= s3.requests_per_window,
        s3.request_count >= 1,
{
}

} // verus!

verus! {

/// Two paced requests are at least the minimum interval apart. A request
/// that begins at `now` (no earlier than the previous request was recorded,
/// at `s0.last_request`) takes the steps `begin`, `window_wait_done` (when
/// `begin` asked for a wait) and `interval_wait`; it sleeps off the gap that
/// `interval_wait` returns, so it is recorded by `finish` at a time `t3` no
/// earlier than `now + gap`. Then `t3` is at least the minimum interval
/// after the previous request.
pub proof fn lemma_requests_spaced(
    s0: RateLimiter,
    now: u128,
    s1: RateLimiter,
    wait: u128,
    s2: RateLimiter,
    t2: u128,
    gap: u128,
    s3: RateLimiter,
    t3: u128,
)
    requires
        s0.last_request <= now,
        begin_post(s0, now, s1, wait),
        wait > 0 ==> wait_done_post(s1, t2, s2),
        wait == 0 ==> s2 == s1,
        gap == interval_wait_for(s2.last_request, s2.min_interval, now),
        now + gap <= t3,
        finish_post(s2, t3, s3),
    ensures
        s3.last_request == t3,
        t3 >= s0.last_request + s0.min_interval,
        s3.min_interval == s0.min_interval,
{
}

/// Once a window holds its quota of requests, the next request sleeps until
/// that window ends and starts a new one: `begin` asks for a wait that ends
/// exactly at the end of the window, and after it `window_wait_done` (at a
/// time `t2` no earlier than the end of the wait) starts a window at `t2`
/// with no request in it. (A request that begins exactly at the end of the
/// window is asked for no wait, and is left out here.)
pub proof fn lemma_full_window_waits(
    s0: RateLimiter,
    now: u128,
    s1: RateLimiter,
    wait: u128,
    s2: RateLimiter,
    t2: u128,
)
    requires
        s0.request_count >= s0.requests_per_window,
        s0.window_start <= now,
        now - s0.window_start < s0.window_duration,
        begin_post(s0, now, s1, wait),
        wait_done_post(s1, t2, s2),
        now + wait <= t2,
    ensures
        wait > 0,
        now + wait == s0.window_start + s0.window_duration,
        t2 >= s0.window_start + s0.window_duration,
        s2.request_count == 0,
        s2.window_start == t2,
        same_settings(s0, s2),
{
}

/// The state of a limiter for `n` requests a minute, as `new` makes it,
/// after `k` requests that all fell in its first window, the last of them
/// recorded at `last` (0 before any).
pub open spec fn undelayed_state(s: RateLimiter, n: u32, k: nat, last: u128) -> bool {
    &&& s.min_interval == min_interval_for(n)
    &&& s.requests_per_window == n
    &&& s.window_duration == WINDOW_NANOS
    &&& s.window_start == WINDOW_NANOS
    &&& s.request_count == k
    &&& s.last_request == last
}

/// A run of requests on a limiter for `n` requests a minute, from the state
/// that `new` makes: request `i` begins at `begins[i]` in state `states[i]`,
/// `begin` takes it to `mids[i]` and returns `waits[i]`, and `finish` at
/// `ends[i]` takes it to `states[i + 1]`. Every request begins within one
/// window of the limiter's creation (its clock reads between one and two
/// window lengths), and each but the first at least the minimum interval
/// after the previous one was recorded.
pub open spec fn early_spaced_run(
    n: u32,
    states: Seq<RateLimiter>,
    begins: Seq<u128>,
    mids: Seq<RateLimiter>,
    waits: Seq<u128>,
    ends: Seq<u128>,
) -> bool {
    &&& states.len() == begins.len() + 1
    &&& mids.len() == begins.len()
    &&& waits.len() == begins.len()
    &&& ends.len() == begins.len()
    &&& undelayed_state(states[0], n, 0, 0)
    &&& forall|i: int| 0 <= i < begins.len() ==> WINDOW_NANOS <= #[trigger] begins[i] <= 2 * WINDOW_NANOS
    &&& forall|i: int| 0 < i < begins.len() ==> #[trigger] begins[i] >= ends[i - 1] + min_interval_for(n)
    &&& forall|i: int| 0 <= i < begins.len() ==> #[trigger] begin_post(states[i], begins[i], mids[i], waits[i])
    &&& forall|i: int| 0 <= i < begins.len() ==> #[trigger] finish_post(mids[i], ends[i], states[i + 1])
}

/// The minimum interval never exceeds one second.
proof fn lemma_min_interval_at_most_a_second(n: u32)
    ensures
        min_interval_for(n) <= 1000 * NANOS_PER_MILLI,
{
    if n != 0 {
        assert(1000u128 / (n as u128) <= 1000u128) by (nonlinear_arith)
            requires
                n as u128 >= 1,
        ;
    }
}

/// The first `m` requests of such a run asked for no wait, and left the
/// limiter in its first window with `m` requests counted.
proof fn lemma_undelayed_prefix(
    n: u32,
    states: Seq<RateLimiter>,
    begins: Seq<u128>,
    mids: Seq<RateLimiter>,
    waits: Seq<u128>,
    ends: Seq<u128>,
    m: nat,
)
    requires
        early_spaced_run(n, states, begins, mids, waits, ends),
        begins.len() <= n,
        m <= begins.len(),
    ensures
        undelayed_state(states[m as int], n, m, if m == 0 { 0 } else { ends[m - 1] }),
        forall|i: int|
            0 <= i < m ==> waits[i] == 0 && interval_wait_for(mids[i].last_request, mids[i].min_interval, begins[i])
                == 0,
    decreases m,
{
    if m > 0 {
        lemma_undelayed_prefix(n, states, begins, mids, waits, ends, (m - 1) as nat);
        lemma_min_interval_at_most_a_second(n);
        let i: int = m - 1;
        assert(WINDOW_NANOS <= begins[i] <= 2 * WINDOW_NANOS);
        assert(begin_post(states[i], begins[i], mids[i], waits[i]));
        assert(finish_post(mids[i], ends[i], states[i + 1]));
        if i > 0 {
            assert(begins[i] >= ends[i - 1] + min_interval_for(n));
        }
    }
}

/// The first `n` requests after a limiter for `n` requests a minute is made
/// are not delayed, when each begins within one window of its creation and
/// at least the minimum interval after the previous one was recorded:
/// `begin` asks none of them for a window wait, and `interval_wait` finds
/// no gap owed.
pub proof fn lemma_first_requests_not_delayed(
    n: u32,
    states: Seq<RateLimiter>,
    begins: Seq<u128>,
    mids: Seq<RateLimiter>,
    waits: Seq<u128>,
    ends: Seq<u128>,
)
    requires
        early_spaced_run(n, states, begins, mids, waits, ends),
        begins.len() <= n,
    ensures
        forall|i: int|
            0 <= i < begins.len() ==> waits[i] == 0 && interval_wait_for(
                mids[i].last_request,
                mids[i].min_interval,
                begins[i],
            ) == 0,
{
    lemma_undelayed_prefix(n, states, begins, mids, waits, ends, begins.len());
    assert forall|i: int| 0 <= i < begins.len() implies waits[i] == 0 && interval_wait_for(
        mids[i].last_request,
        mids[i].min_interval,
        begins[i],
    ) == 0 by {}
}

/// A limiter for no requests a minute makes its first request, begun within
/// one window of its creation, wait until one window after its creation.
pub proof fn lemma_zero_quota_waits_first_window(s0: RateLimiter, now: u128, s1: RateLimiter, wait: u128)
    requires
        undelayed_state(s0, 0, 0, 0),
        WINDOW_NANOS <= now <= 2 * WINDOW_NANOS,
        begin_post(s0, now, s1, wait),
    ensures
        now + wait == 2 * WINDOW_NANOS,
{
}

} // verus!
