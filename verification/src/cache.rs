//! Crumb caching with an expiry time.
//!
//! Times are nanosecond counts on a monotonic clock: a cache entry (and a
//! rate limiter) keeps the instant it was made, and every time it looks at
//! is the number of nanoseconds elapsed since then. Every decision is made
//! by a function that takes that reading as an argument, and a thin method
//! that reads the clock calls it.

use vstd::prelude::*;

verus! {

/// `std::time::Instant`, a reading of the monotonic clock, carried through
/// unchanged.
#[verifier::external_type_specification]
#[verifier::external_body]
pub struct ExInstant(std::time::Instant);

/// `Clone` of `std::time::Instant`, a `Copy` type: the copy is the same
/// reading.
pub assume_specification[<std::time::Instant as std::clone::Clone>::clone](
    instant: &std::time::Instant,
) -> (r: std::time::Instant)
    ensures
        r == *instant,
;

/// Reads the monotonic clock (`std::time::Instant::now`). Nothing is promised
/// of the value: it depends on the time of the call.
#[verifier::external_body]
pub(crate) fn instant_now() -> (now: std::time::Instant) {
    std::time::Instant::now()
}

/// Nanoseconds elapsed on the monotonic clock since `start`
/// (`std::time::Instant::elapsed`, as `Duration::as_nanos` counts them).
/// Nothing is promised of the value: it depends on the time of the call; as
/// an unsigned count it cannot be negative, so no reading comes before
/// `start`.
#[verifier::external_body]
pub(crate) fn nanos_since(start: &std::time::Instant) -> (ns: u128) {
    start.elapsed().as_nanos()
}

/// Nanoseconds in a second.
pub const NANOS_PER_SECOND: u128 = 1_000_000_000;

/// `ttl_seconds` seconds in nanoseconds (`Duration::from_secs`).
pub open spec fn ttl_nanos(ttl_seconds: u64) -> u128 {
    (ttl_seconds * NANOS_PER_SECOND) as u128
}

/// A cached crumb is expired once the clock has passed its expiry time.
pub open spec fn expired_at(expires_at: u128, now: u128) -> bool {
    now > expires_at
}

/// Time left before expiry, or `None` once expired.
pub open spec fn remaining_at(expires_at: u128, now: u128) -> Option<u128> {
    if expired_at(expires_at, now) { None } else { Some((expires_at - now) as u128) }
}

/// A crumb together with the time at which it stops being valid, in
/// nanoseconds after the instant `created` at which the entry was made.
#[derive(Clone, Debug)]
pub struct CrumbCache {
    pub crumb: String,
    pub expires_at: u128,
    pub session_cookies: String,
    pub created: std::time::Instant,
}

impl CrumbCache {
    /// A cache entry that lives for `ttl_seconds` seconds from now: it
    /// expires `ttl_seconds` seconds (in nanoseconds) after it was made.
    pub fn new(crumb: String, ttl_seconds: u64) -> (r: Self)
        ensures
            r.crumb@ == crumb@,
            r.expires_at == ttl_nanos(ttl_seconds),
            r.session_cookies@ == Seq::<char>::empty(),
    {
        proof {
            lemma_ttl_nanos_fits(ttl_seconds);
        }
        let expires_at: u128 = (ttl_seconds as u128) * NANOS_PER_SECOND;
        CrumbCache { crumb, expires_at, session_cookies: String::new(), created: instant_now() }
    }

    /// Whether the entry has expired `now` nanoseconds after it was made.
    pub fn is_expired_at(&self, now: u128) -> (r: bool)
        ensures
            r == expired_at(self.expires_at, now),
    {
        now > self.expires_at
    }

    /// Whether the entry has expired by the clock.
    pub fn is_expired(&self) -> (r: bool)
        ensures
            exists|t: u128| r == expired_at(self.expires_at, t),
    {
        let now: u128 = nanos_since(&self.created);
        self.is_expired_at(now)
    }

    /// Nanoseconds left `now` nanoseconds after the entry was made, or
    /// `None` once expired.
    pub fn remaining_ttl_at(&self, now: u128) -> (r: Option<u128>)
        ensures
            r == remaining_at(self.expires_at, now),
    {
        if self.is_expired_at(now) {
            None
        } else {
            Some(self.expires_at - now)
        }
    }

    /// Nanoseconds left by the clock, or `None` once expired; the clock is
    /// read once. The time left never exceeds the time to live, since no
    /// reading comes before the entry was made.
    pub fn remaining_ttl(&self) -> (r: Option<u128>)
        ensures
            exists|t: u128| r == remaining_at(self.expires_at, t),
            r matches Some(left) ==> left <= self.expires_at,
    {
        let now: u128 = nanos_since(&self.created);
        self.remaining_ttl_at(now)
    }
}

/// The crumb that can be reused `now` nanoseconds after the entry was made:
/// the cached one, while it has not expired.
pub open spec fn fresh_crumb_of(cache: Option<CrumbCache>, now: u128) -> Option<Seq<char>> {
    match cache {
        Some(c) => if expired_at(c.expires_at, now) { None } else { Some(c.crumb@) },
        None => None,
    }
}

/// The crumb that can be reused at time `now`: the cached one, while it has
/// not expired.
pub fn fresh_crumb_at(cache: &Option<CrumbCache>, now: u128) -> (r: Option<String>)
    ensures
        crate::text::opt_chars(r) == fresh_crumb_of(*cache, now),
{
    match cache {
        Some(c) => if c.is_expired_at(now) {
            None
        } else {
            Some(c.crumb.clone())
        },
        None => None,
    }
}

/// An entry has time left exactly when it has not expired, and the time left
/// reaches the expiry time.
pub proof fn lemma_remaining_iff_not_expired(expires_at: u128, now: u128)
    ensures
        remaining_at(expires_at, now) is None <==> expired_at(expires_at, now),
        remaining_at(expires_at, now) matches Some(left) ==> now + left == expires_at,
{
}

/// A fresh entry is valid from its creation until its time to live has run
/// out, and expired right after.
pub proof fn lemma_fresh_entry_lifetime(ttl_seconds: u64, t: u128)
    ensures
        t <= ttl_seconds * NANOS_PER_SECOND ==> !expired_at(ttl_nanos(ttl_seconds), t),
        t > ttl_seconds * NANOS_PER_SECOND ==> expired_at(ttl_nanos(ttl_seconds), t),
        remaining_at(ttl_nanos(ttl_seconds), 0) == Some(ttl_nanos(ttl_seconds)),
{
    lemma_ttl_nanos_fits(ttl_seconds);
}

/// A time to live of any `u64` number of seconds fits in nanoseconds.
proof fn lemma_ttl_nanos_fits(ttl_seconds: u64)
    ensures
        ttl_nanos(ttl_seconds) == ttl_seconds * NANOS_PER_SECOND,
{
    assert(0 <= ttl_seconds * NANOS_PER_SECOND <= u128::MAX) by (nonlinear_arith)
        requires
            0 <= ttl_seconds <= u64::MAX,
    ;
}

/// The time left in an entry never exceeds its time to live, whenever the
/// clock is read after the entry was made.
pub proof fn lemma_time_left_within_ttl(ttl_seconds: u64, t: u128)
    ensures
        remaining_at(ttl_nanos(ttl_seconds), t) matches Some(left) ==> left <= ttl_seconds * NANOS_PER_SECOND,
{
    lemma_ttl_nanos_fits(ttl_seconds);
}

/// The crumb that can be reused now, by the clock (read once).
pub fn fresh_crumb(cache: &Option<CrumbCache>) -> (r: Option<String>)
    ensures
        exists|t: u128| crate::text::opt_chars(r) == fresh_crumb_of(*cache, t),
        cache.is_none() ==> r is None,
{
    let now: u128 = match cache {
        Some(c) => nanos_since(&c.created),
        None => 0,
    };
    fresh_crumb_at(cache, now)
}

/// A crumb stored with a time to live is handed back, unchanged, by every
/// lookup until the time to live has run out, and by none after.
pub proof fn lemma_cached_crumb_reused(c: CrumbCache, ttl_seconds: u64, t: u128)
    requires
        c.expires_at == ttl_nanos(ttl_seconds),
    ensures
        t <= ttl_seconds * NANOS_PER_SECOND ==> fresh_crumb_of(Some(c), t) == Some(c.crumb@),
        t > ttl_seconds * NANOS_PER_SECOND ==> fresh_crumb_of(Some(c), t) is None,
{
    lemma_ttl_nanos_fits(ttl_seconds);
}

} // verus!
