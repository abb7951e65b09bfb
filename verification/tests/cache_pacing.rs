use yeast::cache::{fresh_crumb, fresh_crumb_at, CrumbCache};
use yeast::rate_limit::{RateLimiter, WINDOW_NANOS};

const MS: u128 = 1_000_000;
const S: u128 = 1_000_000_000;

fn wait_past(c: &CrumbCache, nanos: u128) {
    while c.created.elapsed().as_nanos() <= nanos {}
}

#[test]
fn crumb_cache_expires_after_its_ttl() {
    let c = CrumbCache::new("abc".to_string(), 3600);
    assert_eq!(c.crumb, "abc");
    assert_eq!(c.expires_at, 3600 * S);
    assert_eq!(c.session_cookies, "");
    assert!(!c.is_expired_at(0));
    assert!(!c.is_expired_at(3600 * S));
    // one nanosecond past the time to live is expired
    assert!(c.is_expired_at(3600 * S + 1));
}

#[test]
fn crumb_cache_remaining_time() {
    let c = CrumbCache::new("abc".to_string(), 10);
    assert_eq!(c.remaining_ttl_at(0), Some(10 * S));
    assert_eq!(c.remaining_ttl_at(500 * MS), Some(9_500 * MS));
    assert_eq!(c.remaining_ttl_at(10 * S), Some(0));
    assert_eq!(c.remaining_ttl_at(10 * S + 1), None);
    assert_eq!(c.remaining_ttl_at(10 * S + MS / 2), None);
}

#[test]
fn crumb_cache_with_the_longest_ttl() {
    let c = CrumbCache::new("x".to_string(), u64::MAX);
    assert_eq!(c.expires_at, u64::MAX as u128 * S);
    assert!(!c.is_expired_at(u64::MAX as u128));
    assert!(c.is_expired_at(u128::MAX));
    assert!(!c.is_expired());
}

#[test]
fn crumb_cache_reads_the_clock() {
    let c = CrumbCache::new("fresh".to_string(), 3600);
    assert!(!c.is_expired());
    let left = c.remaining_ttl().unwrap();
    assert!(left <= 3600 * S);
    assert!(left > 3000 * S);
    let old = CrumbCache::new("old".to_string(), 0);
    wait_past(&old, 0);
    assert!(old.is_expired());
    assert_eq!(old.remaining_ttl(), None);
}

#[test]
fn time_left_never_exceeds_the_ttl() {
    let c = CrumbCache::new("t".to_string(), 2);
    for now in [0u128, 1, 999 * MS, 2 * S, 2 * S + 1, u128::MAX] {
        if let Some(left) = c.remaining_ttl_at(now) {
            assert!(left <= 2 * S);
        }
    }
    assert!(c.remaining_ttl().unwrap() <= 2 * S);
}

#[test]
fn cached_crumb_is_reused_until_expiry() {
    let cache = Some(CrumbCache::new("tok".to_string(), 60));
    assert_eq!(fresh_crumb_at(&cache, 0), Some("tok".to_string()));
    assert_eq!(fresh_crumb_at(&cache, 60 * S), Some("tok".to_string()));
    assert_eq!(fresh_crumb_at(&cache, 60 * S + 1), None);
    assert_eq!(fresh_crumb_at(&None, 0), None);
}

#[test]
fn rate_limiter_starts_with_an_empty_window() {
    let r = RateLimiter::new(60);
    assert_eq!(r.min_interval, 16 * MS);
    assert_eq!(r.request_count, 0);
    assert_eq!(r.window_start, WINDOW_NANOS);
    assert_eq!(r.last_request, 0);
    assert_eq!(r.requests_per_window, 60);
    assert_eq!(r.window_duration, 60 * S);
    let none = RateLimiter::new(0);
    assert_eq!(none.min_interval, 1000 * MS);
    assert_eq!(none.requests_per_window, 0);
}

#[test]
fn rate_limiter_reads_the_clock() {
    let r = RateLimiter::new(120);
    assert_eq!(r.min_interval, 8 * MS);
    let t = r.clock();
    assert!(t >= WINDOW_NANOS);
    assert!(t < WINDOW_NANOS + 10 * S);
    assert!(r.clock() >= t);
}

#[test]
fn rate_limiter_waits_for_a_full_window() {
    let mut r = RateLimiter::new(2);
    assert_eq!(r.begin(60 * S), 0);
    r.finish(60 * S);
    assert_eq!(r.begin(61 * S), 0);
    r.finish(61 * S);
    // quota used up 5 s into the window: wait the remaining 55 s
    let wait = r.begin(65 * S);
    assert_eq!(wait, 55 * S);
    r.window_wait_done(120 * S);
    assert_eq!(r.request_count, 0);
    assert_eq!(r.window_start, 120 * S);
    r.finish(120 * S);
    assert_eq!(r.request_count, 1);
    assert!(r.request_count <= r.requests_per_window);
}

#[test]
fn rate_limiter_restarts_an_old_window() {
    let mut r = RateLimiter::new(1);
    r.finish(60 * S);
    assert_eq!(r.request_count, 1);
    // half a millisecond past the end of the window restarts it
    let wait = r.begin(120 * S + MS / 2);
    assert_eq!(wait, 0);
    assert_eq!(r.request_count, 0);
    assert_eq!(r.window_start, 120 * S + MS / 2);
}

#[test]
fn rate_limiter_counts_past_quota_at_the_window_edge() {
    // a request exactly at the end of a full window neither waits nor restarts
    let mut r = RateLimiter::new(1);
    r.finish(60 * S);
    let wait = r.begin(120 * S);
    assert_eq!(wait, 0);
    r.finish(120 * S);
    assert_eq!(r.request_count, 2);
}

#[test]
fn rate_limiter_spaces_requests() {
    let mut r = RateLimiter::new(4);
    r.finish(100 * S);
    assert_eq!(r.interval_wait(100 * S + 100 * MS), 150 * MS);
    assert_eq!(r.interval_wait(100 * S + 250 * MS), 0);
    assert_eq!(r.interval_wait(100 * S + 250 * MS - 1), 1);
    assert_eq!(r.interval_wait(99 * S), 250 * MS);
}

#[test]
fn paced_requests_are_a_minimum_interval_apart() {
    // previous request recorded at 70 s; the next begins 100 ms later and
    // sleeps off the remaining 150 ms of a 250 ms gap
    let mut r = RateLimiter::new(4);
    r.finish(70 * S);
    let now = 70 * S + 100 * MS;
    assert_eq!(r.begin(now), 0);
    let gap = r.interval_wait(now);
    assert_eq!(gap, 150 * MS);
    r.finish(now + gap);
    assert!(r.last_request >= 70 * S + r.min_interval);
}

#[test]
fn first_requests_are_not_delayed() {
    // three requests a minute, all within the first window, 400 ms apart
    let mut r = RateLimiter::new(3);
    for k in 0..3u128 {
        let now = 60 * S + 400 * MS * k;
        assert_eq!(r.begin(now), 0);
        assert_eq!(r.interval_wait(now), 0);
        r.finish(now);
    }
    assert_eq!(r.request_count, 3);
    // the fourth waits for the window to end
    assert_eq!(r.begin(61 * S), 59 * S);
}

#[test]
fn zero_quota_waits_for_the_first_window_to_end() {
    let mut r = RateLimiter::new(0);
    assert_eq!(r.begin(70 * S), 50 * S);
    let mut s = RateLimiter::new(0);
    assert_eq!(s.begin(WINDOW_NANOS), WINDOW_NANOS);
}

#[test]
fn cached_crumb_by_the_clock() {
    let fresh = Some(CrumbCache::new("live".to_string(), 3600));
    assert_eq!(fresh_crumb(&fresh), Some("live".to_string()));
    let stale = CrumbCache::new("old".to_string(), 0);
    wait_past(&stale, 0);
    assert_eq!(fresh_crumb(&Some(stale)), None);
    assert_eq!(fresh_crumb(&None), None);
}
