use coop_futures::polyfill::{
    parse_warning_threshold, wait_request, HelperPool, HELPER_CACHE_SIZE,
};

#[test]
fn pool_reuses_released_helpers() {
    let mut pool = HelperPool::new(HELPER_CACHE_SIZE);
    let (a, fresh_a) = pool.acquire().unwrap();
    assert!(fresh_a); // pool empty: the embedding creates a helper
    let retained = pool.release(a);
    assert!(retained); // under the cache size: kept for reuse
    let (b, fresh_b) = pool.acquire().unwrap();
    assert_eq!(b, a); // the idle helper is taken before any new one
    assert!(!fresh_b);
    pool.release(b);
}

#[test]
fn more_waits_than_cache_size_still_succeed() {
    let cache = 4;
    let mut pool = HelperPool::new(cache);
    let mut held = Vec::new();
    // Three times the cache size of concurrent waits: each gets its own
    // helper, none is handed out twice.
    for _ in 0..(3 * cache) {
        let (id, _) = pool.acquire().unwrap();
        assert!(!held.contains(&id));
        held.push(id);
    }
    // On release, only `cache` many idle helpers are retained; the rest are
    // torn down.
    let mut retained_count = 0;
    for id in held {
        if pool.release(id) {
            retained_count += 1;
        }
    }
    assert_eq!(retained_count, cache);
}

#[test]
fn helper_is_not_reused_while_busy() {
    let mut pool = HelperPool::new(2);
    let (a, _) = pool.acquire().unwrap();
    let (b, _) = pool.acquire().unwrap();
    let (c, _) = pool.acquire().unwrap();
    assert_ne!(a, b);
    assert_ne!(a, c);
    assert_ne!(b, c);
    pool.release(a);
    // A released helper may come back; the still-busy ones may not.
    let (d, _) = pool.acquire().unwrap();
    assert_ne!(d, b);
    assert_ne!(d, c);
}

#[test]
fn zero_cache_retains_nothing() {
    let mut pool = HelperPool::new(0);
    let (a, fresh) = pool.acquire().unwrap();
    assert!(fresh);
    // With a cache of zero, every helper is torn down on release.
    assert!(!pool.release(a));
    let (b, fresh_b) = pool.acquire().unwrap();
    assert!(fresh_b);
    assert_ne!(a, b);
    pool.release(b);
}

#[test]
fn wait_request_addresses_words() {
    let m = wait_request(8, 1, None);
    assert_eq!(m.index, 2);
    assert_eq!(m.expected, 1);
    assert_eq!(m.timeout_ms, None);
    let m2 = wait_request(0, 0, Some(1000));
    assert_eq!(m2.index, 0);
    assert_eq!(m2.timeout_ms, Some(1000));
}

#[test]
fn warning_threshold_parses_digits_only() {
    assert_eq!(parse_warning_threshold(b"250"), Some(250));
    assert_eq!(parse_warning_threshold(b"0"), Some(0));
    assert_eq!(parse_warning_threshold(b""), None);
    assert_eq!(parse_warning_threshold(b"10ms"), None);
    assert_eq!(parse_warning_threshold(b"-5"), None);
    // The largest value that fits, and the first that does not.
    assert_eq!(parse_warning_threshold(b"4294967295"), Some(u32::MAX));
    assert_eq!(parse_warning_threshold(b"4294967296"), None);
}
