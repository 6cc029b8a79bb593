use axum::http::{HeaderMap, HeaderName, HeaderValue};
use harness_registry::ratelimit::{client_from, client_key, RateLimiter, MAX_TRACKED};
use std::time::{Duration, Instant};

#[test]
fn a_caller_within_its_limit_is_allowed() {
    let mut limiter = RateLimiter::new(3, Duration::from_secs(60).as_nanos());
    for i in 1..=3 {
        assert!(limiter.check("1.2.3.4"), "hit {i} should pass");
    }
}

#[test]
fn the_hit_past_the_limit_is_refused() {
    let mut limiter = RateLimiter::new(3, Duration::from_secs(60).as_nanos());
    for _ in 0..3 {
        assert!(limiter.check("1.2.3.4"));
    }
    assert!(!limiter.check("1.2.3.4"), "the fourth must be refused");
}

#[test]
fn callers_are_counted_separately() {
    // Otherwise one busy client would lock everybody else out, which is a
    // denial of service dressed as a rate limit.
    let mut limiter = RateLimiter::new(1, Duration::from_secs(60).as_nanos());
    assert!(limiter.check("1.1.1.1"));
    assert!(!limiter.check("1.1.1.1"));
    assert!(limiter.check("2.2.2.2"), "a different caller is unaffected");
}

#[test]
fn the_window_expires() {
    let ms = Duration::from_millis(1).as_nanos();
    let mut limiter = RateLimiter::new(1, ms);
    assert!(limiter.check_at("1.2.3.4", 0));
    assert!(!limiter.check_at("1.2.3.4", 0));
    assert!(limiter.check_at("1.2.3.4", 5 * ms), "a fresh window starts over");
}

#[test]
fn cloudflares_header_wins_over_the_chain() {
    // Cloudflare overwrites CF-Connecting-IP on ingress, so it is the one
    // an external caller cannot forge.
    let mut headers = HeaderMap::new();
    headers.insert("cf-connecting-ip", "9.9.9.9".parse().unwrap());
    headers.insert("x-forwarded-for", "1.1.1.1, 2.2.2.2".parse().unwrap());
    assert_eq!(client_key(&headers, None), "9.9.9.9");
}

#[test]
fn the_forwarded_chain_yields_the_original_client() {
    // First entry, not last: later hops are proxies.
    let mut headers = HeaderMap::new();
    headers.insert("x-forwarded-for", "1.1.1.1, 2.2.2.2".parse().unwrap());
    assert_eq!(client_key(&headers, None), "1.1.1.1");
}

#[test]
fn the_socket_address_is_the_last_resort() {
    let headers = HeaderMap::new();
    assert_eq!(client_key(&headers, Some("10.42.0.1")), "10.42.0.1");
    assert_eq!(client_key(&headers, None), "unknown");
}

#[test]
fn an_empty_header_does_not_become_the_key() {
    // Otherwise every caller sending a blank header shares one bucket.
    let mut headers = HeaderMap::new();
    headers.insert("cf-connecting-ip", "".parse().unwrap());
    assert_eq!(client_key(&headers, Some("10.42.0.1")), "10.42.0.1");
}

#[test]
fn the_clock_moves_the_window_on() {
    let window = Duration::from_millis(200);
    let mut limiter = RateLimiter::new(1, window.as_nanos());
    assert!(limiter.check("1.2.3.4"));
    assert!(!limiter.check("1.2.3.4"));
    let start = Instant::now();
    while start.elapsed() <= window {}
    assert!(limiter.check("1.2.3.4"), "a fresh window starts over");
}

#[test]
fn a_window_ends_exactly_at_its_length() {
    let mut limiter = RateLimiter::new(2, 100);
    assert!(limiter.check_at("a", 1_000));
    assert!(limiter.check_at("a", 1_099));
    assert!(!limiter.check_at("a", 1_099));
    assert!(limiter.check_at("a", 1_100));
    // The new window started at 1100, not at the hit before it.
    assert!(limiter.check_at("a", 1_199));
    assert!(!limiter.check_at("a", 1_199));
}

#[test]
fn a_clock_that_reads_earlier_counts_as_no_time() {
    let mut limiter = RateLimiter::new(1, 100);
    assert!(limiter.check_at("a", 500));
    assert!(!limiter.check_at("a", 10));
}

#[test]
fn a_limit_of_none_lets_nothing_through() {
    let mut limiter = RateLimiter::new(0, Duration::from_secs(60).as_nanos());
    assert!(!limiter.check("1.2.3.4"));
    assert!(!limiter.check("1.2.3.4"));
    assert!(!limiter.check("2.2.2.2"));
    let mut limiter = RateLimiter::new(0, 100);
    assert!(!limiter.check_at("a", 0));
    assert!(!limiter.check_at("a", 100));
}

#[test]
fn a_burst_at_a_boundary_reaches_twice_the_limit_and_no_more() {
    let mut limiter = RateLimiter::new(3, 1_000);
    // A window that starts early and is spent at its very end.
    assert!(limiter.check_at("a", 0));
    let mut passed = 0;
    for now in 990..1_010 {
        if limiter.check_at("a", now) {
            passed += 1;
        }
    }
    assert_eq!(passed, 5);

    let mut limiter = RateLimiter::new(3, 1_000);
    let mut passed = 0;
    for now in [998, 998, 998, 998, 1_998, 1_998, 1_998, 1_998, 1_998] {
        if limiter.check_at("a", now) {
            passed += 1;
        }
    }
    assert_eq!(passed, 6);
}

#[test]
fn a_full_table_drops_its_oldest_window_for_a_new_client() {
    let mut limiter = RateLimiter::new(1, 1_000_000);
    for i in 0..MAX_TRACKED {
        // The oldest window is neither the first nor the last to arrive.
        let now = if i == 777 { 5 } else { 10 + i as u128 };
        assert!(limiter.check_at(&format!("client-{i}"), now));
    }
    // Full of live windows: a new client is let in for the oldest.
    assert!(limiter.check_at("one-more", 100_000));
    assert!(!limiter.check_at("one-more", 100_000), "it is counted from then on");
    for i in [0, 1, 776, 778, MAX_TRACKED - 1] {
        assert!(!limiter.check_at(&format!("client-{i}"), 100_000), "client-{i} is still counted");
    }
    // The one that made room starts over, at the cost of the next oldest.
    assert!(limiter.check_at("client-777", 100_000));
    assert!(!limiter.check_at("client-777", 100_000));
    assert!(!limiter.check_at("client-1", 100_000));
    assert!(limiter.check_at("client-0", 100_000));
}

#[test]
fn a_full_table_turns_no_one_away_who_is_within_its_limit() {
    let mut limiter = RateLimiter::new(3, 1_000);
    for i in 0..MAX_TRACKED {
        assert!(limiter.check_at(&format!("client-{i}"), 10));
    }
    assert!(limiter.check_at("client-7", 20));
    assert!(limiter.check_at("client-7", 20));
    assert!(!limiter.check_at("client-7", 20), "only its own limit stops it");
    assert!(limiter.check_at("client-8", 20));
}

#[test]
fn windows_that_have_run_out_make_room_before_live_ones() {
    let mut limiter = RateLimiter::new(1, 1_000);
    assert!(limiter.check_at("old", 0));
    for i in 1..MAX_TRACKED {
        assert!(limiter.check_at(&format!("client-{i}"), 500));
    }
    // Full. The old window has run out and makes room; the live ones keep
    // their counts.
    assert!(limiter.check_at("new", 1_000));
    for i in [1, 2, MAX_TRACKED - 1] {
        assert!(!limiter.check_at(&format!("client-{i}"), 1_000), "client-{i} is still counted");
    }
    assert!(!limiter.check_at("new", 1_000));
}

#[test]
fn the_client_is_trimmed_and_blank_entries_are_passed_over() {
    assert_eq!(client_from(Some("  9.9.9.9 "), Some("1.1.1.1"), None), "9.9.9.9");
    assert_eq!(client_from(Some("   "), Some(" 1.1.1.1 ,2.2.2.2"), None), "1.1.1.1");
    assert_eq!(client_from(None, Some(" , 2.2.2.2"), Some("10.0.0.1")), "10.0.0.1");
    assert_eq!(client_from(None, Some(""), None), "unknown");
    assert_eq!(client_from(None, None, Some("")), "unknown");
}

#[test]
fn a_header_that_is_not_visible_ascii_names_nobody() {
    let mut headers = HeaderMap::new();
    headers.insert(
        "cf-connecting-ip",
        HeaderValue::from_bytes(&[0xc3, 0xa9]).unwrap(),
    );
    headers.insert("x-forwarded-for", "1.1.1.1".parse().unwrap());
    assert_eq!(client_key(&headers, None), "1.1.1.1");
}

#[test]
fn the_first_of_several_headers_counts() {
    let mut headers = HeaderMap::new();
    headers.append("x-forwarded-for", "1.1.1.1".parse().unwrap());
    headers.append("x-forwarded-for", "2.2.2.2".parse().unwrap());
    assert_eq!(client_key(&headers, None), "1.1.1.1");
    // Names compare without regard to case.
    let mut headers = HeaderMap::new();
    headers.insert(
        HeaderName::from_bytes(b"CF-Connecting-IP").unwrap(),
        "3.3.3.3".parse().unwrap(),
    );
    assert_eq!(client_key(&headers, None), "3.3.3.3");
}
