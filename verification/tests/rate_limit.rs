use articwake::auth::limiter::{
    ClientAddr, RateLimiter, Verdict, MAX_ATTEMPTS_PER_WINDOW, RATE_LIMIT_WINDOW_MS,
};
use articwake::auth::{AppState, AuthError};
use articwake::config::Config;

fn create_test_config(pin_hash_path: &str) -> Config {
    Config {
        bind_host: "127.0.0.1".to_string(),
        port: 8080,
        homelab_mac: "aa:bb:cc:dd:ee:ff".to_string(),
        homelab_ip: "192.168.1.100".to_string(),
        homelab_broadcast: "255.255.255.255".to_string(),
        ssh_port: 2222,
        ssh_key_path: "/tmp/test-key".to_string(),
        pin_hash_path: pin_hash_path.to_string(),
    }
}

#[test]
fn test_rate_limit_allows_under_limit() {
    let config = create_test_config("/tmp/nonexistent");
    let mut state = AppState::new(config);
    let ip = ClientAddr::v4(192, 168, 1, 1);

    for _ in 0..MAX_ATTEMPTS_PER_WINDOW {
        assert!(state.check_rate_limit(ip, 1_000).is_ok());
    }
}

#[test]
fn test_rate_limit_blocks_over_limit() {
    let config = create_test_config("/tmp/nonexistent");
    let mut state = AppState::new(config);
    let ip = ClientAddr::v4(192, 168, 1, 2);

    for _ in 0..MAX_ATTEMPTS_PER_WINDOW {
        assert!(state.check_rate_limit(ip, 1_000).is_ok());
    }

    // 11th attempt should be blocked
    assert!(matches!(
        state.check_rate_limit(ip, 1_000),
        Err(AuthError::RateLimited)
    ));
}

#[test]
fn test_rate_limit_different_ips() {
    let config = create_test_config("/tmp/nonexistent");
    let mut state = AppState::new(config);
    let ip1 = ClientAddr::v4(192, 168, 1, 3);
    let ip2 = ClientAddr::v4(192, 168, 1, 4);

    // Max out ip1
    for _ in 0..MAX_ATTEMPTS_PER_WINDOW {
        assert!(state.check_rate_limit(ip1, 1_000).is_ok());
    }
    assert!(state.check_rate_limit(ip1, 1_000).is_err());

    // ip2 should still work
    assert!(state.check_rate_limit(ip2, 1_000).is_ok());
}

#[test]
fn window_and_maximum_are_sixty_seconds_and_ten() {
    assert_eq!(RATE_LIMIT_WINDOW_MS, 60_000);
    assert_eq!(MAX_ATTEMPTS_PER_WINDOW, 10);
}

#[test]
fn v4_address_is_packed_most_significant_octet_first() {
    assert_eq!(ClientAddr::v4(192, 168, 1, 1), ClientAddr::V4(0xc0a8_0101));
    assert_eq!(ClientAddr::v4(255, 255, 255, 255), ClientAddr::V4(u32::MAX));
    assert_eq!(ClientAddr::localhost(), ClientAddr::v4(127, 0, 0, 1));
}

#[test]
fn ten_within_sixty_seconds_pass_and_the_eleventh_is_rejected() {
    let mut limiter = RateLimiter::new();
    let a = ClientAddr::v4(10, 0, 0, 1);
    let b = ClientAddr::v4(10, 0, 0, 2);
    for i in 0..10u64 {
        assert_eq!(limiter.check(a, i * 5_000), Verdict::Allowed);
    }
    assert_eq!(limiter.check(a, 59_999), Verdict::Rejected);
    assert_eq!(limiter.check(b, 59_999), Verdict::Allowed);
}

#[test]
fn window_slides_with_the_earliest_attempt() {
    let mut limiter = RateLimiter::new();
    let a = ClientAddr::v4(10, 0, 0, 1);
    // One attempt at 0, nine at 30 s.
    assert_eq!(limiter.check(a, 0), Verdict::Allowed);
    for _ in 0..9 {
        assert_eq!(limiter.check(a, 30_000), Verdict::Allowed);
    }
    // One millisecond short of a full window since the first: still full.
    assert_eq!(limiter.check(a, 59_999), Verdict::Rejected);
    // A full window after the first attempt one place is free again.
    assert_eq!(limiter.check(a, 60_000), Verdict::Allowed);
    assert_eq!(limiter.check(a, 60_000), Verdict::Rejected);
    // A full window after the nine all of theirs are free.
    for _ in 0..9 {
        assert_eq!(limiter.check(a, 90_000), Verdict::Allowed);
    }
    assert_eq!(limiter.check(a, 90_000), Verdict::Rejected);
}

#[test]
fn rejected_attempts_are_not_recorded() {
    let mut limiter = RateLimiter::new();
    let a = ClientAddr::v4(10, 0, 0, 1);
    for _ in 0..10 {
        assert_eq!(limiter.check(a, 0), Verdict::Allowed);
    }
    // Hammering at the limit extends nothing.
    for t in 1..200u64 {
        assert_eq!(limiter.check(a, t * 100), Verdict::Rejected);
    }
    assert_eq!(limiter.check(a, 60_000), Verdict::Allowed);
}

#[test]
fn burst_drains_fully_after_the_window() {
    let mut limiter = RateLimiter::new();
    let a = ClientAddr::V6(1);
    for _ in 0..10 {
        assert_eq!(limiter.check(a, 7), Verdict::Allowed);
    }
    assert_eq!(limiter.check(a, 7 + 59_999), Verdict::Rejected);
    for _ in 0..10 {
        assert_eq!(limiter.check(a, 7 + 60_000), Verdict::Allowed);
    }
    assert_eq!(limiter.check(a, 7 + 60_000), Verdict::Rejected);
}

#[test]
fn v4_and_v6_addresses_with_the_same_bits_are_apart() {
    let mut limiter = RateLimiter::new();
    for _ in 0..10 {
        assert_eq!(limiter.check(ClientAddr::V4(1), 0), Verdict::Allowed);
    }
    assert_eq!(limiter.check(ClientAddr::V4(1), 0), Verdict::Rejected);
    assert_eq!(limiter.check(ClientAddr::V6(1), 0), Verdict::Allowed);
}

#[test]
fn attempt_logged_ahead_of_the_clock_counts() {
    let mut limiter = RateLimiter::new();
    let a = ClientAddr::v4(10, 0, 0, 9);
    for _ in 0..10 {
        assert_eq!(limiter.check(a, 500_000), Verdict::Allowed);
    }
    // The clock reads less than what is logged: nothing has left the window.
    assert_eq!(limiter.check(a, 100), Verdict::Rejected);
}

#[test]
fn limit_holds_at_the_end_of_time() {
    let mut limiter = RateLimiter::new();
    let a = ClientAddr::v4(10, 0, 0, 1);
    for _ in 0..10 {
        assert_eq!(limiter.check(a, u64::MAX), Verdict::Allowed);
    }
    assert_eq!(limiter.check(a, u64::MAX), Verdict::Rejected);
}
