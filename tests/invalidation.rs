use level_thumbnails::invalidation::{
    purge_endpoint, purge_urls, PurgeResult, PurgeRetry, PurgeStep, MAX_PURGE_ATTEMPTS,
};

#[test]
fn rate_limited_then_purged() {
    let mut retry = PurgeRetry::new();
    assert!(retry.may_attempt());
    let step = retry.record(PurgeResult::Failed { status: 429 });
    assert_eq!(step, PurgeStep::RetryAfter { seconds: 30 });
    assert!(retry.may_attempt());
    let step = retry.record(PurgeResult::Purged);
    assert_eq!(step, PurgeStep::Done);
    assert_eq!(retry.attempts, 2);
}

#[test]
fn not_found_aborts_at_once() {
    let mut retry = PurgeRetry::new();
    let step = retry.record(PurgeResult::Failed { status: 404 });
    assert_eq!(step, PurgeStep::GiveUp);
    assert_eq!(retry.attempts, 1);
}

#[test]
fn server_errors_back_off_linearly_then_give_up() {
    let mut retry = PurgeRetry::new();
    let mut waits = Vec::new();
    loop {
        match retry.record(PurgeResult::Failed { status: 503 }) {
            PurgeStep::RetryAfter { seconds } => waits.push(seconds),
            PurgeStep::GiveUp => break,
            PurgeStep::Done => unreachable!(),
        }
    }
    assert_eq!(waits, vec![30, 60, 90, 120]);
    assert_eq!(retry.attempts, MAX_PURGE_ATTEMPTS);
    assert!(!retry.may_attempt());
    assert_eq!(retry.record(PurgeResult::Purged), PurgeStep::GiveUp);
    assert_eq!(retry.attempts, MAX_PURGE_ATTEMPTS);
}

#[test]
fn status_classes() {
    for (status, transient) in [(500, true), (599, true), (429, true), (400, false), (403, false), (600, false), (302, false)] {
        let mut retry = PurgeRetry::new();
        let step = retry.record(PurgeResult::Failed { status });
        assert_eq!(matches!(step, PurgeStep::RetryAfter { .. }), transient, "status {}", status);
    }
}

#[test]
fn purge_targets() {
    let urls = purge_urls("https://example.org", 42);
    assert_eq!(
        urls,
        vec![
            "https://example.org/thumbnail/42",
            "https://example.org/thumbnail/42/small",
            "https://example.org/thumbnail/42/medium",
            "https://example.org/thumbnail/42/high",
            "https://example.org/thumbnail/42/info",
        ]
    );
    assert_eq!(purge_urls("", -3)[0], "/thumbnail/-3");
    assert_eq!(
        purge_endpoint("zone1"),
        "https://api.cloudflare.com/client/v4/zones/zone1/purge_cache"
    );
}
