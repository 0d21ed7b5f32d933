use vtcode_acp::rate_limits::{is_rate_limit, rate_limit_notice, rate_limit_snapshot, RateLimitMetadata};

fn limits() -> RateLimitMetadata {
    RateLimitMetadata::empty()
}

/// The percentage of a window used, as a client displays it.
fn used_percent(limit: u64, remaining: u64) -> f64 {
    ((limit.saturating_sub(remaining) as f64 / limit as f64) * 100.0).clamp(0.0, 100.0)
}

fn notice_message(limits: Option<RateLimitMetadata>) -> String {
    let reset_text = limits
        .and_then(|l| l.reset_after_millis)
        .map(|millis| format!("{:.3}", std::time::Duration::from_millis(millis).as_secs_f64()))
        .unwrap_or_default();
    rate_limit_notice(true, Some(429), "fixture", None, limits.as_ref(), &reset_text, Some("10.0"))
        .expect("rate-limit notice")
}

#[test]
fn baseten_windows_have_utilization_without_invented_reset_times() {
    let limits = RateLimitMetadata {
        requests_limit_per_minute: Some(60),
        requests_remaining_per_minute: Some(15),
        ..limits()
    };
    let snapshot = rate_limit_snapshot("baseten", "model", &limits, 100).expect("snapshot");
    assert_eq!(snapshot.fetched_at_epoch_seconds, 100);
    assert_eq!(snapshot.rate_limits.len(), 1);
    let limit = &snapshot.rate_limits[0];
    assert_eq!(limit.limit_id, "baseten:model:requests-minute");
    assert_eq!(limit.limit_name, "Requests/min (limit 60)");
    assert_eq!(limit.provider_id, "baseten");
    assert_eq!(limit.model_id, "model");
    let window = limit.windows[0];
    assert_eq!(used_percent(window.limit, window.remaining), 75.0);
    assert_eq!(window.used(), 45);
    assert_eq!(window.window_duration_seconds, 60);
    assert!(window.resets_at_epoch_seconds.is_none());
}

#[test]
fn fireworks_limit_only_headers_do_not_invent_utilization() {
    let limits = RateLimitMetadata {
        prompt_tokens_limit_per_second: Some(500),
        prompt_tokens: Some(100),
        ..limits()
    };
    let snapshot = rate_limit_snapshot("fireworks", "model", &limits, 100).expect("snapshot");
    assert_eq!(snapshot.rate_limits[0].limit_name, "Prompt tokens/s (limit 500)");
    assert!(snapshot.rate_limits[0].windows.is_empty());
}

#[test]
fn reset_interval_applies_only_to_together_request_window() {
    let limits = RateLimitMetadata {
        requests_limit_per_second: Some(10),
        requests_remaining_per_second: Some(0),
        tokens_limit_per_second: Some(100),
        tokens_remaining_per_second: Some(10),
        reset_after_millis: Some(1_250),
        ..limits()
    };
    let snapshot = rate_limit_snapshot("together", "model", &limits, 100).unwrap();
    assert_eq!(snapshot.rate_limits[0].windows[0].resets_at_epoch_seconds, Some(102));
    assert_eq!(snapshot.rate_limits[1].windows[0].resets_at_epoch_seconds, None);
}

#[test]
fn missing_zero_and_inconsistent_counts_cannot_fabricate_quota() {
    assert!(rate_limit_snapshot("provider", "model", &limits(), 0).is_none());
    let mut limits = RateLimitMetadata {
        requests_limit_per_minute: Some(0),
        requests_remaining_per_minute: Some(0),
        ..limits()
    };
    assert!(rate_limit_snapshot("provider", "model", &limits, 0).is_none());
    limits.requests_limit_per_minute = Some(5);
    limits.requests_remaining_per_minute = Some(6);
    assert!(rate_limit_snapshot("provider", "model", &limits, 0).unwrap().rate_limits[0].windows.is_empty());
}

#[test]
fn valid_counts_produce_bounded_finite_utilization() {
    for limit in [1u64, 2, 60, 1_000_000, u64::MAX] {
        for remaining in [0u64, 1, limit / 2, limit] {
            let used = used_percent(limit, remaining.min(limit));
            assert!(used.is_finite());
            assert!((0.0..=100.0).contains(&used));
        }
        assert!(used_percent(limit, limit).abs() < f64::EPSILON);
        assert!((used_percent(limit, 0) - 100.0).abs() < f64::EPSILON);
    }
}

#[test]
fn reset_that_overflows_the_clock_is_dropped() {
    let limits = RateLimitMetadata {
        requests_limit_per_second: Some(10),
        requests_remaining_per_second: Some(1),
        reset_after_millis: Some(5_000),
        ..limits()
    };
    let snapshot = rate_limit_snapshot("p", "m", &limits, u64::MAX - 1).unwrap();
    assert_eq!(snapshot.rate_limits[0].windows[0].resets_at_epoch_seconds, None);
}

#[test]
fn all_dimensions_appear_in_order() {
    let limits = RateLimitMetadata {
        requests_limit_per_minute: Some(1),
        tokens_limit_per_minute: Some(2),
        requests_limit_per_second: Some(3),
        tokens_limit_per_second: Some(4),
        prompt_tokens_limit_per_second: Some(5),
        cache_adjusted_prompt_tokens_limit_per_second: Some(6),
        generated_tokens_limit_per_second: Some(7),
        ..limits()
    };
    let snapshot = rate_limit_snapshot("p", "m", &limits, 0).unwrap();
    let ids: Vec<_> = snapshot.rate_limits.iter().map(|l| l.limit_id.as_str()).collect();
    assert_eq!(
        ids,
        [
            "p:m:requests-minute",
            "p:m:tokens-minute",
            "p:m:requests-second",
            "p:m:tokens-second",
            "p:m:prompt-second",
            "p:m:cache-adjusted-prompt-second",
            "p:m:generated-second",
        ]
    );
    assert_eq!(snapshot.rate_limits[5].limit_name, "Cache-adjusted prompt tokens/s (limit 6)");
}

#[test]
fn rate_limit_notice_preserves_retry_after_without_fabricating_a_window() {
    let message = rate_limit_notice(true, Some(429), "baseten", Some("17"), None, "", Some("20.0"))
        .expect("rate-limit notice");
    assert!(message.contains("Retry-After: 17"));
    assert!(message.contains("retry in 20.0s"));
}

#[test]
fn non_rate_limit_errors_do_not_emit_rate_limit_notices() {
    assert!(rate_limit_notice(false, None, "baseten", None, None, "", None).is_none());
    assert!(!is_rate_limit(false, Some(500)));
}

#[test]
fn baseten_notice_includes_zero_remaining_and_preserves_minute_units() {
    let message = notice_message(Some(RateLimitMetadata {
        requests_limit_per_minute: Some(60),
        requests_remaining_per_minute: Some(0),
        tokens_limit_per_minute: Some(100_000),
        tokens_remaining_per_minute: Some(1_000),
        ..limits()
    }));
    assert!(message.contains("request limit/min: 60"));
    assert!(message.contains("requests remaining/min: 0"));
    assert!(message.contains("token limit/min: 100000"));
    assert!(message.contains("tokens remaining/min: 1000"));
    assert!(!message.contains("limit/s:"));
}

#[test]
fn fireworks_notice_distinguishes_limits_from_request_usage() {
    let message = notice_message(Some(RateLimitMetadata {
        prompt_tokens_limit_per_second: Some(500),
        cache_adjusted_prompt_tokens_limit_per_second: Some(250),
        generated_tokens_limit_per_second: Some(50),
        prompt_tokens: Some(101),
        cached_prompt_tokens: Some(40),
        ..limits()
    }));
    assert!(message.contains("prompt token limit/s: 500"));
    assert!(message.contains("cache-adjusted prompt token limit/s: 250"));
    assert!(message.contains("generated token limit/s: 50"));
    assert!(message.contains("request prompt tokens: 101"));
    assert!(message.contains("request cached prompt tokens: 40"));
    assert!(!message.contains("/min:"));
}

#[test]
fn together_notice_reports_fractional_reset_interval() {
    let message = notice_message(Some(RateLimitMetadata { reset_after_millis: Some(1_250), ..limits() }));
    assert!(message.contains("provider reset interval: 1.250s"));
}

#[test]
fn missing_headers_leave_the_ordinary_429_notice() {
    assert_eq!(notice_message(None), "fixture returned HTTP 429 (rate limited); VTCode will retry in 10.0s");
    assert_eq!(notice_message(Some(limits())), notice_message(None));
    assert!(rate_limit_notice(true, None, "fixture", None, None, "", None).is_some());
}

#[test]
fn metadata_status_429_is_reported_even_when_error_is_not_reclassified() {
    assert!(rate_limit_notice(false, Some(429), "baseten", Some("10"), None, "", None).is_some());
}

#[test]
fn notice_without_scheduled_retry_says_so() {
    let message = rate_limit_notice(true, None, "p", None, None, "", None).unwrap();
    assert_eq!(message, "p returned HTTP 429 (rate limited); no further automatic retry is scheduled");
}
