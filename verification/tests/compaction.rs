use vtcode_acp::compaction::{
    compacted_outcome, plan_compaction, unchanged_compaction_outcome, AcpCompactionCause, CompactionFailure,
    admission_prompt_budget, guarded_prompt_tokens, lifecycle_compaction_mode, should_compact, CompactionMode,
    CompactionStrategy,
};

#[test]
fn arli_boundary_compacts_before_output_reservation_overflows_context() {
    let context_size = 524_288;

    assert_eq!(admission_prompt_budget(context_size), Some(470_836));
    assert_eq!(guarded_prompt_tokens(464_165), 556_998);
    assert!(should_compact(None, context_size, 464_165));
    assert!(should_compact(None, context_size, 507_905));
}

#[test]
fn prompt_below_soft_context_budget_does_not_compact() {
    assert!(!should_compact(None, 524_288, 300_000));
}

#[test]
fn small_context_reserves_at_least_default_output_and_margin() {
    assert_eq!(admission_prompt_budget(32_768), Some(15_360));
}

#[test]
fn lifecycle_compaction_mode_preserves_local_and_native_strategy() {
    assert_eq!(lifecycle_compaction_mode(CompactionStrategy::Local), CompactionMode::Local);
    assert_eq!(lifecycle_compaction_mode(CompactionStrategy::NativeStandalone), CompactionMode::Provider);
    assert_eq!(lifecycle_compaction_mode(CompactionStrategy::NativeInline), CompactionMode::Provider);
}

#[test]
fn guarded_estimate_is_monotonic_and_never_smaller() {
    let samples = [0usize, 1, 4, 5, 99, 100, 101, 464_165, 999_999_999];
    for &lower in &samples {
        for &upper in &samples {
            if lower <= upper {
                assert!(guarded_prompt_tokens(lower) >= lower);
                assert!(guarded_prompt_tokens(upper) >= guarded_prompt_tokens(lower));
            }
        }
    }
    assert_eq!(guarded_prompt_tokens(usize::MAX), usize::MAX);
}

#[test]
fn admission_budget_never_exceeds_context_window() {
    assert_eq!(admission_prompt_budget(0), None);
    for context_size in [1usize, 2, 1_000, 17_408, 163_840, 1_000_000_000] {
        let budget = admission_prompt_budget(context_size).expect("positive context has a budget");
        assert!(budget >= 1);
        assert!(budget <= context_size);
    }
}

#[test]
fn configured_threshold_lowers_the_trigger() {
    assert!(should_compact(Some(100_000), 524_288, 90_000));
    assert!(!should_compact(Some(100_000), 524_288, 80_000));
    assert!(!should_compact(None, 0, usize::MAX));
}

#[test]
fn compaction_failures_name_the_estimates() {
    assert_eq!(compacted_outcome(500, 100, Some(200)), Ok(true));
    let failure = compacted_outcome(500, 300, Some(200)).unwrap_err();
    assert_eq!(
        failure.message(),
        "ACP compaction reduced the prompt from an estimated 500 to 300 tokens, which still exceeds its safe provider admission budget"
    );
    assert_eq!(unchanged_compaction_outcome(AcpCompactionCause::PreflightEstimate, 100, Some(200)), Ok(false));
    let failure = unchanged_compaction_outcome(AcpCompactionCause::ProviderContextRejection, 100, Some(200)).unwrap_err();
    assert_eq!(failure, CompactionFailure::NoChange { prompt_tokens: 100 });
    assert_eq!(
        failure.message(),
        "ACP prompt uses an estimated 100 tokens, exceeds its safe provider admission budget, and automatic compaction made no change"
    );
}

#[test]
fn nothing_is_compacted_without_a_loaded_configuration() {
    assert_eq!(plan_compaction(false, AcpCompactionCause::ProviderContextRejection, 900, Some(100), Some(200)), None);
    assert_eq!(plan_compaction(false, AcpCompactionCause::PreflightEstimate, 900, Some(100), Some(200)), None);
    let rejected = plan_compaction(true, AcpCompactionCause::ProviderContextRejection, 10, Some(100), Some(200)).unwrap();
    assert!(rejected.force && rejected.reset_suppression);
    assert_eq!(plan_compaction(true, AcpCompactionCause::PreflightEstimate, 99, Some(100), Some(200)), None);
    let due = plan_compaction(true, AcpCompactionCause::PreflightEstimate, 150, Some(100), Some(200)).unwrap();
    assert!(!due.force && !due.reset_suppression);
    let forced = plan_compaction(true, AcpCompactionCause::PreflightEstimate, 250, Some(300), Some(200)).unwrap();
    assert!(forced.force);
}
