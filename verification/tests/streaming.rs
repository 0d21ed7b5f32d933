use vtcode_acp::streaming::{stop_reason_from_finish, FinishReason, StopReason};
use vtcode_acp::streaming::{
    add_output_tokens, deadline_from, duration_millis, estimated_delta_tokens, generation_output_tokens,
    provider_timeout_message, should_allow_streaming, should_emit_buffered_final_chunk, timestamp_unix_ms,
    tokens_per_second, unix_timestamp_millis, IncompleteProviderTurn, ProviderDeadlinePolicy, StreamDeadlineTracker,
    StreamTimeoutPhase, TokenCountSource,
};

const SECOND: u64 = 1000;

#[test]
fn finalization_only_emits_buffered_responses() {
    assert!(!should_emit_buffered_final_chunk(true), "streamed deltas are already visible");
    assert!(should_emit_buffered_final_chunk(false), "buffered drafts need one final chunk");
}

#[test]
fn streaming_eligibility_depends_only_on_provider_support_and_stop_hooks() {
    for supports in [false, true] {
        for tools in [false, true] {
            for stop_hooks in [false, true] {
                assert_eq!(should_allow_streaming(supports, tools, stop_hooks), supports && !stop_hooks);
            }
        }
    }
}

#[test]
fn stream_deadline_moves_from_first_token_to_idle_without_resetting_total() {
    let policy = ProviderDeadlinePolicy {
        connect: Some(30 * SECOND),
        first_token: Some(180 * SECOND),
        stream_idle: Some(120 * SECOND),
        total_generation: Some(600 * SECOND),
    };
    let started_at = 1_000_000;
    let total = deadline_from(started_at, policy.total_generation);
    let mut tracker = StreamDeadlineTracker::new(policy, started_at);

    assert_eq!(tracker.next().map(|(phase, _deadline)| phase), Some(StreamTimeoutPhase::FirstToken));
    let first_output_at = started_at + 20 * SECOND;
    tracker.observe_output_at(first_output_at);
    assert_eq!(tracker.next().map(|(phase, _deadline)| phase), Some(StreamTimeoutPhase::InterTokenIdle));
    assert_eq!(tracker.idle, deadline_from(first_output_at, policy.stream_idle));
    assert_eq!(tracker.total, total, "observing output must not extend the total generation deadline");
}

#[test]
fn observing_stream_output_replaces_only_the_first_token_deadline() {
    for first in [None, Some(1u64), Some(3_600)] {
        for idle in [None, Some(1u64), Some(3_600)] {
            for total in [None, Some(1u64), Some(7_200)] {
                for after in [0u64, 5, 3_600] {
                    let policy = ProviderDeadlinePolicy {
                        connect: None,
                        first_token: first.map(|s| s * SECOND),
                        stream_idle: idle.map(|s| s * SECOND),
                        total_generation: total.map(|s| s * SECOND),
                    };
                    let started_at = 10_000;
                    let observed_at = started_at + after * SECOND;
                    let mut tracker = StreamDeadlineTracker::new(policy, started_at);
                    let original_total = tracker.total;
                    tracker.observe_output_at(observed_at);
                    assert_eq!(tracker.first_token, None);
                    assert_eq!(tracker.idle, deadline_from(observed_at, policy.stream_idle));
                    assert_eq!(tracker.total, original_total);
                }
            }
        }
    }
}

#[test]
fn next_deadline_is_the_earliest_and_ties_keep_phase_order() {
    let tracker = StreamDeadlineTracker {
        policy: ProviderDeadlinePolicy { connect: None, first_token: None, stream_idle: None, total_generation: None },
        first_token: Some(50),
        idle: Some(50),
        total: Some(40),
    };
    assert_eq!(tracker.next(), Some((StreamTimeoutPhase::TotalGeneration, 40)));
    let tie = StreamDeadlineTracker { total: Some(50), ..tracker };
    assert_eq!(tie.next(), Some((StreamTimeoutPhase::FirstToken, 50)));
    let none = StreamDeadlineTracker { first_token: None, idle: None, total: None, ..tracker };
    assert_eq!(none.next(), None);
}

#[test]
fn phase_labels_and_timeouts() {
    let policy = ProviderDeadlinePolicy {
        connect: Some(1),
        first_token: Some(2),
        stream_idle: Some(3),
        total_generation: Some(4),
    };
    assert_eq!(StreamTimeoutPhase::FirstToken.label(), "time to first token");
    assert_eq!(StreamTimeoutPhase::InterTokenIdle.label(), "inter-token idle");
    assert_eq!(StreamTimeoutPhase::TotalGeneration.label(), "total generation");
    assert_eq!(StreamTimeoutPhase::FirstToken.timeout(policy), Some(2));
    assert_eq!(StreamTimeoutPhase::InterTokenIdle.timeout(policy), Some(3));
    assert_eq!(StreamTimeoutPhase::TotalGeneration.timeout(policy), Some(4));
}

#[test]
fn partial_stream_message_preserves_output_and_marks_it_incomplete() {
    let failed_turn = IncompleteProviderTurn::from_failure("partial answer", "partial reasoning", "stream disconnected");

    assert!(failed_turn.content.starts_with("partial answer"));
    assert!(failed_turn.content.contains("You can retry the prompt"));
    assert_eq!(failed_turn.reasoning.as_deref(), Some("partial reasoning"));
    assert!(failed_turn.incomplete_reason.contains("stream disconnected"));
}

#[test]
fn failure_without_output_or_detail_uses_the_fixed_sentence() {
    let turn = IncompleteProviderTurn::from_failure("", "", "   \n");
    assert_eq!(turn.content, turn.visible_update);
    assert_eq!(
        turn.visible_update,
        "The provider could not complete this turn. You can retry the prompt.\n\nProvider error: The provider did not report any additional details."
    );
    assert!(turn.reasoning.is_none());
    assert_eq!(turn.incomplete_reason, "The provider did not report any additional details.");
}

#[test]
fn failure_after_output_starts_on_a_new_paragraph() {
    let turn = IncompleteProviderTurn::from_failure("context gathered", "", "  502 Bad Gateway  ");
    assert!(turn.visible_update.starts_with("\n\n"));
    assert!(turn.visible_update.ends_with("Provider error: 502 Bad Gateway"));
    assert_eq!(turn.content, format!("context gathered{}", turn.visible_update));
    assert_eq!(turn.incomplete_reason, "502 Bad Gateway");
}

#[test]
fn durations_and_timestamps_saturate_as_specified() {
    assert_eq!(duration_millis(1_234), 1_234);
    assert_eq!(duration_millis(u128::from(u64::MAX) + 1), u64::MAX);
    assert_eq!(unix_timestamp_millis(Some(42)), 42);
    assert_eq!(unix_timestamp_millis(Some(u128::from(u64::MAX) + 1)), 0);
    assert_eq!(unix_timestamp_millis(None), 0);
    assert_eq!(timestamp_unix_ms(Some(u128::from(u64::MAX) + 1)), u64::MAX);
    assert_eq!(timestamp_unix_ms(None), 0);
}

#[test]
fn output_tokens_are_estimated_and_rated() {
    assert_eq!(estimated_delta_tokens(""), 0);
    assert_eq!(estimated_delta_tokens("abcd"), 1);
    assert_eq!(estimated_delta_tokens("abcde"), 2);
    assert_eq!(estimated_delta_tokens("\u{e9}\u{e9}\u{e9}"), 1);
    assert_eq!(add_output_tokens(u64::MAX - 1, 5), u64::MAX);
    assert_eq!(generation_output_tokens(Some(12), 40), (12, TokenCountSource::Provider));
    assert_eq!(generation_output_tokens(Some(0), 40), (40, TokenCountSource::Estimated));
    assert_eq!(generation_output_tokens(None, 40), (40, TokenCountSource::Estimated));
    assert_eq!(TokenCountSource::Provider.as_str(), "provider");
    assert_eq!(tokens_per_second(50, 2_000), 25);
    assert_eq!(tokens_per_second(3, 0), 3_000);
    assert_eq!(tokens_per_second(u64::MAX, 1), u64::MAX);
}

#[test]
fn timeout_message_names_provider_phase_and_duration() {
    assert_eq!(
        provider_timeout_message("Arli AI", "total generation", Some("600s")),
        "provider 'Arli AI' exceeded its total generation timeout (600s)"
    );
    assert_eq!(
        provider_timeout_message("x", "time to first token", None),
        "provider 'x' exceeded its time to first token timeout (configured deadline)"
    );
}

#[test]
fn finish_reasons_map_to_stop_reasons() {
    assert_eq!(stop_reason_from_finish(FinishReason::Stop), StopReason::EndTurn);
    assert_eq!(stop_reason_from_finish(FinishReason::ToolCalls), StopReason::EndTurn);
    assert_eq!(stop_reason_from_finish(FinishReason::Pause), StopReason::EndTurn);
    assert_eq!(stop_reason_from_finish(FinishReason::Length), StopReason::MaxTokens);
    assert_eq!(stop_reason_from_finish(FinishReason::ContentFilter), StopReason::Refusal);
    assert_eq!(stop_reason_from_finish(FinishReason::Refusal), StopReason::Refusal);
    assert_eq!(stop_reason_from_finish(FinishReason::Error), StopReason::Refusal);
}

#[test]
fn provider_failure_without_output_becomes_a_normal_retryable_turn() {
    let failed_turn = IncompleteProviderTurn::from_failure("", "", "\u{1b}[31m502 Bad Gateway\u{1b}[0m");

    assert_eq!(failed_turn.stop_reason, StopReason::EndTurn);
    assert_eq!(failed_turn.content, failed_turn.visible_update);
    assert!(failed_turn.visible_update.contains("You can retry the prompt"));
    assert!(failed_turn.visible_update.contains("502 Bad Gateway"));
    assert!(!failed_turn.visible_update.contains('\u{1b}'));
    assert_eq!(failed_turn.incomplete_reason, "502 Bad Gateway");
    assert_eq!(
        failed_turn.visible_update,
        "The provider could not complete this turn. You can retry the prompt.\n\nProvider error: 502 Bad Gateway"
    );
}

#[test]
fn an_error_made_only_of_escape_sequences_reports_no_details() {
    let turn = IncompleteProviderTurn::from_failure("", "", "\u{1b}[0m \u{1b}]8;;\u{1b}\\");
    assert_eq!(turn.incomplete_reason, "The provider did not report any additional details.");
}

#[test]
fn responses_output_progress_updates_exact_idle_boundary_without_sliding_total_deadline() {
    let started_at = 1_000_000;
    let total_deadline = started_at + 10 * SECOND;
    let mut tracker = StreamDeadlineTracker::new(
        ProviderDeadlinePolicy {
            connect: None,
            first_token: Some(5 * SECOND),
            stream_idle: Some(3 * SECOND),
            total_generation: Some(10 * SECOND),
        },
        started_at,
    );

    // Responses lifecycle/status frames do not call `observe_output_at`; only
    // model text, reasoning, or tool-input progress moves these deadlines.
    assert_eq!(tracker.next(), Some((StreamTimeoutPhase::FirstToken, started_at + 5 * SECOND)));
    tracker.observe_output_at(started_at + 5 * SECOND);
    assert_eq!(tracker.next(), Some((StreamTimeoutPhase::InterTokenIdle, started_at + 8 * SECOND)));
    tracker.observe_output_at(started_at + 8 * SECOND);
    assert_eq!(tracker.next(), Some((StreamTimeoutPhase::TotalGeneration, total_deadline)));
    tracker.observe_output_at(started_at + 9 * SECOND);
    assert_eq!(tracker.next(), Some((StreamTimeoutPhase::TotalGeneration, total_deadline)));
    assert_eq!(tracker.total, Some(total_deadline));
}

#[test]
fn responses_healthy_trickle_keeps_idle_open_but_still_preserves_total_budget() {
    let started_at = 1_000_000;
    let total_deadline = started_at + 20 * SECOND;
    let mut tracker = StreamDeadlineTracker::new(
        ProviderDeadlinePolicy {
            connect: None,
            first_token: Some(5 * SECOND),
            stream_idle: Some(4 * SECOND),
            total_generation: Some(20 * SECOND),
        },
        started_at,
    );

    for elapsed_seconds in [4, 7, 10, 13, 16, 17] {
        let progress_at = started_at + elapsed_seconds * SECOND;
        tracker.observe_output_at(progress_at);
        let (_phase, next_deadline) = tracker.next().expect("healthy Responses trickle deadline");
        assert!(next_deadline > progress_at);
        assert_eq!(tracker.total, Some(total_deadline));
    }
    assert_eq!(tracker.next(), Some((StreamTimeoutPhase::TotalGeneration, total_deadline)));
}
