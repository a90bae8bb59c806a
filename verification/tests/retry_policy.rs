use nephila::retry::{ResilientSubscription, RetryConfig, RetryState, StreamItem, SubscribeAction};

fn cfg(retry_window_ms: u64, quiet_period_ms: u64, soft_limit: u32, hard_limit: u32) -> RetryConfig {
    RetryConfig { retry_window_ms, quiet_period_ms, cooldown_ms: 0, soft_limit, hard_limit }
}

#[test]
fn lagged_count_does_not_reset_when_window_rolls_without_quiet_period() {
    let mut state = RetryState::new(cfg(50, 60_000, 100, 1000), 0);
    for _ in 0..5 {
        state.note_lagged(0);
    }
    assert_eq!(state.lagged_retries_in_window, 5);

    state.note_lagged(60);
    assert_eq!(state.lagged_retries_in_window, 6, "counter must NOT reset when window rolls without QUIET_PERIOD");
    assert_eq!(state.window_start, 60);
}

#[test]
fn quiet_period_clean_recvs_reset_counter() {
    let mut state = RetryState::new(cfg(60_000, 10, 100, 1000), 0);
    for _ in 0..5 {
        state.note_lagged(0);
    }
    state.note_clean_recv(0);
    assert_eq!(state.lagged_retries_in_window, 5);

    state.note_clean_recv(20);
    assert_eq!(state.lagged_retries_in_window, 0);
}

#[test]
fn soft_and_hard_limits_trigger_at_thresholds() {
    let mut state = RetryState::new(cfg(60_000, 60_000, 3, 6), 0);
    for _ in 0..2 {
        state.note_lagged(0);
    }
    assert!(!state.over_soft_limit());
    state.note_lagged(0);
    assert!(state.over_soft_limit());
    for _ in 0..3 {
        state.note_lagged(0);
    }
    assert!(state.over_hard_limit());
}

#[test]
fn default_config_values() {
    let d = RetryConfig::default();
    assert_eq!((d.retry_window_ms, d.quiet_period_ms, d.cooldown_ms, d.soft_limit, d.hard_limit), (30_000, 10_000, 30_000, 3, 6));
}

#[test]
fn subscription_resubscribes_from_last_seen_then_escalates() {
    let mut sub = ResilientSubscription::new("session".into(), "agg".into(), 0, cfg(60_000, 60_000, 2, 3), 0);
    assert!(matches!(sub.on_item(StreamItem::Event { sequence: 7 }, 1), SubscribeAction::Forward));
    match sub.on_item(StreamItem::Lagged { dropped: 4 }, 2) {
        SubscribeAction::Resubscribe { from, cooldown, .. } => {
            assert_eq!(from, 7);
            assert!(!cooldown);
        }
        other => panic!("expected resubscribe, got {other:?}"),
    }
    match sub.on_item(StreamItem::Lagged { dropped: 1 }, 3) {
        SubscribeAction::Resubscribe { from, cooldown, .. } => {
            assert_eq!(from, 7);
            assert!(cooldown);
        }
        other => panic!("expected resubscribe with cooldown, got {other:?}"),
    }
    assert!(matches!(sub.on_item(StreamItem::Lagged { dropped: 1 }, 4), SubscribeAction::Escalate { retries: 3, .. }));
}

#[test]
fn subscription_stops_on_end_and_forwards_errors() {
    let mut sub = ResilientSubscription::new("session".into(), "agg".into(), 0, RetryConfig::default(), 0);
    assert!(matches!(sub.on_item(StreamItem::Failed, 0), SubscribeAction::ForwardErrorAndStop));
    let mut sub2 = ResilientSubscription::new("session".into(), "agg".into(), 0, RetryConfig::default(), 0);
    assert!(matches!(sub2.on_item(StreamItem::Ended, 0), SubscribeAction::Stop));
}

#[test]
fn each_resubscription_resumes_after_the_last_forwarded_event() {
    let mut sub = ResilientSubscription::new("session".into(), "s-1".into(), 3, cfg(1000, 1000, 100, 1000), 0);
    let items = [
        StreamItem::Lagged { dropped: 2 },
        StreamItem::Event { sequence: 5 },
        StreamItem::Event { sequence: 6 },
        StreamItem::Lagged { dropped: 1 },
        StreamItem::Lagged { dropped: 4 },
        StreamItem::Event { sequence: 9 },
        StreamItem::Lagged { dropped: 1 },
    ];
    let mut forwarded = Vec::new();
    let mut resumed_from = Vec::new();
    for (t, item) in items.iter().enumerate() {
        match sub.on_item(*item, t as u64) {
            SubscribeAction::Forward => {
                if let StreamItem::Event { sequence } = item {
                    forwarded.push(*sequence);
                }
            }
            SubscribeAction::Resubscribe { from, .. } => resumed_from.push(from),
            _ => panic!("unexpected action"),
        }
    }
    assert_eq!(forwarded, vec![5, 6, 9]);
    assert_eq!(resumed_from, vec![3, 6, 6, 9]);
    assert_eq!(sub.last_seq, 9);
    assert_eq!(sub.aggregate_id, "s-1");
}
