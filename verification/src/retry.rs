//! Retry policy for re-subscribing after a lagged broadcast.
//!
//! Times are monotonic milliseconds supplied by the caller. The lag counter is
//! sticky across window roll-overs: only a quiet period of clean receives
//! resets it, which prevents livelock under sustained bursts.

use vstd::prelude::*;
use crate::metrics::{MetricRecord, record_lagged_recovery, record_is, MetricValueView};

verus! {

/// Knobs of the lagged-retry policy (durations in milliseconds).
#[derive(Debug, Clone, Copy, PartialEq, Eq)]
pub struct RetryConfig {
    pub retry_window_ms: u64,
    pub quiet_period_ms: u64,
    pub cooldown_ms: u64,
    pub soft_limit: u32,
    pub hard_limit: u32,
}

impl RetryConfig {
    /// The default policy: 30 s window, 10 s quiet period, 30 s cooldown,
    /// soft limit 3, hard limit 6.
    pub fn default_config() -> (r: Self)
        ensures
            r.retry_window_ms == 30_000,
            r.quiet_period_ms == 10_000,
            r.cooldown_ms == 30_000,
            r.soft_limit == 3,
            r.hard_limit == 6,
    {
        RetryConfig {
            retry_window_ms: 30_000,
            quiet_period_ms: 10_000,
            cooldown_ms: 30_000,
            soft_limit: 3,
            hard_limit: 6,
        }
    }
}

impl Default for RetryConfig {
    fn default() -> (r: Self)
        ensures
            r.retry_window_ms == 30_000,
            r.quiet_period_ms == 10_000,
            r.cooldown_ms == 30_000,
            r.soft_limit == 3,
            r.hard_limit == 6,
    {
        RetryConfig::default_config()
    }
}

/// Counter state of the retry policy.
#[derive(Debug, Clone, Copy)]
pub struct RetryState {
    pub cfg: RetryConfig,
    pub lagged_retries_in_window: u32,
    pub window_start: u64,
    pub last_clean_recv: Option<u64>,
}

/// Elapsed milliseconds from `earlier` to `later`; zero if `later` is not after it.
pub open spec fn elapsed(later: u64, earlier: u64) -> int {
    if later >= earlier { later - earlier } else { 0 }
}

/// State after a clean receive at `now`.
pub open spec fn after_clean_recv(s: RetryState, now: u64) -> RetryState {
    let reset = match s.last_clean_recv {
        Some(prev) => elapsed(now, prev) >= s.cfg.quiet_period_ms,
        None => false,
    };
    RetryState {
        lagged_retries_in_window: if reset { 0 } else { s.lagged_retries_in_window },
        window_start: if reset { now } else { s.window_start },
        last_clean_recv: Some(now),
        ..s
    }
}

/// State after a lagged notification at `now`.
pub open spec fn after_lagged(s: RetryState, now: u64) -> RetryState {
    RetryState {
        window_start: if elapsed(now, s.window_start) > s.cfg.retry_window_ms { now } else { s.window_start },
        lagged_retries_in_window: (s.lagged_retries_in_window + 1) as u32,
        ..s
    }
}

impl RetryState {
    /// A fresh state whose window starts at `now`.
    pub fn new(cfg: RetryConfig, now: u64) -> (r: Self)
        ensures
            r.cfg == cfg,
            r.lagged_retries_in_window == 0,
            r.window_start == now,
            r.last_clean_recv is None,
    {
        RetryState { cfg, lagged_retries_in_window: 0, window_start: now, last_clean_recv: None }
    }

    /// Record a clean receive; resets the counter when at least a quiet
    /// period has passed since the previous clean receive.
    pub fn note_clean_recv(&mut self, now: u64)
        ensures
            *final(self) == after_clean_recv(*old(self), now),
    {
        if let Some(prev) = self.last_clean_recv {
            let d = if now >= prev { now - prev } else { 0 };
            if d >= self.cfg.quiet_period_ms {
                self.lagged_retries_in_window = 0;
                self.window_start = now;
            }
        }
        self.last_clean_recv = Some(now);
    }

    /// Record a lagged notification; rolls the window forward when it has
    /// expired but keeps counting.
    pub fn note_lagged(&mut self, now: u64)
        requires
            old(self).lagged_retries_in_window < u32::MAX,
        ensures
            *final(self) == after_lagged(*old(self), now),
    {
        let d = if now >= self.window_start { now - self.window_start } else { 0 };
        if d > self.cfg.retry_window_ms {
            self.window_start = now;
        }
        self.lagged_retries_in_window = self.lagged_retries_in_window + 1;
    }

    /// The retry budget is exhausted.
    pub fn over_hard_limit(&self) -> (r: bool)
        ensures
            r == (self.lagged_retries_in_window >= self.cfg.hard_limit),
    {
        self.lagged_retries_in_window >= self.cfg.hard_limit
    }

    /// Retries should now pause for the cooldown.
    pub fn over_soft_limit(&self) -> (r: bool)
        ensures
            r == (self.lagged_retries_in_window >= self.cfg.soft_limit),
    {
        self.lagged_retries_in_window >= self.cfg.soft_limit
    }
}

/// The counter keeps growing across window roll-overs as long as no quiet
/// period of clean receives intervenes: each lag adds one.
pub proof fn lemma_lag_counter_is_sticky(s: RetryState, now: u64)
    requires
        s.lagged_retries_in_window < u32::MAX,
    ensures
        after_lagged(s, now).lagged_retries_in_window == s.lagged_retries_in_window + 1,
        after_lagged(s, now).last_clean_recv == s.last_clean_recv,
{
}

/// A clean receive at least a quiet period after the previous one resets
/// the counter; one sooner than that leaves it unchanged.
pub proof fn lemma_quiet_period_resets(s: RetryState, prev: u64, now: u64)
    requires
        s.last_clean_recv == Some(prev),
    ensures
        now >= prev + s.cfg.quiet_period_ms ==> after_clean_recv(s, now).lagged_retries_in_window == 0,
        elapsed(now, prev) < s.cfg.quiet_period_ms ==> after_clean_recv(s, now).lagged_retries_in_window
            == s.lagged_retries_in_window,
{
}

/// What the wrapped subscription produced.
#[derive(Debug, Clone, Copy, PartialEq, Eq)]
pub enum StreamItem {
    /// An event with this sequence number.
    Event { sequence: u64 },
    /// The listener fell behind and `dropped` events were lost.
    Lagged { dropped: u64 },
    /// Any other error (including failure to subscribe).
    Failed,
    /// The stream ended.
    Ended,
}

/// What the driver of a resilient subscription must do next.
#[derive(Debug, Clone)]
pub enum SubscribeAction {
    /// Hand the event (or item) to the consumer and keep reading.
    Forward,
    /// Emit `metric`, sleep the cooldown if `cooldown`, then subscribe again
    /// from sequence `from`.
    Resubscribe { from: u64, cooldown: bool, metric: MetricRecord },
    /// Emit `metric`, hand `PersistentLag(retries)` to the consumer and stop.
    Escalate { retries: u32, metric: MetricRecord },
    /// Hand the error to the consumer and stop.
    ForwardErrorAndStop,
    /// Stop without a further item.
    Stop,
}

/// A subscription to one aggregate that re-subscribes from the last seen
/// sequence on lag and escalates once the retry budget is spent.
#[derive(Debug, Clone)]
pub struct ResilientSubscription {
    pub aggregate_type: String,
    pub aggregate_id: String,
    pub last_seq: u64,
    pub retry: RetryState,
}

impl ResilientSubscription {
    /// Start following `aggregate_type`/`aggregate_id` after sequence `since`.
    pub fn new(aggregate_type: String, aggregate_id: String, since: u64, cfg: RetryConfig, now: u64) -> (r: Self)
        ensures
            r.aggregate_type == aggregate_type,
            r.aggregate_id == aggregate_id,
            r.last_seq == since,
            r.retry.cfg == cfg,
            r.retry.lagged_retries_in_window == 0,
            r.retry.window_start == now,
            r.retry.last_clean_recv is None,
    {
        ResilientSubscription { aggregate_type, aggregate_id, last_seq: since, retry: RetryState::new(cfg, now) }
    }

    /// Decide what to do with the next item of the underlying stream.
    /// While the counter is below the hard limit it cannot overflow, so the
    /// requirement holds for every subscription driven only by this method
    /// under a hard limit below `u32::MAX`.
    pub fn on_item(&mut self, item: StreamItem, now: u64) -> (r: SubscribeAction)
        requires
            old(self).retry.lagged_retries_in_window < u32::MAX,
        ensures
            final(self).aggregate_type == old(self).aggregate_type,
            final(self).aggregate_id == old(self).aggregate_id,
            *final(self) == sub_step(*old(self), item, now),
            match item {
                StreamItem::Event { sequence } => {
                    &&& final(self).last_seq == sequence
                    &&& final(self).retry == after_clean_recv(old(self).retry, now)
                    &&& r is Forward
                },
                StreamItem::Lagged { dropped } => {
                    let s2 = after_lagged(old(self).retry, now);
                    &&& final(self).last_seq == old(self).last_seq
                    &&& final(self).retry == s2
                    &&& if s2.lagged_retries_in_window >= s2.cfg.hard_limit {
                        r matches SubscribeAction::Escalate { retries, metric }
                            && retries == s2.lagged_retries_in_window
                            && lag_metric(metric, old(self).aggregate_type@, old(self).aggregate_id@, dropped)
                    } else {
                        r matches SubscribeAction::Resubscribe { from, cooldown, metric }
                            && from == old(self).last_seq
                            && cooldown == (s2.lagged_retries_in_window >= s2.cfg.soft_limit)
                            && lag_metric(metric, old(self).aggregate_type@, old(self).aggregate_id@, dropped)
                    }
                },
                StreamItem::Failed => *final(self) == *old(self) && r is ForwardErrorAndStop,
                StreamItem::Ended => *final(self) == *old(self) && r is Stop,
            },
    {
        match item {
            StreamItem::Event { sequence } => {
                self.last_seq = sequence;
                self.retry.note_clean_recv(now);
                SubscribeAction::Forward
            },
            StreamItem::Lagged { dropped } => {
                self.retry.note_lagged(now);
                let metric = record_lagged_recovery(self.aggregate_type.as_str(), self.aggregate_id.as_str(), dropped);
                if self.retry.over_hard_limit() {
                    SubscribeAction::Escalate { retries: self.retry.lagged_retries_in_window, metric }
                } else {
                    SubscribeAction::Resubscribe {
                        from: self.last_seq,
                        cooldown: self.retry.over_soft_limit(),
                        metric,
                    }
                }
            },
            StreamItem::Failed => SubscribeAction::ForwardErrorAndStop,
            StreamItem::Ended => SubscribeAction::Stop,
        }
    }
}

/// The subscription after one item at `now`: an event moves the resume
/// point to its sequence and counts as a clean receive; a lag counts as a
/// lag; an error or the end changes nothing.
pub open spec fn sub_step(s: ResilientSubscription, item: StreamItem, now: u64) -> ResilientSubscription {
    match item {
        StreamItem::Event { sequence } => ResilientSubscription {
            last_seq: sequence,
            retry: after_clean_recv(s.retry, now),
            ..s
        },
        StreamItem::Lagged { dropped } => ResilientSubscription { retry: after_lagged(s.retry, now), ..s },
        _ => s,
    }
}

/// The subscription after `items`, the i-th arriving at `times[i]`.
pub open spec fn sub_run(s: ResilientSubscription, items: Seq<StreamItem>, times: Seq<u64>) -> ResilientSubscription
    decreases items.len(),
{
    if items.len() == 0 || times.len() == 0 {
        s
    } else {
        sub_step(sub_run(s, items.drop_last(), times.drop_last()), items.last(), times.last())
    }
}

/// The sequence of the last event among `items`, or `since` when there is
/// none.
pub open spec fn resume_point(since: u64, items: Seq<StreamItem>) -> u64
    decreases items.len(),
{
    if items.len() == 0 {
        since
    } else {
        match items.last() {
            StreamItem::Event { sequence } => sequence,
            _ => resume_point(since, items.drop_last()),
        }
    }
}

/// The sequences of the events among `items`, in order: what the
/// subscription forwards.
pub open spec fn forwarded(items: Seq<StreamItem>) -> Seq<u64>
    decreases items.len(),
{
    if items.len() == 0 {
        Seq::empty()
    } else {
        match items.last() {
            StreamItem::Event { sequence } => forwarded(items.drop_last()).push(sequence),
            _ => forwarded(items.drop_last()),
        }
    }
}

/// Over a whole stream, across any number of lags and resubscriptions, the
/// subscription keeps following the same aggregate and its resume point is
/// the sequence of the last event it forwarded, or `since` before the first:
/// so each resubscription after a lag asks for what follows the last event
/// the consumer has seen.
pub proof fn lemma_stream_resumes_after_last_event(s: ResilientSubscription, items: Seq<StreamItem>, times: Seq<u64>)
    requires
        times.len() == items.len(),
    ensures
        sub_run(s, items, times).last_seq == resume_point(s.last_seq, items),
        sub_run(s, items, times).aggregate_type == s.aggregate_type,
        sub_run(s, items, times).aggregate_id == s.aggregate_id,
        forwarded(items).len() > 0 ==> resume_point(s.last_seq, items) == forwarded(items).last(),
        forwarded(items).len() == 0 ==> resume_point(s.last_seq, items) == s.last_seq,
    decreases items.len(),
{
    if items.len() > 0 {
        lemma_stream_resumes_after_last_event(s, items.drop_last(), times.drop_last());
    }
}

/// `m` is the lagged-recovery metric of this aggregate.
pub open spec fn lag_metric(m: MetricRecord, agg_type: Seq<char>, agg_id: Seq<char>, dropped: u64) -> bool {
    record_is(m, "subscribe_after.lagged_recovery_total"@, "subscribe_after lag recovery"@, seq![
        ("aggregate_type"@, MetricValueView::Text(agg_type)),
        ("aggregate_id"@, MetricValueView::Text(agg_id)),
        ("dropped"@, MetricValueView::Count(dropped)),
    ])
}

/// The state after lag notifications at the given times, with no clean
/// receive in between.
pub open spec fn lagged_times(s: RetryState, times: Seq<u64>) -> RetryState
    decreases times.len(),
{
    if times.len() == 0 {
        s
    } else {
        after_lagged(lagged_times(s, times.drop_last()), times.last())
    }
}

/// Under sustained lag with no clean receives the counter never resets,
/// whatever the times: after `k` lags it has grown by exactly `k`, so a
/// fresh subscription escalates on precisely its `hard_limit`-th lag.
pub proof fn lemma_lags_accumulate(s: RetryState, times: Seq<u64>)
    requires
        s.lagged_retries_in_window + times.len() <= u32::MAX,
    ensures
        lagged_times(s, times).lagged_retries_in_window == s.lagged_retries_in_window + times.len(),
        lagged_times(s, times).cfg == s.cfg,
        lagged_times(s, times).lagged_retries_in_window >= s.cfg.hard_limit
            <==> s.lagged_retries_in_window + times.len() >= s.cfg.hard_limit,
    decreases times.len(),
{
    if times.len() > 0 {
        lemma_lags_accumulate(s, times.drop_last());
    }
}

} // verus!
