//! Decisions of the event store around subscriptions, snapshots, retention
//! and interrupt requests. The store performs the queries; these functions
//! decide what to query, what to keep and what to do next.

use vstd::prelude::*;
use crate::metrics::{MetricRecord, record_head_lag, record_backfill_rows, record_is, MetricValueView};
use crate::text::str_equal;

verus! {

/// A snapshot is refreshed once the head has moved this far past it.
pub const SNAPSHOT_INTERVAL: u64 = 1000;

/// Trailing events kept after a final snapshot.
pub const RETENTION_TAIL: u64 = 200;

/// Most times a pending interrupt question may be asked again.
pub const MAX_ASK_COUNT: i64 = 3;

/// Only session aggregates get consumer-side snapshots.
pub fn snapshot_trigger_applies(aggregate_type: &str) -> (r: bool)
    ensures
        r == (aggregate_type@ == "session"@),
{
    str_equal(aggregate_type, "session")
}

/// The head has drifted at least `SNAPSHOT_INTERVAL` events past the latest
/// snapshot (or past 0 when there is none).
pub fn snapshot_due(head: u64, latest_snapshot_seq: Option<u64>) -> (r: bool)
    ensures
        r == (head as int >= (match latest_snapshot_seq { Some(s) => s as int, None => 0 }) + SNAPSHOT_INTERVAL),
{
    let last = match latest_snapshot_seq {
        Some(s) => s,
        None => 0,
    };
    head >= last && head - last >= SNAPSHOT_INTERVAL
}

/// A replay reached past the latest snapshot, so a new one is worth saving.
pub fn snapshot_worth_saving(last_replayed_seq: u64, latest_snapshot_seq: u64) -> (r: bool)
    ensures
        r == (last_replayed_seq > latest_snapshot_seq),
{
    last_replayed_seq > latest_snapshot_seq
}

/// Prune cutoff of the retention policy for an aggregate whose last event
/// has sequence `last_seq`: events with a lower sequence are deleted, so the
/// last `RETENTION_TAIL` remain. `None` when nothing would be deleted.
pub open spec fn spec_prune_below(last_seq: u64) -> Option<u64> {
    let below = if last_seq >= RETENTION_TAIL { last_seq - RETENTION_TAIL + 1 } else { 1 };
    if below <= 1 { None } else { Some(below as u64) }
}

pub fn retention_prune_below(last_seq: u64) -> (r: Option<u64>)
    ensures
        r == spec_prune_below(last_seq),
{
    let sub = if last_seq >= RETENTION_TAIL { last_seq - RETENTION_TAIL } else { 0 };
    let below = if sub < u64::MAX { sub + 1 } else { sub };
    if below <= 1 { None } else { Some(below) }
}

/// What the retention policy does to a terminated aggregate.
#[derive(Debug, Clone, Copy, PartialEq, Eq)]
pub struct RetentionPlan {
    /// Save a snapshot of the replayed state at this sequence.
    pub snapshot_at: Option<u64>,
    /// Then delete the events with a lower sequence.
    pub prune_below: Option<u64>,
}

/// The retention plan for an aggregate whose last event has sequence
/// `last_seq` (`None` when it has no events): snapshot the final state at
/// the last sequence, then prune all but the last `RETENTION_TAIL` events;
/// nothing at all for an aggregate without events.
pub fn plan_retention(last_seq: Option<u64>) -> (r: RetentionPlan)
    ensures
        match last_seq {
            None => r.snapshot_at is None && r.prune_below is None,
            Some(s) => r.snapshot_at == Some(s) && r.prune_below == spec_prune_below(s),
        },
{
    match last_seq {
        None => RetentionPlan { snapshot_at: None, prune_below: None },
        Some(s) => RetentionPlan { snapshot_at: Some(s), prune_below: retention_prune_below(s) },
    }
}

/// Retention keeps exactly the last `RETENTION_TAIL` sequences of an
/// aggregate numbered 1..=last_seq, and deletes nothing from one with at
/// most `RETENTION_TAIL` events.
pub proof fn lemma_retention_keeps_tail(last_seq: u64)
    ensures
        last_seq > RETENTION_TAIL ==> (spec_prune_below(last_seq) matches Some(b)
            && last_seq - b + 1 == RETENTION_TAIL
            && b - 1 == last_seq - RETENTION_TAIL),
        last_seq <= RETENTION_TAIL ==> spec_prune_below(last_seq) is None,
{
}

/// What a new subscription does before it goes live.
#[derive(Debug)]
pub struct SubscribePlan {
    /// Backfill the stored events with `backfill_after < sequence <= backfill_through`.
    pub backfill_after: u64,
    pub backfill_through: u64,
    /// Metric of how far behind the head the subscriber started.
    pub head_lag_metric: MetricRecord,
    /// Whether to reserve the aggregate's snapshot slot and spawn a snapshot task.
    pub snapshot_candidate: bool,
}

/// Plan a subscription to `aggregate_type`/`aggregate_id` after `since`,
/// given the head sequence read after the live listener was attached.
pub fn plan_subscribe(aggregate_type: &str, aggregate_id: &str, since: u64, head: u64) -> (r: SubscribePlan)
    ensures
        r.backfill_after == since,
        r.backfill_through == head,
        r.snapshot_candidate == (aggregate_type@ == "session"@),
        record_is(r.head_lag_metric, "subscribe_after.head_lag"@, "subscribe_after head lag"@, seq![
            ("aggregate_type"@, MetricValueView::Text(aggregate_type@)),
            ("aggregate_id"@, MetricValueView::Text(aggregate_id@)),
            ("head_lag"@, MetricValueView::Count(if head >= since { (head - since) as u64 } else { 0 })),
        ]),
{
    let lag = if head >= since { head - since } else { 0 };
    SubscribePlan {
        backfill_after: since,
        backfill_through: head,
        head_lag_metric: record_head_lag(aggregate_type, aggregate_id, lag),
        snapshot_candidate: snapshot_trigger_applies(aggregate_type),
    }
}

/// Metric of a completed backfill.
pub fn backfill_metric(aggregate_type: &str, aggregate_id: &str, rows: u64) -> (r: MetricRecord)
    ensures
        record_is(r, "subscribe_after.backfill_rows"@, "subscribe_after backfill"@, seq![
            ("aggregate_type"@, MetricValueView::Text(aggregate_type@)),
            ("aggregate_id"@, MetricValueView::Text(aggregate_id@)),
            ("rows"@, MetricValueView::Count(rows)),
        ]),
{
    record_backfill_rows(aggregate_type, aggregate_id, rows)
}

/// Whether a live event reaches the subscriber: only events past the head
/// that the backfill covered, so none is delivered twice.
pub fn live_event_passes(head: u64, sequence: u64) -> (r: bool)
    ensures
        r == (sequence > head),
{
    sequence > head
}

/// A subscriber sees each sequence at most once: backfilled sequences are
/// at most the head, live ones pass only above it.
pub proof fn lemma_backfill_and_live_disjoint(since: u64, head: u64, backfilled: u64, live: u64)
    requires
        since < backfilled <= head,
        live > head,
    ensures
        backfilled != live,
{
}

/// What saving an interrupt request does.
#[derive(Debug, Clone, Copy, PartialEq, Eq)]
pub enum InterruptSaveAction {
    /// Insert the request as a new pending row.
    Insert,
    /// The same question is already pending: count one more ask.
    BumpAskCount,
    /// The same question was asked too often; refuse.
    RejectDuplicate,
}

/// Decide how to save an interrupt request. `pending_same_question` is the
/// ask count of a pending request of the same agent with the same question
/// hash, when the request has a hash and such a row exists.
pub fn interrupt_save_action(pending_same_question: Option<i64>) -> (r: InterruptSaveAction)
    ensures
        r == match pending_same_question {
            None => InterruptSaveAction::Insert,
            Some(c) => if c >= MAX_ASK_COUNT { InterruptSaveAction::RejectDuplicate } else { InterruptSaveAction::BumpAskCount },
        },
{
    match pending_same_question {
        None => InterruptSaveAction::Insert,
        Some(c) => if c >= MAX_ASK_COUNT { InterruptSaveAction::RejectDuplicate } else { InterruptSaveAction::BumpAskCount },
    }
}

/// What an interrupt request asks for.
#[derive(Debug, Clone, Copy, PartialEq, Eq, Structural)]
pub enum InterruptKind {
    Hitl,
    Pause,
    Drain,
}

/// Where an interrupt request stands.
#[derive(Debug, Clone, Copy, PartialEq, Eq, Structural)]
pub enum InterruptStatus {
    Pending,
    Resolved,
    Expired,
}

pub open spec fn kind_text(k: InterruptKind) -> Seq<char> {
    match k {
        InterruptKind::Hitl => "hitl"@,
        InterruptKind::Pause => "pause"@,
        InterruptKind::Drain => "drain"@,
    }
}

/// A stored kind; unknown text reads as a drain.
pub open spec fn kind_of_text(s: Seq<char>) -> InterruptKind {
    if s == "hitl"@ {
        InterruptKind::Hitl
    } else if s == "pause"@ {
        InterruptKind::Pause
    } else {
        InterruptKind::Drain
    }
}

pub open spec fn status_text(st: InterruptStatus) -> Seq<char> {
    match st {
        InterruptStatus::Pending => "pending"@,
        InterruptStatus::Resolved => "resolved"@,
        InterruptStatus::Expired => "expired"@,
    }
}

/// A stored status; unknown text reads as pending.
pub open spec fn status_of_text(s: Seq<char>) -> InterruptStatus {
    if s == "resolved"@ {
        InterruptStatus::Resolved
    } else if s == "expired"@ {
        InterruptStatus::Expired
    } else {
        InterruptStatus::Pending
    }
}

impl InterruptKind {
    pub fn as_str(&self) -> (r: &'static str)
        ensures
            r@ == kind_text(*self),
    {
        match self {
            InterruptKind::Hitl => "hitl",
            InterruptKind::Pause => "pause",
            InterruptKind::Drain => "drain",
        }
    }

    pub fn from_text(s: &str) -> (r: InterruptKind)
        ensures
            r == kind_of_text(s@),
    {
        if str_equal(s, "hitl") {
            InterruptKind::Hitl
        } else if str_equal(s, "pause") {
            InterruptKind::Pause
        } else {
            InterruptKind::Drain
        }
    }
}

impl InterruptStatus {
    pub fn as_str(&self) -> (r: &'static str)
        ensures
            r@ == status_text(*self),
    {
        match self {
            InterruptStatus::Pending => "pending",
            InterruptStatus::Resolved => "resolved",
            InterruptStatus::Expired => "expired",
        }
    }

    pub fn from_text(s: &str) -> (r: InterruptStatus)
        ensures
            r == status_of_text(s@),
    {
        if str_equal(s, "resolved") {
            InterruptStatus::Resolved
        } else if str_equal(s, "expired") {
            InterruptStatus::Expired
        } else {
            InterruptStatus::Pending
        }
    }
}

/// Kinds and statuses read back as they were stored.
pub proof fn lemma_interrupt_text_round_trip(k: InterruptKind, st: InterruptStatus)
    ensures
        kind_of_text(kind_text(k)) == k,
        status_of_text(status_text(st)) == st,
{
    reveal_strlit("hitl");
    reveal_strlit("pause");
    reveal_strlit("drain");
    reveal_strlit("pending");
    reveal_strlit("resolved");
    reveal_strlit("expired");
    assert("pause"@[0] != "hitl"@[0]);
    assert("drain"@[0] != "hitl"@[0]);
    assert("drain"@[0] != "pause"@[0]);
    assert("pending"@[0] != "resolved"@[0]);
    assert("pending"@[0] != "expired"@[0]);
    assert("expired"@[0] != "resolved"@[0]);
}

} // verus!
