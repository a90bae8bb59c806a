use vstd::prelude::*;

verus! {

/// Target under which every metric event is emitted.
pub open spec fn metrics_target() -> Seq<char> {
    "nephila_store::metrics"@
}

/// A field value of a metric event.
#[derive(Debug, Clone, PartialEq, Eq)]
pub enum MetricValue {
    Text(String),
    Count(u64),
}

/// One observability event: the stable metric name, its message and its
/// named fields, in emission order. The caller emits it through its logging
/// backend under `metrics_target()`.
#[derive(Debug, Clone)]
pub struct MetricRecord {
    pub target: String,
    pub metric: String,
    pub message: String,
    pub fields: Vec<(String, MetricValue)>,
}

/// Spec view of a field value.
pub enum MetricValueView {
    Text(Seq<char>),
    Count(u64),
}

pub open spec fn value_view(v: MetricValue) -> MetricValueView {
    match v {
        MetricValue::Text(s) => MetricValueView::Text(s@),
        MetricValue::Count(n) => MetricValueView::Count(n),
    }
}

/// Spec view of the fields of a record.
pub open spec fn fields_view(f: Seq<(String, MetricValue)>) -> Seq<(Seq<char>, MetricValueView)> {
    f.map_values(|p: (String, MetricValue)| (p.0@, value_view(p.1)))
}

/// `r` has the given metric name, message and fields.
pub open spec fn record_is(
    r: MetricRecord,
    metric: Seq<char>,
    message: Seq<char>,
    fields: Seq<(Seq<char>, MetricValueView)>,
) -> bool {
    &&& r.target@ == metrics_target()
    &&& r.metric@ == metric
    &&& r.message@ == message
    &&& fields_view(r.fields@) =~= fields
}

fn text_field(name: &str, value: &str) -> (r: (String, MetricValue))
    ensures
        r.0@ == name@,
        value_view(r.1) == MetricValueView::Text(value@),
{
    (name.to_owned(), MetricValue::Text(value.to_owned()))
}

fn count_field(name: &str, value: u64) -> (r: (String, MetricValue))
    ensures
        r.0@ == name@,
        value_view(r.1) == MetricValueView::Count(value),
{
    (name.to_owned(), MetricValue::Count(value))
}

fn make_record(metric: &str, message: &str, fields: Vec<(String, MetricValue)>) -> (r: MetricRecord)
    ensures
        r.target@ == metrics_target(),
        r.metric@ == metric@,
        r.message@ == message@,
        r.fields@ == fields@,
{
    MetricRecord {
        target: "nephila_store::metrics".to_owned(),
        metric: metric.to_owned(),
        message: message.to_owned(),
        fields,
    }
}

/// Fields shared by the per-aggregate subscription metrics.
fn aggregate_fields(aggregate_type: &str, aggregate_id: &str, name: &str, n: u64) -> (r: Vec<(String, MetricValue)>)
    ensures
        fields_view(r@) =~= seq![
            ("aggregate_type"@, MetricValueView::Text(aggregate_type@)),
            ("aggregate_id"@, MetricValueView::Text(aggregate_id@)),
            (name@, MetricValueView::Count(n)),
        ],
{
    let mut v: Vec<(String, MetricValue)> = Vec::new();
    v.push(text_field("aggregate_type", aggregate_type));
    v.push(text_field("aggregate_id", aggregate_id));
    v.push(count_field(name, n));
    v
}

/// A subscription recovered from a lagged broadcast, `dropped` events lost.
pub fn record_lagged_recovery(aggregate_type: &str, aggregate_id: &str, dropped: u64) -> (r: MetricRecord)
    ensures
        record_is(r, "subscribe_after.lagged_recovery_total"@, "subscribe_after lag recovery"@, seq![
            ("aggregate_type"@, MetricValueView::Text(aggregate_type@)),
            ("aggregate_id"@, MetricValueView::Text(aggregate_id@)),
            ("dropped"@, MetricValueView::Count(dropped)),
        ]),
{
    let f = aggregate_fields(aggregate_type, aggregate_id, "dropped", dropped);
    make_record("subscribe_after.lagged_recovery_total", "subscribe_after lag recovery", f)
}

/// A subscription backfilled `rows` stored events.
pub fn record_backfill_rows(aggregate_type: &str, aggregate_id: &str, rows: u64) -> (r: MetricRecord)
    ensures
        record_is(r, "subscribe_after.backfill_rows"@, "subscribe_after backfill"@, seq![
            ("aggregate_type"@, MetricValueView::Text(aggregate_type@)),
            ("aggregate_id"@, MetricValueView::Text(aggregate_id@)),
            ("rows"@, MetricValueView::Count(rows)),
        ]),
{
    let f = aggregate_fields(aggregate_type, aggregate_id, "rows", rows);
    make_record("subscribe_after.backfill_rows", "subscribe_after backfill", f)
}

/// A subscription started `head_lag` events behind the head.
pub fn record_head_lag(aggregate_type: &str, aggregate_id: &str, head_lag: u64) -> (r: MetricRecord)
    ensures
        record_is(r, "subscribe_after.head_lag"@, "subscribe_after head lag"@, seq![
            ("aggregate_type"@, MetricValueView::Text(aggregate_type@)),
            ("aggregate_id"@, MetricValueView::Text(aggregate_id@)),
            ("head_lag"@, MetricValueView::Count(head_lag)),
        ]),
{
    let f = aggregate_fields(aggregate_type, aggregate_id, "head_lag", head_lag);
    make_record("subscribe_after.head_lag", "subscribe_after head lag", f)
}

/// An append batch of `size` envelopes was committed.
pub fn record_append_batch_size(aggregate_type: &str, aggregate_id: &str, size: u64) -> (r: MetricRecord)
    ensures
        record_is(r, "append_batch.size"@, "append_batch size"@, seq![
            ("aggregate_type"@, MetricValueView::Text(aggregate_type@)),
            ("aggregate_id"@, MetricValueView::Text(aggregate_id@)),
            ("size"@, MetricValueView::Count(size)),
        ]),
{
    let f = aggregate_fields(aggregate_type, aggregate_id, "size", size);
    make_record("append_batch.size", "append_batch size", f)
}

/// A session event payload was truncated.
pub fn record_session_event_truncated(aggregate_id: &str) -> (r: MetricRecord)
    ensures
        record_is(r, "session_event.payload_truncated"@, "session event truncated"@, seq![
            ("aggregate_id"@, MetricValueView::Text(aggregate_id@)),
        ]),
{
    let mut f: Vec<(String, MetricValue)> = Vec::new();
    f.push(text_field("aggregate_id", aggregate_id));
    make_record("session_event.payload_truncated", "session event truncated", f)
}

/// A session event payload of `original_len` bytes was spilled to the blob store.
pub fn record_session_event_blob_spilled(aggregate_id: &str, original_len: u64) -> (r: MetricRecord)
    ensures
        record_is(r, "session_event.blob_spilled"@, "session event spilled to blob store"@, seq![
            ("aggregate_id"@, MetricValueView::Text(aggregate_id@)),
            ("original_len"@, MetricValueView::Count(original_len)),
        ]),
{
    let mut f: Vec<(String, MetricValue)> = Vec::new();
    f.push(text_field("aggregate_id", aggregate_id));
    f.push(count_field("original_len", original_len));
    make_record("session_event.blob_spilled", "session event spilled to blob store", f)
}

/// A session was respawned.
pub fn record_session_respawn(aggregate_id: &str) -> (r: MetricRecord)
    ensures
        record_is(r, "session.respawn_total"@, "session respawn (slice 4 wires this)"@, seq![
            ("aggregate_id"@, MetricValueView::Text(aggregate_id@)),
        ]),
{
    let mut f: Vec<(String, MetricValue)> = Vec::new();
    f.push(text_field("aggregate_id", aggregate_id));
    make_record("session.respawn_total", "session respawn (slice 4 wires this)", f)
}

/// A session fell back to resuming by session id.
pub fn record_session_fallback_to_session_id(aggregate_id: &str) -> (r: MetricRecord)
    ensures
        record_is(r, "session.fallback_to_session_id"@, "session fallback to session_id (slice 4 wires this)"@, seq![
            ("aggregate_id"@, MetricValueView::Text(aggregate_id@)),
        ]),
{
    let mut f: Vec<(String, MetricValue)> = Vec::new();
    f.push(text_field("aggregate_id", aggregate_id));
    make_record("session.fallback_to_session_id", "session fallback to session_id (slice 4 wires this)", f)
}

} // verus!
