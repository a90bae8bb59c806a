use nephila::log_buffer::{format_log_line, MessageVisitor, TuiLogBuffer, TuiTracingLayer, MAX_ENTRIES};
use nephila::metrics::{record_backfill_rows, record_session_event_blob_spilled, record_session_respawn, MetricValue};

#[test]
fn metric_records_carry_name_target_and_fields() {
    let m = record_backfill_rows("session", "agg-1", 12);
    assert_eq!(m.metric, "subscribe_after.backfill_rows");
    assert_eq!(m.message, "subscribe_after backfill");
    assert_eq!(m.fields.len(), 3);
    assert_eq!(m.fields[0].0, "aggregate_type");
    assert!(matches!(&m.fields[2].1, MetricValue::Count(12)));

    let s = record_session_event_blob_spilled("agg-2", 9000);
    assert!(matches!(&s.fields[1].1, MetricValue::Count(9000)));
    let r = record_session_respawn("agg-3");
    assert_eq!(r.fields.len(), 1);
    assert_eq!(m.target, r.target);
}

#[test]
fn log_buffer_keeps_the_newest_entries() {
    let mut buf = TuiLogBuffer::new();
    for i in 0..(MAX_ENTRIES + 5) {
        buf.push(format!("line {i}"));
    }
    assert_eq!(buf.len(), MAX_ENTRIES);
    let lines = buf.lines();
    assert_eq!(lines.first().map(String::as_str), Some("line 5"));
    assert_eq!(lines.last().cloned(), Some(format!("line {}", MAX_ENTRIES + 4)));
}

#[test]
fn tracing_layer_formats_level_target_message_and_fields() {
    let mut v = MessageVisitor::new();
    v.record_debug("message", "hello".to_string());
    v.record_debug("count", "3".to_string());
    let line = format_log_line("INFO", "nephila::store", &v);
    let mut layer = TuiTracingLayer::new(TuiLogBuffer::new());
    layer.on_event("INFO", "nephila::store", &v);
    assert_eq!(layer.buffer.lines(), vec![line.clone()]);
    assert!(line.contains("hello"));
    assert!(line.contains("count=3"));
    assert!(line.contains("INFO"));
}
