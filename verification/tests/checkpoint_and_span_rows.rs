use nephila::agent_record::{RowError, RowErrorKind, Timestamp};
use nephila::checkpoint_record::{checkpoint_from_parts, decode_checkpoint_row, CheckpointRow};
use nephila::ids::{AgentId, CheckpointId};
use nephila::span_record::{decode_span_row, span_from_parts, SpanParse, SpanRow};

fn checkpoint() -> CheckpointRow {
    CheckpointRow {
        id: CheckpointId(3),
        agent_id: AgentId(1),
        parent_id: Some(CheckpointId(2)),
        branch_label: Some("retry".into()),
        channels: "{\"objectives\":{\"reducer\":\"overwrite\",\"value\":[]}}".into(),
        l2_namespace: "general".into(),
        interrupt: None,
        created_at: "2026-05-04T12:34:56Z".into(),
    }
}

#[test]
fn checkpoint_rows_decode() {
    let c = decode_checkpoint_row(checkpoint()).expect("decodes");
    assert_eq!(c.id, CheckpointId(3));
    assert_eq!(c.agent_id, AgentId(1));
    assert_eq!(c.parent_id, Some(CheckpointId(2)));
    assert_eq!(c.branch_label.as_deref(), Some("retry"));
    assert_eq!(c.l2_namespace, "general");
    assert_eq!(c.interrupt, None);
    assert_eq!(c.created_at, Timestamp { secs: 1_777_898_096, nanos: 0 });

    let mut with_interrupt = checkpoint();
    with_interrupt.interrupt = Some("{\"type\":\"hitl\",\"question\":\"ok?\"}".into());
    assert!(decode_checkpoint_row(with_interrupt).is_ok());
}

#[test]
fn broken_checkpoint_columns_are_reported_in_order() {
    let mut row = checkpoint();
    row.channels = "{".into();
    row.interrupt = Some("[".into());
    assert_eq!(decode_checkpoint_row(row).err(), Some(RowError { column: 4, kind: RowErrorKind::BadJson }));
    let mut row = checkpoint();
    row.interrupt = Some("[".into());
    row.created_at = "never".into();
    assert_eq!(decode_checkpoint_row(row).err(), Some(RowError { column: 6, kind: RowErrorKind::BadJson }));
    let mut row = checkpoint();
    row.created_at = "never".into();
    assert_eq!(decode_checkpoint_row(row).err(), Some(RowError { column: 7, kind: RowErrorKind::BadTimestamp }));
    let c = checkpoint_from_parts(checkpoint(), true, false, Some((1, 2))).unwrap();
    assert_eq!(c.created_at, Timestamp { secs: 1, nanos: 2 });
}

fn span() -> SpanRow {
    SpanRow {
        span_id: "s1".into(),
        trace_id: "t1".into(),
        parent_span_id: None,
        name: "append".into(),
        level: "\"Info\"".into(),
        target: "nephila_store".into(),
        start_time: "2026-05-04T12:34:56Z".into(),
        end_time: Some("2026-05-04T12:34:56.250Z".into()),
        duration_us: Some(250_000),
        attributes: "{\"rows\":3}".into(),
        events: "[]".into(),
        status: "\"Ok\"".into(),
    }
}

#[test]
fn span_rows_decode() {
    let s = decode_span_row(span()).expect("decodes");
    assert_eq!(s.span_id, "s1");
    assert_eq!(s.trace_id, "t1");
    assert_eq!(s.name, "append");
    assert_eq!(s.start_time, Timestamp { secs: 1_777_898_096, nanos: 0 });
    assert_eq!(s.end_time, Some(Timestamp { secs: 1_777_898_096, nanos: 250_000_000 }));
    assert_eq!(s.duration_us, Some(250_000));
    assert_eq!(s.level, "\"Info\"");
    let mut open = span();
    open.end_time = None;
    open.duration_us = None;
    let s = decode_span_row(open).unwrap();
    assert_eq!(s.end_time, None);
    assert_eq!(s.duration_us, None);
}

#[test]
fn broken_span_rows_are_refused() {
    let mut row = span();
    row.events = "[".into();
    row.start_time = "never".into();
    assert_eq!(decode_span_row(row).err(), Some(RowError { column: 0, kind: RowErrorKind::BadJson }));
    let mut row = span();
    row.end_time = Some("later".into());
    row.start_time = "never".into();
    assert_eq!(decode_span_row(row).err(), Some(RowError { column: 7, kind: RowErrorKind::BadTimestamp }));
    let mut row = span();
    row.start_time = "never".into();
    assert_eq!(decode_span_row(row).err(), Some(RowError { column: 6, kind: RowErrorKind::BadTimestamp }));
}

#[test]
fn negative_stored_duration_reads_as_unsigned() {
    let mut row = span();
    row.duration_us = Some(-1);
    let p = SpanParse {
        level_ok: true,
        attributes_ok: true,
        events_ok: true,
        status_ok: true,
        start: Some((0, 0)),
        end: None,
    };
    let s = span_from_parts(row, p).unwrap();
    assert_eq!(s.duration_us, Some(u64::MAX));
    assert_eq!(s.end_time, None);
}
