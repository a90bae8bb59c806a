use nephila::agent_record::{RowError, RowErrorKind, Timestamp};
use nephila::event_record::{
    decode_event_row, decode_mcp_event_row, decode_snapshot_row, event_from_parts, mcp_event_from_parts, snapshot_from_parts,
    EventParse, EventRow, McpEventRow, SnapshotRow,
};
use nephila::ids::{AgentId, EventId, ObjectiveId};
use nephila::subscription::{live_step, LiveItem, LiveStep};

fn stored() -> EventRow {
    EventRow {
        id: "67e55044-10b1-426f-9247-bb680e5fe0c8".into(),
        aggregate_type: "session".into(),
        aggregate_id: "s1".into(),
        sequence: 3,
        event_type: "x".into(),
        payload: "{\"text\":\"e3\"}".into(),
        trace_id: "t".into(),
        outcome: "null".into(),
        timestamp: "2026-05-04T12:34:56Z".into(),
        context_snapshot: "null".into(),
        metadata: "{}".into(),
    }
}

#[test]
fn stored_event_row_decodes() {
    let e = decode_event_row(stored()).expect("decodes");
    assert_eq!(e.id, EventId(0x67e5504410b1426f9247bb680e5fe0c8));
    assert_eq!(e.aggregate_type, "session");
    assert_eq!(e.aggregate_id, "s1");
    assert_eq!(e.sequence, 3);
    assert_eq!(e.event_type, "x");
    assert_eq!(e.payload, "{\"text\":\"e3\"}");
    assert_eq!(e.trace_id, "t");
    assert_eq!(e.outcome, "null");
    assert_eq!(e.timestamp, Timestamp { secs: 1_777_898_096, nanos: 0 });
    assert_eq!(e.context_snapshot, "null");
    assert_eq!(e.metadata, "{}");
}

#[test]
fn broken_event_rows_are_refused() {
    let mut bad_id = stored();
    bad_id.id = "seven".into();
    bad_id.payload = "{".into();
    assert_eq!(decode_event_row(bad_id).err(), Some(RowError { column: 0, kind: RowErrorKind::BadId }));

    for which in 0..4 {
        let mut row = stored();
        match which {
            0 => row.payload = "{\"text\":".into(),
            1 => row.outcome = "nul".into(),
            2 => row.context_snapshot = "[1,".into(),
            _ => row.metadata = "{} trailing".into(),
        }
        row.timestamp = "never".into();
        assert_eq!(decode_event_row(row).err(), Some(RowError { column: 0, kind: RowErrorKind::BadJson }));
    }

    let mut late = stored();
    late.timestamp = "never".into();
    assert_eq!(decode_event_row(late).err(), Some(RowError { column: 8, kind: RowErrorKind::BadTimestamp }));
}

#[test]
fn negative_stored_sequence_reads_as_unsigned() {
    let parse = EventParse {
        id: Some(9),
        payload_ok: true,
        outcome_ok: true,
        context_ok: true,
        metadata_ok: true,
        timestamp: Some((1, 2)),
    };
    let mut row = stored();
    row.sequence = -1;
    let e = event_from_parts(row, parse).unwrap();
    assert_eq!(e.sequence, u64::MAX);
    assert_eq!(e.id, EventId(9));
    assert_eq!(e.timestamp, Timestamp { secs: 1, nanos: 2 });
}

#[test]
fn live_items_past_the_head_pass() {
    // Backfill covered sequences up to 3; a racing append numbered 4 arrives
    // live and is delivered, while an echo of 3 is dropped.
    assert_eq!(live_step(3, LiveItem::Event(4)), LiveStep::Deliver);
    assert_eq!(live_step(3, LiveItem::Event(3)), LiveStep::Skip);
    assert_eq!(live_step(3, LiveItem::Event(1)), LiveStep::Skip);
    assert_eq!(live_step(3, LiveItem::Lagged(17)), LiveStep::Lagged(17));
    assert_eq!(live_step(3, LiveItem::Closed), LiveStep::End);
}

#[test]
fn subscriber_trace_has_no_gaps_or_repeats() {
    // Backfill 1..=3 with head 3, then the listener echoes 2, 3 and brings 4, 5.
    let head = 3;
    let mut seen: Vec<u64> = vec![1, 2, 3];
    for s in [2u64, 3, 4, 5] {
        if live_step(head, LiveItem::Event(s)) == LiveStep::Deliver {
            seen.push(s);
        }
    }
    assert_eq!(seen, vec![1, 2, 3, 4, 5]);
}

fn mcp_row() -> McpEventRow {
    McpEventRow {
        id: "00000000-0000-0000-0000-00000000000a".into(),
        agent_id: AgentId(1),
        event_type: "\"ToolCall\"".into(),
        timestamp: "2026-05-04T12:34:56Z".into(),
        content: "{\"tool\":\"Bash\"}".into(),
        objective_id: Some(ObjectiveId(2)),
    }
}

#[test]
fn mcp_event_rows_decode() {
    let e = decode_mcp_event_row(mcp_row()).expect("decodes");
    assert_eq!(e.id, 10);
    assert_eq!(e.agent_id, AgentId(1));
    assert_eq!(e.event_type, "\"ToolCall\"");
    assert_eq!(e.timestamp, Timestamp { secs: 1_777_898_096, nanos: 0 });
    assert_eq!(e.content, "{\"tool\":\"Bash\"}");
    assert_eq!(e.objective_id, Some(ObjectiveId(2)));
}

#[test]
fn broken_mcp_event_rows_report_in_field_order() {
    let mut row = mcp_row();
    row.id = "x".into();
    row.event_type = "{".into();
    assert_eq!(decode_mcp_event_row(row).err(), Some(RowError { column: 0, kind: RowErrorKind::BadId }));
    let mut row = mcp_row();
    row.event_type = "{".into();
    row.timestamp = "never".into();
    assert_eq!(decode_mcp_event_row(row).err(), Some(RowError { column: 0, kind: RowErrorKind::BadJson }));
    // The timestamp is read before the content.
    let mut row = mcp_row();
    row.timestamp = "never".into();
    row.content = "{".into();
    assert_eq!(decode_mcp_event_row(row).err(), Some(RowError { column: 3, kind: RowErrorKind::BadTimestamp }));
    let mut row = mcp_row();
    row.content = "{".into();
    assert_eq!(decode_mcp_event_row(row).err(), Some(RowError { column: 0, kind: RowErrorKind::BadJson }));
    assert!(mcp_event_from_parts(mcp_row(), Some(1), true, Some((0, 0)), true).is_ok());
}

#[test]
fn snapshot_rows_decode() {
    let row = SnapshotRow {
        aggregate_type: "agent".into(),
        aggregate_id: "a1".into(),
        sequence: 15,
        state: "{\"seq\":15}".into(),
        timestamp: "2026-05-04T12:34:56Z".into(),
    };
    let s = decode_snapshot_row(row).unwrap();
    assert_eq!(s.sequence, 15);
    assert_eq!(s.state, "{\"seq\":15}");
    assert_eq!(s.timestamp, Timestamp { secs: 1_777_898_096, nanos: 0 });

    let bad = SnapshotRow {
        aggregate_type: "agent".into(),
        aggregate_id: "a1".into(),
        sequence: 1,
        state: "{".into(),
        timestamp: "never".into(),
    };
    assert_eq!(decode_snapshot_row(bad).err(), Some(RowError { column: 0, kind: RowErrorKind::BadJson }));
    let late = SnapshotRow {
        aggregate_type: "agent".into(),
        aggregate_id: "a1".into(),
        sequence: 1,
        state: "{}".into(),
        timestamp: "never".into(),
    };
    assert_eq!(decode_snapshot_row(late).err(), Some(RowError { column: 4, kind: RowErrorKind::BadTimestamp }));
    assert_eq!(snapshot_from_parts(
        SnapshotRow { aggregate_type: "a".into(), aggregate_id: "b".into(), sequence: -2, state: "{}".into(), timestamp: String::new() },
        true,
        Some((3, 4)),
    ).unwrap().sequence, u64::MAX - 1);
}
