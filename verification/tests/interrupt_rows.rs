use nephila::agent_record::{RowError, RowErrorKind, Timestamp};
use nephila::ids::{AgentId, CheckpointId, InterruptId};
use nephila::interrupt_record::{decode_interrupt_row, interrupt_from_parts, InterruptRow};
use nephila::store_policy::{InterruptKind, InterruptStatus};

fn pending_row() -> InterruptRow {
    InterruptRow {
        id: InterruptId(7),
        agent_id: AgentId(1),
        checkpoint_id: CheckpointId(2),
        interrupt_type: "hitl".into(),
        payload: Some("{\"question\":\"proceed?\"}".into()),
        status: "pending".into(),
        response: None,
        question_hash: Some("abc123".into()),
        ask_count: 1,
        created_at: "2026-05-04T12:34:56Z".into(),
        resolved_at: None,
    }
}

#[test]
fn pending_interrupt_row_decodes() {
    let r = decode_interrupt_row(pending_row()).expect("decodes");
    assert_eq!(r.id, InterruptId(7));
    assert_eq!(r.agent_id, AgentId(1));
    assert_eq!(r.checkpoint_id, CheckpointId(2));
    assert_eq!(r.kind, InterruptKind::Hitl);
    assert_eq!(r.status, InterruptStatus::Pending);
    assert_eq!(r.payload.as_deref(), Some("{\"question\":\"proceed?\"}"));
    assert_eq!(r.response, None);
    assert_eq!(r.question_hash.as_deref(), Some("abc123"));
    assert_eq!(r.ask_count, 1);
    assert_eq!(r.created_at, Timestamp { secs: 1_777_898_096, nanos: 0 });
    assert_eq!(r.resolved_at, None);
}

#[test]
fn resolved_interrupt_row_keeps_response_and_time() {
    let mut row = pending_row();
    row.status = "resolved".into();
    row.response = Some("\"yes\"".into());
    row.resolved_at = Some("2026-05-04T12:35:00.250Z".into());
    let r = decode_interrupt_row(row).unwrap();
    assert_eq!(r.status, InterruptStatus::Resolved);
    assert_eq!(r.response.as_deref(), Some("\"yes\""));
    assert_eq!(r.resolved_at, Some(Timestamp { secs: 1_777_898_100, nanos: 250_000_000 }));
}

#[test]
fn unknown_interrupt_texts_fall_back() {
    let mut row = pending_row();
    row.interrupt_type = "something".into();
    row.status = "weird".into();
    let r = decode_interrupt_row(row).unwrap();
    assert_eq!(r.kind, InterruptKind::Drain);
    assert_eq!(r.status, InterruptStatus::Pending);

    let mut row = pending_row();
    row.interrupt_type = "pause".into();
    row.status = "expired".into();
    let r = decode_interrupt_row(row).unwrap();
    assert_eq!(r.kind, InterruptKind::Pause);
    assert_eq!(r.status, InterruptStatus::Expired);
}

#[test]
fn broken_interrupt_columns_are_reported_in_order() {
    let mut row = pending_row();
    row.payload = Some("{oops".into());
    row.response = Some("also bad".into());
    assert_eq!(decode_interrupt_row(row).err(), Some(RowError { column: 4, kind: RowErrorKind::BadJson }));

    let mut row = pending_row();
    row.response = Some("also bad".into());
    row.created_at = "never".into();
    assert_eq!(decode_interrupt_row(row).err(), Some(RowError { column: 6, kind: RowErrorKind::BadJson }));

    let mut row = pending_row();
    row.resolved_at = Some("later".into());
    row.created_at = "never".into();
    assert_eq!(decode_interrupt_row(row).err(), Some(RowError { column: 10, kind: RowErrorKind::BadTimestamp }));

    let mut row = pending_row();
    row.created_at = "never".into();
    assert_eq!(decode_interrupt_row(row).err(), Some(RowError { column: 9, kind: RowErrorKind::BadTimestamp }));

    // A NULL payload needs no parsing.
    let mut row = pending_row();
    row.payload = None;
    assert!(decode_interrupt_row(row).is_ok());
}

#[test]
fn interrupt_parts_follow_the_parsers() {
    let r = interrupt_from_parts(pending_row(), false, true, Some((0, 0)), None);
    assert_eq!(r.err(), Some(RowError { column: 4, kind: RowErrorKind::BadJson }));
    let r = interrupt_from_parts(pending_row(), true, true, Some((5, 6)), Some(Some((7, 8)))).unwrap();
    assert_eq!(r.created_at, Timestamp { secs: 5, nanos: 6 });
    assert_eq!(r.resolved_at, Some(Timestamp { secs: 7, nanos: 8 }));
}
