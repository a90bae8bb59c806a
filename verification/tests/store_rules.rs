use nephila::agent::{AgentState, Directive};
use nephila::agent_record::{
    agent_from_parts, decode_agent_row, decode_origin, origin_columns, origin_from_parts, AgentRow, RowError, RowErrorKind,
    SpawnOrigin, Timestamp,
};
use nephila::ids::{AgentId, CheckpointId, ObjectiveId};
use nephila::json::JsonReading;
use nephila::store_policy::{
    interrupt_save_action, plan_retention, retention_prune_below, snapshot_due, snapshot_trigger_applies, snapshot_worth_saving,
    InterruptSaveAction, RETENTION_TAIL, SNAPSHOT_INTERVAL,
};

fn row() -> AgentRow {
    AgentRow {
        id: AgentId(1),
        state: "paused".into(),
        directory: "/tmp/test".into(),
        objective_id: ObjectiveId(2),
        checkpoint_id: None,
        spawned_by: None,
        injected_message: None,
        created_at: "2026-05-04T12:34:56Z".into(),
        updated_at: "2026-05-04T12:35:00.5+00:00".into(),
        directive: None,
        session_id: Some("s".into()),
        spawn_origin_type: None,
        source_checkpoint_id: None,
        restore_checkpoint_id: None,
        last_config_snapshot: None,
    }
}

#[test]
fn states_and_directives_round_trip_through_text() {
    for s in [AgentState::Starting, AgentState::Active, AgentState::Paused, AgentState::Suspending, AgentState::Exited, AgentState::Failed] {
        assert_eq!(AgentState::parse(s.as_str()), Some(s));
    }
    for d in [Directive::Continue, Directive::Pause] {
        assert_eq!(Directive::parse(d.as_str()), Some(d));
    }
    assert_eq!(AgentState::parse("Paused"), None);
    assert!(AgentState::Suspending.in_active_phase());
    assert!(!AgentState::Exited.in_active_phase());
}

#[test]
fn origins_round_trip_through_their_columns() {
    let cp = CheckpointId(0x550e8400e29b41d4a716446655440000);
    for o in [SpawnOrigin::Operator, SpawnOrigin::Agent(AgentId(5)), SpawnOrigin::Fork { source_agent_id: AgentId(6), source_checkpoint_id: cp }] {
        let (t, by, src) = origin_columns(&o);
        let parsed = src.map(|c| Some(c.0));
        assert_eq!(origin_from_parts(&Some(t.to_string()), by, parsed), Ok(o));
        let text = src.map(|c| uuid::Uuid::from_u128(c.0).to_string());
        assert_eq!(decode_origin(&Some(t.to_string()), by, &text), Ok(o));
    }
}

#[test]
fn broken_origins_name_the_failing_column() {
    assert_eq!(
        origin_from_parts(&Some("fork".into()), None, None),
        Err(RowError { column: 5, kind: RowErrorKind::ForkWithoutSpawner })
    );
    assert_eq!(
        origin_from_parts(&Some("fork".into()), Some(AgentId(1)), None),
        Err(RowError { column: 12, kind: RowErrorKind::ForkWithoutSourceCheckpoint })
    );
    assert_eq!(
        decode_origin(&Some("fork".into()), Some(AgentId(1)), &Some("not-a-uuid".into())),
        Err(RowError { column: 12, kind: RowErrorKind::BadSourceCheckpoint })
    );
    assert_eq!(
        origin_from_parts(&Some("agent".into()), None, None),
        Err(RowError { column: 5, kind: RowErrorKind::AgentWithoutSpawner })
    );
    assert_eq!(origin_from_parts(&Some("martian".into()), None, None), Ok(SpawnOrigin::Operator));
    assert_eq!(origin_from_parts(&None, Some(AgentId(1)), None), Ok(SpawnOrigin::Operator));
}

#[test]
fn agent_rows_decode_with_defaults() {
    let a = decode_agent_row(row()).expect("decodes");
    assert_eq!(a.state, AgentState::Paused);
    assert_eq!(a.directive, Directive::Continue);
    assert_eq!(a.origin, SpawnOrigin::Operator);
    assert_eq!(a.directory, "/tmp/test");
    assert_eq!(a.session_id.as_deref(), Some("s"));
    assert_eq!(a.created_at, Timestamp { secs: 1_777_898_096, nanos: 0 });
    assert_eq!(a.updated_at, Timestamp { secs: 1_777_898_100, nanos: 500_000_000 });

    let mut odd = row();
    odd.state = "zombie".into();
    odd.directive = Some("pause".into());
    let a = decode_agent_row(odd).unwrap();
    assert_eq!(a.state, AgentState::Failed);
    assert_eq!(a.directive, Directive::Pause);

    let mut bad = row();
    bad.updated_at = "yesterday".into();
    assert_eq!(decode_agent_row(bad).err(), Some(RowError { column: 8, kind: RowErrorKind::BadTimestamp }));
    let bad_created = agent_from_parts(row(), JsonReading::Value, None, None, Some((0, 0)));
    assert_eq!(bad_created.err(), Some(RowError { column: 7, kind: RowErrorKind::BadTimestamp }));
}

#[test]
fn agent_snapshot_column_must_be_json() {
    let mut with_snapshot = row();
    with_snapshot.last_config_snapshot = Some("{\"model\":\"m\",\"tools\":[]}".into());
    let a = decode_agent_row(with_snapshot).unwrap();
    assert_eq!(a.last_config_snapshot.as_deref(), Some("{\"model\":\"m\",\"tools\":[]}"));

    // A broken snapshot is reported before a broken origin or timestamp.
    let mut broken = row();
    broken.last_config_snapshot = Some("{not json".into());
    broken.spawn_origin_type = Some("agent".into());
    broken.created_at = "never".into();
    assert_eq!(decode_agent_row(broken).err(), Some(RowError { column: 14, kind: RowErrorKind::BadJson }));

    // The JSON null is no snapshot.
    let mut null = row();
    null.last_config_snapshot = Some(" null ".into());
    assert_eq!(decode_agent_row(null).unwrap().last_config_snapshot, None);
}

#[test]
fn snapshot_and_retention_rules() {
    assert!(snapshot_trigger_applies("session"));
    assert!(!snapshot_trigger_applies("agent"));
    assert!(snapshot_due(SNAPSHOT_INTERVAL, None));
    assert!(!snapshot_due(SNAPSHOT_INTERVAL - 1, None));
    assert!(snapshot_due(2500, Some(1500)));
    assert!(!snapshot_due(2499, Some(1500)));
    assert!(snapshot_worth_saving(10, 9));
    assert!(!snapshot_worth_saving(9, 9));
    assert_eq!(retention_prune_below(RETENTION_TAIL), None);
    assert_eq!(retention_prune_below(1000), Some(801));
}

#[test]
fn duplicate_interrupt_questions_are_bumped_then_rejected() {
    assert_eq!(interrupt_save_action(None), InterruptSaveAction::Insert);
    assert_eq!(interrupt_save_action(Some(1)), InterruptSaveAction::BumpAskCount);
    assert_eq!(interrupt_save_action(Some(3)), InterruptSaveAction::RejectDuplicate);
}

use nephila::sequencer::{stamp_batch, uncached_keys, AggregateKey, SequenceMap, WriterState};

fn key(id: &str) -> AggregateKey {
    AggregateKey::new("session", id)
}

#[test]
fn batches_are_stamped_per_aggregate_and_promoted_only_on_commit() {
    let mut writer = WriterState::new();
    let mut stored = SequenceMap::new();
    stored.insert(&key("a"), 5);
    stored.insert(&key("b"), 0);
    let keys = vec![key("a"), key("b"), key("a")];
    let missing = uncached_keys(&writer.next_sequence, &keys);
    assert_eq!(missing.len(), 2);

    let batch = stamp_batch(&writer.next_sequence, &stored, &keys);
    assert_eq!(batch.sequences, vec![6, 1, 7]);
    assert_eq!(batch.batch_max.get(&key("a")), Some(7));
    assert_eq!(batch.batch_max.get(&key("b")), Some(1));

    writer.finish_append(&batch, false);
    assert_eq!(writer.next_sequence.get(&key("a")), None);

    writer.finish_append(&batch, true);
    assert_eq!(writer.next_sequence.get(&key("a")), Some(7));
    assert_eq!(writer.next_sequence.get(&key("b")), Some(1));

    let next = stamp_batch(&writer.next_sequence, &SequenceMap::new(), &vec![key("b")]);
    assert_eq!(next.sequences, vec![2]);
    assert!(uncached_keys(&writer.next_sequence, &vec![key("a"), key("b")]).is_empty());

    writer.finish_prune(&key("a"), true);
    assert_eq!(writer.next_sequence.get(&key("a")), None);
    writer.finish_prune(&key("b"), false);
    assert_eq!(writer.next_sequence.get(&key("b")), Some(1));
}

#[test]
fn retention_plan_snapshots_then_prunes_the_head() {
    let plan = plan_retention(Some(1000));
    assert_eq!(plan.snapshot_at, Some(1000));
    assert_eq!(plan.prune_below, Some(801));
    let plan = plan_retention(Some(150));
    assert_eq!(plan.snapshot_at, Some(150));
    assert_eq!(plan.prune_below, None);
    let plan = plan_retention(None);
    assert_eq!(plan.snapshot_at, None);
    assert_eq!(plan.prune_below, None);
}
