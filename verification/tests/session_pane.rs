use nephila::ids::AgentId;
use nephila::session::{clock, first_line_of, pump_step, render_row, row_line, InterruptSnapshot, RenderedRow, SessionEvent, SessionPane};

#[test]
fn renders_human_assistant_and_completion_rows() {
    let mut pane = SessionPane::new();
    let ts = 1_777_898_096_000i64;
    pane.push_event(SessionEvent::HumanPromptQueued { text: "echo OK".into(), ts_ms: ts });
    pane.push_event(SessionEvent::AssistantMessage { delta_text: "OK".into(), is_final: true, ts_ms: ts });
    pane.push_event(SessionEvent::TurnCompleted { stop_reason: "end_turn".into(), ts_ms: ts });

    let text: String = pane.events.iter().map(|r| format!("{} {}\n", r.glyph, r.text)).collect();
    assert!(text.contains("YOU →"), "missing YOU →; rendered = {text:?}");
    assert!(text.contains("ASSIST"), "missing ASSIST; rendered = {text:?}");
    assert!(text.contains('✓'), "missing ✓; rendered = {text:?}");
}

#[test]
fn in_flight_deltas_and_lifecycle_markers_are_dropped() {
    let mut pane = SessionPane::default();
    pane.push_event(SessionEvent::SessionStarted { ts_ms: 1 });
    pane.push_event(SessionEvent::AssistantMessage { delta_text: "par".into(), is_final: false, ts_ms: 2 });
    pane.push_event(SessionEvent::HumanPromptDelivered { ts_ms: 3 });
    pane.push_event(SessionEvent::SessionEnded { ts_ms: 4 });
    assert!(pane.events.is_empty());
}

#[test]
fn tool_results_and_crashes_render_their_summary() {
    let ok = render_row(SessionEvent::ToolResult { tool_use_id: "t1".into(), is_error: false, ts_ms: 5 }).unwrap();
    assert_eq!((ok.glyph, ok.text.as_str(), ok.timestamp_ms), ("↳ result", "ok (t1)", 5));
    let err = render_row(SessionEvent::ToolResult { tool_use_id: "t2".into(), is_error: true, ts_ms: 6 }).unwrap();
    assert_eq!(err.text, "ERR (t2)");
    let crash = render_row(SessionEvent::SessionCrashed { reason: "boom\r\nstack".into(), ts_ms: 7 }).unwrap();
    assert_eq!((crash.glyph, crash.text.as_str()), ("✗ CRASH", "boom"));
    let cp = render_row(SessionEvent::CheckpointReached { checkpoint_id: "c9".into(), interrupt: None, ts_ms: 8 }).unwrap();
    assert_eq!((cp.glyph, cp.text.as_str()), ("✓ CHECKPOINT", "c9"));
}

#[test]
fn first_line_follows_str_lines() {
    assert_eq!(first_line_of(&"a\r\nb".to_string()), "a");
    assert_eq!(first_line_of(&"only\r".to_string()), "only\r");
    assert_eq!(first_line_of(&String::new()), "");
    assert_eq!(first_line_of(&"\nx".to_string()), "");
}

#[test]
fn pump_forwards_hitl_question_and_stops_on_session_end() {
    let agent = AgentId(3);
    let ev = SessionEvent::CheckpointReached {
        checkpoint_id: "c".into(),
        interrupt: Some(InterruptSnapshot::Hitl { question: "Which?".into(), options: vec!["a".into(), "b".into()] }),
        ts_ms: 1,
    };
    let step = pump_step(agent, &ev);
    let req = step.hitl.expect("question forwarded");
    assert_eq!(req.agent_id, agent);
    assert_eq!(req.question, "Which?");
    assert_eq!(req.options, vec!["a".to_string(), "b".to_string()]);
    assert!(!step.stop);

    let other = pump_step(agent, &SessionEvent::CheckpointReached { checkpoint_id: "c".into(), interrupt: Some(InterruptSnapshot::Other), ts_ms: 1 });
    assert!(other.hitl.is_none());
    assert!(pump_step(agent, &SessionEvent::SessionEnded { ts_ms: 2 }).stop);
    assert!(pump_step(agent, &SessionEvent::SessionCrashed { reason: "x".into(), ts_ms: 2 }).stop);
}

#[test]
fn rows_show_the_utc_time_of_day() {
    assert_eq!(clock(0), "00:00:00");
    assert_eq!(clock(1_777_898_096_000), "12:34:56");
    assert_eq!(clock(1_777_898_096_999), "12:34:56");
    assert_eq!(clock(-1), "23:59:59");
    assert_eq!(clock(-86_400_000), "00:00:00");
    assert_eq!(clock(i64::MAX), "07:12:55");
    let row = RenderedRow { glyph: "TOOL", text: "Bash".into(), timestamp_ms: 3_723_000 };
    assert_eq!(row_line(&row), "01:02:03 TOOL Bash");
}
