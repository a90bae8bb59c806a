use nephila::agent::AgentState;
use nephila::dashboard::{BusEvent, Command, Dashboard, Effect, LogScroll, Notice};
use nephila::focus::FocusPanel;
use nephila::hotkey::HotkeyContext;
use nephila::ids::{AgentId, ObjectiveId};
use nephila::input::{KeyCode, KeyEvent};
use nephila::modal::Modal;
use nephila::session::HitlRequest;
use nephila::tree::{GoalObjective, ObjectiveStatus};

fn key(code: KeyCode) -> KeyEvent {
    KeyEvent::new(code, false)
}

fn goal(name: &str, id: Option<u128>, agent: Option<u128>) -> GoalObjective {
    GoalObjective {
        id: id.map(ObjectiveId),
        file_path: format!("goals/{name}.md"),
        title: name.to_string(),
        content: format!("# {name}\nbody"),
        status: ObjectiveStatus::Pending,
        agent_id: agent.map(AgentId),
        children: vec![],
    }
}

fn with_agent(d: &mut Dashboard, id: u128) {
    d.handle_bus_event(BusEvent::AgentStateChanged {
        agent_id: AgentId(id),
        old_state: AgentState::Starting,
        new_state: AgentState::Active,
    });
}

#[test]
fn global_keys_cycle_focus_open_help_and_quit() {
    let mut d = Dashboard::new(vec![]);
    assert_eq!(d.handle_key(key(KeyCode::Tab)), None);
    assert_eq!(d.focus, FocusPanel::AgentTree);
    d.handle_key(key(KeyCode::BackTab));
    assert_eq!(d.focus, FocusPanel::ObjectiveTree);
    d.handle_key(key(KeyCode::Char('?')));
    assert!(matches!(d.modal, Modal::Help));
    d.handle_key(key(KeyCode::Esc));
    assert!(matches!(d.modal, Modal::Closed));
    assert_eq!(d.handle_key(key(KeyCode::Char('n'))), Some(Effect::NewObjective));
    d.handle_key(key(KeyCode::Char('q')));
    assert!(!d.running);
}

#[test]
fn debug_overlay_takes_every_key_until_closed() {
    let mut d = Dashboard::new(vec![]);
    d.handle_key(key(KeyCode::Char('D')));
    assert!(d.show_debug);
    d.handle_key(key(KeyCode::Up));
    d.handle_key(key(KeyCode::Up));
    d.handle_key(key(KeyCode::Down));
    assert_eq!(d.debug_scroll, 1);
    d.handle_key(key(KeyCode::Char('q')));
    assert!(d.running);
    d.handle_key(key(KeyCode::Esc));
    assert!(!d.show_debug);
    assert_eq!(d.debug_scroll, 0);
}

#[test]
fn state_change_adds_agent_row_labelled_by_its_goal() {
    let mut d = Dashboard::new(vec![goal("alpha", Some(1), Some(9))]);
    let fx = d.handle_bus_event(BusEvent::AgentStateChanged {
        agent_id: AgentId(9),
        old_state: AgentState::Starting,
        new_state: AgentState::Active,
    });
    assert_eq!(fx, Some(Effect::Log(Notice::StateChanged { agent_id: AgentId(9), state: AgentState::Active })));
    assert_eq!(d.agent_tree.items.len(), 1);
    assert_eq!(d.agent_tree.items[0].data.objective_label, "alpha");
    d.handle_bus_event(BusEvent::AgentStateChanged { agent_id: AgentId(9), old_state: AgentState::Active, new_state: AgentState::Paused });
    assert_eq!(d.agent_tree.items.len(), 1);
    assert_eq!(d.agent_tree.items[0].data.state, AgentState::Paused);
    d.handle_bus_event(BusEvent::TokenReport { agent_id: AgentId(9), used: 10, remaining: 90 });
    assert_eq!(d.agent_tree.items[0].data.tokens_used, Some(10));
    assert_eq!(d.handle_bus_event(BusEvent::Shutdown), Some(Effect::Log(Notice::ShutdownReceived)));
    assert!(!d.running);
}

#[test]
fn hitl_question_is_answered_through_the_modal() {
    let mut d = Dashboard::new(vec![]);
    with_agent(&mut d, 4);
    let fx = d.handle_bus_event(BusEvent::HitlRequested {
        agent_id: AgentId(4),
        question: "Deploy?".into(),
        options: vec!["yes".into(), "no".into()],
    });
    assert!(matches!(fx, Some(Effect::Log(Notice::HitlAsked { .. }))));
    assert!(d.agent_tree.items[0].data.hitl_pending);
    assert!(d.hitl_hint_text().unwrap().ends_with(": Enter to respond to HITL question"));

    d.handle_key(key(KeyCode::Tab));
    assert_eq!(d.compute_hotkey_context(), HotkeyContext::AgentSelectedHitlPending);
    d.handle_key(key(KeyCode::Enter));
    assert!(matches!(d.modal, Modal::HitlResponse { selected: 0, .. }));
    d.handle_key(key(KeyCode::Down));
    let fx = d.handle_key(key(KeyCode::Enter));
    let cmd = match fx {
        Some(Effect::Send(c)) => c,
        other => panic!("expected a command, got {other:?}"),
    };
    assert_eq!(cmd, Command::HitlRespond { agent_id: AgentId(4), response: "no".into() });
    assert!(matches!(d.modal, Modal::Closed));

    assert_eq!(d.on_command_sent(&cmd, false), Some(Effect::Log(Notice::CommandChannelClosed)));
    assert!(d.pending_hitl.contains_key(&4));
    assert_eq!(d.on_command_sent(&cmd, true), None);
    assert!(!d.pending_hitl.contains_key(&4));
    assert!(!d.agent_tree.items[0].data.hitl_pending);
    assert_eq!(d.hitl_hint_text(), None);
}

#[test]
fn hitl_request_from_a_pump_opens_the_modal_unless_one_is_open() {
    let mut d = Dashboard::new(vec![]);
    d.handle_key(key(KeyCode::Char('?')));
    d.handle_hitl_request(HitlRequest { agent_id: AgentId(2), question: "q".into(), options: vec!["a".into()] });
    assert!(matches!(d.modal, Modal::Help));
    d.handle_key(key(KeyCode::Esc));
    d.handle_hitl_request(HitlRequest { agent_id: AgentId(2), question: "q2".into(), options: vec!["a".into()] });
    match &d.modal {
        Modal::HitlResponse { question, .. } => assert_eq!(question, "q2"),
        other => panic!("expected hitl modal, got {other:?}"),
    }
}

#[test]
fn spawn_kill_and_pause_from_the_objective_tree() {
    let mut d = Dashboard::new(vec![goal("new", None, None), goal("ready", Some(7), None), goal("busy", Some(8), Some(3))]);
    assert_eq!(d.handle_key(key(KeyCode::Char('s'))), Some(Effect::Log(Notice::ObjectiveNotRegistered)));
    d.handle_key(key(KeyCode::Down));
    assert_eq!(
        d.handle_key(key(KeyCode::Char('s'))),
        Some(Effect::Send(Command::Spawn { objective_id: ObjectiveId(7), content: "# ready\nbody".into() }))
    );
    d.handle_key(key(KeyCode::Down));
    assert_eq!(d.compute_hotkey_context(), HotkeyContext::ObjectiveSelectedWithAgent);
    assert_eq!(d.handle_key(key(KeyCode::Char('s'))), Some(Effect::Log(Notice::ObjectiveHasAgent)));
    assert_eq!(d.handle_key(key(KeyCode::Char('k'))), Some(Effect::Send(Command::Kill { agent_id: AgentId(3) })));
    assert_eq!(d.handle_key(key(KeyCode::Char('p'))), Some(Effect::Send(Command::Pause { agent_id: AgentId(3) })));
    d.handle_bus_event(BusEvent::AgentStateChanged { agent_id: AgentId(3), old_state: AgentState::Active, new_state: AgentState::Paused });
    assert_eq!(d.handle_key(key(KeyCode::Char('p'))), Some(Effect::Send(Command::Resume { agent_id: AgentId(3) })));
}

#[test]
fn spawn_without_selection_picks_a_goal_file() {
    let mut d = Dashboard::new(vec![]);
    assert_eq!(d.handle_key(key(KeyCode::Char('s'))), Some(Effect::Log(Notice::NoGoalFiles)));
    d.goals = vec![goal("a", Some(1), None), goal("b", Some(2), None)];
    assert_eq!(d.handle_key(key(KeyCode::Char('s'))), None);
    match &d.modal {
        Modal::FilePicker { files, selected } => {
            assert_eq!(files, &vec!["goals/a.md".to_string(), "goals/b.md".to_string()]);
            assert_eq!(*selected, 0);
        }
        other => panic!("expected file picker, got {other:?}"),
    }
    d.handle_key(key(KeyCode::Down));
    assert_eq!(
        d.handle_key(key(KeyCode::Enter)),
        Some(Effect::Send(Command::Spawn { objective_id: ObjectiveId(2), content: "# b\nbody".into() }))
    );
}

#[test]
fn edit_view_and_delete_objectives() {
    let mut d = Dashboard::new(vec![goal("alpha", Some(1), None), goal("busy", Some(2), Some(5))]);
    assert_eq!(d.handle_key(key(KeyCode::Char('e'))), Some(Effect::EditObjective { path: "goals/alpha.md".into() }));
    d.handle_key(key(KeyCode::Char('v')));
    match &d.modal {
        Modal::View { title, content } => {
            assert_eq!(title, "alpha");
            assert_eq!(content, "# alpha\nbody");
        }
        other => panic!("expected view, got {other:?}"),
    }
    d.handle_key(key(KeyCode::Esc));
    d.handle_key(key(KeyCode::Char('x')));
    assert!(matches!(d.modal, Modal::ConfirmDelete { .. }));
    assert_eq!(
        d.handle_key(key(KeyCode::Enter)),
        Some(Effect::DeleteGoalFile { path: "goals/alpha.md".into(), title: "alpha".into() })
    );
    d.handle_key(key(KeyCode::Down));
    assert_eq!(d.handle_key(key(KeyCode::Delete)), Some(Effect::Log(Notice::CannotDeleteWithAgent)));

    d.reload_goals(vec![goal("busy", Some(2), Some(5))]);
    assert_eq!(d.objective_tree.panel.items.len(), 1);
    assert_eq!(d.objective_tree.panel.cursor, 0);
    d.after_editor(vec![]);
    assert!(d.needs_clear);
    assert_eq!(d.handle_key(key(KeyCode::Char('e'))), Some(Effect::Log(Notice::SelectRootToEdit)));
}

#[test]
fn agent_tree_attaches_sessions_and_routes_keys_to_the_pane() {
    let mut d = Dashboard::new(vec![]);
    with_agent(&mut d, 6);
    d.handle_key(key(KeyCode::Tab));
    assert_eq!(d.handle_key(key(KeyCode::Enter)), Some(Effect::Log(Notice::NoSessionToAttach)));
    assert_eq!(d.handle_key(key(KeyCode::Char('a'))), None);
    d.handle_bus_event(BusEvent::AgentSessionReady { agent_id: AgentId(6), session_id: "sess".into(), directory: "/w".into() });
    assert_eq!(
        d.handle_key(key(KeyCode::Char('a'))),
        Some(Effect::AttachSession { agent_id: AgentId(6), session_id: "sess".into(), directory: "/w".into(), first_time: true })
    );
    d.on_session_attached(AgentId(6), true);
    assert!(d.agent_tree.items[0].data.has_session);
    assert!(d.needs_clear);

    d.handle_key(key(KeyCode::Enter));
    assert_eq!(d.session_focus, Some(AgentId(6)));
    d.handle_key(key(KeyCode::Char('i')));
    d.handle_key(key(KeyCode::Char('h')));
    d.handle_key(key(KeyCode::Char('i')));
    assert_eq!(d.handle_key(KeyEvent::new(KeyCode::Enter, true)), Some(Effect::SubmitPrompt("hi".into())));
    assert_eq!(d.handle_key(KeyEvent::new(KeyCode::Enter, false)), None);
    d.handle_key(key(KeyCode::Char('i')));
    assert_eq!(d.handle_key(KeyEvent::new(KeyCode::Enter, true)), None);
    d.handle_key(key(KeyCode::Char('q')));
    assert_eq!(d.session_focus, None);
    assert!(d.running);

    d.handle_key(key(KeyCode::Enter));
    d.handle_key(KeyEvent::new(KeyCode::Char('c'), true));
    assert!(!d.running);
}

#[test]
fn event_log_keys_scroll_the_log() {
    let mut d = Dashboard::new(vec![]);
    d.handle_key(key(KeyCode::BackTab));
    assert_eq!(d.focus, FocusPanel::EventLog);
    assert_eq!(d.compute_hotkey_context(), HotkeyContext::EventLogFocused);
    assert_eq!(d.handle_key(key(KeyCode::Up)), Some(Effect::ScrollLog(LogScroll::Up)));
    assert_eq!(d.handle_key(key(KeyCode::Down)), Some(Effect::ScrollLog(LogScroll::Down)));
    assert_eq!(d.handle_key(key(KeyCode::Home)), Some(Effect::ScrollLog(LogScroll::Top)));
    assert_eq!(d.handle_key(key(KeyCode::End)), Some(Effect::ScrollLog(LogScroll::Bottom)));
    assert_eq!(d.handle_key(key(KeyCode::Char('z'))), None);
}

#[test]
fn agent_row_without_a_goal_is_labelled_by_its_id() {
    let mut d = Dashboard::new(vec![]);
    d.handle_bus_event(BusEvent::AgentStateChanged {
        agent_id: AgentId(0x67e5_5044_10b1_426f_9247_bb68_0e5f_e0c8),
        old_state: AgentState::Starting,
        new_state: AgentState::Active,
    });
    assert_eq!(d.agent_tree.items[0].data.objective_label, "67e55044-10b1-426f-9247-bb680e5fe0c8");
}
