use nephila::agent::AgentState;
use nephila::dashboard::{AgentNode, Notice};
use nephila::ids::{AgentId, CheckpointId, ObjectiveId};
use nephila::notices::{agent_row_line, join_strings, notice_text};
use nephila::tree::ObjectiveStatus;

const AGENT: u128 = 0x67e5504410b1426f9247bb680e5fe0c8;

#[test]
fn agent_notices_are_tagged_with_the_agent() {
    let a = AgentId(AGENT);
    assert_eq!(
        notice_text(&Notice::StateChanged { agent_id: a, state: AgentState::Paused }),
        "[67e55044-10b1-426f-9247-bb680e5fe0c8] state -> paused"
    );
    assert_eq!(
        notice_text(&Notice::Mcp { agent_id: a, event_type: "ToolCall".into() }),
        "[67e55044-10b1-426f-9247-bb680e5fe0c8] ToolCall"
    );
    assert_eq!(
        notice_text(&Notice::HitlAnswered { agent_id: a, response: "yes".into() }),
        "[67e55044-10b1-426f-9247-bb680e5fe0c8] HITL response: yes"
    );
    assert_eq!(
        notice_text(&Notice::SessionReady { agent_id: a }),
        "[67e55044-10b1-426f-9247-bb680e5fe0c8] session ready \u{2014} Enter to attach"
    );
    assert_eq!(
        notice_text(&Notice::CheckpointSaved { agent_id: a, checkpoint_id: CheckpointId(1) }),
        "[67e55044-10b1-426f-9247-bb680e5fe0c8] checkpoint saved: 00000000-0000-0000-0000-000000000001"
    );
}

#[test]
fn hitl_question_lists_its_options() {
    let n = Notice::HitlAsked {
        agent_id: AgentId(AGENT),
        question: "Proceed?".into(),
        options: vec!["yes".into(), "no".into(), "later".into()],
    };
    assert_eq!(notice_text(&n), "[67e55044-10b1-426f-9247-bb680e5fe0c8] ! HITL: Proceed? (yes, no, later)");
    let none = Notice::HitlAsked { agent_id: AgentId(AGENT), question: "Free text?".into(), options: vec![] };
    assert_eq!(notice_text(&none), "[67e55044-10b1-426f-9247-bb680e5fe0c8] ! HITL: Free text? ()");
}

#[test]
fn objective_and_plain_notices() {
    assert_eq!(
        notice_text(&Notice::ObjectiveUpdated { objective_id: ObjectiveId(AGENT), status: ObjectiveStatus::Done }),
        "[67e55044-10b1-426f-9247-bb680e5fe0c8] objective -> done"
    );
    assert_eq!(notice_text(&Notice::ShutdownReceived), "Shutdown signal received");
    assert_eq!(notice_text(&Notice::NoGoalFiles), "No goal files found \u{2014} press N to create one");
    assert_eq!(notice_text(&Notice::ObjectiveHasAgent), "Objective already has an active agent");
    assert_eq!(notice_text(&Notice::NoSessionToAttach), "Agent has no session to attach to");
}

#[test]
fn joining_strings() {
    assert_eq!(join_strings(&vec![], ", "), "");
    assert_eq!(join_strings(&vec!["a".to_string()], ", "), "a");
    assert_eq!(join_strings(&vec!["a".to_string(), "b".to_string()], ", "), "a, b");
}

fn node(label: &str) -> AgentNode {
    AgentNode {
        id: AgentId(AGENT),
        state: AgentState::Active,
        objective_label: label.to_string(),
        tokens_used: None,
        tokens_remaining: None,
        hitl_pending: false,
        session_id: None,
        directory: None,
        has_session: false,
    }
}

#[test]
fn agent_rows_show_label_state_tokens_and_questions() {
    assert_eq!(agent_row_line(&node("Refactor Auth")), "Refactor Auth [active]");
    let mut n = node("Goal");
    n.tokens_used = Some(1200);
    n.tokens_remaining = Some(800);
    n.hitl_pending = true;
    assert_eq!(agent_row_line(&n), "Goal [active] 1200/2000 !");
    n.tokens_remaining = Some(u64::MAX);
    n.hitl_pending = false;
    assert_eq!(agent_row_line(&n), format!("Goal [active] 1200/{}", u64::MAX));
    n.tokens_remaining = None;
    assert_eq!(agent_row_line(&n), "Goal [active]");
}
