//! The text the dashboard shows: the event-log line of each notice and
//! the line of each agent row.

use vstd::prelude::*;
use crate::agent::state_text;
use crate::dashboard::{AgentNode, Notice};
use crate::format::{uuid_text, uuid_string, dec_text, decimal};
use crate::objectives::status_text;
use crate::text::{concat, from_str};

verus! {

/// `items` with `sep` between neighbours.
pub open spec fn joined(items: Seq<Seq<char>>, sep: Seq<char>) -> Seq<char>
    decreases items.len(),
{
    if items.len() == 0 {
        Seq::empty()
    } else if items.len() == 1 {
        items[0]
    } else {
        joined(items.drop_last(), sep) + sep + items.last()
    }
}

/// The texts of some strings.
pub open spec fn texts(v: Seq<String>) -> Seq<Seq<char>> {
    v.map_values(|s: String| s@)
}

/// A line about the entity with this UUID.
pub open spec fn tagged(id: u128, rest: Seq<char>) -> Seq<char> {
    "["@ + uuid_text(id) + "] "@ + rest
}

/// The event-log line of a notice.
pub open spec fn notice_line(n: Notice) -> Seq<char> {
    match n {
        Notice::Mcp { agent_id, event_type } => tagged(agent_id.0, event_type@),
        Notice::StateChanged { agent_id, state } => tagged(agent_id.0, "state -> "@ + state_text(state)),
        Notice::HitlAsked { agent_id, question, options } =>
            tagged(agent_id.0, "! HITL: "@ + question@ + " ("@ + joined(texts(options@), ", "@) + ")"@),
        Notice::HitlAnswered { agent_id, response } => tagged(agent_id.0, "HITL response: "@ + response@),
        Notice::SessionReady { agent_id } => tagged(agent_id.0, "session ready \u{2014} Enter to attach"@),
        Notice::CheckpointSaved { agent_id, checkpoint_id } =>
            tagged(agent_id.0, "checkpoint saved: "@ + uuid_text(checkpoint_id.0)),
        Notice::ObjectiveUpdated { objective_id, status } => tagged(objective_id.0, "objective -> "@ + status_text(status)),
        Notice::ShutdownReceived => "Shutdown signal received"@,
        Notice::CommandChannelClosed => "Command channel closed"@,
        Notice::ObjectiveNotRegistered => "Objective not yet registered \u{2014} try again shortly"@,
        Notice::ObjectiveHasAgent => "Objective already has an active agent"@,
        Notice::NoGoalFiles => "No goal files found \u{2014} press N to create one"@,
        Notice::SelectRootToEdit => "Select a root objective to edit"@,
        Notice::CannotDeleteWithAgent => "Cannot delete objective with active agent"@,
        Notice::CannotDeleteSub => "Cannot delete sub-objectives directly"@,
        Notice::NoSessionToAttach => "Agent has no session to attach to"@,
    }
}

/// `items` joined with `sep` between neighbours.
pub fn join_strings(items: &Vec<String>, sep: &str) -> (r: String)
    ensures
        r@ == joined(texts(items@), sep@),
{
    let n = items.len();
    let mut out = String::new();
    let mut i: usize = 0;
    while i < n
        invariant
            n == items@.len(),
            i <= n,
            out@ == joined(texts(items@.take(i as int)), sep@),
        decreases n - i,
    {
        let ghost before = texts(items@.take(i as int));
        let ghost after = texts(items@.take(i as int + 1));
        proof {
            assert(after.drop_last() =~= before);
            assert(after.last() == items@[i as int]@);
        }
        if i > 0 {
            out = concat(&out, &from_str(sep));
        }
        out = concat(&out, &items[i]);
        proof {
            if i == 0 {
                assert(before =~= Seq::<Seq<char>>::empty());
                assert(out@ =~= after[0]);
            }
        }
        i = i + 1;
    }
    assert(items@.take(n as int) =~= items@);
    out
}

/// A line about the entity with this UUID.
fn tagged_line(id: u128, rest: String) -> (r: String)
    ensures
        r@ == tagged(id, rest@),
{
    let head = concat(&from_str("["), &uuid_string(id));
    let head = concat(&head, &from_str("] "));
    concat(&head, &rest)
}

/// The event-log line of a notice.
pub fn notice_text(n: &Notice) -> (r: String)
    ensures
        r@ == notice_line(*n),
{
    match n {
        Notice::Mcp { agent_id, event_type } => tagged_line(agent_id.0, event_type.clone()),
        Notice::StateChanged { agent_id, state } => {
            let rest = concat(&from_str("state -> "), &from_str(state.as_str()));
            tagged_line(agent_id.0, rest)
        },
        Notice::HitlAsked { agent_id, question, options } => {
            let rest = concat(&from_str("! HITL: "), question);
            let rest = concat(&rest, &from_str(" ("));
            let rest = concat(&rest, &join_strings(options, ", "));
            let rest = concat(&rest, &from_str(")"));
            tagged_line(agent_id.0, rest)
        },
        Notice::HitlAnswered { agent_id, response } => {
            tagged_line(agent_id.0, concat(&from_str("HITL response: "), response))
        },
        Notice::SessionReady { agent_id } => tagged_line(agent_id.0, from_str("session ready \u{2014} Enter to attach")),
        Notice::CheckpointSaved { agent_id, checkpoint_id } => {
            tagged_line(agent_id.0, concat(&from_str("checkpoint saved: "), &uuid_string(checkpoint_id.0)))
        },
        Notice::ObjectiveUpdated { objective_id, status } => {
            tagged_line(objective_id.0, concat(&from_str("objective -> "), &from_str(status.as_str())))
        },
        Notice::ShutdownReceived => from_str("Shutdown signal received"),
        Notice::CommandChannelClosed => from_str("Command channel closed"),
        Notice::ObjectiveNotRegistered => from_str("Objective not yet registered \u{2014} try again shortly"),
        Notice::ObjectiveHasAgent => from_str("Objective already has an active agent"),
        Notice::NoGoalFiles => from_str("No goal files found \u{2014} press N to create one"),
        Notice::SelectRootToEdit => from_str("Select a root objective to edit"),
        Notice::CannotDeleteWithAgent => from_str("Cannot delete objective with active agent"),
        Notice::CannotDeleteSub => from_str("Cannot delete sub-objectives directly"),
        Notice::NoSessionToAttach => from_str("Agent has no session to attach to"),
    }
}

/// Tokens used and the budget (used plus remaining), saturating at
/// `u64::MAX`.
pub open spec fn token_budget(used: u64, remaining: u64) -> u64 {
    if used + remaining <= u64::MAX { (used + remaining) as u64 } else { u64::MAX }
}

/// The line of an agent row: its label (the goal's title, or the agent's
/// id), its state in brackets, tokens used out of the budget when reported, and
/// `!` while a question waits.
pub open spec fn agent_line(a: AgentNode) -> Seq<char> {
    let label = a.objective_label@;
    let tokens = match (a.tokens_used, a.tokens_remaining) {
        (Some(u), Some(r)) => " "@ + dec_text(u as nat) + "/"@ + dec_text(token_budget(u, r) as nat),
        _ => Seq::empty(),
    };
    label + " ["@ + state_text(a.state) + "]"@ + tokens + (if a.hitl_pending { " !"@ } else { Seq::empty() })
}

/// The line of an agent row.
pub fn agent_row_line(a: &AgentNode) -> (r: String)
    ensures
        r@ == agent_line(*a),
{
    let mut out = concat(&a.objective_label, &from_str(" ["));
    out = concat(&out, &from_str(a.state.as_str()));
    out = concat(&out, &from_str("]"));
    match (a.tokens_used, a.tokens_remaining) {
        (Some(u), Some(rem)) => {
            let budget = if u <= u64::MAX - rem { u + rem } else { u64::MAX };
            out = concat(&out, &from_str(" "));
            out = concat(&out, &decimal(u));
            out = concat(&out, &from_str("/"));
            out = concat(&out, &decimal(budget));
        },
        _ => {},
    }
    if a.hitl_pending {
        out = concat(&out, &from_str(" !"));
    }
    assert(out@ =~= agent_line(*a));
    out
}

} // verus!
