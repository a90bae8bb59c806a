//! Agent lifecycle states and directives as the store records them.

use vstd::prelude::*;
use crate::text::str_equal;

verus! {

#[derive(Debug, Clone, Copy, PartialEq, Eq, Structural)]
pub enum AgentState {
    Starting,
    Active,
    Paused,
    Suspending,
    Exited,
    Failed,
}

/// Stored text of a state.
pub open spec fn state_text(s: AgentState) -> Seq<char> {
    match s {
        AgentState::Starting => "starting"@,
        AgentState::Active => "active"@,
        AgentState::Paused => "paused"@,
        AgentState::Suspending => "suspending"@,
        AgentState::Exited => "exited"@,
        AgentState::Failed => "failed"@,
    }
}

/// The state whose stored text is `s`.
pub open spec fn state_of_text(s: Seq<char>) -> Option<AgentState> {
    if s == "starting"@ {
        Some(AgentState::Starting)
    } else if s == "active"@ {
        Some(AgentState::Active)
    } else if s == "paused"@ {
        Some(AgentState::Paused)
    } else if s == "suspending"@ {
        Some(AgentState::Suspending)
    } else if s == "exited"@ {
        Some(AgentState::Exited)
    } else if s == "failed"@ {
        Some(AgentState::Failed)
    } else {
        None
    }
}

/// States an agent resumes into after an orchestrator restart.
pub open spec fn spec_in_active_phase(s: AgentState) -> bool {
    s is Starting || s is Active || s is Paused || s is Suspending
}

/// The agents that resume after a restart are exactly those that have not
/// finished: every state but exited and failed, which are the rows whose
/// stored state is one of `starting`, `active`, `paused`, `suspending`.
pub proof fn lemma_active_phase_is_unfinished(s: AgentState)
    ensures
        spec_in_active_phase(s) <==> !(s == AgentState::Exited || s == AgentState::Failed),
        spec_in_active_phase(s) <==> (state_text(s) == "starting"@ || state_text(s) == "active"@
            || state_text(s) == "paused"@ || state_text(s) == "suspending"@),
        spec_in_active_phase(AgentState::Paused),
{
    reveal_strlit("starting");
    reveal_strlit("active");
    reveal_strlit("paused");
    reveal_strlit("suspending");
    reveal_strlit("exited");
    reveal_strlit("failed");
    match s {
        AgentState::Exited => {
            assert("exited"@.len() != "starting"@.len());
            assert("exited"@[0] != "active"@[0]);
            assert("exited"@[0] != "paused"@[0]);
            assert("exited"@.len() != "suspending"@.len());
        },
        AgentState::Failed => {
            assert("failed"@.len() != "starting"@.len());
            assert("failed"@[0] != "active"@[0]);
            assert("failed"@[0] != "paused"@[0]);
            assert("failed"@.len() != "suspending"@.len());
        },
        _ => {},
    }
}

impl AgentState {
    pub fn as_str(&self) -> (r: &'static str)
        ensures
            r@ == state_text(*self),
    {
        match self {
            AgentState::Starting => "starting",
            AgentState::Active => "active",
            AgentState::Paused => "paused",
            AgentState::Suspending => "suspending",
            AgentState::Exited => "exited",
            AgentState::Failed => "failed",
        }
    }

    /// Parse a stored state; `None` for unknown text.
    pub fn parse(s: &str) -> (r: Option<AgentState>)
        ensures
            r == state_of_text(s@),
    {
        if str_equal(s, "starting") {
            Some(AgentState::Starting)
        } else if str_equal(s, "active") {
            Some(AgentState::Active)
        } else if str_equal(s, "paused") {
            Some(AgentState::Paused)
        } else if str_equal(s, "suspending") {
            Some(AgentState::Suspending)
        } else if str_equal(s, "exited") {
            Some(AgentState::Exited)
        } else if str_equal(s, "failed") {
            Some(AgentState::Failed)
        } else {
            None
        }
    }

    /// Starting, active, paused or suspending.
    pub fn in_active_phase(&self) -> (r: bool)
        ensures
            r == spec_in_active_phase(*self),
    {
        matches!(self, AgentState::Starting | AgentState::Active | AgentState::Paused | AgentState::Suspending)
    }
}

/// What an agent is told to do on its next poll.
#[derive(Debug, Clone, Copy, PartialEq, Eq, Structural)]
pub enum Directive {
    Continue,
    Pause,
}

pub open spec fn directive_text(d: Directive) -> Seq<char> {
    match d {
        Directive::Continue => "continue"@,
        Directive::Pause => "pause"@,
    }
}

/// The directive whose stored text is `s`.
pub open spec fn directive_of_text(s: Seq<char>) -> Option<Directive> {
    if s == "continue"@ {
        Some(Directive::Continue)
    } else if s == "pause"@ {
        Some(Directive::Pause)
    } else {
        None
    }
}

impl Directive {
    pub fn as_str(&self) -> (r: &'static str)
        ensures
            r@ == directive_text(*self),
    {
        match self {
            Directive::Continue => "continue",
            Directive::Pause => "pause",
        }
    }

    pub fn parse(s: &str) -> (r: Option<Directive>)
        ensures
            r == directive_of_text(s@),
    {
        if str_equal(s, "continue") {
            Some(Directive::Continue)
        } else if str_equal(s, "pause") {
            Some(Directive::Pause)
        } else {
            None
        }
    }
}

/// Parsing the stored text of a state gives that state back.
pub proof fn lemma_state_text_round_trip(st: AgentState)
    ensures
        state_of_text(state_text(st)) == Some(st),
{
    reveal_strlit("starting");
    reveal_strlit("active");
    reveal_strlit("paused");
    reveal_strlit("suspending");
    reveal_strlit("exited");
    reveal_strlit("failed");
    match st {
        AgentState::Starting => {},
        AgentState::Active => {
            assert("active"@[0] != "starting"@[0]);
        },
        AgentState::Paused => {
            assert("paused"@[0] != "starting"@[0]);
            assert("paused"@[0] != "active"@[0]);
        },
        AgentState::Suspending => {
            assert("suspending"@[1] != "starting"@[1]);
            assert("suspending"@[0] != "active"@[0]);
            assert("suspending"@[0] != "paused"@[0]);
        },
        AgentState::Exited => {
            assert("exited"@[0] != "starting"@[0]);
            assert("exited"@[0] != "active"@[0]);
            assert("exited"@[0] != "paused"@[0]);
            assert("exited"@[0] != "suspending"@[0]);
        },
        AgentState::Failed => {
            assert("failed"@[0] != "starting"@[0]);
            assert("failed"@[0] != "active"@[0]);
            assert("failed"@[0] != "paused"@[0]);
            assert("failed"@[0] != "suspending"@[0]);
            assert("failed"@[0] != "exited"@[0]);
        },
    }
}

/// Parsing the stored text of a directive gives that directive back.
pub proof fn lemma_directive_text_round_trip(d: Directive)
    ensures
        directive_of_text(directive_text(d)) == Some(d),
{
    reveal_strlit("continue");
    reveal_strlit("pause");
    if d is Pause {
        assert("pause"@[0] != "continue"@[0]);
    }
}

} // verus!
