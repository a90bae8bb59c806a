use vstd::prelude::*;

verus! {

/// Which of the three overview panels owns keyboard focus.
#[derive(Debug, Clone, Copy, PartialEq, Eq, Structural)]
pub enum FocusPanel {
    ObjectiveTree,
    AgentTree,
    EventLog,
}

/// Position of a panel in the Tab cycle.
pub open spec fn focus_index(p: FocusPanel) -> int {
    match p {
        FocusPanel::ObjectiveTree => 0,
        FocusPanel::AgentTree => 1,
        FocusPanel::EventLog => 2,
    }
}

/// The panel at a given position of the Tab cycle (taken modulo three).
pub open spec fn focus_at(i: int) -> FocusPanel {
    let k = i % 3;
    if k == 0 {
        FocusPanel::ObjectiveTree
    } else if k == 1 {
        FocusPanel::AgentTree
    } else {
        FocusPanel::EventLog
    }
}

impl FocusPanel {
    /// The panel that Tab moves focus to.
    pub fn next(self) -> (r: Self)
        ensures
            r == focus_at(focus_index(self) + 1),
    {
        match self {
            FocusPanel::ObjectiveTree => FocusPanel::AgentTree,
            FocusPanel::AgentTree => FocusPanel::EventLog,
            FocusPanel::EventLog => FocusPanel::ObjectiveTree,
        }
    }

    /// The panel that Shift+Tab moves focus to.
    pub fn prev(self) -> (r: Self)
        ensures
            r == focus_at(focus_index(self) + 2),
    {
        match self {
            FocusPanel::ObjectiveTree => FocusPanel::EventLog,
            FocusPanel::AgentTree => FocusPanel::ObjectiveTree,
            FocusPanel::EventLog => FocusPanel::AgentTree,
        }
    }

    /// Focus starts on the objective tree.
    pub fn default_panel() -> (r: Self)
        ensures
            r == FocusPanel::ObjectiveTree,
    {
        FocusPanel::ObjectiveTree
    }
}

impl Default for FocusPanel {
    fn default() -> (r: Self)
        ensures
            r == FocusPanel::ObjectiveTree,
    {
        FocusPanel::ObjectiveTree
    }
}

/// `prev` undoes `next` and `next` undoes `prev`.
pub proof fn lemma_focus_next_prev_inverse(p: FocusPanel)
    ensures
        focus_at(focus_index(focus_at(focus_index(p) + 1)) + 2) == p,
        focus_at(focus_index(focus_at(focus_index(p) + 2)) + 1) == p,
{
}

/// Three presses of Tab (or of Shift+Tab) bring focus back where it started.
pub proof fn lemma_focus_cycle_of_three(p: FocusPanel)
    ensures
        focus_at(focus_index(focus_at(focus_index(focus_at(focus_index(p) + 1)) + 1)) + 1) == p,
        focus_at(focus_index(focus_at(focus_index(focus_at(focus_index(p) + 2)) + 2)) + 2) == p,
{
}

} // verus!
