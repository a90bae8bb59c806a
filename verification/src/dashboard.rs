//! The operator dashboard's state machine: focus, modals, the objective and
//! agent trees, pending human-in-the-loop questions and the embedded
//! session pane. The runtime feeds it keys and bus events; it answers with
//! the next state and at most one effect for the runtime to carry out
//! (send a command, log a notice, open an editor, delete a file, attach a
//! session, submit a prompt, scroll the event log).

use vstd::prelude::*;
use std::collections::HashMap;
use crate::agent::AgentState;
use crate::focus::FocusPanel;
use crate::hotkey::HotkeyContext;
use crate::ids::{AgentId, ObjectiveId, CheckpointId};
use crate::input::{InputState, KeyCode, KeyEvent, InputAction, editor_fits, empty_editor, PaneMode};
use crate::modal::{Modal, spec_move_up, spec_move_down};
use crate::session::{SessionPane, HitlRequest, clone_strings};
use crate::text::{from_str, concat};
use crate::format::{uuid_text, uuid_string};
use crate::tree::{GoalObjective, ObjectiveItem, ObjectiveStatus, ObjectiveTreeState, TreePanelState, FlatTreeItem, goals_fit, resized_flags, rows_of, goal_rows};

verus! {

broadcast use vstd::std_specs::hash::group_hash_axioms;

/// An agent row of the agent tree.
#[derive(Debug)]
pub struct AgentNode {
    pub id: AgentId,
    pub state: AgentState,
    /// Title of the goal the agent works on; `None` shows the agent id.
    pub objective_label: String,
    pub tokens_used: Option<u64>,
    pub tokens_remaining: Option<u64>,
    pub hitl_pending: bool,
    pub session_id: Option<String>,
    pub directory: Option<String>,
    pub has_session: bool,
}

/// A command for the orchestrator.
#[derive(Debug, PartialEq, Eq)]
pub enum Command {
    Spawn { objective_id: ObjectiveId, content: String },
    Kill { agent_id: AgentId },
    Pause { agent_id: AgentId },
    Resume { agent_id: AgentId },
    HitlRespond { agent_id: AgentId, response: String },
}

/// Why a command could not be sent.
#[derive(Debug, Clone, Copy, PartialEq, Eq, Structural)]
pub enum TuiCommandError {
    ChannelClosed,
}

/// A line for the event log; the runtime renders it as text.
#[derive(Debug, PartialEq, Eq)]
pub enum Notice {
    /// An MCP event of an agent; `event_type` is the event type's name.
    Mcp { agent_id: AgentId, event_type: String },
    StateChanged { agent_id: AgentId, state: AgentState },
    HitlAsked { agent_id: AgentId, question: String, options: Vec<String> },
    HitlAnswered { agent_id: AgentId, response: String },
    SessionReady { agent_id: AgentId },
    CheckpointSaved { agent_id: AgentId, checkpoint_id: CheckpointId },
    ObjectiveUpdated { objective_id: ObjectiveId, status: ObjectiveStatus },
    ShutdownReceived,
    CommandChannelClosed,
    ObjectiveNotRegistered,
    ObjectiveHasAgent,
    NoGoalFiles,
    SelectRootToEdit,
    CannotDeleteWithAgent,
    CannotDeleteSub,
    NoSessionToAttach,
}

/// Direction of an event-log scroll.
#[derive(Debug, Clone, Copy, PartialEq, Eq)]
pub enum LogScroll {
    Up,
    Down,
    Top,
    Bottom,
}

/// What the runtime must do after a step.
#[derive(Debug, PartialEq, Eq)]
pub enum Effect {
    Send(Command),
    Log(Notice),
    /// Create a goal template, open it in the editor, then reload the goals.
    NewObjective,
    /// Open this goal file in the editor, then reload the goals.
    EditObjective { path: String },
    /// Delete this goal file, then reload the goals.
    DeleteGoalFile { path: String, title: String },
    /// Hand the terminal to the agent's session.
    AttachSession { agent_id: AgentId, session_id: String, directory: String, first_time: bool },
    /// Queue a prompt typed into the session pane.
    SubmitPrompt(String),
    ScrollLog(LogScroll),
}

/// An event on the orchestrator's bus.
#[derive(Debug, Clone)]
pub enum BusEvent {
    /// An MCP event of an agent; `event_type` is the event type's name.
    Mcp { agent_id: AgentId, event_type: String },
    AgentStateChanged { agent_id: AgentId, old_state: AgentState, new_state: AgentState },
    TokenReport { agent_id: AgentId, used: u64, remaining: u64 },
    HitlRequested { agent_id: AgentId, question: String, options: Vec<String> },
    HitlResponded { agent_id: AgentId, response: String },
    AgentSessionReady { agent_id: AgentId, session_id: String, directory: String },
    CheckpointSaved { agent_id: AgentId, checkpoint_id: CheckpointId },
    ObjectiveUpdated { objective_id: ObjectiveId, status: ObjectiveStatus },
    Shutdown,
}

/// A pending question: its text and answer options.
#[derive(Debug)]
pub struct PendingQuestion {
    pub question: String,
    pub options: Vec<String>,
}

/// The dashboard.
pub struct Dashboard {
    pub focus: FocusPanel,
    pub running: bool,
    pub modal: Modal,
    pub needs_clear: bool,
    pub show_debug: bool,
    pub debug_scroll: usize,
    pub pending_hitl: HashMap<u128, PendingQuestion>,
    pub goals: Vec<GoalObjective>,
    pub objective_tree: ObjectiveTreeState,
    pub agent_tree: TreePanelState<AgentNode>,
    pub session_focus: Option<AgentId>,
    pub session_pane: SessionPane,
    pub input: InputState,
}

/// Index of the first agent row with this id.
pub open spec fn agent_index(items: Seq<FlatTreeItem<AgentNode>>, id: AgentId) -> Option<int> {
    if exists|i: int| 0 <= i < items.len() && items[i].data.id == id {
        Some(choose|i: int| 0 <= i < items.len() && items[i].data.id == id
            && forall|j: int| 0 <= j < i ==> items[j].data.id != id)
    } else {
        None
    }
}

/// `m` is the HITL modal of agent `id` asking `question` with `options`,
/// first option selected.
pub open spec fn hitl_modal(m: Modal, id: AgentId, question: Seq<char>, options: Seq<String>) -> bool {
    m matches Modal::HitlResponse { agent_id, question: q, options: o, selected }
        && agent_id == id && q@ == question && o@ == options && selected == 0
}

/// `o` with only its modal replaced by `m`.
pub open spec fn with_modal(o: Dashboard, m: Modal) -> Dashboard {
    Dashboard { modal: m, ..o }
}

/// `n` is `o` with the pending question of agent `id` shown in the HITL
/// modal, or `o` itself when that agent has no pending question.
pub open spec fn opened_hitl(o: Dashboard, n: Dashboard, id: AgentId) -> bool {
    if o.pending_hitl@.contains_key(id.0) {
        &&& hitl_modal(n.modal, id, o.pending_hitl@[id.0].question@, o.pending_hitl@[id.0].options@)
        &&& n == with_modal(o, n.modal)
    } else {
        n == o
    }
}

/// `n` with its HITL flag set to `flag`.
pub open spec fn with_hitl(n: FlatTreeItem<AgentNode>, flag: bool) -> FlatTreeItem<AgentNode> {
    FlatTreeItem { data: AgentNode { hitl_pending: flag, ..n.data }, ..n }
}

fn set_flag_at(items: &mut Vec<FlatTreeItem<AgentNode>>, i: usize, flag: bool)
    requires
        i < old(items)@.len(),
    ensures
        final(items)@ == old(items)@.update(i as int, with_hitl(old(items)@[i as int], flag)),
{
    let ghost before = items@;
    let mut node = items.remove(i);
    node.data.hitl_pending = flag;
    items.insert(i, node);
    assert(items@ =~= before.update(i as int, with_hitl(before[i as int], flag)));
}

pub open spec fn with_state(n: FlatTreeItem<AgentNode>, st: AgentState) -> FlatTreeItem<AgentNode> {
    FlatTreeItem { data: AgentNode { state: st, ..n.data }, ..n }
}

pub open spec fn with_tokens(n: FlatTreeItem<AgentNode>, used: u64, remaining: u64) -> FlatTreeItem<AgentNode> {
    FlatTreeItem { data: AgentNode { tokens_used: Some(used), tokens_remaining: Some(remaining), ..n.data }, ..n }
}

pub open spec fn session_ready(n: FlatTreeItem<AgentNode>, session_id: String, directory: String) -> FlatTreeItem<AgentNode> {
    FlatTreeItem { data: AgentNode { session_id: Some(session_id), directory: Some(directory), ..n.data }, ..n }
}

pub open spec fn with_session_created(n: FlatTreeItem<AgentNode>) -> FlatTreeItem<AgentNode> {
    FlatTreeItem { data: AgentNode { has_session: true, ..n.data }, ..n }
}

/// What each bus update does to an agent row: a state change sets the
/// state, a token report both counts, a question or its answer the question
/// flag, a ready session its id and directory, a first attach the
/// created-session flag; each leaves the row's agent, label and place in the
/// tree alone, and the fields it does not name as they were.
pub proof fn lemma_agent_row_updates(
    n: FlatTreeItem<AgentNode>,
    st: AgentState,
    used: u64,
    remaining: u64,
    flag: bool,
    session_id: String,
    directory: String,
)
    ensures
        ({
            let m = with_state(n, st);
            &&& m.data.state == st
            &&& m.data.tokens_used == n.data.tokens_used && m.data.tokens_remaining == n.data.tokens_remaining
            &&& m.data.hitl_pending == n.data.hitl_pending && m.data.has_session == n.data.has_session
            &&& m.data.session_id == n.data.session_id && m.data.directory == n.data.directory
            &&& m.data.id == n.data.id && m.data.objective_label == n.data.objective_label
            &&& m.depth == n.depth && m.is_expanded == n.is_expanded && m.has_children == n.has_children
        }),
        ({
            let m = with_tokens(n, used, remaining);
            &&& m.data.tokens_used == Some(used) && m.data.tokens_remaining == Some(remaining)
            &&& m.data.state == n.data.state
            &&& m.data.hitl_pending == n.data.hitl_pending && m.data.has_session == n.data.has_session
            &&& m.data.session_id == n.data.session_id && m.data.directory == n.data.directory
            &&& m.data.id == n.data.id && m.data.objective_label == n.data.objective_label
            &&& m.depth == n.depth && m.is_expanded == n.is_expanded && m.has_children == n.has_children
        }),
        ({
            let m = with_hitl(n, flag);
            &&& m.data.hitl_pending == flag
            &&& m.data.state == n.data.state
            &&& m.data.tokens_used == n.data.tokens_used && m.data.tokens_remaining == n.data.tokens_remaining
            &&& m.data.has_session == n.data.has_session
            &&& m.data.session_id == n.data.session_id && m.data.directory == n.data.directory
            &&& m.data.id == n.data.id && m.data.objective_label == n.data.objective_label
            &&& m.depth == n.depth && m.is_expanded == n.is_expanded && m.has_children == n.has_children
        }),
        ({
            let m = session_ready(n, session_id, directory);
            &&& m.data.session_id == Some(session_id) && m.data.directory == Some(directory)
            &&& m.data.state == n.data.state && m.data.hitl_pending == n.data.hitl_pending
            &&& m.data.tokens_used == n.data.tokens_used && m.data.tokens_remaining == n.data.tokens_remaining
            &&& m.data.has_session == n.data.has_session
            &&& m.data.id == n.data.id && m.data.objective_label == n.data.objective_label
            &&& m.depth == n.depth && m.is_expanded == n.is_expanded && m.has_children == n.has_children
        }),
        ({
            let m = with_session_created(n);
            &&& m.data.has_session
            &&& m.data.state == n.data.state && m.data.hitl_pending == n.data.hitl_pending
            &&& m.data.tokens_used == n.data.tokens_used && m.data.tokens_remaining == n.data.tokens_remaining
            &&& m.data.session_id == n.data.session_id && m.data.directory == n.data.directory
            &&& m.data.id == n.data.id && m.data.objective_label == n.data.objective_label
            &&& m.depth == n.depth && m.is_expanded == n.is_expanded && m.has_children == n.has_children
        }),
{
}

/// A token report records both counts on the reporting agent's row, used
/// and remaining, and touches nothing else: the row keeps its id, state,
/// label, question flag and session, and every other row stays as it was.
/// A report for an agent without a row changes nothing.
pub proof fn lemma_token_report_records_both_counts(
    before: Seq<FlatTreeItem<AgentNode>>,
    after: Seq<FlatTreeItem<AgentNode>>,
    agent_id: AgentId,
    used: u64,
    remaining: u64,
)
    requires
        after == match agent_index(before, agent_id) {
            Some(i) => before.update(i, with_tokens(before[i], used, remaining)),
            None => before,
        },
    ensures
        after.len() == before.len(),
        agent_index(before, agent_id) is None ==> after == before,
        agent_index(before, agent_id) matches Some(i) ==> {
            &&& 0 <= i < after.len()
            &&& after[i].data.id == agent_id
            &&& after[i].data.tokens_used == Some(used)
            &&& after[i].data.tokens_remaining == Some(remaining)
            &&& after[i].data.state == before[i].data.state
            &&& after[i].data.objective_label == before[i].data.objective_label
            &&& after[i].data.hitl_pending == before[i].data.hitl_pending
            &&& after[i].data.session_id == before[i].data.session_id
            &&& after[i].data.directory == before[i].data.directory
            &&& after[i].data.has_session == before[i].data.has_session
            &&& after[i].depth == before[i].depth
            &&& forall|j: int| 0 <= j < after.len() && j != i ==> after[j] == before[j]
        },
{
    if exists|i: int| 0 <= i < before.len() && before[i].data.id == agent_id {
        let i = choose|i: int| 0 <= i < before.len() && before[i].data.id == agent_id
            && forall|j: int| 0 <= j < i ==> before[j].data.id != agent_id;
        let w = choose|w: int| 0 <= w < before.len() && before[w].data.id == agent_id;
        lemma_first_with_id(before, agent_id, w);
        assert(agent_index(before, agent_id) == Some(i));
    }
}

/// Some index of `items` holds the first row of `id`.
proof fn lemma_first_with_id(items: Seq<FlatTreeItem<AgentNode>>, id: AgentId, w: int)
    requires
        0 <= w < items.len(),
        items[w].data.id == id,
    ensures
        exists|i: int| 0 <= i < items.len() && items[i].data.id == id
            && forall|j: int| 0 <= j < i ==> items[j].data.id != id,
    decreases w,
{
    if exists|j: int| 0 <= j < w && items[j].data.id == id {
        let j = choose|j: int| 0 <= j < w && items[j].data.id == id;
        lemma_first_with_id(items, id, j);
    } else {
        assert(forall|j: int| 0 <= j < w ==> items[j].data.id != id);
    }
}

/// Title of the first goal assigned to agent `id`.
pub open spec fn goal_label(goals: Seq<GoalObjective>, id: AgentId) -> Option<Seq<char>>
    decreases goals.len(),
{
    if goals.len() == 0 {
        None
    } else {
        match goal_label(goals.drop_last(), id) {
            Some(t) => Some(t),
            None => if goals.last().agent_id == Some(id) { Some(goals.last().title@) } else { None },
        }
    }
}

/// The label of a new agent row: the title of the goal the agent works
/// on, or else the agent's id.
pub open spec fn agent_label(goals: Seq<GoalObjective>, id: AgentId) -> Seq<char> {
    match goal_label(goals, id) {
        Some(t) => t,
        None => uuid_text(id.0),
    }
}

/// A new agent row: top level, no children, no tokens, no session.
pub open spec fn new_agent_row(n: FlatTreeItem<AgentNode>, id: AgentId, st: AgentState, label: Seq<char>) -> bool {
    &&& n.depth == 0 && n.is_expanded && !n.has_children
    &&& n.data.id == id && n.data.state == st
    &&& n.data.objective_label@ == label
    &&& n.data.tokens_used is None && n.data.tokens_remaining is None
    &&& !n.data.hitl_pending && n.data.session_id is None && n.data.directory is None && !n.data.has_session
}

fn goal_label_of(goals: &Vec<GoalObjective>, id: AgentId) -> (r: Option<String>)
    ensures
        match (r, goal_label(goals@, id)) {
            (Some(a), Some(b)) => a@ == b,
            (None, None) => true,
            _ => false,
        },
{
    let n = goals.len();
    let mut i: usize = 0;
    while i < n
        invariant
            n == goals@.len(),
            i <= n,
            goal_label(goals@.take(i as int), id) is None,
        decreases n - i,
    {
        let ghost t = goals@.take(i as int + 1);
        assert(t.drop_last() =~= goals@.take(i as int));
        if goals[i].agent_id == Some(id) {
            let title = goals[i].title.clone();
            proof {
                assert(goal_label(t, id) == Some(goals@[i as int].title@));
                lemma_goal_label_prefix(goals@, i as int + 1, id);
            }
            return Some(title);
        }
        i = i + 1;
    }
    assert(goals@.take(n as int) =~= goals@);
    None
}

proof fn lemma_goal_label_prefix(goals: Seq<GoalObjective>, k: int, id: AgentId)
    requires
        0 <= k <= goals.len(),
        goal_label(goals.take(k), id) is Some,
    ensures
        goal_label(goals, id) == goal_label(goals.take(k), id),
    decreases goals.len() - k,
{
    if k < goals.len() {
        let t = goals.take(k + 1);
        assert(t.drop_last() =~= goals.take(k));
        lemma_goal_label_prefix(goals, k + 1, id);
    } else {
        assert(goals.take(k) =~= goals);
    }
}

fn set_state_at(items: &mut Vec<FlatTreeItem<AgentNode>>, i: usize, st: AgentState)
    requires
        i < old(items)@.len(),
    ensures
        final(items)@ == old(items)@.update(i as int, with_state(old(items)@[i as int], st)),
{
    let ghost before = items@;
    let mut node = items.remove(i);
    node.data.state = st;
    items.insert(i, node);
    assert(items@ =~= before.update(i as int, with_state(before[i as int], st)));
}

fn set_tokens_at(items: &mut Vec<FlatTreeItem<AgentNode>>, i: usize, used: u64, remaining: u64)
    requires
        i < old(items)@.len(),
    ensures
        final(items)@ == old(items)@.update(i as int, with_tokens(old(items)@[i as int], used, remaining)),
{
    let ghost before = items@;
    let mut node = items.remove(i);
    node.data.tokens_used = Some(used);
    node.data.tokens_remaining = Some(remaining);
    items.insert(i, node);
    assert(items@ =~= before.update(i as int, with_tokens(before[i as int], used, remaining)));
}

fn set_session_at(items: &mut Vec<FlatTreeItem<AgentNode>>, i: usize, session_id: String, directory: String)
    requires
        i < old(items)@.len(),
    ensures
        final(items)@ == old(items)@.update(i as int, session_ready(old(items)@[i as int], session_id, directory)),
{
    let ghost before = items@;
    let mut node = items.remove(i);
    node.data.session_id = Some(session_id);
    node.data.directory = Some(directory);
    items.insert(i, node);
    assert(items@ =~= before.update(i as int, session_ready(before[i as int], session_id, directory)));
}

pub(crate) fn set_created_at(items: &mut Vec<FlatTreeItem<AgentNode>>, i: usize)
    requires
        i < old(items)@.len(),
    ensures
        final(items)@ == old(items)@.update(i as int, with_session_created(old(items)@[i as int])),
{
    let ghost before = items@;
    let mut node = items.remove(i);
    node.data.has_session = true;
    items.insert(i, node);
    assert(items@ =~= before.update(i as int, with_session_created(before[i as int])));
}

/// `b` differs from `a` at most in the pending questions.
pub open spec fn same_but_pending(a: Dashboard, b: Dashboard) -> bool {
    &&& b.focus == a.focus
    &&& b.running == a.running
    &&& b.modal == a.modal
    &&& b.needs_clear == a.needs_clear
    &&& b.show_debug == a.show_debug
    &&& b.debug_scroll == a.debug_scroll
    &&& b.agent_tree == a.agent_tree
    &&& b.goals == a.goals
    &&& b.objective_tree == a.objective_tree
    &&& b.session_focus == a.session_focus
    &&& b.session_pane == a.session_pane
    &&& b.input == a.input
}

/// `b` differs from `a` at most in the agent tree.
pub open spec fn same_but_agents(a: Dashboard, b: Dashboard) -> bool {
    &&& b.focus == a.focus
    &&& b.running == a.running
    &&& b.modal == a.modal
    &&& b.needs_clear == a.needs_clear
    &&& b.show_debug == a.show_debug
    &&& b.debug_scroll == a.debug_scroll
    &&& b.pending_hitl == a.pending_hitl
    &&& b.goals == a.goals
    &&& b.objective_tree == a.objective_tree
    &&& b.session_focus == a.session_focus
    &&& b.session_pane == a.session_pane
    &&& b.input == a.input
}

/// The well-formedness the dashboard keeps.
pub open spec fn dashboard_wf(d: Dashboard) -> bool {
    &&& d.input.wf()
    &&& goals_fit(d.goals@)
}

impl Dashboard {
    /// The dashboard over `goals`, with the objective tree loaded.
    pub fn new(goals: Vec<GoalObjective>) -> (r: Self)
        requires
            goals_fit(goals@),
        ensures
            dashboard_wf(r),
            r.focus == FocusPanel::ObjectiveTree,
            r.running,
            r.modal is Closed,
            !r.needs_clear,
            !r.show_debug,
            r.debug_scroll == 0,
            r.pending_hitl@ == Map::<u128, PendingQuestion>::empty(),
            r.goals == goals,
            r.objective_tree.expanded@ == resized_flags(Seq::<bool>::empty(), goals@.len() as int),
            rows_of(r.objective_tree.panel.items@) == goal_rows(goals@, r.objective_tree.expanded@),
            r.objective_tree.panel.cursor == 0,
            r.objective_tree.panel.scroll_offset == 0,
            r.agent_tree.items@.len() == 0,
            r.agent_tree.cursor == 0,
            r.agent_tree.scroll_offset == 0,
            r.session_focus is None,
            r.session_pane.events@.len() == 0,
            !r.session_pane.focused,
            r.input.view() == empty_editor(PaneMode::Normal),
    {
        let mut objective_tree = ObjectiveTreeState::new();
        objective_tree.load_goals(&goals);
        Dashboard {
            focus: FocusPanel::ObjectiveTree,
            running: true,
            modal: Modal::Closed,
            needs_clear: false,
            show_debug: false,
            debug_scroll: 0,
            pending_hitl: HashMap::new(),
            goals,
            objective_tree,
            agent_tree: TreePanelState::new(),
            session_focus: None,
            session_pane: SessionPane::new(),
            input: InputState::new(),
        }
    }

    /// Index of the first agent row with this id.
    pub fn find_agent(&self, id: AgentId) -> (r: Option<usize>)
        ensures
            match r {
                Some(i) => agent_index(self.agent_tree.items@, id) == Some(i as int)
                    && i < self.agent_tree.items@.len()
                    && self.agent_tree.items@[i as int].data.id == id,
                None => agent_index(self.agent_tree.items@, id) is None,
            },
    {
        let n = self.agent_tree.items.len();
        let mut i: usize = 0;
        while i < n
            invariant
                n == self.agent_tree.items@.len(),
                i <= n,
                forall|j: int| 0 <= j < i ==> self.agent_tree.items@[j].data.id != id,
            decreases n - i,
        {
            if self.agent_tree.items[i].data.id == id {
                proof {
                    let items = self.agent_tree.items@;
                    assert(exists|k: int| 0 <= k < items.len() && items[k].data.id == id);
                    let c = choose|k: int| 0 <= k < items.len() && items[k].data.id == id
                        && forall|j: int| 0 <= j < k ==> items[j].data.id != id;
                    assert(0 <= i < items.len() && items[i as int].data.id == id
                        && forall|j: int| 0 <= j < i ==> items[j].data.id != id);
                    if c < i {
                    } else if c > i {
                    }
                    assert(c == i);
                }
                return Some(i);
            }
            i = i + 1;
        }
        None
    }

    /// Set the HITL flag of agent `id`, if it has a row.
    pub(crate) fn set_hitl_flag(&mut self, id: AgentId, flag: bool)
        ensures
            same_but_agents(*old(self), *final(self)),
            final(self).agent_tree.cursor == old(self).agent_tree.cursor,
            final(self).agent_tree.scroll_offset == old(self).agent_tree.scroll_offset,
            final(self).agent_tree.items@ == match agent_index(old(self).agent_tree.items@, id) {
                Some(i) => old(self).agent_tree.items@.update(i, with_hitl(old(self).agent_tree.items@[i], flag)),
                None => old(self).agent_tree.items@,
            },
    {
        match self.find_agent(id) {
            Some(i) => {
                set_flag_at(&mut self.agent_tree.items, i, flag);
            },
            None => {},
        }
    }

    /// Record a pending question for agent `id`, replacing an earlier one.
    fn remember_question(&mut self, id: AgentId, question: String, options: Vec<String>)
        ensures
            final(self).pending_hitl@ == old(self).pending_hitl@.insert(
                id.0,
                PendingQuestion { question, options },
            ),
            same_but_pending(*old(self), *final(self)),
    {
        self.pending_hitl.insert(id.0, PendingQuestion { question, options });
    }

    /// Open the question of agent `id` in the HITL modal, when one is pending.
    pub fn try_open_hitl_modal(&mut self, id: AgentId)
        ensures
            opened_hitl(*old(self), *final(self), id),
    {
        match self.pending_hitl.get(&id.0) {
            Some(p) => {
                let question = p.question.clone();
                let options = clone_strings(&p.options);
                self.modal = Modal::HitlResponse { agent_id: id, question, options, selected: 0 };
            },
            None => {},
        }
    }
}

impl Dashboard {
    /// Take in a question from a session pump: remember it, flag the agent,
    /// and show it unless another modal is open.
    pub fn handle_hitl_request(&mut self, req: HitlRequest)
        ensures
            final(self).pending_hitl@.contains_key(req.agent_id.0),
            final(self).pending_hitl@[req.agent_id.0].question@ == req.question@,
            final(self).pending_hitl@[req.agent_id.0].options@ == req.options@,
            forall|k: u128| k != req.agent_id.0 ==> #[trigger] final(self).pending_hitl@.contains_key(k)
                == old(self).pending_hitl@.contains_key(k)
                && (old(self).pending_hitl@.contains_key(k) ==> final(self).pending_hitl@[k] == old(self).pending_hitl@[k]),
            final(self).agent_tree.items@ == match agent_index(old(self).agent_tree.items@, req.agent_id) {
                Some(i) => old(self).agent_tree.items@.update(i, with_hitl(old(self).agent_tree.items@[i], true)),
                None => old(self).agent_tree.items@,
            },
            old(self).modal is Closed ==> hitl_modal(final(self).modal, req.agent_id, req.question@, req.options@),
            !(old(self).modal is Closed) ==> final(self).modal == old(self).modal,
            final(self).running == old(self).running,
            final(self).focus == old(self).focus,
            final(self).session_focus == old(self).session_focus,
            final(self).agent_tree.cursor == old(self).agent_tree.cursor,
            final(self).agent_tree.scroll_offset == old(self).agent_tree.scroll_offset,
            final(self).goals == old(self).goals,
            final(self).objective_tree == old(self).objective_tree,
            final(self).input == old(self).input,
            final(self).session_pane == old(self).session_pane,
            final(self).needs_clear == old(self).needs_clear,
            final(self).show_debug == old(self).show_debug,
            final(self).debug_scroll == old(self).debug_scroll,
    {
        let id = req.agent_id;
        let q2 = req.question.clone();
        let o2 = clone_strings(&req.options);
        self.remember_question(id, q2, o2);
        self.set_hitl_flag(id, true);
        if !self.modal.is_open() {
            self.modal = Modal::HitlResponse { agent_id: id, question: req.question, options: req.options, selected: 0 };
        }
    }

    /// Show a question now, replacing any open modal.
    pub fn open_hitl_modal(&mut self, agent_id: AgentId, question: String, options: Vec<String>)
        ensures
            final(self).pending_hitl@.contains_key(agent_id.0),
            final(self).pending_hitl@[agent_id.0].question@ == question@,
            final(self).pending_hitl@[agent_id.0].options@ == options@,
            forall|k: u128| k != agent_id.0 ==> #[trigger] final(self).pending_hitl@.contains_key(k)
                == old(self).pending_hitl@.contains_key(k)
                && (old(self).pending_hitl@.contains_key(k) ==> final(self).pending_hitl@[k] == old(self).pending_hitl@[k]),
            final(self).agent_tree.items@ == match agent_index(old(self).agent_tree.items@, agent_id) {
                Some(i) => old(self).agent_tree.items@.update(i, with_hitl(old(self).agent_tree.items@[i], true)),
                None => old(self).agent_tree.items@,
            },
            hitl_modal(final(self).modal, agent_id, question@, options@),
            final(self).running == old(self).running,
            final(self).focus == old(self).focus,
            final(self).session_focus == old(self).session_focus,
            final(self).agent_tree.cursor == old(self).agent_tree.cursor,
            final(self).agent_tree.scroll_offset == old(self).agent_tree.scroll_offset,
            final(self).goals == old(self).goals,
            final(self).objective_tree == old(self).objective_tree,
            final(self).input == old(self).input,
            final(self).session_pane == old(self).session_pane,
            final(self).needs_clear == old(self).needs_clear,
            final(self).show_debug == old(self).show_debug,
            final(self).debug_scroll == old(self).debug_scroll,
    {
        self.set_hitl_flag(agent_id, true);
        let q2 = question.clone();
        let o2 = clone_strings(&options);
        self.remember_question(agent_id, q2, o2);
        self.modal = Modal::HitlResponse { agent_id, question, options, selected: 0 };
    }


    fn on_state_changed(&mut self, agent_id: AgentId, new_state: AgentState)
        ensures
            same_but_agents(*old(self), *final(self)),
            final(self).agent_tree.cursor == old(self).agent_tree.cursor,
            final(self).agent_tree.scroll_offset == old(self).agent_tree.scroll_offset,
            match agent_index(old(self).agent_tree.items@, agent_id) {
                Some(i) => final(self).agent_tree.items@ == old(self).agent_tree.items@.update(
                    i, with_state(old(self).agent_tree.items@[i], new_state)),
                None => final(self).agent_tree.items@.len() == old(self).agent_tree.items@.len() + 1
                    && final(self).agent_tree.items@.drop_last() == old(self).agent_tree.items@
                    && new_agent_row(final(self).agent_tree.items@.last(), agent_id, new_state,
                        agent_label(old(self).goals@, agent_id)),
            },
    {
        match self.find_agent(agent_id) {
            Some(i) => {
                set_state_at(&mut self.agent_tree.items, i, new_state);
            },
            None => {
                let label = match goal_label_of(&self.goals, agent_id) {
                    Some(t) => t,
                    None => uuid_string(agent_id.0),
                };
                self.agent_tree.items.push(FlatTreeItem {
                    data: AgentNode {
                        id: agent_id,
                        state: new_state,
                        objective_label: label,
                        tokens_used: None,
                        tokens_remaining: None,
                        hitl_pending: false,
                        session_id: None,
                        directory: None,
                        has_session: false,
                    },
                    depth: 0,
                    is_expanded: true,
                    has_children: false,
                });
                assert(self.agent_tree.items@.drop_last() =~= old(self).agent_tree.items@);
            },
        }
    }

    fn on_tokens(&mut self, agent_id: AgentId, used: u64, remaining: u64)
        ensures
            same_but_agents(*old(self), *final(self)),
            final(self).agent_tree.cursor == old(self).agent_tree.cursor,
            final(self).agent_tree.scroll_offset == old(self).agent_tree.scroll_offset,
            final(self).agent_tree.items@ == match agent_index(old(self).agent_tree.items@, agent_id) {
                Some(i) => old(self).agent_tree.items@.update(i, with_tokens(old(self).agent_tree.items@[i], used, remaining)),
                None => old(self).agent_tree.items@,
            },
    {
        match self.find_agent(agent_id) {
            Some(i) => {
                set_tokens_at(&mut self.agent_tree.items, i, used, remaining);
            },
            None => {},
        }
    }

    fn on_session_ready(&mut self, agent_id: AgentId, session_id: String, directory: String)
        ensures
            same_but_agents(*old(self), *final(self)),
            final(self).agent_tree.cursor == old(self).agent_tree.cursor,
            final(self).agent_tree.scroll_offset == old(self).agent_tree.scroll_offset,
            final(self).agent_tree.items@ == match agent_index(old(self).agent_tree.items@, agent_id) {
                Some(i) => old(self).agent_tree.items@.update(i, session_ready(old(self).agent_tree.items@[i], session_id, directory)),
                None => old(self).agent_tree.items@,
            },
    {
        match self.find_agent(agent_id) {
            Some(i) => {
                set_session_at(&mut self.agent_tree.items, i, session_id, directory);
            },
            None => {},
        }
    }

    /// Apply one bus event and report the event-log notice it produces.
    #[verifier::rlimit(40)]
    pub fn handle_bus_event(&mut self, event: BusEvent) -> (r: Option<Effect>)
        ensures
            final(self).focus == old(self).focus,
            final(self).modal == old(self).modal,
            final(self).goals == old(self).goals,
            final(self).objective_tree == old(self).objective_tree,
            final(self).session_focus == old(self).session_focus,
            final(self).input == old(self).input,
            final(self).agent_tree.cursor == old(self).agent_tree.cursor,
            final(self).agent_tree.scroll_offset == old(self).agent_tree.scroll_offset,
            final(self).session_pane == old(self).session_pane,
            final(self).needs_clear == old(self).needs_clear,
            final(self).show_debug == old(self).show_debug,
            final(self).debug_scroll == old(self).debug_scroll,
            match event {
                BusEvent::Mcp { agent_id, event_type } => {
                    &&& same_but_agents(*old(self), *final(self))
                    &&& final(self).agent_tree == old(self).agent_tree
                    &&& r == Some(Effect::Log(Notice::Mcp { agent_id, event_type }))
                },
                BusEvent::AgentStateChanged { agent_id, new_state, .. } => {
                    &&& same_but_agents(*old(self), *final(self))
                    &&& match agent_index(old(self).agent_tree.items@, agent_id) {
                        Some(i) => final(self).agent_tree.items@ == old(self).agent_tree.items@.update(
                            i, with_state(old(self).agent_tree.items@[i], new_state)),
                        None => final(self).agent_tree.items@.len() == old(self).agent_tree.items@.len() + 1
                            && final(self).agent_tree.items@.drop_last() == old(self).agent_tree.items@
                            && new_agent_row(final(self).agent_tree.items@.last(), agent_id, new_state,
                                agent_label(old(self).goals@, agent_id)),
                    }
                    &&& r == Some(Effect::Log(Notice::StateChanged { agent_id, state: new_state }))
                },
                BusEvent::TokenReport { agent_id, used, remaining } => {
                    &&& same_but_agents(*old(self), *final(self))
                    &&& final(self).agent_tree.items@ == match agent_index(old(self).agent_tree.items@, agent_id) {
                        Some(i) => old(self).agent_tree.items@.update(i, with_tokens(old(self).agent_tree.items@[i], used, remaining)),
                        None => old(self).agent_tree.items@,
                    }
                    &&& r is None
                },
                BusEvent::HitlRequested { agent_id, question, options } => {
                    &&& final(self).running == old(self).running
                    &&& final(self).pending_hitl@.contains_key(agent_id.0)
                    &&& final(self).pending_hitl@[agent_id.0].question@ == question@
                    &&& final(self).pending_hitl@[agent_id.0].options@ == options@
                    &&& forall|k: u128| k != agent_id.0 ==> #[trigger] final(self).pending_hitl@.contains_key(k)
                        == old(self).pending_hitl@.contains_key(k)
                        && (old(self).pending_hitl@.contains_key(k) ==> final(self).pending_hitl@[k] == old(self).pending_hitl@[k])
                    &&& final(self).agent_tree.items@ == match agent_index(old(self).agent_tree.items@, agent_id) {
                        Some(i) => old(self).agent_tree.items@.update(i, with_hitl(old(self).agent_tree.items@[i], true)),
                        None => old(self).agent_tree.items@,
                    }
                    &&& r matches Some(Effect::Log(Notice::HitlAsked { agent_id: a, question: q, options: o }))
                        && a == agent_id && q@ == question@ && o@ == options@
                },
                BusEvent::HitlResponded { agent_id, response } => {
                    &&& final(self).running == old(self).running
                    &&& final(self).pending_hitl@ == old(self).pending_hitl@.remove(agent_id.0)
                    &&& final(self).agent_tree.items@ == match agent_index(old(self).agent_tree.items@, agent_id) {
                        Some(i) => old(self).agent_tree.items@.update(i, with_hitl(old(self).agent_tree.items@[i], false)),
                        None => old(self).agent_tree.items@,
                    }
                    &&& r == Some(Effect::Log(Notice::HitlAnswered { agent_id, response }))
                },
                BusEvent::AgentSessionReady { agent_id, session_id, directory } => {
                    &&& same_but_agents(*old(self), *final(self))
                    &&& final(self).agent_tree.items@ == match agent_index(old(self).agent_tree.items@, agent_id) {
                        Some(i) => old(self).agent_tree.items@.update(i, session_ready(old(self).agent_tree.items@[i], session_id, directory)),
                        None => old(self).agent_tree.items@,
                    }
                    &&& r == Some(Effect::Log(Notice::SessionReady { agent_id }))
                },
                BusEvent::CheckpointSaved { agent_id, checkpoint_id } => {
                    &&& same_but_agents(*old(self), *final(self))
                    &&& final(self).agent_tree == old(self).agent_tree
                    &&& r == Some(Effect::Log(Notice::CheckpointSaved { agent_id, checkpoint_id }))
                },
                BusEvent::ObjectiveUpdated { objective_id, status } => {
                    &&& same_but_agents(*old(self), *final(self))
                    &&& final(self).agent_tree == old(self).agent_tree
                    &&& r == Some(Effect::Log(Notice::ObjectiveUpdated { objective_id, status }))
                },
                BusEvent::Shutdown => {
                    &&& !final(self).running
                    &&& final(self).pending_hitl == old(self).pending_hitl
                    &&& final(self).agent_tree == old(self).agent_tree
                    &&& r == Some(Effect::Log(Notice::ShutdownReceived))
                },
            },
    {
        match event {
            BusEvent::Mcp { agent_id, event_type } => Some(Effect::Log(Notice::Mcp { agent_id, event_type })),
            BusEvent::AgentStateChanged { agent_id, new_state, .. } => {
                self.on_state_changed(agent_id, new_state);
                Some(Effect::Log(Notice::StateChanged { agent_id, state: new_state }))
            },
            BusEvent::TokenReport { agent_id, used, remaining } => {
                self.on_tokens(agent_id, used, remaining);
                None
            },
            BusEvent::HitlRequested { agent_id, question, options } => {
                self.set_hitl_flag(agent_id, true);
                let q2 = question.clone();
                let o2 = clone_strings(&options);
                self.remember_question(agent_id, q2, o2);
                Some(Effect::Log(Notice::HitlAsked { agent_id, question, options }))
            },
            BusEvent::HitlResponded { agent_id, response } => {
                self.pending_hitl.remove(&agent_id.0);
                self.set_hitl_flag(agent_id, false);
                Some(Effect::Log(Notice::HitlAnswered { agent_id, response }))
            },
            BusEvent::AgentSessionReady { agent_id, session_id, directory } => {
                self.on_session_ready(agent_id, session_id, directory);
                Some(Effect::Log(Notice::SessionReady { agent_id }))
            },
            BusEvent::CheckpointSaved { agent_id, checkpoint_id } =>
                Some(Effect::Log(Notice::CheckpointSaved { agent_id, checkpoint_id })),
            BusEvent::ObjectiveUpdated { objective_id, status } =>
                Some(Effect::Log(Notice::ObjectiveUpdated { objective_id, status })),
            BusEvent::Shutdown => {
                self.running = false;
                Some(Effect::Log(Notice::ShutdownReceived))
            },
        }
    }
}


/// The objective row under the cursor.
pub open spec fn sel_obj(d: Dashboard) -> Option<ObjectiveItem> {
    let it = d.objective_tree.panel.items@;
    let c = d.objective_tree.panel.cursor;
    if c < it.len() { Some(it[c as int].data) } else { None }
}

/// The agent row under the cursor.
pub open spec fn sel_agent(d: Dashboard) -> Option<AgentNode> {
    let it = d.agent_tree.items@;
    let c = d.agent_tree.cursor;
    if c < it.len() { Some(it[c as int].data) } else { None }
}

pub open spec fn item_agent(i: ObjectiveItem) -> Option<AgentId> {
    match i {
        ObjectiveItem::Root { agent_id, .. } => agent_id,
        ObjectiveItem::Sub { .. } => None,
    }
}

pub open spec fn item_oid(i: ObjectiveItem) -> Option<ObjectiveId> {
    match i {
        ObjectiveItem::Root { id, .. } => id,
        ObjectiveItem::Sub { id, .. } => Some(id),
    }
}

/// What a spawn sends: the goal's content, or a sub-objective's description.
pub open spec fn item_body(i: ObjectiveItem) -> String {
    match i {
        ObjectiveItem::Root { content, .. } => content,
        ObjectiveItem::Sub { description, .. } => description,
    }
}

pub open spec fn item_title(i: ObjectiveItem) -> String {
    match i {
        ObjectiveItem::Root { title, .. } => title,
        ObjectiveItem::Sub { description, .. } => description,
    }
}

/// The hint shown while agent `id` waits for an answer.
pub open spec fn hitl_hint(id: AgentId) -> Seq<char> {
    "> "@ + uuid_text(id.0) + ": Enter to respond to HITL question"@
}

/// The first row of agent `id` is paused.
pub open spec fn agent_paused(items: Seq<FlatTreeItem<AgentNode>>, id: AgentId) -> bool {
    match agent_index(items, id) {
        Some(i) => items[i].data.state == AgentState::Paused,
        None => false,
    }
}

/// Some row of agent `id` has a pending question.
pub open spec fn agent_hitl(items: Seq<FlatTreeItem<AgentNode>>, id: AgentId) -> bool {
    exists|i: int| 0 <= i < items.len() && items[i].data.id == id && items[i].data.hitl_pending
}

/// Pause a running agent, resume a paused one.
pub open spec fn pause_command(paused: bool, id: AgentId) -> Command {
    if paused { Command::Resume { agent_id: id } } else { Command::Pause { agent_id: id } }
}

/// Index of the first goal read from `path`.
pub open spec fn goal_at_path(goals: Seq<GoalObjective>, path: Seq<char>) -> Option<int> {
    if exists|i: int| 0 <= i < goals.len() && goals[i].file_path@ == path {
        Some(choose|i: int| 0 <= i < goals.len() && goals[i].file_path@ == path
            && forall|j: int| 0 <= j < i ==> goals[j].file_path@ != path)
    } else {
        None
    }
}

/// The file picker over every goal file, first entry selected.
pub open spec fn file_picker_of(m: Modal, goals: Seq<GoalObjective>) -> bool {
    m matches Modal::FilePicker { files, selected } && selected == 0 && files@.len() == goals.len()
        && forall|i: int| 0 <= i < goals.len() ==> #[trigger] files@[i]@ == goals[i].file_path@
}

/// Confirming the open modal: it closes, and its choice becomes an effect.
pub open spec fn confirm_step(o: Dashboard, n: Dashboard, r: Option<Effect>) -> bool {
    &&& n == Dashboard { modal: Modal::Closed, ..o }
    &&& match o.modal {
        Modal::HitlResponse { agent_id, options, selected, .. } =>
            if selected < options@.len() {
                r matches Some(Effect::Send(Command::HitlRespond { agent_id: a, response }))
                    && a == agent_id && response@ == options@[selected as int]@
            } else {
                r is None
            },
        Modal::FilePicker { files, selected } =>
            if selected < files@.len() {
                match goal_at_path(o.goals@, files@[selected as int]@) {
                    Some(g) => match o.goals@[g].id {
                        Some(oid) => r matches Some(Effect::Send(Command::Spawn { objective_id, content }))
                            && objective_id == oid && content@ == o.goals@[g].content@,
                        None => r == Some(Effect::Log(Notice::ObjectiveNotRegistered)),
                    },
                    None => r is None,
                }
            } else {
                r is None
            },
        Modal::ConfirmDelete { path, title } => r == Some(Effect::DeleteGoalFile { path, title }),
        _ => r is None,
    }
}

/// A key while the debug overlay is shown.
pub open spec fn debug_step(o: Dashboard, n: Dashboard, key: KeyEvent, r: Option<Effect>) -> bool {
    &&& r is None
    &&& n == match key.code {
        KeyCode::Char('D') | KeyCode::Esc => Dashboard { show_debug: false, debug_scroll: 0, ..o },
        KeyCode::Up => Dashboard {
            debug_scroll: if o.debug_scroll < usize::MAX { (o.debug_scroll + 1) as usize } else { o.debug_scroll },
            ..o
        },
        KeyCode::Down => Dashboard {
            debug_scroll: if o.debug_scroll > 0 { (o.debug_scroll - 1) as usize } else { 0 },
            ..o
        },
        _ => o,
    }
}

/// A key while a modal is open.
pub open spec fn modal_step(o: Dashboard, n: Dashboard, key: KeyEvent, r: Option<Effect>) -> bool {
    match key.code {
        KeyCode::Esc => n == Dashboard { modal: Modal::Closed, ..o } && r is None,
        KeyCode::Up => n == Dashboard { modal: spec_move_up(o.modal), ..o } && r is None,
        KeyCode::Down => n == Dashboard { modal: spec_move_down(o.modal), ..o } && r is None,
        KeyCode::Enter => confirm_step(o, n, r),
        _ => n == o && r is None,
    }
}

impl Dashboard {
    /// The hotkey-bar context for the current focus and selection.
    pub fn compute_hotkey_context(&self) -> (r: HotkeyContext)
        ensures
            r == match self.focus {
                FocusPanel::EventLog => HotkeyContext::EventLogFocused,
                FocusPanel::ObjectiveTree => match sel_obj(*self) {
                    Some(item) => if item_agent(item) is Some {
                        HotkeyContext::ObjectiveSelectedWithAgent
                    } else {
                        HotkeyContext::ObjectiveSelectedNoAgent
                    },
                    None => HotkeyContext::ObjectivesPanelNoSelection,
                },
                FocusPanel::AgentTree => match sel_agent(*self) {
                    Some(a) => if a.hitl_pending { HotkeyContext::AgentSelectedHitlPending } else { HotkeyContext::AgentSelected },
                    None => HotkeyContext::Nothing,
                },
            },
    {
        match self.focus {
            FocusPanel::EventLog => HotkeyContext::EventLogFocused,
            FocusPanel::ObjectiveTree => {
                match self.objective_tree.panel.selected() {
                    Some(item) => {
                        if item.data.agent_id().is_some() {
                            HotkeyContext::ObjectiveSelectedWithAgent
                        } else {
                            HotkeyContext::ObjectiveSelectedNoAgent
                        }
                    },
                    None => HotkeyContext::ObjectivesPanelNoSelection,
                }
            },
            FocusPanel::AgentTree => {
                match self.agent_tree.selected() {
                    Some(item) => {
                        if item.data.hitl_pending {
                            HotkeyContext::AgentSelectedHitlPending
                        } else {
                            HotkeyContext::AgentSelected
                        }
                    },
                    None => HotkeyContext::Nothing,
                }
            },
        }
    }

    /// The first agent with a pending question, whose hint the hotkey bar shows.
    pub fn hitl_hint_agent(&self) -> (r: Option<AgentId>)
        ensures
            match r {
                Some(id) => exists|i: int| 0 <= i < self.agent_tree.items@.len()
                    && self.agent_tree.items@[i].data.hitl_pending
                    && self.agent_tree.items@[i].data.id == id
                    && forall|j: int| 0 <= j < i ==> !self.agent_tree.items@[j].data.hitl_pending,
                None => forall|i: int| 0 <= i < self.agent_tree.items@.len() ==> !self.agent_tree.items@[i].data.hitl_pending,
            },
    {
        let n = self.agent_tree.items.len();
        let mut i: usize = 0;
        while i < n
            invariant
                n == self.agent_tree.items@.len(),
                i <= n,
                forall|j: int| 0 <= j < i ==> !self.agent_tree.items@[j].data.hitl_pending,
            decreases n - i,
        {
            if self.agent_tree.items[i].data.hitl_pending {
                return Some(self.agent_tree.items[i].data.id);
            }
            i = i + 1;
        }
        None
    }

    /// The hotkey-bar hint for the first agent with a pending question.
    pub fn hitl_hint_text(&self) -> (r: Option<String>)
        ensures
            match r {
                Some(t) => exists|i: int| 0 <= i < self.agent_tree.items@.len()
                    && self.agent_tree.items@[i].data.hitl_pending
                    && t@ == hitl_hint(self.agent_tree.items@[i].data.id)
                    && forall|j: int| 0 <= j < i ==> !self.agent_tree.items@[j].data.hitl_pending,
                None => forall|i: int| 0 <= i < self.agent_tree.items@.len() ==> !self.agent_tree.items@[i].data.hitl_pending,
            },
    {
        match self.hitl_hint_agent() {
            Some(id) => {
                let head = concat(&from_str("> "), &uuid_string(id.0));
                Some(concat(&head, &from_str(": Enter to respond to HITL question")))
            },
            None => None,
        }
    }

    /// Index of the first goal read from `path`.
    fn find_goal(&self, path: &String) -> (r: Option<usize>)
        ensures
            match r {
                Some(i) => goal_at_path(self.goals@, path@) == Some(i as int) && i < self.goals@.len(),
                None => goal_at_path(self.goals@, path@) is None,
            },
    {
        let n = self.goals.len();
        let mut i: usize = 0;
        while i < n
            invariant
                n == self.goals@.len(),
                i <= n,
                forall|j: int| 0 <= j < i ==> self.goals@[j].file_path@ != path@,
            decreases n - i,
        {
            if self.goals[i].file_path == *path {
                proof {
                    let g = self.goals@;
                    let c = choose|k: int| 0 <= k < g.len() && g[k].file_path@ == path@
                        && forall|j: int| 0 <= j < k ==> g[j].file_path@ != path@;
                    assert(0 <= i < g.len() && g[i as int].file_path@ == path@
                        && forall|j: int| 0 <= j < i ==> g[j].file_path@ != path@);
                    assert(c == i);
                }
                return Some(i);
            }
            i = i + 1;
        }
        None
    }

    /// Close the modal and turn its choice into an effect.
    pub(crate) fn confirm_modal(&mut self) -> (r: Option<Effect>)
        ensures
            confirm_step(*old(self), *final(self), r),
    {
        let mut modal = Modal::Closed;
        std::mem::swap(&mut modal, &mut self.modal);
        match modal {
            Modal::HitlResponse { agent_id, options, selected, .. } => {
                if selected < options.len() {
                    let response = options[selected].clone();
                    Some(Effect::Send(Command::HitlRespond { agent_id, response }))
                } else {
                    None
                }
            },
            Modal::FilePicker { files, selected } => {
                if selected < files.len() {
                    match self.find_goal(&files[selected]) {
                        Some(g) => {
                            match self.goals[g].id {
                                Some(oid) => {
                                    let content = self.goals[g].content.clone();
                                    Some(Effect::Send(Command::Spawn { objective_id: oid, content }))
                                },
                                None => Some(Effect::Log(Notice::ObjectiveNotRegistered)),
                            }
                        },
                        None => None,
                    }
                } else {
                    None
                }
            },
            Modal::ConfirmDelete { path, title } => Some(Effect::DeleteGoalFile { path, title }),
            _ => None,
        }
    }

    pub(crate) fn handle_debug_key(&mut self, key: KeyEvent) -> (r: Option<Effect>)
        ensures
            debug_step(*old(self), *final(self), key, r),
    {
        match key.code {
            KeyCode::Char('D') | KeyCode::Esc => {
                self.show_debug = false;
                self.debug_scroll = 0;
            },
            KeyCode::Up => {
                if self.debug_scroll < usize::MAX {
                    self.debug_scroll = self.debug_scroll + 1;
                }
            },
            KeyCode::Down => {
                if self.debug_scroll > 0 {
                    self.debug_scroll = self.debug_scroll - 1;
                }
            },
            _ => {},
        }
        None
    }

    pub(crate) fn handle_modal_key(&mut self, key: KeyEvent) -> (r: Option<Effect>)
        ensures
            modal_step(*old(self), *final(self), key, r),
    {
        match key.code {
            KeyCode::Esc => {
                self.modal = Modal::Closed;
                None
            },
            KeyCode::Up => {
                self.modal.move_up();
                None
            },
            KeyCode::Down => {
                self.modal.move_down();
                None
            },
            KeyCode::Enter => self.confirm_modal(),
            _ => None,
        }
    }
}

} // verus!
