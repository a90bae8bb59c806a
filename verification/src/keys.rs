//! Keys of the dashboard's panels, and the runtime's reports back to the
//! dashboard once it has carried out an effect.

use vstd::prelude::*;
use crate::agent::AgentState;
use crate::dashboard::{
    Dashboard, Effect, Command, Notice, LogScroll, AgentNode, dashboard_wf, with_modal, opened_hitl,
    sel_obj, sel_agent, item_agent, item_oid, item_body, item_title, agent_paused, agent_hitl,
    pause_command, file_picker_of, debug_step, modal_step, agent_index, with_hitl,
    with_session_created, set_created_at,
};
use crate::focus::{FocusPanel, focus_at, focus_index};
use crate::ids::AgentId;
use crate::input::{KeyCode, KeyEvent, InputAction, ActionView, spec_handle_key, editor_fits, action_view};
use crate::modal::Modal;
use crate::tree::{
    GoalObjective, ObjectiveItem, ObjectiveTreeState, TreePanelState, FlatTreeItem, goals_fit,
    resized_flags, toggled_flags, rows_of, goal_rows, clamped,
};

verus! {

/// The agent of the objective row under the cursor.
pub open spec fn sel_obj_agent(d: Dashboard) -> Option<AgentId> {
    match sel_obj(d) {
        Some(item) => item_agent(item),
        None => None,
    }
}

/// Cursor after moving up one row.
pub open spec fn cursor_up(c: usize) -> usize {
    if c > 0 { (c - 1) as usize } else { 0 }
}

/// Cursor after moving down one row among `n`.
pub open spec fn cursor_down(c: usize, n: int) -> usize {
    if c + 1 < n { (c + 1) as usize } else { c }
}

/// `o` with the objective-tree cursor at `c`.
pub open spec fn with_objective_cursor(o: Dashboard, c: usize) -> Dashboard {
    Dashboard {
        objective_tree: ObjectiveTreeState {
            panel: TreePanelState { cursor: c, ..o.objective_tree.panel },
            ..o.objective_tree
        },
        ..o
    }
}

/// `o` with the agent-tree cursor at `c`.
pub open spec fn with_agent_cursor(o: Dashboard, c: usize) -> Dashboard {
    Dashboard { agent_tree: TreePanelState { cursor: c, ..o.agent_tree }, ..o }
}

/// `t` is the tree `old` rebuilt from `goals`, starting from the
/// expansion flags `flags`: its scroll position stays, its cursor is
/// clamped to the new rows.
pub open spec fn tree_reloaded(old: ObjectiveTreeState, t: ObjectiveTreeState, flags: Seq<bool>, goals: Seq<GoalObjective>) -> bool {
    &&& t.expanded@ == resized_flags(flags, goals.len() as int)
    &&& rows_of(t.panel.items@) == goal_rows(goals, t.expanded@)
    &&& t.panel.scroll_offset == old.panel.scroll_offset
    &&& t.panel.cursor == clamped(old.panel.cursor, t.panel.items@.len() as int)
}

/// `s` (spawn) on the objective tree.
pub open spec fn spawn_step(o: Dashboard, n: Dashboard, r: Option<Effect>) -> bool {
    match sel_obj(o) {
        Some(item) => {
            &&& n == o
            &&& r == if item_agent(item) is Some {
                Some(Effect::Log(Notice::ObjectiveHasAgent))
            } else {
                match item_oid(item) {
                    Some(id) => Some(Effect::Send(Command::Spawn { objective_id: id, content: item_body(item) })),
                    None => Some(Effect::Log(Notice::ObjectiveNotRegistered)),
                }
            }
        },
        None => if o.goals@.len() == 0 {
            n == o && r == Some(Effect::Log(Notice::NoGoalFiles))
        } else {
            &&& n == with_modal(o, n.modal)
            &&& file_picker_of(n.modal, o.goals@)
            &&& r is None
        },
    }
}

/// `e` (edit) on the objective tree.
pub open spec fn edit_step(o: Dashboard, n: Dashboard, r: Option<Effect>) -> bool {
    &&& n == o
    &&& r == match sel_obj(o) {
        Some(ObjectiveItem::Root { file_path, .. }) => Some(Effect::EditObjective { path: file_path }),
        _ => Some(Effect::Log(Notice::SelectRootToEdit)),
    }
}

/// `v` (view) on the objective tree.
pub open spec fn view_step(o: Dashboard, n: Dashboard, r: Option<Effect>) -> bool {
    &&& r is None
    &&& n == match sel_obj(o) {
        Some(item) => with_modal(o, Modal::View { title: item_title(item), content: item_body(item) }),
        None => o,
    }
}

/// `x` or Delete on the objective tree.
pub open spec fn delete_step(o: Dashboard, n: Dashboard, r: Option<Effect>) -> bool {
    match sel_obj(o) {
        Some(ObjectiveItem::Root { file_path, title, agent_id, .. }) => if agent_id is Some {
            n == o && r == Some(Effect::Log(Notice::CannotDeleteWithAgent))
        } else {
            n == with_modal(o, Modal::ConfirmDelete { path: file_path, title }) && r is None
        },
        Some(ObjectiveItem::Sub { .. }) => n == o && r == Some(Effect::Log(Notice::CannotDeleteSub)),
        None => n == o && r is None,
    }
}

/// A key on the objective tree.
pub open spec fn objective_step(o: Dashboard, n: Dashboard, key: KeyEvent, r: Option<Effect>) -> bool {
    match key.code {
        KeyCode::Up => n == with_objective_cursor(o, cursor_up(o.objective_tree.panel.cursor)) && r is None,
        KeyCode::Down => n == with_objective_cursor(
            o,
            cursor_down(o.objective_tree.panel.cursor, o.objective_tree.panel.items@.len() as int),
        ) && r is None,
        KeyCode::Left => {
            &&& n == Dashboard { objective_tree: n.objective_tree, ..o }
            &&& tree_reloaded(o.objective_tree, n.objective_tree, toggled_flags(o.objective_tree, false), o.goals@)
            &&& r is None
        },
        KeyCode::Right => {
            &&& n == Dashboard { objective_tree: n.objective_tree, ..o }
            &&& tree_reloaded(o.objective_tree, n.objective_tree, toggled_flags(o.objective_tree, true), o.goals@)
            &&& r is None
        },
        KeyCode::Char('s') => spawn_step(o, n, r),
        KeyCode::Char('k') => n == o && r == match sel_obj_agent(o) {
            Some(a) => Some(Effect::Send(Command::Kill { agent_id: a })),
            None => None,
        },
        KeyCode::Char('p') => n == o && r == match sel_obj_agent(o) {
            Some(a) => Some(Effect::Send(pause_command(agent_paused(o.agent_tree.items@, a), a))),
            None => None,
        },
        KeyCode::Char('e') => edit_step(o, n, r),
        KeyCode::Char('v') => view_step(o, n, r),
        KeyCode::Char('x') | KeyCode::Delete => delete_step(o, n, r),
        KeyCode::Enter => r is None && match sel_obj_agent(o) {
            Some(a) => if agent_hitl(o.agent_tree.items@, a) { opened_hitl(o, n, a) } else { n == o },
            None => n == o,
        },
        _ => n == o && r is None,
    }
}

/// Enter on the agent tree.
pub open spec fn agent_enter_step(o: Dashboard, n: Dashboard, r: Option<Effect>) -> bool {
    match sel_agent(o) {
        Some(a) => if a.hitl_pending {
            r is None && opened_hitl(o, n, a.id)
        } else if a.session_id is Some {
            r is None && n == Dashboard { session_focus: Some(a.id), ..o }
        } else {
            n == o && r == Some(Effect::Log(Notice::NoSessionToAttach))
        },
        None => n == o && r is None,
    }
}

/// `a` (attach) on the agent tree: the agent's session, in its directory.
pub open spec fn attach_effect(a: AgentNode) -> Option<Effect> {
    match (a.session_id, a.directory) {
        (Some(s), Some(d)) => Some(Effect::AttachSession {
            agent_id: a.id,
            session_id: s,
            directory: d,
            first_time: !a.has_session,
        }),
        _ => None,
    }
}

/// A key on the agent tree.
pub open spec fn agent_step(o: Dashboard, n: Dashboard, key: KeyEvent, r: Option<Effect>) -> bool {
    match key.code {
        KeyCode::Up => n == with_agent_cursor(o, cursor_up(o.agent_tree.cursor)) && r is None,
        KeyCode::Down => n == with_agent_cursor(
            o,
            cursor_down(o.agent_tree.cursor, o.agent_tree.items@.len() as int),
        ) && r is None,
        KeyCode::Char('k') => n == o && r == match sel_agent(o) {
            Some(a) => Some(Effect::Send(Command::Kill { agent_id: a.id })),
            None => None,
        },
        KeyCode::Char('p') => n == o && r == match sel_agent(o) {
            Some(a) => Some(Effect::Send(pause_command(a.state == AgentState::Paused, a.id))),
            None => None,
        },
        KeyCode::Enter => agent_enter_step(o, n, r),
        KeyCode::Char('a') => n == o && r == match sel_agent(o) {
            Some(a) => attach_effect(a),
            None => None,
        },
        _ => n == o && r is None,
    }
}

/// A key on the event log.
pub open spec fn log_step(o: Dashboard, n: Dashboard, key: KeyEvent, r: Option<Effect>) -> bool {
    &&& n == o
    &&& r == match key.code {
        KeyCode::Up => Some(Effect::ScrollLog(LogScroll::Up)),
        KeyCode::Down => Some(Effect::ScrollLog(LogScroll::Down)),
        KeyCode::Home => Some(Effect::ScrollLog(LogScroll::Top)),
        KeyCode::End => Some(Effect::ScrollLog(LogScroll::Bottom)),
        _ => None,
    }
}

/// A key while the session pane has focus: the input box takes it; a
/// non-empty submission is queued, closing the pane hands focus back.
pub open spec fn session_step(o: Dashboard, n: Dashboard, key: KeyEvent, r: Option<Effect>) -> bool {
    let (v, a) = spec_handle_key(o.input.view(), key);
    &&& n.input.wf()
    &&& n.input.view() == v
    &&& n == Dashboard {
        input: n.input,
        session_focus: match a {
            ActionView::ClosePane | ActionView::ReturnToGlobal => None,
            _ => o.session_focus,
        },
        ..o
    }
    &&& match a {
        ActionView::Submit(t) => if t.len() > 0 {
            r matches Some(Effect::SubmitPrompt(s)) && s@ == t
        } else {
            r is None
        },
        _ => r is None,
    }
}

/// A key with no overlay, modal or session pane in the way.
pub open spec fn panel_step(o: Dashboard, n: Dashboard, key: KeyEvent, r: Option<Effect>) -> bool {
    match key.code {
        KeyCode::Tab => n == Dashboard { focus: focus_at(focus_index(o.focus) + 1), ..o } && r is None,
        KeyCode::BackTab => n == Dashboard { focus: focus_at(focus_index(o.focus) + 2), ..o } && r is None,
        KeyCode::Char('q') => n == Dashboard { running: false, ..o } && r is None,
        KeyCode::Char('n') => n == o && r == Some(Effect::NewObjective),
        KeyCode::Char('?') => n == with_modal(o, Modal::Help) && r is None,
        KeyCode::Char('D') => n == Dashboard { show_debug: true, ..o } && r is None,
        _ => match o.focus {
            FocusPanel::ObjectiveTree => objective_step(o, n, key, r),
            FocusPanel::AgentTree => agent_step(o, n, key, r),
            FocusPanel::EventLog => log_step(o, n, key, r),
        },
    }
}

/// One key: the debug overlay takes every key, then an open modal; Ctrl+C
/// always quits; the session pane takes every other key while focused.
pub open spec fn key_step(o: Dashboard, n: Dashboard, key: KeyEvent, r: Option<Effect>) -> bool {
    if o.show_debug {
        debug_step(o, n, key, r)
    } else if !(o.modal is Closed) {
        modal_step(o, n, key, r)
    } else if key.ctrl && key.code == KeyCode::Char('c') {
        n == Dashboard { running: false, ..o } && r is None
    } else if o.session_focus is Some {
        session_step(o, n, key, r)
    } else {
        panel_step(o, n, key, r)
    }
}

/// The file path of each goal, in order.
fn goal_paths(goals: &Vec<GoalObjective>) -> (r: Vec<String>)
    ensures
        r@.len() == goals@.len(),
        forall|i: int| 0 <= i < goals@.len() ==> #[trigger] r@[i] == goals@[i].file_path,
{
    let mut r: Vec<String> = Vec::new();
    let mut i: usize = 0;
    while i < goals.len()
        invariant
            i <= goals@.len(),
            r@.len() == i,
            forall|j: int| 0 <= j < i ==> #[trigger] r@[j] == goals@[j].file_path,
        decreases goals@.len() - i,
    {
        r.push(goals[i].file_path.clone());
        i = i + 1;
    }
    r
}

impl Dashboard {
    /// The agent of the objective row under the cursor.
    fn selected_objective_agent(&self) -> (r: Option<AgentId>)
        ensures
            r == sel_obj_agent(*self),
    {
        match self.objective_tree.panel.selected() {
            Some(item) => item.data.agent_id(),
            None => None,
        }
    }

    /// Whether the first row of agent `id` is paused.
    fn agent_is_paused(&self, id: AgentId) -> (r: bool)
        ensures
            r == agent_paused(self.agent_tree.items@, id),
    {
        match self.find_agent(id) {
            Some(i) => self.agent_tree.items[i].data.state == AgentState::Paused,
            None => false,
        }
    }

    /// Whether some row of agent `id` has a pending question.
    fn agent_has_question(&self, id: AgentId) -> (r: bool)
        ensures
            r == agent_hitl(self.agent_tree.items@, id),
    {
        let n = self.agent_tree.items.len();
        let mut i: usize = 0;
        while i < n
            invariant
                n == self.agent_tree.items@.len(),
                i <= n,
                forall|j: int| 0 <= j < i ==> !(self.agent_tree.items@[j].data.id == id
                    && self.agent_tree.items@[j].data.hitl_pending),
            decreases n - i,
        {
            if self.agent_tree.items[i].data.id == id && self.agent_tree.items[i].data.hitl_pending {
                return true;
            }
            i = i + 1;
        }
        false
    }

    fn handle_spawn(&mut self) -> (r: Option<Effect>)
        ensures
            spawn_step(*old(self), *final(self), r),
    {
        match self.objective_tree.panel.selected() {
            Some(item) => {
                if item.data.agent_id().is_some() {
                    return Some(Effect::Log(Notice::ObjectiveHasAgent));
                }
                match item.data.objective_id() {
                    Some(id) => {
                        let content = match &item.data {
                            ObjectiveItem::Root { content, .. } => content.clone(),
                            ObjectiveItem::Sub { description, .. } => description.clone(),
                        };
                        Some(Effect::Send(Command::Spawn { objective_id: id, content }))
                    },
                    None => Some(Effect::Log(Notice::ObjectiveNotRegistered)),
                }
            },
            None => {
                if self.goals.len() == 0 {
                    Some(Effect::Log(Notice::NoGoalFiles))
                } else {
                    let files = goal_paths(&self.goals);
                    self.modal = Modal::FilePicker { files, selected: 0 };
                    None
                }
            },
        }
    }

    fn handle_edit(&self) -> (r: Option<Effect>)
        ensures
            r == match sel_obj(*self) {
                Some(ObjectiveItem::Root { file_path, .. }) => Some(Effect::EditObjective { path: file_path }),
                _ => Some(Effect::Log(Notice::SelectRootToEdit)),
            },
    {
        match self.objective_tree.panel.selected() {
            Some(item) => match &item.data {
                ObjectiveItem::Root { file_path, .. } => Some(Effect::EditObjective { path: file_path.clone() }),
                ObjectiveItem::Sub { .. } => Some(Effect::Log(Notice::SelectRootToEdit)),
            },
            None => Some(Effect::Log(Notice::SelectRootToEdit)),
        }
    }

    fn handle_view(&mut self)
        ensures
            view_step(*old(self), *final(self), None),
    {
        let modal = match self.objective_tree.panel.selected() {
            Some(item) => match &item.data {
                ObjectiveItem::Root { title, content, .. } => Some(Modal::View { title: title.clone(), content: content.clone() }),
                ObjectiveItem::Sub { description, .. } => Some(Modal::View {
                    title: description.clone(),
                    content: description.clone(),
                }),
            },
            None => None,
        };
        match modal {
            Some(m) => { self.modal = m; },
            None => {},
        }
    }

    fn handle_delete(&mut self) -> (r: Option<Effect>)
        ensures
            delete_step(*old(self), *final(self), r),
    {
        let modal = match self.objective_tree.panel.selected() {
            Some(item) => match &item.data {
                ObjectiveItem::Root { file_path, title, agent_id, .. } => {
                    if agent_id.is_some() {
                        return Some(Effect::Log(Notice::CannotDeleteWithAgent));
                    }
                    Modal::ConfirmDelete { path: file_path.clone(), title: title.clone() }
                },
                ObjectiveItem::Sub { .. } => {
                    return Some(Effect::Log(Notice::CannotDeleteSub));
                },
            },
            None => {
                return None;
            },
        };
        self.modal = modal;
        None
    }
}

impl Dashboard {
    fn handle_objective_key(&mut self, key: KeyEvent) -> (r: Option<Effect>)
        requires
            goals_fit(old(self).goals@),
        ensures
            objective_step(*old(self), *final(self), key, r),
    {
        match key.code {
            KeyCode::Up => {
                self.objective_tree.panel.move_up();
                None
            },
            KeyCode::Down => {
                self.objective_tree.panel.move_down();
                None
            },
            KeyCode::Left => {
                self.objective_tree.collapse();
                self.objective_tree.load_goals(&self.goals);
                None
            },
            KeyCode::Right => {
                self.objective_tree.expand();
                self.objective_tree.load_goals(&self.goals);
                None
            },
            KeyCode::Char('s') => self.handle_spawn(),
            KeyCode::Char('k') => match self.selected_objective_agent() {
                Some(a) => Some(Effect::Send(Command::Kill { agent_id: a })),
                None => None,
            },
            KeyCode::Char('p') => match self.selected_objective_agent() {
                Some(a) => {
                    let paused = self.agent_is_paused(a);
                    let cmd = if paused { Command::Resume { agent_id: a } } else { Command::Pause { agent_id: a } };
                    Some(Effect::Send(cmd))
                },
                None => None,
            },
            KeyCode::Char('e') => self.handle_edit(),
            KeyCode::Char('v') => {
                self.handle_view();
                None
            },
            KeyCode::Char('x') | KeyCode::Delete => self.handle_delete(),
            KeyCode::Enter => {
                match self.selected_objective_agent() {
                    Some(a) => {
                        if self.agent_has_question(a) {
                            self.try_open_hitl_modal(a);
                        }
                    },
                    None => {},
                }
                None
            },
            _ => None,
        }
    }

    fn handle_agent_enter(&mut self) -> (r: Option<Effect>)
        ensures
            agent_enter_step(*old(self), *final(self), r),
    {
        let sel = match self.agent_tree.selected() {
            Some(item) => Some((item.data.id, item.data.hitl_pending, item.data.session_id.is_some())),
            None => None,
        };
        match sel {
            Some((id, hitl, has_session_id)) => {
                if hitl {
                    self.try_open_hitl_modal(id);
                    None
                } else if has_session_id {
                    self.session_focus = Some(id);
                    None
                } else {
                    Some(Effect::Log(Notice::NoSessionToAttach))
                }
            },
            None => None,
        }
    }

    fn handle_agent_tree_key(&mut self, key: KeyEvent) -> (r: Option<Effect>)
        ensures
            agent_step(*old(self), *final(self), key, r),
    {
        match key.code {
            KeyCode::Up => {
                self.agent_tree.move_up();
                None
            },
            KeyCode::Down => {
                self.agent_tree.move_down();
                None
            },
            KeyCode::Char('k') => match self.agent_tree.selected() {
                Some(item) => Some(Effect::Send(Command::Kill { agent_id: item.data.id })),
                None => None,
            },
            KeyCode::Char('p') => match self.agent_tree.selected() {
                Some(item) => {
                    let id = item.data.id;
                    let cmd = if item.data.state == AgentState::Paused {
                        Command::Resume { agent_id: id }
                    } else {
                        Command::Pause { agent_id: id }
                    };
                    Some(Effect::Send(cmd))
                },
                None => None,
            },
            KeyCode::Enter => self.handle_agent_enter(),
            KeyCode::Char('a') => match self.agent_tree.selected() {
                Some(item) => match (&item.data.session_id, &item.data.directory) {
                    (Some(sid), Some(dir)) => Some(Effect::AttachSession {
                        agent_id: item.data.id,
                        session_id: sid.clone(),
                        directory: dir.clone(),
                        first_time: !item.data.has_session,
                    }),
                    _ => None,
                },
                None => None,
            },
            _ => None,
        }
    }

    fn handle_event_log_key(&self, key: KeyEvent) -> (r: Option<Effect>)
        ensures
            log_step(*self, *self, key, r),
    {
        match key.code {
            KeyCode::Up => Some(Effect::ScrollLog(LogScroll::Up)),
            KeyCode::Down => Some(Effect::ScrollLog(LogScroll::Down)),
            KeyCode::Home => Some(Effect::ScrollLog(LogScroll::Top)),
            KeyCode::End => Some(Effect::ScrollLog(LogScroll::Bottom)),
            _ => None,
        }
    }

    fn handle_session_pane_key(&mut self, key: KeyEvent) -> (r: Option<Effect>)
        requires
            old(self).input.wf(),
            editor_fits(old(self).input.view()),
        ensures
            session_step(*old(self), *final(self), key, r),
    {
        let action = self.input.handle_key(key);
        match action {
            InputAction::Submit(text) => {
                if text.as_str().is_empty() {
                    None
                } else {
                    Some(Effect::SubmitPrompt(text))
                }
            },
            InputAction::ClosePane | InputAction::ReturnToGlobal => {
                self.session_focus = None;
                None
            },
            _ => None,
        }
    }
}

impl Dashboard {
    /// Handle one key press and report the effect the runtime must carry out.
    pub fn handle_key(&mut self, key: KeyEvent) -> (r: Option<Effect>)
        requires
            dashboard_wf(*old(self)),
            editor_fits(old(self).input.view()),
        ensures
            key_step(*old(self), *final(self), key, r),
            dashboard_wf(*final(self)),
    {
        if self.show_debug {
            return self.handle_debug_key(key);
        }
        if self.modal.is_open() {
            return self.handle_modal_key(key);
        }
        if key.ctrl && key.code == KeyCode::Char('c') {
            self.running = false;
            return None;
        }
        if self.session_focus.is_some() {
            return self.handle_session_pane_key(key);
        }
        match key.code {
            KeyCode::Tab => {
                self.focus = self.focus.next();
                None
            },
            KeyCode::BackTab => {
                self.focus = self.focus.prev();
                None
            },
            KeyCode::Char('q') => {
                self.running = false;
                None
            },
            KeyCode::Char('n') => Some(Effect::NewObjective),
            KeyCode::Char('?') => {
                self.modal = Modal::Help;
                None
            },
            KeyCode::Char('D') => {
                self.show_debug = true;
                None
            },
            _ => match self.focus {
                FocusPanel::ObjectiveTree => self.handle_objective_key(key),
                FocusPanel::AgentTree => self.handle_agent_tree_key(key),
                FocusPanel::EventLog => self.handle_event_log_key(key),
            },
        }
    }
}

/// `n` is `o` after the answer to agent `id`'s question went out: the
/// question is dropped and the agent's row no longer shows it.
pub open spec fn hitl_cleared(o: Dashboard, n: Dashboard, id: AgentId) -> bool {
    &&& n.pending_hitl@ == o.pending_hitl@.remove(id.0)
    &&& n.agent_tree.items@ == match agent_index(o.agent_tree.items@, id) {
        Some(i) => o.agent_tree.items@.update(i, with_hitl(o.agent_tree.items@[i], false)),
        None => o.agent_tree.items@,
    }
    &&& n == Dashboard {
        pending_hitl: n.pending_hitl,
        agent_tree: TreePanelState { items: n.agent_tree.items, ..o.agent_tree },
        ..o
    }
}

/// What the dashboard does with the report on sending `cmd`.
pub open spec fn command_report(o: Dashboard, n: Dashboard, cmd: Command, delivered: bool, r: Option<Effect>) -> bool {
    if delivered {
        &&& r is None
        &&& match cmd {
            Command::HitlRespond { agent_id, .. } => hitl_cleared(o, n, agent_id),
            _ => n == o,
        }
    } else {
        n == o && r == Some(Effect::Log(Notice::CommandChannelClosed))
    }
}

impl Dashboard {
    /// The runtime's report on a command it tried to send: a closed channel
    /// is logged; a delivered answer to a question clears that question.
    pub fn on_command_sent(&mut self, cmd: &Command, delivered: bool) -> (r: Option<Effect>)
        ensures
            command_report(*old(self), *final(self), *cmd, delivered, r),
    {
        if !delivered {
            return Some(Effect::Log(Notice::CommandChannelClosed));
        }
        match cmd {
            Command::HitlRespond { agent_id, .. } => {
                let id = *agent_id;
                self.pending_hitl.remove(&id.0);
                self.set_hitl_flag(id, false);
            },
            _ => {},
        }
        None
    }

    /// Take in a fresh scan of the goal files and rebuild the objective tree,
    /// keeping each root's expansion.
    pub fn reload_goals(&mut self, goals: Vec<GoalObjective>)
        requires
            goals_fit(goals@),
        ensures
            final(self).goals == goals,
            tree_reloaded(old(self).objective_tree, final(self).objective_tree, old(self).objective_tree.expanded@, goals@),
            *final(self) == (Dashboard { goals: final(self).goals, objective_tree: final(self).objective_tree, ..*old(self) }),
    {
        self.goals = goals;
        self.objective_tree.load_goals(&self.goals);
    }

    /// Back from the external editor: the screen must be redrawn from
    /// scratch and the goal files are read again.
    pub fn after_editor(&mut self, goals: Vec<GoalObjective>)
        requires
            goals_fit(goals@),
        ensures
            final(self).goals == goals,
            tree_reloaded(old(self).objective_tree, final(self).objective_tree, old(self).objective_tree.expanded@, goals@),
            *final(self) == (Dashboard {
                needs_clear: true,
                goals: final(self).goals,
                objective_tree: final(self).objective_tree,
                ..*old(self)
            }),
    {
        self.needs_clear = true;
        self.reload_goals(goals);
    }

    /// Back from an attached session: the screen must be redrawn, and after
    /// a first attach the agent's session counts as created.
    pub fn on_session_attached(&mut self, agent_id: AgentId, first_time: bool)
        ensures
            final(self).agent_tree.items@ == if first_time {
                match agent_index(old(self).agent_tree.items@, agent_id) {
                    Some(i) => old(self).agent_tree.items@.update(i, with_session_created(old(self).agent_tree.items@[i])),
                    None => old(self).agent_tree.items@,
                }
            } else {
                old(self).agent_tree.items@
            },
            *final(self) == (Dashboard {
                needs_clear: true,
                agent_tree: TreePanelState { items: final(self).agent_tree.items, ..old(self).agent_tree },
                ..*old(self)
            }),
    {
        self.needs_clear = true;
        if first_time {
            match self.find_agent(agent_id) {
                Some(i) => {
                    set_created_at(&mut self.agent_tree.items, i);
                },
                None => {},
            }
        }
    }
}

/// Attaching creates an agent's session the first time and resumes it
/// after: `a` on an agent with a session asks to attach to that session in
/// its directory, as a first attach exactly when the row has not attached
/// before; once that first attach is recorded (`on_session_attached` with
/// `first_time`), `a` on the same row asks to resume it.
pub proof fn lemma_attach_creates_then_resumes(
    o: Dashboard,
    n: Dashboard,
    r: Option<Effect>,
    o2: Dashboard,
    n2: Dashboard,
    r2: Option<Effect>,
)
    requires
        o.agent_tree.cursor < o.agent_tree.items@.len(),
        o.agent_tree.items@[o.agent_tree.cursor as int].data.session_id is Some,
        o.agent_tree.items@[o.agent_tree.cursor as int].data.directory is Some,
        agent_index(o.agent_tree.items@, o.agent_tree.items@[o.agent_tree.cursor as int].data.id)
            == Some(o.agent_tree.cursor as int),
        agent_step(o, n, KeyEvent { code: KeyCode::Char('a'), ctrl: false }, r),
        o2.agent_tree.cursor == o.agent_tree.cursor,
        o2.agent_tree.items@ == match agent_index(
            o.agent_tree.items@,
            o.agent_tree.items@[o.agent_tree.cursor as int].data.id,
        ) {
            Some(i) => o.agent_tree.items@.update(i, with_session_created(o.agent_tree.items@[i])),
            None => o.agent_tree.items@,
        },
        agent_step(o2, n2, KeyEvent { code: KeyCode::Char('a'), ctrl: false }, r2),
    ensures
        ({
            let a = o.agent_tree.items@[o.agent_tree.cursor as int].data;
            r matches Some(Effect::AttachSession { agent_id, session_id, directory, first_time })
                && agent_id == a.id && Some(session_id) == a.session_id && Some(directory) == a.directory
                && (first_time <==> !a.has_session)
        }),
        ({
            let a = o.agent_tree.items@[o.agent_tree.cursor as int].data;
            r2 matches Some(Effect::AttachSession { agent_id, session_id, directory, first_time })
                && agent_id == a.id && Some(session_id) == a.session_id && Some(directory) == a.directory
                && !first_time
        }),
{
}

/// Ctrl+C quits from anywhere except the debug overlay and an open modal,
/// including while the session pane has focus, and asks nothing more.
pub proof fn lemma_ctrl_c_quits(o: Dashboard, n: Dashboard, r: Option<Effect>)
    requires
        !o.show_debug,
        o.modal is Closed,
        key_step(o, n, KeyEvent { code: KeyCode::Char('c'), ctrl: true }, r),
    ensures
        !n.running,
        r is None,
{
}

/// While the session pane has focus, every other key goes to its input box:
/// focus, modal and the running flag stay as they are, and the only effect
/// is a submitted prompt.
pub proof fn lemma_session_pane_captures_keys(o: Dashboard, n: Dashboard, key: KeyEvent, r: Option<Effect>)
    requires
        !o.show_debug,
        o.modal is Closed,
        o.session_focus is Some,
        !(key.ctrl && key.code == KeyCode::Char('c')),
        key_step(o, n, key, r),
    ensures
        n.focus == o.focus,
        n.running == o.running,
        n.modal is Closed,
        r is None || r matches Some(Effect::SubmitPrompt(_)),
{
}

/// Esc closes any open modal and does nothing else.
pub proof fn lemma_escape_closes_modal(o: Dashboard, n: Dashboard, r: Option<Effect>)
    requires
        !o.show_debug,
        !(o.modal is Closed),
        key_step(o, n, KeyEvent { code: KeyCode::Esc, ctrl: false }, r),
    ensures
        n == with_modal(o, Modal::Closed),
        r is None,
{
}

} // verus!
