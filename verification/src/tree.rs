//! Flattened tree panels: cursor movement, scrolling, and the objective
//! tree built from goal files.

use vstd::prelude::*;
use crate::ids::{AgentId, ObjectiveId};
use crate::text::{from_str, concat};
use crate::format::{uuid_text, uuid_string};

verus! {

/// One row of a flattened tree.
#[derive(Debug)]
pub struct FlatTreeItem<T> {
    pub data: T,
    pub depth: usize,
    pub is_expanded: bool,
    pub has_children: bool,
}

/// Rows, the cursor row and the first visible row of a tree panel.
#[derive(Debug)]
pub struct TreePanelState<T> {
    pub items: Vec<FlatTreeItem<T>>,
    pub cursor: usize,
    pub scroll_offset: usize,
}

impl<T> TreePanelState<T> {
    /// No rows.
    pub fn new() -> (r: Self)
        ensures
            r.items@.len() == 0,
            r.cursor == 0,
            r.scroll_offset == 0,
    {
        TreePanelState { items: Vec::new(), cursor: 0, scroll_offset: 0 }
    }

    /// The row under the cursor.
    pub fn selected(&self) -> (r: Option<&FlatTreeItem<T>>)
        ensures
            self.cursor < self.items@.len() ==> r == Some(&self.items@[self.cursor as int]),
            self.cursor >= self.items@.len() ==> r is None,
    {
        if self.cursor < self.items.len() {
            Some(&self.items[self.cursor])
        } else {
            None
        }
    }

    /// Cursor one row up, stopping at the first.
    pub fn move_up(&mut self)
        ensures
            final(self).items == old(self).items,
            final(self).scroll_offset == old(self).scroll_offset,
            final(self).cursor == if old(self).cursor > 0 { old(self).cursor - 1 } else { 0 },
    {
        if self.cursor > 0 {
            self.cursor = self.cursor - 1;
        }
    }

    /// Cursor one row down, stopping at the last.
    pub fn move_down(&mut self)
        ensures
            final(self).items == old(self).items,
            final(self).scroll_offset == old(self).scroll_offset,
            final(self).cursor == if old(self).cursor + 1 < old(self).items@.len() {
                old(self).cursor + 1
            } else {
                old(self).cursor as int
            },
    {
        if self.cursor < self.items.len() && self.cursor + 1 < self.items.len() {
            self.cursor = self.cursor + 1;
        }
    }

    /// Keep the cursor on an existing row (row 0 when there is none).
    pub fn clamp_cursor(&mut self)
        ensures
            final(self).items == old(self).items,
            final(self).scroll_offset == old(self).scroll_offset,
            final(self).cursor == if old(self).items@.len() == 0 {
                0
            } else if old(self).cursor < old(self).items@.len() {
                old(self).cursor as int
            } else {
                old(self).items@.len() - 1
            },
    {
        let n = self.items.len();
        if n == 0 {
            self.cursor = 0;
        } else if self.cursor >= n {
            self.cursor = n - 1;
        }
    }

    /// Scroll so that the cursor row is among the `visible_height` rows shown.
    pub fn scroll_into_view(&mut self, visible_height: usize)
        requires
            old(self).cursor < usize::MAX,
        ensures
            final(self).items == old(self).items,
            final(self).cursor == old(self).cursor,
            final(self).scroll_offset == if old(self).cursor < old(self).scroll_offset {
                old(self).cursor as int
            } else if old(self).cursor >= old(self).scroll_offset + visible_height {
                old(self).cursor + 1 - visible_height
            } else {
                old(self).scroll_offset as int
            },
    {
        if self.cursor < self.scroll_offset {
            self.scroll_offset = self.cursor;
        } else if self.scroll_offset <= usize::MAX - visible_height && self.cursor >= self.scroll_offset + visible_height {
            self.scroll_offset = self.cursor + 1 - visible_height;
        }
    }
}

/// After scrolling into view, the cursor lies in the visible window.
pub proof fn lemma_scroll_shows_cursor(cursor: int, offset: int, height: int)
    requires
        0 <= cursor,
        0 <= offset,
        height > 0,
    ensures
        ({
            let o = if cursor < offset { cursor } else if cursor >= offset + height { cursor + 1 - height } else { offset };
            o <= cursor < o + height
        }),
{
}

#[derive(Debug, Clone, Copy, PartialEq, Eq, Structural)]
pub enum ObjectiveStatus {
    Pending,
    InProgress,
    Done,
    Blocked,
}

/// The check-box icon text of a status.
pub open spec fn icon_text(status: ObjectiveStatus) -> Seq<char> {
    match status {
        ObjectiveStatus::Done => "[x]"@,
        ObjectiveStatus::InProgress => "[~]"@,
        ObjectiveStatus::Pending => "[ ]"@,
        ObjectiveStatus::Blocked => "[!]"@,
    }
}

/// Check-box icon of a status.
pub fn status_icon(status: &ObjectiveStatus) -> (r: &'static str)
    ensures
        r@ == icon_text(*status),
{
    match status {
        ObjectiveStatus::Done => "[x]",
        ObjectiveStatus::InProgress => "[~]",
        ObjectiveStatus::Pending => "[ ]",
        ObjectiveStatus::Blocked => "[!]",
    }
}

/// A sub-objective and its own sub-objectives.
#[derive(Debug)]
pub struct GoalSubObjective {
    pub id: ObjectiveId,
    pub description: String,
    pub status: ObjectiveStatus,
    pub children: Vec<GoalSubObjective>,
}

/// An objective read from a goal file.
#[derive(Debug)]
pub struct GoalObjective {
    pub id: Option<ObjectiveId>,
    pub file_path: String,
    pub title: String,
    pub content: String,
    pub status: ObjectiveStatus,
    pub agent_id: Option<AgentId>,
    pub children: Vec<GoalSubObjective>,
}

/// What a row of the objective tree shows and acts on.
#[derive(Debug, Clone)]
pub enum ObjectiveItem {
    Root {
        id: Option<ObjectiveId>,
        file_path: String,
        title: String,
        content: String,
        status: ObjectiveStatus,
        agent_id: Option<AgentId>,
    },
    Sub { id: ObjectiveId, description: String, status: ObjectiveStatus },
}

impl ObjectiveItem {
    pub open spec fn spec_status(self) -> ObjectiveStatus {
        match self {
            ObjectiveItem::Root { status, .. } => status,
            ObjectiveItem::Sub { status, .. } => status,
        }
    }

    pub open spec fn spec_title(self) -> Seq<char> {
        match self {
            ObjectiveItem::Root { title, .. } => title@,
            ObjectiveItem::Sub { description, .. } => description@,
        }
    }

    pub open spec fn spec_agent(self) -> Option<AgentId> {
        match self {
            ObjectiveItem::Root { agent_id, .. } => agent_id,
            ObjectiveItem::Sub { .. } => None,
        }
    }

    pub fn status(&self) -> (r: ObjectiveStatus)
        ensures
            r == match *self {
                ObjectiveItem::Root { status, .. } => status,
                ObjectiveItem::Sub { status, .. } => status,
            },
    {
        match self {
            ObjectiveItem::Root { status, .. } => *status,
            ObjectiveItem::Sub { status, .. } => *status,
        }
    }

    /// The title of a root, the description of a sub-objective.
    pub fn title(&self) -> (r: &String)
        ensures
            r@ == match *self {
                ObjectiveItem::Root { title, .. } => title@,
                ObjectiveItem::Sub { description, .. } => description@,
            },
    {
        match self {
            ObjectiveItem::Root { title, .. } => title,
            ObjectiveItem::Sub { description, .. } => description,
        }
    }

    /// The agent working on a root objective.
    pub fn agent_id(&self) -> (r: Option<AgentId>)
        ensures
            r == match *self {
                ObjectiveItem::Root { agent_id, .. } => agent_id,
                ObjectiveItem::Sub { .. } => None,
            },
    {
        match self {
            ObjectiveItem::Root { agent_id, .. } => *agent_id,
            ObjectiveItem::Sub { .. } => None,
        }
    }

    pub fn objective_id(&self) -> (r: Option<ObjectiveId>)
        ensures
            r == match *self {
                ObjectiveItem::Root { id, .. } => id,
                ObjectiveItem::Sub { id, .. } => Some(id),
            },
    {
        match self {
            ObjectiveItem::Root { id, .. } => *id,
            ObjectiveItem::Sub { id, .. } => Some(*id),
        }
    }
}

/// Spec form of a row of the objective tree: which objective (root index
/// or sub-objective id), its depth, expansion and whether it has children.
pub struct RowSpec {
    pub is_root: bool,
    pub title: Seq<char>,
    pub status: ObjectiveStatus,
    pub depth: int,
    pub is_expanded: bool,
    pub has_children: bool,
}

pub open spec fn item_row(it: FlatTreeItem<ObjectiveItem>) -> RowSpec {
    RowSpec {
        is_root: it.data is Root,
        title: match it.data {
            ObjectiveItem::Root { title, .. } => title@,
            ObjectiveItem::Sub { description, .. } => description@,
        },
        status: match it.data {
            ObjectiveItem::Root { status, .. } => status,
            ObjectiveItem::Sub { status, .. } => status,
        },
        depth: it.depth as int,
        is_expanded: it.is_expanded,
        has_children: it.has_children,
    }
}

pub open spec fn rows_of(items: Seq<FlatTreeItem<ObjectiveItem>>) -> Seq<RowSpec> {
    items.map_values(|it: FlatTreeItem<ObjectiveItem>| item_row(it))
}

/// Nesting height of a list of sub-objectives.
pub open spec fn sub_height(cs: Seq<GoalSubObjective>) -> nat
    decreases cs,
{
    if cs.len() == 0 {
        0
    } else {
        let a = sub_height(cs.drop_last());
        let b = 1 + sub_height(cs.last().children@);
        if a >= b { a } else { b }
    }
}

/// Pre-order rows of sub-objectives at `depth`, every one expanded.
pub open spec fn sub_rows(cs: Seq<GoalSubObjective>, depth: int) -> Seq<RowSpec>
    decreases cs,
{
    if cs.len() == 0 {
        Seq::empty()
    } else {
        let c = cs.last();
        sub_rows(cs.drop_last(), depth) + seq![RowSpec {
            is_root: false,
            title: c.description@,
            status: c.status,
            depth,
            is_expanded: true,
            has_children: c.children@.len() > 0,
        }] + sub_rows(c.children@, depth + 1)
    }
}

/// Rows of the goal objectives: each root, then, when expanded (or when no
/// flag is recorded for it), its sub-objectives.
pub open spec fn goal_rows(goals: Seq<GoalObjective>, expanded: Seq<bool>) -> Seq<RowSpec>
    decreases goals.len(),
{
    if goals.len() == 0 {
        Seq::empty()
    } else {
        let i = goals.len() - 1;
        let g = goals[i];
        let ex = if i < expanded.len() { expanded[i] } else { true };
        goal_rows(goals.drop_last(), expanded) + seq![RowSpec {
            is_root: true,
            title: g.title@,
            status: g.status,
            depth: 0,
            is_expanded: ex,
            has_children: g.children@.len() > 0,
        }] + (if ex { sub_rows(g.children@, 1) } else { Seq::empty() })
    }
}

proof fn lemma_sub_height_child(cs: Seq<GoalSubObjective>, i: int)
    requires
        0 <= i < cs.len(),
    ensures
        sub_height(cs[i].children@) < sub_height(cs),
        sub_height(cs.take(i)) <= sub_height(cs),
    decreases cs,
{
    if i < cs.len() - 1 {
        lemma_sub_height_child(cs.drop_last(), i);
        assert(cs.drop_last()[i] == cs[i]);
        assert(cs.drop_last().take(i) =~= cs.take(i));
    } else {
        assert(cs.take(i) =~= cs.drop_last());
    }
}

fn flatten_sub_objectives(children: &Vec<GoalSubObjective>, depth: usize, out: &mut Vec<FlatTreeItem<ObjectiveItem>>)
    requires
        depth + sub_height(children@) < usize::MAX,
    ensures
        rows_of(final(out)@) == rows_of(old(out)@) + sub_rows(children@, depth as int),
    decreases sub_height(children@),
{
    let n = children.len();
    let mut i: usize = 0;
    let ghost start = rows_of(out@);
    while i < n
        invariant
            n == children@.len(),
            i <= n,
            depth + sub_height(children@) < usize::MAX,
            rows_of(out@) == start + sub_rows(children@.take(i as int), depth as int),
        decreases n - i,
    {
        let child = &children[i];
        proof {
            lemma_sub_height_child(children@, i as int);
        }
        let ghost before = rows_of(out@);
        out.push(FlatTreeItem {
            data: ObjectiveItem::Sub { id: child.id, description: child.description.clone(), status: child.status },
            depth,
            is_expanded: true,
            has_children: child.children.len() > 0,
        });
        let ghost mid = rows_of(out@);
        assert(mid =~= before.push(RowSpec {
            is_root: false,
            title: child.description@,
            status: child.status,
            depth: depth as int,
            is_expanded: true,
            has_children: child.children@.len() > 0,
        }));
        flatten_sub_objectives(&child.children, depth + 1, out);
        proof {
            let t = children@.take(i as int + 1);
            assert(t.drop_last() =~= children@.take(i as int));
            assert(t.last() == children@[i as int]);
            assert(rows_of(out@) =~= start + sub_rows(t, depth as int));
        }
        i = i + 1;
    }
    assert(children@.take(n as int) =~= children@);
}

/// Every root objective's sub-objectives can be numbered by depth.
pub open spec fn goals_fit(goals: Seq<GoalObjective>) -> bool {
    forall|i: int| 0 <= i < goals.len() ==> 1 + sub_height(#[trigger] goals[i].children@) < usize::MAX
}

/// Flatten goal objectives into tree rows, honouring the per-root expansion
/// flags (a root with no flag counts as expanded).
pub fn flatten_objectives_with_expanded(goals: &Vec<GoalObjective>, expanded: &Vec<bool>) -> (r: Vec<FlatTreeItem<ObjectiveItem>>)
    requires
        goals_fit(goals@),
    ensures
        rows_of(r@) == goal_rows(goals@, expanded@),
{
    let mut out: Vec<FlatTreeItem<ObjectiveItem>> = Vec::new();
    let n = goals.len();
    let mut i: usize = 0;
    while i < n
        invariant
            n == goals@.len(),
            i <= n,
            goals_fit(goals@),
            rows_of(out@) == goal_rows(goals@.take(i as int), expanded@),
        decreases n - i,
    {
        let goal = &goals[i];
        let is_expanded = if i < expanded.len() { expanded[i] } else { true };
        let ghost before = rows_of(out@);
        out.push(FlatTreeItem {
            data: ObjectiveItem::Root {
                id: goal.id,
                file_path: goal.file_path.clone(),
                title: goal.title.clone(),
                content: goal.content.clone(),
                status: goal.status,
                agent_id: goal.agent_id,
            },
            depth: 0,
            is_expanded,
            has_children: goal.children.len() > 0,
        });
        let ghost mid = rows_of(out@);
        assert(mid =~= before.push(RowSpec {
            is_root: true,
            title: goal.title@,
            status: goal.status,
            depth: 0,
            is_expanded,
            has_children: goal.children@.len() > 0,
        }));
        if is_expanded {
            assert(1 + sub_height(goals@[i as int].children@) < usize::MAX);
            flatten_sub_objectives(&goal.children, 1, &mut out);
        }
        proof {
            let t = goals@.take(i as int + 1);
            assert(t.drop_last() =~= goals@.take(i as int));
            assert(t.last() == goals@[i as int]);
            assert(rows_of(out@) =~= goal_rows(t, expanded@));
        }
        i = i + 1;
    }
    assert(goals@.take(n as int) =~= goals@);
    out
}

/// Flatten goal objectives into tree rows with every root expanded.
pub fn flatten_objectives(goals: &Vec<GoalObjective>) -> (r: Vec<FlatTreeItem<ObjectiveItem>>)
    requires
        goals_fit(goals@),
    ensures
        rows_of(r@) == goal_rows(goals@, Seq::new(goals@.len(), |i: int| true)),
{
    let mut expanded: Vec<bool> = Vec::new();
    let n = goals.len();
    while expanded.len() < n
        invariant
            expanded@.len() <= n,
            expanded@ =~= Seq::new(expanded@.len(), |i: int| true),
        decreases n - expanded@.len(),
    {
        expanded.push(true);
    }
    flatten_objectives_with_expanded(goals, &expanded)
}

/// The colour a status is drawn in.
#[derive(Debug, Clone, Copy, PartialEq, Eq, Structural)]
pub enum StatusColor {
    Green,
    Yellow,
    Gray,
    Red,
}

/// Done is green, in progress yellow, pending gray, blocked red.
pub fn status_color(status: &ObjectiveStatus) -> (r: StatusColor)
    ensures
        r == match *status {
            ObjectiveStatus::Done => StatusColor::Green,
            ObjectiveStatus::InProgress => StatusColor::Yellow,
            ObjectiveStatus::Pending => StatusColor::Gray,
            ObjectiveStatus::Blocked => StatusColor::Red,
        },
{
    match status {
        ObjectiveStatus::Done => StatusColor::Green,
        ObjectiveStatus::InProgress => StatusColor::Yellow,
        ObjectiveStatus::Pending => StatusColor::Gray,
        ObjectiveStatus::Blocked => StatusColor::Red,
    }
}

/// The objective tree panel and the expansion flag of each root.
#[derive(Debug)]
pub struct ObjectiveTreeState {
    pub panel: TreePanelState<ObjectiveItem>,
    pub expanded: Vec<bool>,
}

/// Number of root rows among the first `n` rows.
pub open spec fn roots_before(rows: Seq<RowSpec>, n: int) -> nat
    decreases n,
{
    if n <= 0 {
        0
    } else {
        roots_before(rows, n - 1) + (if rows[n - 1].depth == 0 { 1nat } else { 0nat })
    }
}

/// The expansion flags after `expanded.resize(n, true)`.
pub open spec fn resized_flags(flags: Seq<bool>, n: int) -> Seq<bool> {
    if flags.len() >= n {
        flags.take(n)
    } else {
        flags + Seq::new((n - flags.len()) as nat, |i: int| true)
    }
}

/// Whether the cursor row is a root with children whose expansion is `expanded`.
pub open spec fn cursor_on_root(t: ObjectiveTreeState, expanded: bool) -> bool {
    let rows = rows_of(t.panel.items@);
    let c = t.panel.cursor as int;
    c < rows.len() && rows[c].depth == 0 && rows[c].has_children && rows[c].is_expanded == expanded
}

/// Expansion flags after collapsing (`to == false`) or expanding (`to == true`)
/// the root under the cursor.
pub open spec fn toggled_flags(t: ObjectiveTreeState, to: bool) -> Seq<bool> {
    let k = roots_before(rows_of(t.panel.items@), t.panel.cursor as int) as int;
    if cursor_on_root(t, !to) && k < t.expanded@.len() {
        t.expanded@.update(k, to)
    } else {
        t.expanded@
    }
}

/// Cursor after clamping `c` to `n` rows.
pub open spec fn clamped(c: usize, n: int) -> int {
    if n == 0 { 0 } else if c < n { c as int } else { n - 1 }
}

impl ObjectiveTreeState {
    pub open spec fn expanded_flags(&self) -> Seq<bool> {
        self.expanded@
    }

    /// An empty tree.
    pub fn new() -> (r: Self)
        ensures
            r.panel.items@.len() == 0,
            r.panel.cursor == 0,
            r.panel.scroll_offset == 0,
            r.expanded_flags() == Seq::<bool>::empty(),
    {
        ObjectiveTreeState { panel: TreePanelState::new(), expanded: Vec::new() }
    }

    /// Rebuild the rows from `goals`: roots without a recorded flag start
    /// expanded, flags of roots beyond the list are dropped, and the cursor
    /// is kept on an existing row.
    pub fn load_goals(&mut self, goals: &Vec<GoalObjective>)
        requires
            goals_fit(goals@),
        ensures
            final(self).expanded_flags() == resized_flags(old(self).expanded_flags(), goals@.len() as int),
            rows_of(final(self).panel.items@) == goal_rows(goals@, final(self).expanded_flags()),
            final(self).panel.scroll_offset == old(self).panel.scroll_offset,
            final(self).panel.cursor == if final(self).panel.items@.len() == 0 {
                0
            } else if old(self).panel.cursor < final(self).panel.items@.len() {
                old(self).panel.cursor as int
            } else {
                final(self).panel.items@.len() - 1
            },
    {
        let n = goals.len();
        if self.expanded.len() > n {
            self.expanded.truncate(n);
            assert(self.expanded@ =~= resized_flags(old(self).expanded@, n as int));
        } else {
            let ghost start = self.expanded@;
            while self.expanded.len() < n
                invariant
                    self.panel == old(self).panel,
                    start == old(self).expanded@,
                    start.len() <= self.expanded@.len() <= n,
                    self.expanded@ =~= start + Seq::new((self.expanded@.len() - start.len()) as nat, |i: int| true),
                decreases n - self.expanded@.len(),
            {
                self.expanded.push(true);
            }
            assert(self.expanded@ =~= resized_flags(old(self).expanded@, n as int));
        }
        let flat = flatten_objectives_with_expanded(goals, &self.expanded);
        self.panel.items = flat;
        self.panel.clamp_cursor();
    }

    /// Index of the root row under the cursor among the roots, when the
    /// cursor is on an expandable root.
    fn cursor_root(&self, want_expanded: bool) -> (r: Option<usize>)
        ensures
            r matches Some(k) ==> ({
                let rows = rows_of(self.panel.items@);
                &&& self.panel.cursor < rows.len()
                &&& rows[self.panel.cursor as int].depth == 0
                &&& rows[self.panel.cursor as int].has_children
                &&& rows[self.panel.cursor as int].is_expanded == want_expanded
                &&& k == roots_before(rows, self.panel.cursor as int)
            }),
            r is None ==> !({
                let rows = rows_of(self.panel.items@);
                &&& self.panel.cursor < rows.len()
                &&& rows[self.panel.cursor as int].depth == 0
                &&& rows[self.panel.cursor as int].has_children
                &&& rows[self.panel.cursor as int].is_expanded == want_expanded
            }),
    {
        let c = self.panel.cursor;
        if c >= self.panel.items.len() {
            return None;
        }
        let item = &self.panel.items[c];
        if !(item.depth == 0 && item.has_children && item.is_expanded == want_expanded) {
            return None;
        }
        let mut count: usize = 0;
        let mut i: usize = 0;
        while i < c
            invariant
                c < self.panel.items@.len(),
                i <= c,
                count == roots_before(rows_of(self.panel.items@), i as int),
                count <= i,
            decreases c - i,
        {
            if self.panel.items[i].depth == 0 {
                count = count + 1;
            }
            i = i + 1;
        }
        Some(count)
    }

    /// Collapse the root under the cursor.
    pub fn collapse(&mut self)
        ensures
            final(self).panel == old(self).panel,
            ({
                let rows = rows_of(old(self).panel.items@);
                let c = old(self).panel.cursor as int;
                let k = roots_before(rows, c) as int;
                if c < rows.len() && rows[c].depth == 0 && rows[c].has_children && rows[c].is_expanded
                    && k < old(self).expanded_flags().len() {
                    final(self).expanded_flags() == old(self).expanded_flags().update(k, false)
                } else {
                    final(self).expanded_flags() == old(self).expanded_flags()
                }
            }),
    {
        match self.cursor_root(true) {
            Some(k) => {
                if k < self.expanded.len() {
                    self.expanded.set(k, false);
                }
            },
            None => {},
        }
    }

    /// Expand the root under the cursor.
    pub fn expand(&mut self)
        ensures
            final(self).panel == old(self).panel,
            ({
                let rows = rows_of(old(self).panel.items@);
                let c = old(self).panel.cursor as int;
                let k = roots_before(rows, c) as int;
                if c < rows.len() && rows[c].depth == 0 && rows[c].has_children && !rows[c].is_expanded
                    && k < old(self).expanded_flags().len() {
                    final(self).expanded_flags() == old(self).expanded_flags().update(k, true)
                } else {
                    final(self).expanded_flags() == old(self).expanded_flags()
                }
            }),
    {
        match self.cursor_root(false) {
            Some(k) => {
                if k < self.expanded.len() {
                    self.expanded.set(k, true);
                }
            },
            None => {},
        }
    }
}

impl Default for ObjectiveTreeState {
    fn default() -> (r: Self)
        ensures
            r.panel.items@.len() == 0,
            r.panel.cursor == 0,
            r.expanded_flags() == Seq::<bool>::empty(),
    {
        ObjectiveTreeState::new()
    }
}

/// The expansion flag a root gets: its recorded flag, or expanded when
/// none is recorded.
pub open spec fn flag_of(flags: Seq<bool>, i: int) -> bool {
    if i < flags.len() { flags[i] } else { true }
}

/// The row of root `g` with expansion `ex`.
pub open spec fn root_row(g: GoalObjective, ex: bool) -> RowSpec {
    RowSpec {
        is_root: true,
        title: g.title@,
        status: g.status,
        depth: 0,
        is_expanded: ex,
        has_children: g.children@.len() > 0,
    }
}

proof fn lemma_sub_rows_deep(cs: Seq<GoalSubObjective>, d: int)
    ensures
        forall|i: int| 0 <= i < sub_rows(cs, d).len() ==> #[trigger] sub_rows(cs, d)[i].depth >= d,
    decreases cs,
{
    if cs.len() > 0 {
        let c = cs.last();
        lemma_sub_rows_deep(cs.drop_last(), d);
        lemma_sub_rows_deep(c.children@, d + 1);
        let a = sub_rows(cs.drop_last(), d);
        let b = seq![RowSpec {
            is_root: false,
            title: c.description@,
            status: c.status,
            depth: d,
            is_expanded: true,
            has_children: c.children@.len() > 0,
        }];
        let t = sub_rows(c.children@, d + 1);
        assert(sub_rows(cs, d) == a + b + t);
        assert forall|i: int| 0 <= i < sub_rows(cs, d).len() implies #[trigger] sub_rows(cs, d)[i].depth >= d by {
            if i < a.len() {
                assert(sub_rows(cs, d)[i] == a[i]);
            } else if i == a.len() {
                assert(sub_rows(cs, d)[i] == b[0]);
            } else {
                assert(sub_rows(cs, d)[i] == t[i - a.len() - 1]);
            }
        }
    }
}

proof fn lemma_roots_before_prefix(a: Seq<RowSpec>, b: Seq<RowSpec>, i: int)
    requires
        0 <= i <= a.len(),
    ensures
        roots_before(a + b, i) == roots_before(a, i),
    decreases i,
{
    if i > 0 {
        lemma_roots_before_prefix(a, b, i - 1);
        assert((a + b)[i - 1] == a[i - 1]);
    }
}

proof fn lemma_no_roots(rows: Seq<RowSpec>, i: int)
    requires
        0 <= i <= rows.len(),
        forall|j: int| 0 <= j < rows.len() ==> #[trigger] rows[j].depth >= 1,
    ensures
        roots_before(rows, i) == 0,
    decreases i,
{
    if i > 0 {
        lemma_no_roots(rows, i - 1);
    }
}

proof fn lemma_roots_before_suffix(a: Seq<RowSpec>, b: Seq<RowSpec>, i: int)
    requires
        a.len() <= i <= a.len() + b.len(),
    ensures
        roots_before(a + b, i) == roots_before(a, a.len() as int) + roots_before(b, i - a.len()),
    decreases i,
{
    if i == a.len() {
        lemma_roots_before_prefix(a, b, i);
    } else {
        lemma_roots_before_suffix(a, b, i - 1);
        assert((a + b)[i - 1] == b[i - 1 - a.len()]);
    }
}

/// Flags beyond the goals play no part in their rows.
proof fn lemma_goal_rows_flags(goals: Seq<GoalObjective>, f: Seq<bool>, g: Seq<bool>)
    requires
        forall|i: int| 0 <= i < goals.len() ==> flag_of(f, i) == flag_of(g, i),
    ensures
        goal_rows(goals, f) == goal_rows(goals, g),
    decreases goals.len(),
{
    if goals.len() > 0 {
        lemma_goal_rows_flags(goals.drop_last(), f, g);
        assert(flag_of(f, goals.len() - 1) == flag_of(g, goals.len() - 1));
    }
}

/// The rows of `n` goals hold `n` roots.
proof fn lemma_goal_rows_roots(goals: Seq<GoalObjective>, f: Seq<bool>)
    ensures
        roots_before(goal_rows(goals, f), goal_rows(goals, f).len() as int) == goals.len(),
    decreases goals.len(),
{
    if goals.len() > 0 {
        let n = goals.len() - 1;
        let g = goals[n];
        let ex = flag_of(f, n);
        let p = goal_rows(goals.drop_last(), f);
        let r = seq![root_row(g, ex)];
        let t = if ex { sub_rows(g.children@, 1) } else { Seq::<RowSpec>::empty() };
        assert(goal_rows(goals, f) == p + r + t);
        lemma_goal_rows_roots(goals.drop_last(), f);
        lemma_roots_before_suffix(p, r, (p.len() + 1) as int);
        assert(roots_before(r, 1) == 1) by {
            assert(roots_before(r, 0) == 0);
        }
        lemma_sub_rows_deep(g.children@, 1);
        lemma_no_roots(t, t.len() as int);
        lemma_roots_before_suffix(p + r, t, (p.len() + 1 + t.len()) as int);
    }
}

/// A root row of the goal rows is the row of the goal its count of earlier
/// roots names; changing the flags of later goals keeps that row where it
/// is and changes only its own expansion.
proof fn lemma_root_row_at(goals: Seq<GoalObjective>, f: Seq<bool>, f2: Seq<bool>, c: int)
    requires
        0 <= c < goal_rows(goals, f).len(),
        goal_rows(goals, f)[c].depth == 0,
        forall|i: int| 0 <= i < roots_before(goal_rows(goals, f), c) ==> flag_of(f2, i) == flag_of(f, i),
    ensures
        ({
            let k = roots_before(goal_rows(goals, f), c) as int;
            &&& k < goals.len()
            &&& goal_rows(goals, f)[c] == root_row(goals[k], flag_of(f, k))
            &&& c < goal_rows(goals, f2).len()
            &&& goal_rows(goals, f2)[c] == root_row(goals[k], flag_of(f2, k))
            &&& roots_before(goal_rows(goals, f2), c) == k
        }),
    decreases goals.len(),
{
    let n = goals.len() - 1;
    let g = goals[n];
    let ex = flag_of(f, n);
    let ex2 = flag_of(f2, n);
    let d = goals.drop_last();
    let p = goal_rows(d, f);
    let p2 = goal_rows(d, f2);
    let t = if ex { sub_rows(g.children@, 1) } else { Seq::<RowSpec>::empty() };
    let t2 = if ex2 { sub_rows(g.children@, 1) } else { Seq::<RowSpec>::empty() };
    let rows = goal_rows(goals, f);
    let rows2 = goal_rows(goals, f2);
    assert(rows == p + seq![root_row(g, ex)] + t);
    assert(rows2 == p2 + seq![root_row(g, ex2)] + t2);
    if c < p.len() {
        assert(rows[c] == p[c]);
        lemma_roots_before_prefix(p, seq![root_row(g, ex)] + t, c);
        assert(p + seq![root_row(g, ex)] + t == p + (seq![root_row(g, ex)] + t));
        lemma_root_row_at(d, f, f2, c);
        let k = roots_before(p, c) as int;
        assert(d[k] == goals[k]);
        lemma_roots_before_prefix(p2, seq![root_row(g, ex2)] + t2, c);
        assert(p2 + seq![root_row(g, ex2)] + t2 == p2 + (seq![root_row(g, ex2)] + t2));
        assert(rows2[c] == p2[c]);
    } else if c == p.len() {
        lemma_roots_before_prefix(p, seq![root_row(g, ex)] + t, c);
        assert(p + seq![root_row(g, ex)] + t == p + (seq![root_row(g, ex)] + t));
        lemma_goal_rows_roots(d, f);
        assert forall|i: int| 0 <= i < d.len() implies flag_of(f, i) == flag_of(f2, i) by {}
        lemma_goal_rows_flags(d, f, f2);
        assert(p2 == p);
        lemma_roots_before_prefix(p2, seq![root_row(g, ex2)] + t2, c);
        assert(p2 + seq![root_row(g, ex2)] + t2 == p2 + (seq![root_row(g, ex2)] + t2));
        assert(rows[c] == root_row(g, ex));
        assert(rows2[c] == root_row(g, ex2));
    } else {
        lemma_sub_rows_deep(g.children@, 1);
        if ex {
            assert(rows[c] == t[c - p.len() - 1]);
        }
        assert(false);
    }
}

/// Collapsing a root and expanding it again gives back the tree's rows.
/// Collapsing the expanded root under the cursor clears its flag; after
/// the rows are reloaded the cursor sits on that same root, now collapsed
/// and counted as the same root; expanding it sets the flag again, so the
/// flags, and with them the reloaded rows, are what they were.
pub proof fn lemma_collapse_expand_round_trip(goals: Seq<GoalObjective>, flags: Seq<bool>, c: int)
    requires
        flags.len() == goals.len(),
        0 <= c < goal_rows(goals, flags).len(),
        goal_rows(goals, flags)[c].depth == 0,
        goal_rows(goals, flags)[c].has_children,
        goal_rows(goals, flags)[c].is_expanded,
    ensures
        ({
            let rows = goal_rows(goals, flags);
            let k = roots_before(rows, c) as int;
            let collapsed = flags.update(k, false);
            let rows2 = goal_rows(goals, collapsed);
            &&& k < flags.len()
            &&& resized_flags(collapsed, goals.len() as int) == collapsed
            &&& c < rows2.len()
            &&& rows2[c].depth == 0 && rows2[c].has_children && !rows2[c].is_expanded
            &&& roots_before(rows2, c) == k
            &&& collapsed.update(k, true) == flags
            &&& goal_rows(goals, collapsed.update(k, true)) == rows
        }),
{
    let rows = goal_rows(goals, flags);
    let k = roots_before(rows, c) as int;
    lemma_root_row_at(goals, flags, flags, c);
    let collapsed = flags.update(k, false);
    assert forall|i: int| 0 <= i < k implies flag_of(collapsed, i) == flag_of(flags, i) by {}
    lemma_root_row_at(goals, flags, collapsed, c);
    assert(collapsed.update(k, true) =~= flags);
    assert(collapsed.take(goals.len() as int) =~= collapsed);
}

/// Two spaces per depth level, then the expansion arrow of the row.
pub open spec fn row_prefix(depth: int, has_children: bool, is_expanded: bool) -> Seq<char>
    decreases depth,
{
    if depth <= 0 {
        if has_children { if is_expanded { "v "@ } else { "> "@ } } else { "  "@ }
    } else {
        "  "@ + row_prefix(depth - 1, has_children, is_expanded)
    }
}

pub fn tree_row_prefix(depth: usize, has_children: bool, is_expanded: bool) -> (r: String)
    ensures
        r@ == row_prefix(depth as int, has_children, is_expanded),
{
    let mut s = String::new();
    let mut i: usize = 0;
    while i < depth
        invariant
            i <= depth,
            forall|h: bool, e: bool| #[trigger] row_prefix(depth as int, h, e) == s@ + row_prefix((depth - i) as int, h, e),
        decreases depth - i,
    {
        proof {
            reveal_strlit("  ");
            assert forall|h: bool, e: bool| #[trigger] row_prefix(depth as int, h, e)
                == (s@ + "  "@) + row_prefix((depth - i - 1) as int, h, e) by {
                assert(row_prefix((depth - i) as int, h, e) == "  "@ + row_prefix((depth - i - 1) as int, h, e));
                assert(s@ + ("  "@ + row_prefix((depth - i - 1) as int, h, e))
                    =~= (s@ + "  "@) + row_prefix((depth - i - 1) as int, h, e));
            }
        }
        s.append("  ");
        i = i + 1;
    }
    let arrow = if has_children { if is_expanded { "v " } else { "> " } } else { "  " };
    s.append(arrow);
    s
}

/// The objective tree panel, drawn with a highlighted border when focused.
#[derive(Debug, Clone, Copy, PartialEq, Eq, Structural)]
pub struct ObjectiveTreeWidget {
    pub focused: bool,
}

/// An objective row as drawn: indentation and arrow, status icon and its
/// colour, title, and the agent working on it.
pub struct ObjectiveRowText {
    pub prefix: String,
    pub icon: &'static str,
    pub color: StatusColor,
    pub title: String,
    pub agent: Option<String>,
}

/// The agent suffix of a row: the agent id in parentheses.
pub open spec fn agent_suffix(a: AgentId) -> Seq<char> {
    "  ("@ + uuid_text(a.0) + ")"@
}

/// The text of an objective row.
/// `r` is the text of `item`'s row.
pub open spec fn row_text_is(r: ObjectiveRowText, item: FlatTreeItem<ObjectiveItem>) -> bool {
    &&& r.prefix@ == row_prefix(item.depth as int, item.has_children, item.is_expanded)
    &&& r.icon@ == icon_text(item.data.spec_status())
    &&& r.color == match item.data.spec_status() {
        ObjectiveStatus::Done => StatusColor::Green,
        ObjectiveStatus::InProgress => StatusColor::Yellow,
        ObjectiveStatus::Pending => StatusColor::Gray,
        ObjectiveStatus::Blocked => StatusColor::Red,
    }
    &&& r.title@ == item.data.spec_title()
    &&& match item.data.spec_agent() {
        Some(a) => r.agent matches Some(t) && t@ == agent_suffix(a),
        None => r.agent is None,
    }
}

pub fn objective_row_text(item: &FlatTreeItem<ObjectiveItem>) -> (r: ObjectiveRowText)
    ensures
        row_text_is(r, *item),
{
    let status = item.data.status();
    let agent = match item.data.agent_id() {
        Some(a) => {
            let head = concat(&from_str("  ("), &uuid_string(a.0));
            Some(concat(&head, &from_str(")")))
        },
        None => None,
    };
    ObjectiveRowText {
        prefix: tree_row_prefix(item.depth, item.has_children, item.is_expanded),
        icon: status_icon(&status),
        color: status_color(&status),
        title: item.data.title().clone(),
        agent,
    }
}

/// A line of the objectives panel.
pub enum ObjectivePanelLine {
    /// Shown in place of rows when there are no objectives.
    Placeholder(String),
    /// A row, `selected` when the cursor is on it.
    Row { text: ObjectiveRowText, selected: bool },
}

/// The text shown when there are no objectives.
pub open spec fn no_objectives_text() -> Seq<char> {
    "  No objectives \u{2014} press N to create one"@
}

/// The first row shown: the scroll offset, clipped to the rows.
pub open spec fn window_first(len: int, offset: int) -> int {
    if offset <= len { offset } else { len }
}

/// How many rows are shown from `first` in a window of `height` lines.
pub open spec fn window_count(len: int, first: int, height: int) -> int {
    if len - first < height { len - first } else { height }
}

/// The lines of the objectives panel in a window of `height` lines: the
/// placeholder when there are no objectives, otherwise the rows from the
/// scroll offset on, as many as fit, the one under the cursor selected.
pub fn objective_panel_lines(panel: &TreePanelState<ObjectiveItem>, height: usize) -> (r: Vec<ObjectivePanelLine>)
    ensures
        panel.items@.len() == 0 ==> r@.len() == 1 && (r@[0] matches ObjectivePanelLine::Placeholder(t)
            && t@ == no_objectives_text()),
        panel.items@.len() > 0 ==> ({
            let len = panel.items@.len() as int;
            let first = window_first(len, panel.scroll_offset as int);
            &&& r@.len() == window_count(len, first, height as int)
            &&& forall|i: int| 0 <= i < r@.len() ==> (#[trigger] r@[i] matches ObjectivePanelLine::Row { text, selected }
                && row_text_is(text, panel.items@[first + i])
                && selected == (first + i == panel.cursor))
        }),
{
    let mut out: Vec<ObjectivePanelLine> = Vec::new();
    let len = panel.items.len();
    if len == 0 {
        out.push(ObjectivePanelLine::Placeholder(from_str("  No objectives \u{2014} press N to create one")));
        return out;
    }
    let first = if panel.scroll_offset <= len { panel.scroll_offset } else { len };
    let count = if len - first < height { len - first } else { height };
    let mut i: usize = 0;
    while i < count
        invariant
            len == panel.items@.len(),
            first <= len,
            count <= len - first,
            first as int == window_first(len as int, panel.scroll_offset as int),
            count as int == window_count(len as int, first as int, height as int),
            i <= count,
            out@.len() == i,
            forall|j: int| 0 <= j < i ==> (#[trigger] out@[j] matches ObjectivePanelLine::Row { text, selected }
                && row_text_is(text, panel.items@[first + j])
                && selected == (first + j == panel.cursor)),
        decreases count - i,
    {
        let k = first + i;
        let text = objective_row_text(&panel.items[k]);
        out.push(ObjectivePanelLine::Row { text, selected: k == panel.cursor });
        i = i + 1;
    }
    out
}

} // verus!
