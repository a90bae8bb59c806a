//! Modal popups of the terminal UI and their selection state.

use vstd::prelude::*;
use crate::ids::{AgentId, CheckpointVersion};
use crate::text::from_str;

verus! {

/// One entry of the rollback picker.
#[derive(Debug, Clone)]
pub struct CheckpointSummary {
    pub version: CheckpointVersion,
    pub timestamp_ms: i64,
    pub summary: String,
}

#[derive(Debug)]
pub enum Modal {
    Closed,
    HitlResponse { agent_id: AgentId, question: String, options: Vec<String>, selected: usize },
    RollbackPicker { agent_id: AgentId, versions: Vec<CheckpointSummary>, selected: usize },
    FilePicker { files: Vec<String>, selected: usize },
    View { title: String, content: String },
    ConfirmDelete { path: String, title: String },
    Help,
}

/// Number of selectable entries (0 for modals without a list).
pub open spec fn spec_item_count(m: Modal) -> int {
    match m {
        Modal::HitlResponse { options, .. } => options@.len() as int,
        Modal::RollbackPicker { versions, .. } => versions@.len() as int,
        Modal::FilePicker { files, .. } => files@.len() as int,
        _ => 0,
    }
}

/// The selection of a list modal.
pub open spec fn spec_selected(m: Modal) -> Option<usize> {
    match m {
        Modal::HitlResponse { selected, .. } => Some(selected),
        Modal::RollbackPicker { selected, .. } => Some(selected),
        Modal::FilePicker { selected, .. } => Some(selected),
        _ => None,
    }
}

/// `m` with its selection replaced by `s` (unchanged for non-list modals).
pub open spec fn with_selected(m: Modal, s: usize) -> Modal {
    match m {
        Modal::HitlResponse { agent_id, question, options, .. } =>
            Modal::HitlResponse { agent_id, question, options, selected: s },
        Modal::RollbackPicker { agent_id, versions, .. } =>
            Modal::RollbackPicker { agent_id, versions, selected: s },
        Modal::FilePicker { files, .. } => Modal::FilePicker { files, selected: s },
        _ => m,
    }
}

/// `m` after moving its selection up.
pub open spec fn spec_move_up(m: Modal) -> Modal {
    match spec_selected(m) {
        Some(s) => with_selected(m, if s > 0 { (s - 1) as usize } else { 0 }),
        None => m,
    }
}

/// `m` after moving its selection down.
pub open spec fn spec_move_down(m: Modal) -> Modal {
    match spec_selected(m) {
        Some(s) => if s + 1 < spec_item_count(m) { with_selected(m, (s + 1) as usize) } else { m },
        None => m,
    }
}

impl Modal {
    /// A modal is shown.
    pub fn is_open(&self) -> (r: bool)
        ensures
            r == !(*self is Closed),
    {
        !matches!(self, Modal::Closed)
    }

    /// The selected entry of a list modal.
    pub fn selected_index(&self) -> (r: Option<usize>)
        ensures
            r == spec_selected(*self),
    {
        match self {
            Modal::HitlResponse { selected, .. } => Some(*selected),
            Modal::RollbackPicker { selected, .. } => Some(*selected),
            Modal::FilePicker { selected, .. } => Some(*selected),
            _ => None,
        }
    }

    /// Number of selectable entries.
    pub fn item_count(&self) -> (r: usize)
        ensures
            r == spec_item_count(*self),
    {
        match self {
            Modal::HitlResponse { options, .. } => options.len(),
            Modal::RollbackPicker { versions, .. } => versions.len(),
            Modal::FilePicker { files, .. } => files.len(),
            _ => 0,
        }
    }

    /// Move the selection up one entry, stopping at the first.
    pub fn move_up(&mut self)
        ensures
            *final(self) == spec_move_up(*old(self)),
    {
        match self {
            Modal::HitlResponse { selected, .. } => {
                *selected = if *selected > 0 { *selected - 1 } else { 0 };
            },
            Modal::RollbackPicker { selected, .. } => {
                *selected = if *selected > 0 { *selected - 1 } else { 0 };
            },
            Modal::FilePicker { selected, .. } => {
                *selected = if *selected > 0 { *selected - 1 } else { 0 };
            },
            _ => {},
        }
    }

    /// Move the selection down one entry, stopping at the last.
    pub fn move_down(&mut self)
        ensures
            *final(self) == spec_move_down(*old(self)),
    {
        let count = self.item_count();
        match self {
            Modal::HitlResponse { selected, .. } => {
                if *selected < count && *selected + 1 < count {
                    *selected = *selected + 1;
                }
            },
            Modal::RollbackPicker { selected, .. } => {
                if *selected < count && *selected + 1 < count {
                    *selected = *selected + 1;
                }
            },
            Modal::FilePicker { selected, .. } => {
                if *selected < count && *selected + 1 < count {
                    *selected = *selected + 1;
                }
            },
            _ => {},
        }
    }
}

impl Default for Modal {
    fn default() -> (r: Self)
        ensures
            r is Closed,
    {
        Modal::Closed
    }
}

/// Moving the selection never takes it past the last entry of a non-empty
/// list, and moving down then up (or up then down) away from the ends comes
/// back to the same entry.
pub proof fn lemma_modal_navigation(m: Modal, s: usize)
    requires
        spec_selected(m) == Some(s),
        s < spec_item_count(m),
    ensures
        spec_selected(with_selected(m, s)) == Some(s),
        spec_item_count(with_selected(m, s)) == spec_item_count(m),
        s + 1 < spec_item_count(m) ==> with_selected(with_selected(m, (s + 1) as usize), s) == m,
        s > 0 ==> with_selected(with_selected(m, (s - 1) as usize), s) == m,
{
}

/// Display lines of a pick list: the selected entry is prefixed with ` > `,
/// the others with three spaces.
pub open spec fn picker_line(item: Seq<char>, is_selected: bool) -> Seq<char> {
    (if is_selected { " > "@ } else { "   "@ }) + item
}

pub fn picker_lines(items: &Vec<String>, selected: usize) -> (r: Vec<String>)
    ensures
        r@.len() == items@.len(),
        forall|i: int| 0 <= i < items@.len() ==> #[trigger] r@[i]@ == picker_line(items@[i]@, i == selected),
{
    let mut out: Vec<String> = Vec::new();
    let n = items.len();
    let mut i: usize = 0;
    while i < n
        invariant
            n == items@.len(),
            i <= n,
            out@.len() == i,
            forall|j: int| 0 <= j < i ==> #[trigger] out@[j]@ == picker_line(items@[j]@, j == selected),
        decreases n - i,
    {
        let mut line = if i == selected { from_str(" > ") } else { from_str("   ") };
        line.append(items[i].as_str());
        out.push(line);
        i = i + 1;
    }
    out
}

} // verus!
