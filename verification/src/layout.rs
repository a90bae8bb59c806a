//! Screen layout: which constraints each screen arrangement asks of the
//! layout solver, and the placement of popups and the debug overlay.

use vstd::prelude::*;
use ratatui::layout::{Constraint, Layout, Rect};

verus! {

/// A rectangle of terminal cells.
#[derive(Debug, Clone, Copy, PartialEq, Eq, Structural)]
pub struct Area {
    pub x: u16,
    pub y: u16,
    pub width: u16,
    pub height: u16,
}

/// A size asked of the layout solver for one part.
#[derive(Debug, Clone, Copy, PartialEq, Eq, Structural)]
pub enum Size {
    Length(u16),
    Min(u16),
    Percentage(u16),
}

/// `p` lies inside `area`.
pub open spec fn inside(area: Area, p: Area) -> bool {
    &&& area.x <= p.x && p.x + p.width <= area.x + area.width
    &&& area.y <= p.y && p.y + p.height <= area.y + area.height
}

/// `p` is a band of `area` across its whole width.
pub open spec fn row_of(area: Area, p: Area) -> bool {
    p.x == area.x && p.width == area.width && inside(area, p)
}

/// `p` is a band of `area` across its whole height.
pub open spec fn column_of(area: Area, p: Area) -> bool {
    p.y == area.y && p.height == area.height && inside(area, p)
}

/// Calls `Layout::vertical(..).split(..)` of ratatui. Claims one part per
/// size, each a band across the area's whole width that lies inside it:
/// the solver is given, as required constraints, that every edge lies
/// between the area's top and bottom and that each part's top is not below
/// its bottom (`configure_area`, `configure_variable_in_area_constraints`,
/// `configure_variable_constraints`), and the rectangles take the area's
/// columns (`changes_to_rects`). Left unsaid: the order of the parts and
/// their heights. The sizes and the gaps between parts are only weighted
/// preferences of the solver, not requirements, and ratatui documents that
/// some mixes of sizes have no single answer, chosen in hash-map order that
/// differs from one process to the next. The `expect` inside `split` fires
/// only when the solver refuses a required constraint, and the required
/// ones above can always be met together, so no input is left out.
#[verifier::external_body]
fn split_vertical(area: Area, sizes: &Vec<Size>) -> (r: Vec<Area>)
    ensures
        r@.len() == sizes@.len(),
        forall|i: int| 0 <= i < r@.len() ==> row_of(area, #[trigger] r@[i]),
{
    let cs = sizes.iter().map(|s| match *s {
        Size::Length(n) => Constraint::Length(n),
        Size::Min(n) => Constraint::Min(n),
        Size::Percentage(n) => Constraint::Percentage(n),
    });
    let rect = Rect { x: area.x, y: area.y, width: area.width, height: area.height };
    Layout::vertical(cs).split(rect).iter().map(|r| Area { x: r.x, y: r.y, width: r.width, height: r.height }).collect()
}

/// Calls `Layout::horizontal(..).split(..)` of ratatui. Claims one part per
/// size, each a band across the area's whole height that lies inside it;
/// the order of the parts and their widths are left unsaid, as for
/// `split_vertical`.
#[verifier::external_body]
fn split_horizontal(area: Area, sizes: &Vec<Size>) -> (r: Vec<Area>)
    ensures
        r@.len() == sizes@.len(),
        forall|i: int| 0 <= i < r@.len() ==> column_of(area, #[trigger] r@[i]),
{
    let cs = sizes.iter().map(|s| match *s {
        Size::Length(n) => Constraint::Length(n),
        Size::Min(n) => Constraint::Min(n),
        Size::Percentage(n) => Constraint::Percentage(n),
    });
    let rect = Rect { x: area.x, y: area.y, width: area.width, height: area.height };
    Layout::horizontal(cs).split(rect).iter().map(|r| Area { x: r.x, y: r.y, width: r.width, height: r.height }).collect()
}

/// Rows of the overview: with the event log focused it gets the room and
/// the trees shrink to five rows; otherwise the trees get the room and the
/// log fifteen rows. The hotkey bar takes the last two rows.
pub open spec fn overview_rows(event_log_focused: bool) -> Seq<Size> {
    if event_log_focused {
        seq![Size::Length(5), Size::Min(10), Size::Length(2)]
    } else {
        seq![Size::Min(10), Size::Length(15), Size::Length(2)]
    }
}

/// The overview: objectives (40%) and agents (60%) side by side on top,
/// the event log below, the hotkey bar at the bottom.
#[derive(Debug, Clone, Copy, PartialEq, Eq, Structural)]
pub struct AppLayout {
    pub objective_tree: Area,
    pub agent_tree: Area,
    pub event_log: Area,
    pub hotkey_bar: Area,
}

/// With a session focused: agents (20%), the session (60%) and the event
/// log (20%) side by side, the hotkey bar at the bottom.
#[derive(Debug, Clone, Copy, PartialEq, Eq, Structural)]
pub struct AppLayoutWithSession {
    pub agent_tree: Area,
    pub session_pane: Area,
    pub event_log: Area,
    pub hotkey_bar: Area,
}

/// Two or three sizes, as a vector.
fn sizes_vec(a: Size, b: Size, c: Option<Size>) -> (r: Vec<Size>)
    ensures
        r@ == (match c {
            Some(z) => seq![a, b, z],
            None => seq![a, b],
        }),
{
    let mut v: Vec<Size> = Vec::new();
    v.push(a);
    v.push(b);
    match c {
        Some(z) => v.push(z),
        None => {},
    }
    proof {
        match c {
            Some(z) => assert(v@ =~= seq![a, b, z]),
            None => assert(v@ =~= seq![a, b]),
        }
    }
    v
}

/// The overview's rows, as handed to the layout solver.
pub fn overview_row_sizes(event_log_focused: bool) -> (r: Vec<Size>)
    ensures
        r@ == overview_rows(event_log_focused),
{
    if event_log_focused {
        sizes_vec(Size::Length(5), Size::Min(10), Some(Size::Length(2)))
    } else {
        sizes_vec(Size::Min(10), Size::Length(15), Some(Size::Length(2)))
    }
}

impl AppLayout {
    /// The overview from the solver's rows and the top row's columns.
    pub fn from_parts(rows: &Vec<Area>, cols: &Vec<Area>) -> (r: AppLayout)
        requires
            rows@.len() == 3,
            cols@.len() == 2,
        ensures
            r == (AppLayout { objective_tree: cols@[0], agent_tree: cols@[1], event_log: rows@[1], hotkey_bar: rows@[2] }),
    {
        AppLayout { objective_tree: cols[0], agent_tree: cols[1], event_log: rows[1], hotkey_bar: rows[2] }
    }

    /// Splits `area` into `overview_rows(event_log_focused)`, then its top
    /// row into 40% and 60%. The event log and the hotkey bar are bands
    /// across the area; the two trees share their row; all lie inside the
    /// area.
    pub fn compute_with_focus(area: Area, event_log_focused: bool) -> (r: AppLayout)
        ensures
            row_of(area, r.event_log),
            row_of(area, r.hotkey_bar),
            inside(area, r.objective_tree),
            inside(area, r.agent_tree),
            r.objective_tree.y == r.agent_tree.y && r.objective_tree.height == r.agent_tree.height,
    {
        let rows = overview_row_sizes(event_log_focused);
        let v = split_vertical(area, &rows);
        let cols = sizes_vec(Size::Percentage(40), Size::Percentage(60), None);
        let h = split_horizontal(v[0], &cols);
        AppLayout::from_parts(&v, &h)
    }
}

impl AppLayoutWithSession {
    /// The session layout from the solver's rows and the top row's columns.
    pub fn from_parts(rows: &Vec<Area>, cols: &Vec<Area>) -> (r: AppLayoutWithSession)
        requires
            rows@.len() == 2,
            cols@.len() == 3,
        ensures
            r == (AppLayoutWithSession { agent_tree: cols@[0], session_pane: cols@[1], event_log: cols@[2], hotkey_bar: rows@[1] }),
    {
        AppLayoutWithSession { agent_tree: cols[0], session_pane: cols[1], event_log: cols[2], hotkey_bar: rows[1] }
    }

    /// Splits `area` into the panes (at least ten rows) and two rows for the
    /// hotkey bar, then the panes' row into 20%, 60% and 20%. The hotkey
    /// bar is a band across the area; the three panes share their row; all
    /// lie inside the area.
    pub fn compute(area: Area) -> (r: AppLayoutWithSession)
        ensures
            row_of(area, r.hotkey_bar),
            inside(area, r.agent_tree),
            inside(area, r.session_pane),
            inside(area, r.event_log),
            r.agent_tree.y == r.session_pane.y && r.agent_tree.height == r.session_pane.height,
            r.event_log.y == r.session_pane.y && r.event_log.height == r.session_pane.height,
    {
        let rows = sizes_vec(Size::Min(10), Size::Length(2), None);
        let v = split_vertical(area, &rows);
        let cols = sizes_vec(Size::Percentage(20),
            Size::Percentage(60),
            Some(Size::Percentage(20)),
        );
        let h = split_horizontal(v[0], &cols);
        AppLayoutWithSession::from_parts(&v, &h)
    }
}

/// Sizes that centre a part of `percent` percent between two equal margins.
pub open spec fn centred(percent: u16) -> Seq<Size> {
    let margin = ((100 - percent) / 2) as u16;
    seq![Size::Percentage(margin), Size::Percentage(percent), Size::Percentage(margin)]
}

/// The sizes that centre a part of `percent` percent, as handed to the
/// layout solver.
pub fn centred_sizes(percent: u16) -> (r: Vec<Size>)
    requires
        percent <= 100,
    ensures
        r@ == centred(percent),
{
    let m = (100 - percent) / 2;
    sizes_vec(Size::Percentage(m), Size::Percentage(percent), Some(Size::Percentage(m)))
}

/// A popup of `percent_x` by `percent_y` percent of `area`, centred: the
/// middle column of the middle row, the rows split by
/// `centred(percent_y)` and that row's columns by `centred(percent_x)`.
/// It lies inside `area`; where inside is the solver's choice.
pub fn centered_rect(percent_x: u16, percent_y: u16, area: Area) -> (r: Area)
    requires
        percent_x <= 100,
        percent_y <= 100,
    ensures
        inside(area, r),
{
    let rows = centred_sizes(percent_y);
    let v = split_vertical(area, &rows);
    let cols = centred_sizes(percent_x);
    let h = split_horizontal(v[1], &cols);
    h[1]
}

/// The debug overlay: the bottom half of the screen, at least five rows,
/// across its whole width.
pub fn debug_overlay_area(area: Area) -> (r: Area)
    ensures
        r.height == (if area.height / 2 > 5 { area.height / 2 } else { 5 }),
        r.y == (if area.height > r.height { area.height - r.height } else { 0 }),
        r.x == 0,
        r.width == area.width,
{
    let half = area.height / 2;
    let height = if half > 5 { half } else { 5 };
    let y = if area.height > height { area.height - height } else { 0 };
    Area { x: 0, y, width: area.width, height }
}

/// First debug line shown: the last `visible` lines, moved up by `scroll`
/// lines, never before the first.
pub fn debug_first_line(total: usize, visible: usize, scroll: usize) -> (r: usize)
    ensures
        r == (if total >= visible + scroll { total - visible - scroll } else { 0 }),
{
    let tail = if total > visible { total - visible } else { 0 };
    if tail > scroll { tail - scroll } else { 0 }
}

} // verus!
