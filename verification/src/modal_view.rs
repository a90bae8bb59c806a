//! What each modal popup shows: its title, border tone and lines, with the
//! selected entry of a list marked. The terminal layer only draws them.

use vstd::prelude::*;
use crate::format::{uuid_text, uuid_string, dec_text, decimal};
use crate::lines::{split_lines, lines_of, lines_view};
use crate::modal::{Modal, CheckpointSummary, picker_line};
use crate::text::{from_str, concat, push_char};
use crate::paths::{path_stem, file_stem_of};

verus! {

/// How a line is drawn.
#[derive(Debug, Clone, Copy, PartialEq, Eq, Structural)]
pub enum LineStyle {
    Plain,
    Selected,
    Hint,
}

/// The border colour of a modal.
#[derive(Debug, Clone, Copy, PartialEq, Eq, Structural)]
pub enum Tone {
    Yellow,
    Magenta,
    Green,
    Blue,
    Red,
    White,
}

/// One line of a modal.
#[derive(Debug)]
pub struct ModalLine {
    pub text: String,
    pub style: LineStyle,
}

pub open spec fn line_view(l: ModalLine) -> (Seq<char>, LineStyle) {
    (l.text@, l.style)
}

pub open spec fn modal_lines_view(ls: Seq<ModalLine>) -> Seq<(Seq<char>, LineStyle)> {
    ls.map_values(|l: ModalLine| line_view(l))
}

/// Entries of a list, the selected one marked.
pub open spec fn pick_rows(items: Seq<Seq<char>>, selected: usize) -> Seq<(Seq<char>, LineStyle)> {
    Seq::new(items.len(), |i: int| (
        picker_line(items[i], i == selected),
        if i == selected { LineStyle::Selected } else { LineStyle::Plain },
    ))
}

/// How a checkpoint is listed: its version, a dash and its summary.
pub open spec fn version_label(cs: CheckpointSummary) -> Seq<char> {
    dec_text(cs.version.0 as nat) + " \u{2014} "@ + cs.summary@
}

pub open spec fn plain(s: Seq<char>) -> (Seq<char>, LineStyle) {
    (s, LineStyle::Plain)
}

pub open spec fn hint(s: Seq<char>) -> (Seq<char>, LineStyle) {
    (s, LineStyle::Hint)
}

/// The lines of the help popup.
pub open spec fn help_text() -> Seq<Seq<char>> {
    seq![
        "  Tab / Shift+Tab  Cycle focus"@,
        "  Up / Down        Navigate items"@,
        "  Left / Right     Collapse / expand tree"@,
        "  s                Spawn agent on objective"@,
        "  e                Edit objective in $EDITOR"@,
        "  v                View objective content"@,
        "  x / Del          Delete objective"@,
        "  k                Kill agent"@,
        "  p                Pause / resume agent"@,
        "  r                Rollback to checkpoint"@,
        "  n                New objective"@,
        "  D                Toggle debug log"@,
        "  Enter            Attach to agent / HITL respond"@,
        "  ?                Toggle help"@,
        "  q / Ctrl+C       Quit"@,
    ]
}

/// The title of a modal.
pub open spec fn modal_title(m: Modal) -> Seq<char> {
    match m {
        Modal::HitlResponse { agent_id, .. } => " Agent "@ + uuid_text(agent_id.0) + " asks: "@,
        Modal::RollbackPicker { agent_id, .. } => " Rollback "@ + uuid_text(agent_id.0) + " "@,
        Modal::FilePicker { .. } => " Select Goal File "@,
        Modal::View { title, .. } => " "@ + title@ + " "@,
        Modal::ConfirmDelete { .. } => " Confirm Delete "@,
        Modal::Help => " Help "@,
        Modal::Closed => Seq::empty(),
    }
}

/// The border tone of a modal.
pub open spec fn modal_tone(m: Modal) -> Tone {
    match m {
        Modal::HitlResponse { .. } => Tone::Yellow,
        Modal::RollbackPicker { .. } => Tone::Magenta,
        Modal::FilePicker { .. } => Tone::Green,
        Modal::View { .. } => Tone::Blue,
        Modal::ConfirmDelete { .. } => Tone::Red,
        _ => Tone::White,
    }
}

/// How a file picker names a file: the path's stem, or `???` when it has
/// none.
pub open spec fn picker_name(path: Seq<char>) -> Seq<char> {
    match path_stem(path) {
        Some(s) => s,
        None => seq!['?', '?', '?'],
    }
}

/// The lines of a modal.
pub open spec fn modal_body(m: Modal) -> Seq<(Seq<char>, LineStyle)> {
    match m {
        Modal::HitlResponse { question, options, selected, .. } =>
            seq![plain(question@), plain(Seq::empty())]
                + pick_rows(options@.map_values(|o: String| o@), selected)
                + seq![plain(Seq::empty()), hint(" [Enter: Select]  [Esc: Dismiss]"@)],
        Modal::RollbackPicker { versions, selected, .. } =>
            seq![plain("Select checkpoint version:"@), plain(Seq::empty())]
                + pick_rows(versions@.map_values(|c: CheckpointSummary| version_label(c)), selected)
                + seq![plain(Seq::empty()), hint(" [Enter: Select]  [Esc: Cancel]"@)],
        Modal::FilePicker { files, selected } =>
            pick_rows(files@.map_values(|f: String| picker_name(f@)), selected) + seq![plain(Seq::empty()), hint(" [Enter: Select]  [Esc: Cancel]"@)],
        Modal::View { content, .. } =>
            split_lines(content@).map_values(|l: Seq<char>| plain(l))
                + seq![plain(Seq::empty()), hint(" [Esc: Close]"@)],
        Modal::ConfirmDelete { title, .. } => seq![
            plain(Seq::empty()),
            plain("  Delete \""@ + title@ + "\"?"@),
            plain(Seq::empty()),
            hint(" [Enter: Delete]  [Esc: Cancel]"@),
        ],
        Modal::Help => help_text().map_values(|l: Seq<char>| plain(l))
            + seq![plain(Seq::empty()), hint(" [Esc: Close]"@)],
        Modal::Closed => Seq::empty(),
    }
}

fn push_line(out: &mut Vec<ModalLine>, text: String, style: LineStyle)
    ensures
        modal_lines_view(final(out)@) == modal_lines_view(old(out)@).push((text@, style)),
{
    let ghost before = out@;
    out.push(ModalLine { text, style });
    assert(modal_lines_view(out@) =~= modal_lines_view(before).push((text@, style)));
}

fn push_picks(out: &mut Vec<ModalLine>, items: &Vec<String>, selected: usize)
    ensures
        modal_lines_view(final(out)@) == modal_lines_view(old(out)@) + pick_rows(
            items@.map_values(|o: String| o@),
            selected,
        ),
{
    let ghost start = modal_lines_view(out@);
    let ghost want = pick_rows(items@.map_values(|o: String| o@), selected);
    let n = items.len();
    let mut i: usize = 0;
    while i < n
        invariant
            n == items@.len(),
            i <= n,
            want == pick_rows(items@.map_values(|o: String| o@), selected),
            modal_lines_view(out@) == start + want.take(i as int),
        decreases n - i,
    {
        let prefix = if i == selected { from_str(" > ") } else { from_str("   ") };
        let text = concat(&prefix, &items[i]);
        let style = if i == selected { LineStyle::Selected } else { LineStyle::Plain };
        push_line(out, text, style);
        assert(want.take(i + 1) =~= want.take(i as int).push(want[i as int]));
        i = i + 1;
    }
    assert(want.take(n as int) =~= want);
}

fn version_text(cs: &CheckpointSummary) -> (r: String)
    ensures
        r@ == version_label(*cs),
{
    let v = decimal(cs.version.0);
    let with_dash = concat(&v, &from_str(" \u{2014} "));
    concat(&with_dash, &cs.summary)
}

fn version_labels(versions: &Vec<CheckpointSummary>) -> (r: Vec<String>)
    ensures
        r@.map_values(|o: String| o@) == versions@.map_values(|c: CheckpointSummary| version_label(c)),
{
    let mut out: Vec<String> = Vec::new();
    let n = versions.len();
    let mut i: usize = 0;
    while i < n
        invariant
            n == versions@.len(),
            i <= n,
            out@.len() == i,
            forall|j: int| 0 <= j < i ==> #[trigger] out@[j]@ == version_label(versions@[j]),
        decreases n - i,
    {
        out.push(version_text(&versions[i]));
        i = i + 1;
    }
    assert(out@.map_values(|o: String| o@) =~= versions@.map_values(|c: CheckpointSummary| version_label(c)));
    out
}

fn picker_names(files: &Vec<String>) -> (r: Vec<String>)
    ensures
        r@.map_values(|o: String| o@) == files@.map_values(|f: String| picker_name(f@)),
{
    let mut out: Vec<String> = Vec::new();
    let n = files.len();
    let mut i: usize = 0;
    while i < n
        invariant
            n == files@.len(),
            i <= n,
            out@.len() == i,
            forall|j: int| 0 <= j < i ==> #[trigger] out@[j]@ == picker_name(files@[j]@),
        decreases n - i,
    {
        let name = match file_stem_of(&files[i]) {
            Some(s) => s,
            None => {
                let mut q = String::new();
                push_char(&mut q, '?');
                push_char(&mut q, '?');
                push_char(&mut q, '?');
                assert(q@ =~= seq!['?', '?', '?']);
                q
            },
        };
        out.push(name);
        i = i + 1;
    }
    assert(out@.map_values(|o: String| o@) =~= files@.map_values(|f: String| picker_name(f@)));
    out
}

fn push_plain_lines(out: &mut Vec<ModalLine>, ls: &Vec<String>)
    ensures
        modal_lines_view(final(out)@) == modal_lines_view(old(out)@) + lines_view(ls@).map_values(
            |l: Seq<char>| plain(l),
        ),
{
    let ghost start = modal_lines_view(out@);
    let ghost want = lines_view(ls@).map_values(|l: Seq<char>| plain(l));
    let n = ls.len();
    let mut i: usize = 0;
    while i < n
        invariant
            n == ls@.len(),
            i <= n,
            want == lines_view(ls@).map_values(|l: Seq<char>| plain(l)),
            modal_lines_view(out@) == start + want.take(i as int),
        decreases n - i,
    {
        push_line(out, ls[i].clone(), LineStyle::Plain);
        assert(want.take(i + 1) =~= want.take(i as int).push(want[i as int]));
        i = i + 1;
    }
    assert(want.take(n as int) =~= want);
}

fn help_lines() -> (r: Vec<String>)
    ensures
        lines_view(r@) == help_text(),
{
    let mut v: Vec<String> = Vec::new();
    v.push(from_str("  Tab / Shift+Tab  Cycle focus"));
    v.push(from_str("  Up / Down        Navigate items"));
    v.push(from_str("  Left / Right     Collapse / expand tree"));
    v.push(from_str("  s                Spawn agent on objective"));
    v.push(from_str("  e                Edit objective in $EDITOR"));
    v.push(from_str("  v                View objective content"));
    v.push(from_str("  x / Del          Delete objective"));
    v.push(from_str("  k                Kill agent"));
    v.push(from_str("  p                Pause / resume agent"));
    v.push(from_str("  r                Rollback to checkpoint"));
    v.push(from_str("  n                New objective"));
    v.push(from_str("  D                Toggle debug log"));
    v.push(from_str("  Enter            Attach to agent / HITL respond"));
    v.push(from_str("  ?                Toggle help"));
    v.push(from_str("  q / Ctrl+C       Quit"));
    assert(lines_view(v@) =~= help_text());
    v
}

impl Modal {
    /// The title shown in the modal's border.
    pub fn title_text(&self) -> (r: String)
        ensures
            r@ == modal_title(*self),
    {
        match self {
            Modal::HitlResponse { agent_id, .. } => {
                let head = concat(&from_str(" Agent "), &uuid_string(agent_id.0));
                concat(&head, &from_str(" asks: "))
            },
            Modal::RollbackPicker { agent_id, .. } => {
                let head = concat(&from_str(" Rollback "), &uuid_string(agent_id.0));
                concat(&head, &from_str(" "))
            },
            Modal::FilePicker { .. } => from_str(" Select Goal File "),
            Modal::View { title, .. } => {
                let head = concat(&from_str(" "), title);
                concat(&head, &from_str(" "))
            },
            Modal::ConfirmDelete { .. } => from_str(" Confirm Delete "),
            Modal::Help => from_str(" Help "),
            Modal::Closed => String::new(),
        }
    }

    /// The colour of the modal's border.
    pub fn tone(&self) -> (r: Tone)
        ensures
            r == modal_tone(*self),
    {
        match self {
            Modal::HitlResponse { .. } => Tone::Yellow,
            Modal::RollbackPicker { .. } => Tone::Magenta,
            Modal::FilePicker { .. } => Tone::Green,
            Modal::View { .. } => Tone::Blue,
            Modal::ConfirmDelete { .. } => Tone::Red,
            _ => Tone::White,
        }
    }

    /// The lines the modal shows; `names` are the display names of a file
    /// picker's files.
    pub fn body_lines(&self) -> (r: Vec<ModalLine>)
        ensures
            modal_lines_view(r@) == modal_body(*self),
    {
        let mut out: Vec<ModalLine> = Vec::new();
        let ghost empty = modal_lines_view(out@);
        assert(empty =~= Seq::<(Seq<char>, LineStyle)>::empty());
        match self {
            Modal::HitlResponse { question, options, selected, .. } => {
                push_line(&mut out, question.clone(), LineStyle::Plain);
                push_line(&mut out, String::new(), LineStyle::Plain);
                push_picks(&mut out, options, *selected);
                push_line(&mut out, String::new(), LineStyle::Plain);
                push_line(&mut out, from_str(" [Enter: Select]  [Esc: Dismiss]"), LineStyle::Hint);
            },
            Modal::RollbackPicker { versions, selected, .. } => {
                push_line(&mut out, from_str("Select checkpoint version:"), LineStyle::Plain);
                push_line(&mut out, String::new(), LineStyle::Plain);
                let labels = version_labels(versions);
                push_picks(&mut out, &labels, *selected);
                push_line(&mut out, String::new(), LineStyle::Plain);
                push_line(&mut out, from_str(" [Enter: Select]  [Esc: Cancel]"), LineStyle::Hint);
            },
            Modal::FilePicker { files, selected } => {
                let names = picker_names(files);
                push_picks(&mut out, &names, *selected);
                push_line(&mut out, String::new(), LineStyle::Plain);
                push_line(&mut out, from_str(" [Enter: Select]  [Esc: Cancel]"), LineStyle::Hint);
            },
            Modal::View { content, .. } => {
                let ls = lines_of(content.as_str());
                push_plain_lines(&mut out, &ls);
                push_line(&mut out, String::new(), LineStyle::Plain);
                push_line(&mut out, from_str(" [Esc: Close]"), LineStyle::Hint);
            },
            Modal::ConfirmDelete { title, .. } => {
                push_line(&mut out, String::new(), LineStyle::Plain);
                let head = concat(&from_str("  Delete \""), title);
                push_line(&mut out, concat(&head, &from_str("\"?")), LineStyle::Plain);
                push_line(&mut out, String::new(), LineStyle::Plain);
                push_line(&mut out, from_str(" [Enter: Delete]  [Esc: Cancel]"), LineStyle::Hint);
            },
            Modal::Help => {
                let ls = help_lines();
                push_plain_lines(&mut out, &ls);
                push_line(&mut out, String::new(), LineStyle::Plain);
                push_line(&mut out, from_str(" [Esc: Close]"), LineStyle::Hint);
            },
            Modal::Closed => {},
        }
        assert(modal_lines_view(out@) =~= modal_body(*self));
        out
    }
}

} // verus!
