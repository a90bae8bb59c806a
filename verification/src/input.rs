//! Input box state and key routing for the session pane.
//!
//! A multi-line buffer with vim-flavoured Normal/Input modes.
//!   Normal: `i` -> Input, `q` -> ClosePane, `j`/`k` -> scroll, Esc -> ReturnToGlobal
//!   Input:  Esc -> Normal, Ctrl+Enter -> Submit, Enter -> newline,
//!           Backspace -> erase, arrows/Home/End -> cursor, printable -> insert

use vstd::prelude::*;
use vstd::utf8::{encode_utf8, encode_scalar, is_scalar};
use crate::text::{char_len, substring, insert_char_at, remove_char_at, concat, from_str, chars_of};

verus! {

/// A key, as the terminal reports it.
#[derive(Debug, Clone, Copy, PartialEq, Eq, Structural)]
pub enum KeyCode {
    Char(char),
    Enter,
    Backspace,
    Left,
    Right,
    Up,
    Down,
    Home,
    End,
    Esc,
    Tab,
    BackTab,
    Delete,
    Other,
}

/// A key press with whether Control was held.
#[derive(Debug, Clone, Copy, PartialEq, Eq, Structural)]
pub struct KeyEvent {
    pub code: KeyCode,
    pub ctrl: bool,
}

impl KeyEvent {
    pub fn new(code: KeyCode, ctrl: bool) -> (r: Self)
        ensures
            r.code == code,
            r.ctrl == ctrl,
    {
        KeyEvent { code, ctrl }
    }
}

#[derive(Debug, Clone, Copy, PartialEq, Eq, Structural)]
pub enum PaneMode {
    Normal,
    Input,
}

/// What the pane asks its owner to do after a key.
#[derive(Debug, Clone, PartialEq, Eq)]
pub enum InputAction {
    Idle,
    Submit(String),
    ClosePane,
    ReturnToGlobal,
    ScrollUp(u16),
    ScrollDown(u16),
}

/// Abstract state of the editor.
pub struct EditorView {
    pub lines: Seq<Seq<char>>,
    pub row: int,
    pub col: int,
    pub mode: PaneMode,
}

/// Abstract action.
pub enum ActionView {
    Idle,
    Submit(Seq<char>),
    ClosePane,
    ReturnToGlobal,
    ScrollUp(u16),
    ScrollDown(u16),
}

pub open spec fn action_view(a: InputAction) -> ActionView {
    match a {
        InputAction::Idle => ActionView::Idle,
        InputAction::Submit(s) => ActionView::Submit(s@),
        InputAction::ClosePane => ActionView::ClosePane,
        InputAction::ReturnToGlobal => ActionView::ReturnToGlobal,
        InputAction::ScrollUp(n) => ActionView::ScrollUp(n),
        InputAction::ScrollDown(n) => ActionView::ScrollDown(n),
    }
}

/// Cursor on an existing line, at most at its end; at least one line.
pub open spec fn editor_wf(v: EditorView) -> bool {
    &&& v.lines.len() >= 1
    &&& 0 <= v.row < v.lines.len()
    &&& 0 <= v.col <= v.lines[v.row].len()
}

/// The buffer can take one more character and one more line: a machine
/// limit of `usize` counters.
pub open spec fn editor_fits(v: EditorView) -> bool {
    &&& v.lines.len() < usize::MAX
    &&& v.lines[v.row].len() < usize::MAX
}

/// The empty buffer in the given mode.
pub open spec fn empty_editor(mode: PaneMode) -> EditorView {
    EditorView { lines: seq![Seq::<char>::empty()], row: 0, col: 0, mode }
}

/// Lines joined with newlines.
pub open spec fn join_lines(ls: Seq<Seq<char>>) -> Seq<char>
    decreases ls.len(),
{
    if ls.len() == 0 {
        Seq::empty()
    } else if ls.len() == 1 {
        ls[0]
    } else {
        join_lines(ls.drop_last()) + seq!['\n'] + ls.last()
    }
}

pub open spec fn spec_insert_char(v: EditorView, c: char) -> EditorView {
    let line = v.lines[v.row];
    EditorView {
        lines: v.lines.update(v.row, line.take(v.col).push(c) + line.skip(v.col)),
        col: v.col + 1,
        ..v
    }
}

pub open spec fn spec_newline(v: EditorView) -> EditorView {
    let line = v.lines[v.row];
    EditorView {
        lines: v.lines.update(v.row, line.take(v.col)).insert(v.row + 1, line.skip(v.col)),
        row: v.row + 1,
        col: 0,
        ..v
    }
}

pub open spec fn spec_backspace(v: EditorView) -> EditorView {
    let line = v.lines[v.row];
    if v.col > 0 {
        EditorView {
            lines: v.lines.update(v.row, line.take(v.col - 1) + line.skip(v.col)),
            col: v.col - 1,
            ..v
        }
    } else if v.row > 0 {
        let prev = v.lines[v.row - 1];
        EditorView {
            lines: v.lines.update(v.row - 1, prev + line).remove(v.row),
            row: v.row - 1,
            col: prev.len() as int,
            ..v
        }
    } else {
        v
    }
}

pub open spec fn spec_left(v: EditorView) -> EditorView {
    if v.col > 0 {
        EditorView { col: v.col - 1, ..v }
    } else if v.row > 0 {
        EditorView { row: v.row - 1, col: v.lines[v.row - 1].len() as int, ..v }
    } else {
        v
    }
}

pub open spec fn spec_right(v: EditorView) -> EditorView {
    if v.col < v.lines[v.row].len() {
        EditorView { col: v.col + 1, ..v }
    } else if v.row + 1 < v.lines.len() {
        EditorView { row: v.row + 1, col: 0, ..v }
    } else {
        v
    }
}

pub open spec fn min_int(a: int, b: int) -> int {
    if a <= b { a } else { b }
}

pub open spec fn spec_up(v: EditorView) -> EditorView {
    if v.row > 0 {
        EditorView { row: v.row - 1, col: min_int(v.col, v.lines[v.row - 1].len() as int), ..v }
    } else {
        v
    }
}

pub open spec fn spec_down(v: EditorView) -> EditorView {
    if v.row + 1 < v.lines.len() {
        EditorView { row: v.row + 1, col: min_int(v.col, v.lines[v.row + 1].len() as int), ..v }
    } else {
        v
    }
}

/// The effect of one key: the new editor state and the action reported.
pub open spec fn spec_handle_key(v: EditorView, key: KeyEvent) -> (EditorView, ActionView) {
    match v.mode {
        PaneMode::Normal => match key.code {
            KeyCode::Char('i') => (EditorView { mode: PaneMode::Input, ..v }, ActionView::Idle),
            KeyCode::Char('q') => (v, ActionView::ClosePane),
            KeyCode::Char('j') => (v, ActionView::ScrollDown(1)),
            KeyCode::Char('k') => (v, ActionView::ScrollUp(1)),
            KeyCode::Esc => (v, ActionView::ReturnToGlobal),
            _ => (v, ActionView::Idle),
        },
        PaneMode::Input => match key.code {
            KeyCode::Esc => (EditorView { mode: PaneMode::Normal, ..v }, ActionView::Idle),
            KeyCode::Enter => if key.ctrl {
                (empty_editor(PaneMode::Normal), ActionView::Submit(join_lines(v.lines)))
            } else {
                (spec_newline(v), ActionView::Idle)
            },
            KeyCode::Backspace => (spec_backspace(v), ActionView::Idle),
            KeyCode::Left => (spec_left(v), ActionView::Idle),
            KeyCode::Right => (spec_right(v), ActionView::Idle),
            KeyCode::Up => (spec_up(v), ActionView::Idle),
            KeyCode::Down => (spec_down(v), ActionView::Idle),
            KeyCode::Home => (EditorView { col: 0, ..v }, ActionView::Idle),
            KeyCode::End => (EditorView { col: v.lines[v.row].len() as int, ..v }, ActionView::Idle),
            KeyCode::Char(c) => if !key.ctrl {
                (spec_insert_char(v, c), ActionView::Idle)
            } else {
                (v, ActionView::Idle)
            },
            _ => (v, ActionView::Idle),
        },
    }
}

/// The editor state behind the session pane's input box.
#[derive(Debug)]
pub struct InputState {
    lines: Vec<String>,
    cursor_row: usize,
    cursor_col: usize,
    mode: PaneMode,
}

pub open spec fn lines_view(ls: Seq<String>) -> Seq<Seq<char>> {
    ls.map_values(|s: String| s@)
}

impl InputState {
    /// The abstract state.
    pub closed spec fn view(&self) -> EditorView {
        EditorView {
            lines: lines_view(self.lines@),
            row: self.cursor_row as int,
            col: self.cursor_col as int,
            mode: self.mode,
        }
    }

    pub closed spec fn wf(&self) -> bool {
        editor_wf(self.view())
    }

    /// The buffer's invariant is that of its view: at least one line, the
    /// cursor's row among them and its column within that line.
    pub proof fn lemma_wf_is_editor_wf(&self)
        ensures
            self.wf() <==> editor_wf(self.view()),
    {
    }

    /// An empty buffer in Normal mode.
    pub fn new() -> (r: Self)
        ensures
            r.wf(),
            r.view() == empty_editor(PaneMode::Normal),
    {
        let mut lines: Vec<String> = Vec::new();
        lines.push(String::new());
        let r = InputState { lines, cursor_row: 0, cursor_col: 0, mode: PaneMode::Normal };
        assert(lines_view(r.lines@) =~= seq![Seq::<char>::empty()]);
        r
    }

    pub fn mode(&self) -> (r: PaneMode)
        ensures
            r == self.view().mode,
    {
        self.mode
    }

    pub fn lines(&self) -> (r: &[String])
        ensures
            lines_view(r@) == self.view().lines,
    {
        self.lines.as_slice()
    }

    pub fn cursor(&self) -> (r: (usize, usize))
        ensures
            r.0 == self.view().row,
            r.1 == self.view().col,
    {
        (self.cursor_row, self.cursor_col)
    }

    /// Empty the buffer, keeping the mode.
    pub fn reset(&mut self)
        ensures
            final(self).view() == (EditorView { mode: old(self).view().mode, ..empty_editor(PaneMode::Normal) }),
            final(self).wf(),
    {
        let mut lines: Vec<String> = Vec::new();
        lines.push(String::new());
        self.lines = lines;
        self.cursor_row = 0;
        self.cursor_col = 0;
        assert(lines_view(self.lines@) =~= seq![Seq::<char>::empty()]);
    }

    /// The buffer's lines joined with newlines.
    pub fn collect_text(&self) -> (r: String)
        requires
            self.wf(),
        ensures
            r@ == join_lines(self.view().lines),
    {
        let mut out = String::new();
        let n = self.lines.len();
        let mut i: usize = 0;
        while i < n
            invariant
                n == self.lines@.len(),
                1 <= n,
                i <= n,
                i == 0 ==> out@ == Seq::<char>::empty(),
                i > 0 ==> out@ == join_lines(lines_view(self.lines@).take(i as int)),
            decreases n - i,
        {
            if i > 0 {
                out.append("\n");
            }
            out.append(self.lines[i].as_str());
            proof {
                let ls = lines_view(self.lines@);
                let t = ls.take(i as int + 1);
                assert(t.drop_last() =~= ls.take(i as int));
                assert(t.last() == self.lines@[i as int]@);
                if i == 0 {
                    assert(t.len() == 1);
                    assert(out@ =~= t[0]);
                } else {
                    reveal_strlit("\n");
                    assert(out@ =~= join_lines(ls.take(i as int)) + seq!['\n'] + t.last());
                }
            }
            i = i + 1;
        }
        assert(lines_view(self.lines@).take(n as int) =~= lines_view(self.lines@));
        out
    }

    /// Number of characters on the cursor's line.
    pub fn current_line_len(&self) -> (r: usize)
        requires
            self.wf(),
        ensures
            r == self.view().lines[self.view().row].len(),
    {
        self.line_len_at(self.cursor_row)
    }

    fn line_len_at(&self, row: usize) -> (r: usize)
        requires
            row < self.lines@.len(),
        ensures
            r == lines_view(self.lines@)[row as int].len(),
    {
        char_len(&self.lines[row])
    }

    /// Insert `c` before the cursor and step past it.
    pub fn insert_char(&mut self, c: char)
        requires
            old(self).wf(),
            editor_fits(old(self).view()),
        ensures
            final(self).wf(),
            final(self).view() == spec_insert_char(old(self).view(), c),
    {
        let row = self.cursor_row;
        let new_line = insert_char_at(&self.lines[row], self.cursor_col, c);
        self.lines.set(row, new_line);
        self.cursor_col = self.cursor_col + 1;
        proof {
            let v = old(self).view();
            assert(lines_view(self.lines@) =~= v.lines.update(v.row, v.lines[v.row].take(v.col).push(c) + v.lines[v.row].skip(v.col)));
        }
    }

    /// Split the cursor's line at the cursor; the cursor starts the new line.
    pub fn insert_newline(&mut self)
        requires
            old(self).wf(),
            editor_fits(old(self).view()),
        ensures
            final(self).wf(),
            final(self).view() == spec_newline(old(self).view()),
    {
        let row = self.cursor_row;
        let col = self.cursor_col;
        let n = char_len(&self.lines[row]);
        let head = substring(&self.lines[row], 0, col);
        let tail = substring(&self.lines[row], col, n);
        self.lines.set(row, head);
        self.lines.insert(row + 1, tail);
        self.cursor_row = row + 1;
        self.cursor_col = 0;
        proof {
            let v = old(self).view();
            let line = v.lines[v.row];
            assert(line.take(v.col) =~= line.subrange(0, col as int));
            assert(line.skip(v.col) =~= line.subrange(col as int, n as int));
            assert(lines_view(self.lines@) =~= v.lines.update(v.row, line.take(v.col)).insert(v.row + 1, line.skip(v.col)));
        }
    }

    /// Erase the character before the cursor, or join the line to the one above.
    pub fn backspace(&mut self)
        requires
            old(self).wf(),
        ensures
            final(self).wf(),
            final(self).view() == spec_backspace(old(self).view()),
    {
        if self.cursor_col > 0 {
            let row = self.cursor_row;
            let new_col = self.cursor_col - 1;
            let new_line = remove_char_at(&self.lines[row], new_col);
            self.lines.set(row, new_line);
            self.cursor_col = new_col;
            proof {
                let v = old(self).view();
                let line = v.lines[v.row];
                assert(lines_view(self.lines@) =~= v.lines.update(v.row, line.take(v.col - 1) + line.skip(v.col)));
            }
        } else if self.cursor_row > 0 {
            let row = self.cursor_row;
            let line = self.lines.remove(row);
            let prev_len = char_len(&self.lines[row - 1]);
            let joined = concat(&self.lines[row - 1], &line);
            self.lines.set(row - 1, joined);
            self.cursor_row = row - 1;
            self.cursor_col = prev_len;
            proof {
                let v = old(self).view();
                assert(lines_view(self.lines@) =~= v.lines.update(v.row - 1, v.lines[v.row - 1] + v.lines[v.row]).remove(v.row));
            }
        }
    }

    /// Cursor one character left, wrapping to the end of the line above.
    pub fn move_left(&mut self)
        requires
            old(self).wf(),
        ensures
            final(self).wf(),
            final(self).view() == spec_left(old(self).view()),
    {
        if self.cursor_col > 0 {
            self.cursor_col = self.cursor_col - 1;
        } else if self.cursor_row > 0 {
            self.cursor_row = self.cursor_row - 1;
            self.cursor_col = self.line_len_at(self.cursor_row);
        }
    }

    /// Cursor one character right, wrapping to the start of the line below.
    pub fn move_right(&mut self)
        requires
            old(self).wf(),
            editor_fits(old(self).view()),
        ensures
            final(self).wf(),
            final(self).view() == spec_right(old(self).view()),
    {
        let line_len = self.current_line_len();
        if self.cursor_col < line_len {
            self.cursor_col = self.cursor_col + 1;
        } else if self.cursor_row + 1 < self.lines.len() {
            self.cursor_row = self.cursor_row + 1;
            self.cursor_col = 0;
        }
    }

    /// Cursor one line up, clamped to that line's length.
    pub fn move_up(&mut self)
        requires
            old(self).wf(),
        ensures
            final(self).wf(),
            final(self).view() == spec_up(old(self).view()),
    {
        if self.cursor_row > 0 {
            self.cursor_row = self.cursor_row - 1;
            let len = self.line_len_at(self.cursor_row);
            if len < self.cursor_col {
                self.cursor_col = len;
            }
        }
    }

    /// Cursor one line down, clamped to that line's length.
    pub fn move_down(&mut self)
        requires
            old(self).wf(),
            editor_fits(old(self).view()),
        ensures
            final(self).wf(),
            final(self).view() == spec_down(old(self).view()),
    {
        if self.cursor_row + 1 < self.lines.len() {
            self.cursor_row = self.cursor_row + 1;
            let len = self.line_len_at(self.cursor_row);
            if len < self.cursor_col {
                self.cursor_col = len;
            }
        }
    }

    /// Route one key through the Normal/Input mode machine.
    pub fn handle_key(&mut self, key: KeyEvent) -> (r: InputAction)
        requires
            old(self).wf(),
            editor_fits(old(self).view()),
        ensures
            final(self).wf(),
            (final(self).view(), action_view(r)) == spec_handle_key(old(self).view(), key),
    {
        match self.mode {
            PaneMode::Normal => self.handle_normal(key),
            PaneMode::Input => self.handle_input(key),
        }
    }

    fn handle_normal(&mut self, key: KeyEvent) -> (r: InputAction)
        requires
            old(self).wf(),
            old(self).view().mode == PaneMode::Normal,
        ensures
            final(self).wf(),
            (final(self).view(), action_view(r)) == spec_handle_key(old(self).view(), key),
    {
        match key.code {
            KeyCode::Char('i') => {
                self.mode = PaneMode::Input;
                InputAction::Idle
            },
            KeyCode::Char('q') => InputAction::ClosePane,
            KeyCode::Char('j') => InputAction::ScrollDown(1),
            KeyCode::Char('k') => InputAction::ScrollUp(1),
            KeyCode::Esc => InputAction::ReturnToGlobal,
            _ => InputAction::Idle,
        }
    }

    fn handle_input(&mut self, key: KeyEvent) -> (r: InputAction)
        requires
            old(self).wf(),
            editor_fits(old(self).view()),
            old(self).view().mode == PaneMode::Input,
        ensures
            final(self).wf(),
            (final(self).view(), action_view(r)) == spec_handle_key(old(self).view(), key),
    {
        match key.code {
            KeyCode::Esc => {
                self.mode = PaneMode::Normal;
                InputAction::Idle
            },
            KeyCode::Enter => {
                if key.ctrl {
                    let text = self.collect_text();
                    self.reset();
                    self.mode = PaneMode::Normal;
                    InputAction::Submit(text)
                } else {
                    self.insert_newline();
                    InputAction::Idle
                }
            },
            KeyCode::Backspace => {
                self.backspace();
                InputAction::Idle
            },
            KeyCode::Left => {
                self.move_left();
                InputAction::Idle
            },
            KeyCode::Right => {
                self.move_right();
                InputAction::Idle
            },
            KeyCode::Up => {
                self.move_up();
                InputAction::Idle
            },
            KeyCode::Down => {
                self.move_down();
                InputAction::Idle
            },
            KeyCode::Home => {
                self.cursor_col = 0;
                InputAction::Idle
            },
            KeyCode::End => {
                self.cursor_col = self.current_line_len();
                InputAction::Idle
            },
            KeyCode::Char(c) => {
                if !key.ctrl {
                    self.insert_char(c);
                }
                InputAction::Idle
            },
            _ => InputAction::Idle,
        }
    }
}

impl Default for InputState {
    fn default() -> (r: Self)
        ensures
            r.wf(),
            r.view() == empty_editor(PaneMode::Normal),
    {
        InputState::new()
    }
}

/// Typing a character and erasing it with Backspace restores the buffer and
/// the cursor.
pub proof fn lemma_insert_then_backspace(v: EditorView, c: char)
    requires
        editor_wf(v),
    ensures
        spec_backspace(spec_insert_char(v, c)) == v,
{
    let line = v.lines[v.row];
    let w = spec_insert_char(v, c);
    assert((line.take(v.col).push(c) + line.skip(v.col)).take(v.col) + (line.take(v.col).push(c)
        + line.skip(v.col)).skip(v.col + 1) =~= line);
    assert(w.lines.update(v.row, line) =~= v.lines);
}

/// Breaking a line with Enter and joining it back with Backspace restores
/// the buffer and the cursor.
pub proof fn lemma_newline_then_backspace(v: EditorView)
    requires
        editor_wf(v),
    ensures
        spec_backspace(spec_newline(v)) == v,
{
    let line = v.lines[v.row];
    let w = spec_newline(v);
    assert(w.lines[v.row] == line.take(v.col));
    assert(w.lines[v.row + 1] == line.skip(v.col));
    assert(line.take(v.col) + line.skip(v.col) =~= line);
    assert(w.lines.update(v.row, line).remove(v.row + 1) =~= v.lines);
}

/// Every key keeps the cursor on an existing line and within it.
pub proof fn lemma_handle_key_keeps_wf(v: EditorView, key: KeyEvent)
    requires
        editor_wf(v),
    ensures
        editor_wf(spec_handle_key(v, key).0),
{
    let line = v.lines[v.row];
    match v.mode {
        PaneMode::Normal => {},
        PaneMode::Input => {
            match key.code {
                KeyCode::Enter => {
                    if !key.ctrl {
                        let w = spec_newline(v);
                        assert(w.lines[w.row] == line.skip(v.col));
                    }
                },
                KeyCode::Backspace => {
                    if v.col == 0 && v.row > 0 {
                        let w = spec_backspace(v);
                        assert(w.lines[w.row] == v.lines[v.row - 1] + line);
                    }
                },
                KeyCode::Char(c) => {},
                _ => {},
            }
        },
    }
}

/// The editor after the keys `keys`, one after another.
pub open spec fn after_keys(v: EditorView, keys: Seq<KeyEvent>) -> EditorView
    decreases keys.len(),
{
    if keys.len() == 0 {
        v
    } else {
        spec_handle_key(after_keys(v, keys.drop_last()), keys.last()).0
    }
}

/// Every state a fresh buffer reaches through any keys has at least one
/// line, the cursor's row among them and its column within that line.
pub proof fn lemma_reachable_states_keep_cursor(keys: Seq<KeyEvent>)
    ensures
        ({
            let v = after_keys(empty_editor(PaneMode::Normal), keys);
            &&& v.lines.len() >= 1
            &&& 0 <= v.row < v.lines.len()
            &&& 0 <= v.col <= v.lines[v.row].len()
        }),
    decreases keys.len(),
{
    if keys.len() > 0 {
        lemma_reachable_states_keep_cursor(keys.drop_last());
        lemma_handle_key_keeps_wf(after_keys(empty_editor(PaneMode::Normal), keys.drop_last()), keys.last());
    }
}

/// The mode after a key: Input exactly when `i` is pressed in Normal mode,
/// or any key but Esc and Ctrl+Enter in Input mode. Only Ctrl+Enter in
/// Input mode submits, and it submits the lines joined with newlines and
/// leaves an empty buffer in Normal mode.
pub proof fn lemma_mode_and_submit(v: EditorView, key: KeyEvent)
    ensures
        (spec_handle_key(v, key).0.mode == PaneMode::Input) <==> (
            (v.mode == PaneMode::Normal && key.code == KeyCode::Char('i'))
            || (v.mode == PaneMode::Input && key.code != KeyCode::Esc && !(key.code == KeyCode::Enter && key.ctrl))),
        (spec_handle_key(v, key).1 is Submit) <==> (v.mode == PaneMode::Input && key.code == KeyCode::Enter && key.ctrl),
        (v.mode == PaneMode::Input && key.code == KeyCode::Enter && key.ctrl) ==> spec_handle_key(v, key) == (
            empty_editor(PaneMode::Normal),
            ActionView::Submit(join_lines(v.lines)),
        ),
{
}

/// The characters of the lines, without separators, joined from the end.
spec fn flat(ls: Seq<Seq<char>>) -> Seq<char>
    decreases ls.len(),
{
    if ls.len() == 0 {
        Seq::empty()
    } else {
        flat(ls.drop_last()) + ls.last()
    }
}

proof fn lemma_flat_concat(a: Seq<Seq<char>>, b: Seq<Seq<char>>)
    ensures
        flat(a + b) == flat(a) + flat(b),
    decreases b.len(),
{
    if b.len() == 0 {
        assert(a + b =~= a);
        assert(flat(a) + flat(b) =~= flat(a));
    } else {
        lemma_flat_concat(a, b.drop_last());
        assert((a + b).drop_last() =~= a + b.drop_last());
        assert((a + b).last() == b.last());
        assert(flat(a) + (flat(b.drop_last()) + b.last()) =~= (flat(a) + flat(b.drop_last())) + b.last());
    }
}

proof fn lemma_flat_one(x: Seq<char>)
    ensures
        flat(seq![x]) == x,
{
    assert(seq![x].drop_last() =~= Seq::<Seq<char>>::empty());
    assert(flat(Seq::<Seq<char>>::empty()) == Seq::<char>::empty());
    assert(seq![x].last() == x);
    assert(flat(seq![x]) == flat(seq![x].drop_last()) + seq![x].last());
    assert(Seq::<char>::empty() + x =~= x);
}

proof fn lemma_flat_is_flatten_alt(ls: Seq<Seq<char>>)
    ensures
        flat(ls) == ls.flatten_alt(),
    decreases ls.len(),
{
    if ls.len() > 0 {
        lemma_flat_is_flatten_alt(ls.drop_last());
    }
}

proof fn lemma_flat_is_flatten(ls: Seq<Seq<char>>)
    ensures
        flat(ls) == ls.flatten(),
{
    lemma_flat_is_flatten_alt(ls);
    ls.lemma_flatten_and_flatten_alt_are_equivalent();
}

/// In Input mode, Enter (without Ctrl) adds a line and Backspace at the
/// start of a line other than the first removes one; neither changes the
/// text typed so far, only how it is split into lines.
pub proof fn lemma_line_breaks_keep_text(v: EditorView, key: KeyEvent)
    requires
        editor_wf(v),
        v.mode == PaneMode::Input,
    ensures
        key.code == KeyCode::Enter && !key.ctrl ==> {
            let w = spec_handle_key(v, key).0;
            &&& w.lines.len() == v.lines.len() + 1
            &&& w.lines.flatten() == v.lines.flatten()
        },
        key.code == KeyCode::Backspace && v.col == 0 && v.row > 0 ==> {
            let w = spec_handle_key(v, key).0;
            &&& w.lines.len() == v.lines.len() - 1
            &&& w.lines.flatten() == v.lines.flatten()
        },
{
    let ls = v.lines;
    let r = v.row;
    let line = ls[r];
    if key.code == KeyCode::Enter && !key.ctrl {
        let w = spec_newline(v);
        let a = ls.take(r);
        let z = ls.skip(r + 1);
        assert(ls =~= a + seq![line] + z);
        assert(w.lines =~= a + seq![line.take(v.col), line.skip(v.col)] + z);
        lemma_flat_concat(a + seq![line], z);
        lemma_flat_concat(a, seq![line]);
        lemma_flat_one(line);
        let mid = seq![line.take(v.col), line.skip(v.col)];
        lemma_flat_concat(a + mid, z);
        lemma_flat_concat(a, mid);
        lemma_flat_concat(seq![line.take(v.col)], seq![line.skip(v.col)]);
        assert(seq![line.take(v.col)] + seq![line.skip(v.col)] =~= mid);
        lemma_flat_one(line.take(v.col));
        lemma_flat_one(line.skip(v.col));
        assert(line.take(v.col) + line.skip(v.col) =~= line);
        assert(flat(w.lines) =~= flat(ls));
        lemma_flat_is_flatten(w.lines);
        lemma_flat_is_flatten(ls);
    }
    if key.code == KeyCode::Backspace && v.col == 0 && v.row > 0 {
        let w = spec_backspace(v);
        let prev = ls[r - 1];
        let a = ls.take(r - 1);
        let z = ls.skip(r + 1);
        let two = seq![prev, line];
        assert(ls =~= a + two + z);
        assert(w.lines =~= a + seq![prev + line] + z);
        lemma_flat_concat(a + two, z);
        lemma_flat_concat(a, two);
        lemma_flat_concat(seq![prev], seq![line]);
        assert(seq![prev] + seq![line] =~= two);
        lemma_flat_one(prev);
        lemma_flat_one(line);
        lemma_flat_concat(a + seq![prev + line], z);
        lemma_flat_concat(a, seq![prev + line]);
        lemma_flat_one(prev + line);
        assert(flat(w.lines) =~= flat(ls));
        lemma_flat_is_flatten(w.lines);
        lemma_flat_is_flatten(ls);
    }
}

/// In Input mode, Ctrl with a character, a key with no binding, and a move
/// or an erase that has nowhere to go report nothing and change nothing.
pub proof fn lemma_idle_keys_change_nothing(v: EditorView, key: KeyEvent)
    requires
        editor_wf(v),
        v.mode == PaneMode::Input,
    ensures
        ((key.code is Char && key.ctrl)
            || key.code == KeyCode::Tab || key.code == KeyCode::BackTab
            || key.code == KeyCode::Delete || key.code == KeyCode::Other
            || ((key.code == KeyCode::Backspace || key.code == KeyCode::Left) && v.row == 0 && v.col == 0)
            || (key.code == KeyCode::Right && v.row == v.lines.len() - 1 && v.col == v.lines[v.row].len())
            || (key.code == KeyCode::Up && v.row == 0)
            || (key.code == KeyCode::Down && v.row == v.lines.len() - 1))
            ==> spec_handle_key(v, key) == (v, ActionView::Idle),
{
}

/// In Input mode, a character typed without Ctrl goes into the text at the
/// cursor, and nothing else changes but the cursor's column.
pub proof fn lemma_typing_inserts_at_cursor(v: EditorView, c: char)
    requires
        editor_wf(v),
        v.mode == PaneMode::Input,
    ensures
        ({
            let (w, a) = spec_handle_key(v, KeyEvent { code: KeyCode::Char(c), ctrl: false });
            &&& a == ActionView::Idle
            &&& w.lines.len() == v.lines.len()
            &&& w.row == v.row
            &&& w.col == v.col + 1
            &&& w.mode == v.mode
            &&& w.lines.flatten() == v.lines.flatten().insert(v.lines.take(v.row).flatten().len() + v.col, c)
        }),
{
    let ls = v.lines;
    let r = v.row;
    let line = ls[r];
    let w = spec_insert_char(v, c);
    let typed = line.take(v.col).push(c) + line.skip(v.col);
    let a = ls.take(r);
    let z = ls.skip(r + 1);
    assert(ls =~= a + seq![line] + z);
    assert(w.lines =~= a + seq![typed] + z);
    lemma_flat_concat(a + seq![line], z);
    lemma_flat_concat(a, seq![line]);
    lemma_flat_one(line);
    lemma_flat_concat(a + seq![typed], z);
    lemma_flat_concat(a, seq![typed]);
    lemma_flat_one(typed);
    assert(typed =~= line.insert(v.col, c));
    assert(flat(w.lines) =~= flat(ls).insert(flat(a).len() + v.col, c));
    lemma_flat_is_flatten(w.lines);
    lemma_flat_is_flatten(ls);
    lemma_flat_is_flatten(a);
}

/// Left and Right undo each other wherever they move: Left from the start
/// of a line lands at the end of the line above, Right from the end of a
/// line lands at the start of the line below, and each steps back over the
/// other. Neither changes the text or the mode.
pub proof fn lemma_left_and_right_undo_each_other(v: EditorView)
    requires
        editor_wf(v),
    ensures
        v.col == 0 && v.row > 0 ==> spec_left(v).row == v.row - 1
            && spec_left(v).col == v.lines[v.row - 1].len(),
        v.col == v.lines[v.row].len() && v.row + 1 < v.lines.len() ==> spec_right(v).row == v.row + 1
            && spec_right(v).col == 0,
        (v.col > 0 || v.row > 0) ==> spec_right(spec_left(v)) == v,
        (v.col < v.lines[v.row].len() || v.row + 1 < v.lines.len()) ==> spec_left(spec_right(v)) == v,
        spec_left(v).lines == v.lines && spec_left(v).mode == v.mode,
        spec_right(v).lines == v.lines && spec_right(v).mode == v.mode,
{
}

/// Up and Down move one line and keep the column where that line allows:
/// Down then Up returns to the starting line, at the starting column when
/// the line below was long enough to hold it; a move past the first or
/// last line does nothing; neither changes the text or the mode.
pub proof fn lemma_up_and_down(v: EditorView)
    requires
        editor_wf(v),
    ensures
        v.row > 0 ==> spec_up(v).row == v.row - 1 && spec_up(v).col <= v.col
            && spec_up(v).col <= v.lines[v.row - 1].len()
            && (v.col <= v.lines[v.row - 1].len() ==> spec_up(v).col == v.col),
        v.row + 1 < v.lines.len() ==> spec_down(v).row == v.row + 1 && spec_down(v).col <= v.col
            && spec_down(v).col <= v.lines[v.row + 1].len()
            && (v.col <= v.lines[v.row + 1].len() ==> spec_down(v).col == v.col),
        v.row + 1 < v.lines.len() && v.col <= v.lines[v.row + 1].len() ==> spec_up(spec_down(v)) == v,
        v.row == 0 ==> spec_up(v) == v,
        v.row + 1 == v.lines.len() ==> spec_down(v) == v,
        spec_up(v).lines == v.lines && spec_up(v).mode == v.mode,
        spec_down(v).lines == v.lines && spec_down(v).mode == v.mode,
{
}

/// Bytes of the UTF-8 encoding of a character.
pub open spec fn char_width(c: char) -> nat {
    let u = c as u32;
    if u < 0x80 { 1 } else if u < 0x800 { 2 } else if u < 0x10000 { 3 } else { 4 }
}

/// Bytes of the UTF-8 encoding of a character sequence.
pub open spec fn utf8_width(cs: Seq<char>) -> nat
    decreases cs.len(),
{
    if cs.len() == 0 { 0 } else { char_width(cs[0]) + utf8_width(cs.drop_first()) }
}

proof fn lemma_width_concat(a: Seq<char>, b: Seq<char>)
    ensures
        utf8_width(a + b) == utf8_width(a) + utf8_width(b),
    decreases a.len(),
{
    if a.len() > 0 {
        assert((a + b).drop_first() =~= a.drop_first() + b);
        assert((a + b)[0] == a[0]);
        lemma_width_concat(a.drop_first(), b);
    } else {
        assert(a + b =~= b);
    }
}

proof fn lemma_width_is_encoding_len(cs: Seq<char>)
    ensures
        utf8_width(cs) == encode_utf8(cs).len(),
    decreases cs.len(),
{
    if cs.len() > 0 {
        lemma_width_is_encoding_len(cs.drop_first());
        let u = cs[0] as u32;
        vstd::utf8::char_is_scalar(cs[0]);
        assert(is_scalar(u));
        assert(encode_scalar(u).len() == char_width(cs[0]));
    }
}

/// Byte offset in `s` of the character at index `char_idx`; the byte
/// length of `s` when there is no such character.
pub fn char_idx_to_byte(s: &str, char_idx: usize) -> (r: usize)
    requires
        encode_utf8(s@).len() <= usize::MAX,
    ensures
        r == utf8_width(if char_idx < s@.len() { s@.take(char_idx as int) } else { s@ }),
{
    let v = chars_of(s);
    let n = v.len();
    let stop = if char_idx < n { char_idx } else { n };
    proof {
        lemma_width_is_encoding_len(s@);
    }
    let total = s.len();
    let mut pos: usize = 0;
    let mut i: usize = 0;
    while i < stop
        invariant
            v@ == s@,
            n == v@.len(),
            stop <= n,
            i <= stop,
            pos == utf8_width(v@.take(i as int)),
            utf8_width(v@) == total,
        decreases stop - i,
    {
        proof {
            lemma_width_concat(v@.take(i as int), seq![v@[i as int]]);
            assert(v@.take(i + 1) =~= v@.take(i as int) + seq![v@[i as int]]);
            lemma_width_concat(v@.take(i + 1), v@.skip(i + 1));
            assert(v@.take(i + 1) + v@.skip(i + 1) =~= v@);
            assert(utf8_width(seq![v@[i as int]]) == char_width(v@[i as int])) by {
                assert(seq![v@[i as int]].drop_first() =~= Seq::<char>::empty());
                assert(utf8_width(Seq::<char>::empty()) == 0);
            }
        }
        let c = v[i] as u32;
        let w: usize = if c < 0x80 { 1 } else if c < 0x800 { 2 } else if c < 0x10000 { 3 } else { 4 };
        pos = pos + w;
        i = i + 1;
    }
    if char_idx >= n {
        assert(v@.take(n as int) =~= v@);
    }
    pos
}

} // verus!
