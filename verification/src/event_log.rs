//! The event log the dashboard shows: its lines and where the operator has
//! scrolled to. Without a scroll position it follows the newest lines.

use vstd::prelude::*;

verus! {

/// The lines of the event log and the first one shown.
#[derive(Debug)]
pub struct EventLogState {
    pub lines: Vec<String>,
    /// First line shown; `None` follows the newest lines.
    pub scroll_offset: Option<usize>,
}

/// `a - b`, or zero when `b` is larger.
pub open spec fn sat_sub(a: int, b: int) -> int {
    if a >= b { a - b } else { 0 }
}

/// The first line shown in a window of `height` lines.
pub open spec fn window_start(log: EventLogState, height: int) -> int {
    match log.scroll_offset {
        Some(top) => top as int,
        None => sat_sub(log.lines@.len() as int, height),
    }
}

impl EventLogState {
    /// An empty log following the newest lines.
    pub fn new() -> (r: Self)
        ensures
            r.lines@.len() == 0,
            r.scroll_offset is None,
    {
        EventLogState { lines: Vec::new(), scroll_offset: None }
    }

    /// Append a line.
    pub fn push(&mut self, line: String)
        ensures
            final(self).lines@ == old(self).lines@.push(line),
            final(self).scroll_offset == old(self).scroll_offset,
    {
        self.lines.push(line);
    }

    /// Scroll `n` lines towards the oldest, starting from the end when
    /// following.
    pub fn scroll_up(&mut self, n: usize)
        ensures
            final(self).lines == old(self).lines,
            final(self).scroll_offset == Some(sat_sub(
                match old(self).scroll_offset {
                    Some(top) => top as int,
                    None => old(self).lines@.len() as int,
                },
                n as int,
            ) as usize),
    {
        let top = match self.scroll_offset {
            Some(t) => t,
            None => self.lines.len(),
        };
        self.scroll_offset = Some(if top >= n { top - n } else { 0 });
    }

    /// Scroll `n` lines towards the newest; reaching the end follows the
    /// newest lines again.
    pub fn scroll_down(&mut self, n: usize)
        ensures
            final(self).lines == old(self).lines,
            match old(self).scroll_offset {
                None => final(self).scroll_offset is None,
                Some(top) => if top + n >= old(self).lines@.len() {
                    final(self).scroll_offset is None
                } else {
                    final(self).scroll_offset == Some((top + n) as usize)
                },
            },
    {
        match self.scroll_offset {
            None => {},
            Some(top) => {
                if n >= self.lines.len() || top >= self.lines.len() - n {
                    self.scroll_offset = None;
                } else {
                    self.scroll_offset = Some(top + n);
                }
            },
        }
    }

    /// Show the oldest line first.
    pub fn scroll_to_top(&mut self)
        ensures
            final(self).lines == old(self).lines,
            final(self).scroll_offset == Some(0usize),
    {
        self.scroll_offset = Some(0);
    }

    /// Follow the newest lines.
    pub fn scroll_to_bottom(&mut self)
        ensures
            final(self).lines == old(self).lines,
            final(self).scroll_offset is None,
    {
        self.scroll_offset = None;
    }

    /// The lines shown in a window of `height` lines, as a range of
    /// indices: from the scroll position, or the last `height` lines when
    /// following; clipped to the log.
    pub fn visible_range(&self, height: usize) -> (r: (usize, usize))
        ensures
            r.0 <= r.1 <= self.lines@.len(),
            r.0 == if window_start(*self, height as int) <= self.lines@.len() {
                window_start(*self, height as int)
            } else {
                self.lines@.len() as int
            },
            r.1 - r.0 == if self.lines@.len() - r.0 < height { self.lines@.len() - r.0 } else { height as int },
    {
        let len = self.lines.len();
        let start = match self.scroll_offset {
            Some(top) => if top <= len { top } else { len },
            None => if len >= height { len - height } else { 0 },
        };
        let end = if len - start < height { len } else { start + height };
        (start, end)
    }
}

impl Default for EventLogState {
    fn default() -> (r: Self)
        ensures
            r.lines@.len() == 0,
            r.scroll_offset is None,
    {
        EventLogState::new()
    }
}

} // verus!
