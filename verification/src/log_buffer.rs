//! Bounded in-memory log that feeds the debug overlay, and the formatting of
//! tracing events into its lines.

use vstd::prelude::*;
use std::collections::VecDeque;
use crate::text::{str_equal, from_str};

verus! {

/// Most lines the buffer keeps; older lines are dropped first.
pub const MAX_ENTRIES: usize = 500;

/// The most recent log lines, oldest first.
pub struct TuiLogBuffer {
    inner: VecDeque<String>,
}

pub open spec fn strings_view(s: Seq<String>) -> Seq<Seq<char>> {
    s.map_values(|x: String| x@)
}

/// The lines kept after appending `line` to `lines`.
pub open spec fn after_push(lines: Seq<Seq<char>>, line: Seq<char>) -> Seq<Seq<char>> {
    if lines.len() >= MAX_ENTRIES {
        lines.drop_first().push(line)
    } else {
        lines.push(line)
    }
}

impl TuiLogBuffer {
    pub closed spec fn view(&self) -> Seq<Seq<char>> {
        strings_view(self.inner@)
    }

    /// At most `MAX_ENTRIES` lines.
    pub open spec fn wf(&self) -> bool {
        self.view().len() <= MAX_ENTRIES
    }

    /// An empty buffer.
    pub fn new() -> (r: Self)
        ensures
            r.wf(),
            r.view() == Seq::<Seq<char>>::empty(),
    {
        let r = TuiLogBuffer { inner: VecDeque::new() };
        assert(r.view() =~= Seq::<Seq<char>>::empty());
        r
    }

    /// Append a line, dropping the oldest one when the buffer is full.
    pub fn push(&mut self, line: String)
        requires
            old(self).wf(),
        ensures
            final(self).wf(),
            final(self).view().len() <= MAX_ENTRIES,
            final(self).view() == after_push(old(self).view(), line@),
    {
        if self.inner.len() >= MAX_ENTRIES {
            self.inner.pop_front();
        }
        self.inner.push_back(line);
        proof {
            let old_v = old(self).view();
            if old(self).inner@.len() >= MAX_ENTRIES {
                assert(self.view() =~= old_v.drop_first().push(line@));
            } else {
                assert(self.view() =~= old_v.push(line@));
            }
        }
    }

    /// A copy of the lines, oldest first.
    pub fn lines(&self) -> (r: Vec<String>)
        ensures
            strings_view(r@) == self.view(),
    {
        let mut out: Vec<String> = Vec::new();
        let n = self.inner.len();
        let mut i: usize = 0;
        while i < n
            invariant
                n == self.inner@.len(),
                i <= n,
                strings_view(out@) =~= self.view().take(i as int),
            decreases n - i,
        {
            let item = self.inner[i].clone();
            assert(item@ == self.view()[i as int]);
            let ghost prev = out@;
            out.push(item);
            assert(out@ == prev.push(item));
            assert(strings_view(out@) =~= strings_view(prev).push(item@));
            assert(strings_view(out@) =~= self.view().take(i as int + 1));
            i = i + 1;
        }
        assert(self.view().take(n as int) =~= self.view());
        out
    }

    /// Number of lines held.
    pub fn len(&self) -> (r: usize)
        ensures
            r == self.view().len(),
    {
        self.inner.len()
    }
}

/// The buffer never holds more than `MAX_ENTRIES` lines, and what it holds
/// after a push is the pushed line preceded by the newest earlier lines.
pub proof fn lemma_push_bounded_and_keeps_newest(lines: Seq<Seq<char>>, line: Seq<char>)
    requires
        lines.len() <= MAX_ENTRIES,
    ensures
        after_push(lines, line).len() <= MAX_ENTRIES,
        after_push(lines, line).last() == line,
        after_push(lines, line) == (lines.push(line)).skip(
            (lines.len() + 1 - after_push(lines, line).len()) as int,
        ),
{
    if lines.len() >= MAX_ENTRIES {
        assert(lines.drop_first().push(line) =~= lines.push(line).skip(1));
    } else {
        assert(lines.push(line) =~= lines.push(line).skip(0));
    }
}

/// Collects the message and the other fields of one tracing event.
pub struct MessageVisitor {
    pub message: String,
    pub fields: Vec<(String, String)>,
}

pub open spec fn pairs_view(p: Seq<(String, String)>) -> Seq<(Seq<char>, Seq<char>)> {
    p.map_values(|x: (String, String)| (x.0@, x.1@))
}

impl MessageVisitor {
    /// No message and no fields yet.
    pub fn new() -> (r: Self)
        ensures
            r.message@ == Seq::<char>::empty(),
            r.fields@.len() == 0,
    {
        MessageVisitor { message: String::new(), fields: Vec::new() }
    }

    /// Record one field, given its name and its debug rendering: the field
    /// named `message` becomes the message; any other is kept in order.
    pub fn record_debug(&mut self, name: &str, value: String)
        ensures
            name@ == "message"@ ==> final(self).message@ == value@ && final(self).fields@ == old(self).fields@,
            name@ != "message"@ ==> final(self).message@ == old(self).message@
                && pairs_view(final(self).fields@) == pairs_view(old(self).fields@).push((name@, value@)),
    {
        if str_equal(name, "message") {
            self.message = value;
        } else {
            self.fields.push((name.to_owned(), value));
            assert(pairs_view(self.fields@) =~= pairs_view(old(self).fields@).push((name@, value@)));
        }
    }
}

/// The ` k=v` suffix of a log line.
pub open spec fn fields_suffix(f: Seq<(Seq<char>, Seq<char>)>) -> Seq<char>
    decreases f.len(),
{
    if f.len() == 0 {
        Seq::empty()
    } else {
        fields_suffix(f.drop_last()) + " "@ + f.last().0 + "="@ + f.last().1
    }
}

/// `"{level} {target}: {message}"` followed by ` k=v` for each field.
pub open spec fn log_line(level: Seq<char>, target: Seq<char>, message: Seq<char>, f: Seq<(Seq<char>, Seq<char>)>) -> Seq<char> {
    level + " "@ + target + ": "@ + message + fields_suffix(f)
}

/// Format one event as a log line.
pub fn format_log_line(level: &str, target: &str, visitor: &MessageVisitor) -> (r: String)
    ensures
        r@ == log_line(level@, target@, visitor.message@, pairs_view(visitor.fields@)),
{
    let mut line = from_str(level);
    line.append(" ");
    line.append(target);
    line.append(": ");
    line.append(visitor.message.as_str());
    let ghost head = line@;
    let n = visitor.fields.len();
    let mut i: usize = 0;
    while i < n
        invariant
            n == visitor.fields@.len(),
            i <= n,
            line@ == head + fields_suffix(pairs_view(visitor.fields@).take(i as int)),
        decreases n - i,
    {
        line.append(" ");
        line.append(visitor.fields[i].0.as_str());
        line.append("=");
        line.append(visitor.fields[i].1.as_str());
        proof {
            let t = pairs_view(visitor.fields@).take(i as int + 1);
            assert(t.drop_last() =~= pairs_view(visitor.fields@).take(i as int));
            assert(line@ =~= head + fields_suffix(t));
        }
        i = i + 1;
    }
    assert(pairs_view(visitor.fields@).take(n as int) =~= pairs_view(visitor.fields@));
    line
}

/// Tracing layer state that turns events into lines of a `TuiLogBuffer`.
pub struct TuiTracingLayer {
    pub buffer: TuiLogBuffer,
}

impl TuiTracingLayer {
    pub fn new(buffer: TuiLogBuffer) -> (r: Self)
        ensures
            r.buffer == buffer,
    {
        TuiTracingLayer { buffer }
    }

    /// Append the line of one event.
    pub fn on_event(&mut self, level: &str, target: &str, visitor: &MessageVisitor)
        requires
            old(self).buffer.wf(),
        ensures
            final(self).buffer.wf(),
            final(self).buffer.view() == after_push(
                old(self).buffer.view(),
                log_line(level@, target@, visitor.message@, pairs_view(visitor.fields@)),
            ),
    {
        let line = format_log_line(level, target, visitor);
        self.buffer.push(line);
    }
}

} // verus!
