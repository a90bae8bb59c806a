//! The session pane: which session events become visible rows, and what the
//! per-agent pump does with each event.

use vstd::prelude::*;
use std::collections::VecDeque;
use crate::ids::AgentId;
use crate::text::{from_str, char_len, substring, push_char, concat};

verus! {

/// Interrupt carried by a checkpoint.
#[derive(Debug, Clone)]
pub enum InterruptSnapshot {
    /// A human-in-the-loop question with its answer options.
    Hitl { question: String, options: Vec<String> },
    /// Any other interrupt kind.
    Other,
}

/// A session event as the pane reads it; timestamps in milliseconds since
/// the Unix epoch.
#[derive(Debug, Clone)]
pub enum SessionEvent {
    SessionStarted { ts_ms: i64 },
    HumanPromptQueued { text: String, ts_ms: i64 },
    HumanPromptDelivered { ts_ms: i64 },
    AgentPromptQueued { text: String, ts_ms: i64 },
    AgentPromptDelivered { ts_ms: i64 },
    AssistantMessage { delta_text: String, is_final: bool, ts_ms: i64 },
    ToolCall { tool_name: String, ts_ms: i64 },
    ToolResult { tool_use_id: String, is_error: bool, ts_ms: i64 },
    CheckpointReached { checkpoint_id: String, interrupt: Option<InterruptSnapshot>, ts_ms: i64 },
    TurnCompleted { stop_reason: String, ts_ms: i64 },
    TurnAborted { reason: String, ts_ms: i64 },
    SessionCrashed { reason: String, ts_ms: i64 },
    PromptDeliveryFailed { reason: String, ts_ms: i64 },
    SessionEnded { ts_ms: i64 },
}

/// One visible row of the pane.
#[derive(Debug, Clone)]
pub struct RenderedRow {
    pub glyph: &'static str,
    pub text: String,
    pub timestamp_ms: i64,
}

/// Spec form of a row: glyph, text and timestamp.
pub type RowView = (Seq<char>, Seq<char>, i64);

pub open spec fn row_view(r: RenderedRow) -> RowView {
    (r.glyph@, r.text@, r.timestamp_ms)
}

/// Index of the first `'\n'` of `s`, or its length.
pub open spec fn first_newline(s: Seq<char>) -> int
    decreases s.len(),
{
    if s.len() == 0 {
        0
    } else if s[0] == '\n' {
        0
    } else {
        1 + first_newline(s.drop_first())
    }
}

/// The first line of `s` as `str::lines` yields it: up to the first
/// newline, without a carriage return just before it; the whole of `s`
/// when it has no newline; empty for an empty string.
pub open spec fn first_line(s: Seq<char>) -> Seq<char> {
    let k = first_newline(s);
    if k >= s.len() {
        s
    } else {
        let l = s.take(k);
        if l.len() > 0 && l.last() == '\r' { l.drop_last() } else { l }
    }
}

pub proof fn lemma_first_newline_bounds(s: Seq<char>)
    ensures
        0 <= first_newline(s) <= s.len(),
        first_newline(s) < s.len() ==> s[first_newline(s)] == '\n',
        forall|i: int| 0 <= i < first_newline(s) ==> s[i] != '\n',
    decreases s.len(),
{
    if s.len() > 0 && s[0] != '\n' {
        lemma_first_newline_bounds(s.drop_first());
        assert forall|i: int| 0 <= i < first_newline(s) implies s[i] != '\n' by {
            if i > 0 {
                assert(s[i] == s.drop_first()[i - 1]);
            }
        }
    }
}

pub(crate) proof fn lemma_first_newline_at(s: Seq<char>, k: int)
    requires
        0 <= k <= s.len(),
        k < s.len() ==> s[k] == '\n',
        forall|i: int| 0 <= i < k ==> s[i] != '\n',
    ensures
        first_newline(s) == k,
    decreases s.len(),
{
    if k > 0 {
        assert(s[0] != '\n');
        lemma_first_newline_at(s.drop_first(), k - 1);
    }
}

/// The first line of a string.
pub fn first_line_of(s: &String) -> (r: String)
    ensures
        r@ == first_line(s@),
{
    let n = char_len(s);
    let mut k: usize = 0;
    while k < n
        invariant
            n == s@.len(),
            k <= n,
            forall|i: int| 0 <= i < k ==> s@[i] != '\n',
        ensures
            k <= n,
            forall|i: int| 0 <= i < k ==> s@[i] != '\n',
            k < n ==> s@[k as int] == '\n',
        decreases n - k,
    {
        if s.as_str().get_char(k) == '\n' {
            break;
        }
        k = k + 1;
    }
    proof {
        lemma_first_newline_at(s@, k as int);
    }
    if k >= n {
        assert(s@.subrange(0, n as int) =~= s@);
        substring(s, 0, n)
    } else if k > 0 && s.as_str().get_char(k - 1) == '\r' {
        assert(s@.take(k as int).drop_last() =~= s@.subrange(0, k - 1));
        substring(s, 0, k - 1)
    } else {
        assert(s@.take(k as int) =~= s@.subrange(0, k as int));
        substring(s, 0, k)
    }
}

/// The row an event shows, if any. In-flight assistant deltas, lifecycle
/// markers and delivery acknowledgements show nothing.
pub open spec fn spec_render_row(ev: SessionEvent) -> Option<RowView> {
    match ev {
        SessionEvent::HumanPromptQueued { text, ts_ms } => Some(("YOU →"@, text@, ts_ms)),
        SessionEvent::AgentPromptQueued { text, ts_ms } => Some(("AGENT →"@, text@, ts_ms)),
        SessionEvent::AssistantMessage { delta_text, is_final, ts_ms } =>
            if is_final { Some(("ASSIST"@, delta_text@, ts_ms)) } else { None },
        SessionEvent::ToolCall { tool_name, ts_ms } => Some(("TOOL"@, tool_name@, ts_ms)),
        SessionEvent::ToolResult { tool_use_id, is_error, ts_ms } => Some((
            "↳ result"@,
            (if is_error { "ERR ("@ } else { "ok ("@ }) + tool_use_id@ + ")"@,
            ts_ms,
        )),
        SessionEvent::CheckpointReached { checkpoint_id, ts_ms, .. } => Some(("✓ CHECKPOINT"@, checkpoint_id@, ts_ms)),
        SessionEvent::TurnCompleted { stop_reason, ts_ms } => Some(("✓ END"@, stop_reason@, ts_ms)),
        SessionEvent::TurnAborted { reason, ts_ms } => Some(("↺ ABORT"@, reason@, ts_ms)),
        SessionEvent::SessionCrashed { reason, ts_ms } => Some(("✗ CRASH"@, first_line(reason@), ts_ms)),
        SessionEvent::PromptDeliveryFailed { reason, ts_ms } => Some(("✗ DROP"@, reason@, ts_ms)),
        _ => None,
    }
}

/// When an event happened.
pub open spec fn event_ts(ev: SessionEvent) -> i64 {
    match ev {
        SessionEvent::SessionStarted { ts_ms } => ts_ms,
        SessionEvent::HumanPromptQueued { ts_ms, .. } => ts_ms,
        SessionEvent::HumanPromptDelivered { ts_ms } => ts_ms,
        SessionEvent::AgentPromptQueued { ts_ms, .. } => ts_ms,
        SessionEvent::AgentPromptDelivered { ts_ms } => ts_ms,
        SessionEvent::AssistantMessage { ts_ms, .. } => ts_ms,
        SessionEvent::ToolCall { ts_ms, .. } => ts_ms,
        SessionEvent::ToolResult { ts_ms, .. } => ts_ms,
        SessionEvent::CheckpointReached { ts_ms, .. } => ts_ms,
        SessionEvent::TurnCompleted { ts_ms, .. } => ts_ms,
        SessionEvent::TurnAborted { ts_ms, .. } => ts_ms,
        SessionEvent::SessionCrashed { ts_ms, .. } => ts_ms,
        SessionEvent::PromptDeliveryFailed { ts_ms, .. } => ts_ms,
        SessionEvent::SessionEnded { ts_ms } => ts_ms,
    }
}

/// Which events the pane shows, and how. Exactly the lifecycle markers
/// (start, end), the delivery acknowledgements and the in-flight assistant
/// deltas show nothing; every other event shows one row stamped with the
/// event's time. A tool call shows `TOOL` and the tool's name; a prompt,
/// a final assistant message, a checkpoint, a turn's end or abort and a
/// dropped prompt show their own text; a tool result shows whether it
/// failed and which call it answers.
pub proof fn lemma_rows_shown_for_events(ev: SessionEvent)
    ensures
        (spec_render_row(ev) is None) <==> (ev is SessionStarted || ev is SessionEnded
            || ev is HumanPromptDelivered || ev is AgentPromptDelivered
            || (ev matches SessionEvent::AssistantMessage { is_final, .. } && !is_final)),
        spec_render_row(ev) matches Some(r) ==> r.2 == event_ts(ev),
        ev matches SessionEvent::ToolCall { tool_name, .. } ==> (spec_render_row(ev) matches Some(r)
            && r.0 == "TOOL"@ && r.1 == tool_name@),
        ev matches SessionEvent::HumanPromptQueued { text, .. } ==> (spec_render_row(ev) matches Some(r)
            && r.0 == "YOU →"@ && r.1 == text@),
        ev matches SessionEvent::AgentPromptQueued { text, .. } ==> (spec_render_row(ev) matches Some(r)
            && r.0 == "AGENT →"@ && r.1 == text@),
        ev matches SessionEvent::AssistantMessage { delta_text, is_final, .. } ==> (is_final
            ==> (spec_render_row(ev) matches Some(r) && r.0 == "ASSIST"@ && r.1 == delta_text@)),
        ev matches SessionEvent::ToolResult { tool_use_id, is_error, .. } ==> (spec_render_row(ev) matches Some(r)
            && r.0 == "↳ result"@
            && r.1 == (if is_error { "ERR ("@ } else { "ok ("@ }) + tool_use_id@ + ")"@),
        ev matches SessionEvent::CheckpointReached { checkpoint_id, .. } ==> (spec_render_row(ev) matches Some(r)
            && r.0 == "✓ CHECKPOINT"@ && r.1 == checkpoint_id@),
        ev matches SessionEvent::TurnCompleted { stop_reason, .. } ==> (spec_render_row(ev) matches Some(r)
            && r.0 == "✓ END"@ && r.1 == stop_reason@),
        ev matches SessionEvent::TurnAborted { reason, .. } ==> (spec_render_row(ev) matches Some(r)
            && r.0 == "↺ ABORT"@ && r.1 == reason@),
        ev matches SessionEvent::SessionCrashed { .. } ==> (spec_render_row(ev) matches Some(r)
            && r.0 == "✗ CRASH"@),
        ev matches SessionEvent::PromptDeliveryFailed { reason, .. } ==> (spec_render_row(ev) matches Some(r)
            && r.0 == "✗ DROP"@ && r.1 == reason@),
{
}

pub open spec fn opt_row_view(r: Option<RenderedRow>) -> Option<RowView> {
    match r {
        Some(x) => Some(row_view(x)),
        None => None,
    }
}

fn row(glyph: &'static str, text: String, timestamp_ms: i64) -> (r: RenderedRow)
    ensures
        row_view(r) == (glyph@, text@, timestamp_ms),
{
    RenderedRow { glyph, text, timestamp_ms }
}

/// The row an event shows, if any.
pub fn render_row(ev: SessionEvent) -> (r: Option<RenderedRow>)
    ensures
        opt_row_view(r) == spec_render_row(ev),
{
    match ev {
        SessionEvent::HumanPromptQueued { text, ts_ms } => Some(row("YOU →", text, ts_ms)),
        SessionEvent::AgentPromptQueued { text, ts_ms } => Some(row("AGENT →", text, ts_ms)),
        SessionEvent::AssistantMessage { delta_text, is_final, ts_ms } => {
            if is_final {
                Some(row("ASSIST", delta_text, ts_ms))
            } else {
                None
            }
        },
        SessionEvent::ToolCall { tool_name, ts_ms } => Some(row("TOOL", tool_name, ts_ms)),
        SessionEvent::ToolResult { tool_use_id, is_error, ts_ms } => {
            let mut text = if is_error { from_str("ERR (") } else { from_str("ok (") };
            text.append(tool_use_id.as_str());
            text.append(")");
            Some(row("↳ result", text, ts_ms))
        },
        SessionEvent::CheckpointReached { checkpoint_id, ts_ms, .. } => Some(row("✓ CHECKPOINT", checkpoint_id, ts_ms)),
        SessionEvent::TurnCompleted { stop_reason, ts_ms } => Some(row("✓ END", stop_reason, ts_ms)),
        SessionEvent::TurnAborted { reason, ts_ms } => Some(row("↺ ABORT", reason, ts_ms)),
        SessionEvent::SessionCrashed { reason, ts_ms } => Some(row("✗ CRASH", first_line_of(&reason), ts_ms)),
        SessionEvent::PromptDeliveryFailed { reason, ts_ms } => Some(row("✗ DROP", reason, ts_ms)),
        _ => None,
    }
}

/// Rows of the embedded session pane, oldest first.
pub struct SessionPane {
    pub events: VecDeque<RenderedRow>,
    pub focused: bool,
}

pub open spec fn rows_view(rows: Seq<RenderedRow>) -> Seq<RowView> {
    rows.map_values(|r: RenderedRow| row_view(r))
}

impl SessionPane {
    /// An empty, unfocused pane.
    pub fn new() -> (r: Self)
        ensures
            r.events@.len() == 0,
            !r.focused,
    {
        SessionPane { events: VecDeque::new(), focused: false }
    }

    /// Append the row of `ev`, if it shows one.
    pub fn push_event(&mut self, ev: SessionEvent)
        ensures
            final(self).focused == old(self).focused,
            rows_view(final(self).events@) == match spec_render_row(ev) {
                Some(rv) => rows_view(old(self).events@).push(rv),
                None => rows_view(old(self).events@),
            },
    {
        let r = render_row(ev);
        match r {
            Some(row) => {
                let ghost prev = self.events@;
                self.events.push_back(row);
                assert(rows_view(self.events@) =~= rows_view(prev).push(row_view(row)));
            },
            None => {},
        }
    }
}

impl Default for SessionPane {
    fn default() -> (r: Self)
        ensures
            r.events@.len() == 0,
            !r.focused,
    {
        SessionPane::new()
    }
}

/// A question an agent asks the operator.
#[derive(Debug, Clone)]
pub struct HitlRequest {
    pub agent_id: AgentId,
    pub question: String,
    pub options: Vec<String>,
}

/// What the pump does with one decoded event besides appending it.
#[derive(Debug)]
pub struct PumpStep {
    /// A question to hand to the UI.
    pub hitl: Option<HitlRequest>,
    /// The session is over; the pump stops after this event.
    pub stop: bool,
}

/// Decide the side effects of one session event for agent `agent_id`.
pub fn pump_step(agent_id: AgentId, ev: &SessionEvent) -> (r: PumpStep)
    ensures
        r.stop == (*ev is SessionEnded || *ev is SessionCrashed),
        match *ev {
            SessionEvent::CheckpointReached { interrupt: Some(InterruptSnapshot::Hitl { question, options }), .. } =>
                r.hitl matches Some(h) && h.agent_id == agent_id && h.question@ == question@ && h.options@ == options@,
            _ => r.hitl is None,
        },
{
    let hitl = match ev {
        SessionEvent::CheckpointReached { interrupt: Some(InterruptSnapshot::Hitl { question, options }), .. } => {
            Some(HitlRequest { agent_id, question: question.clone(), options: clone_strings(options) })
        },
        _ => None,
    };
    let stop = match ev {
        SessionEvent::SessionEnded { .. } => true,
        SessionEvent::SessionCrashed { .. } => true,
        _ => false,
    };
    PumpStep { hitl, stop }
}

/// A copy of a list of strings.
pub fn clone_strings(v: &Vec<String>) -> (r: Vec<String>)
    ensures
        r@ == v@,
{
    let mut out: Vec<String> = Vec::new();
    let n = v.len();
    let mut i: usize = 0;
    while i < n
        invariant
            n == v@.len(),
            i <= n,
            out@ == v@.take(i as int),
        decreases n - i,
    {
        out.push(v[i].clone());
        assert(out@ =~= v@.take(i as int + 1));
        i = i + 1;
    }
    assert(v@.take(n as int) =~= v@);
    out
}


/// The decimal digit `d` (`0 <= d < 10`).
pub open spec fn digit(d: int) -> char {
    (d + 48) as char
}

/// Two decimal digits of `n` (`0 <= n < 100`).
pub open spec fn two_digits(n: int) -> Seq<char> {
    seq![digit(n / 10), digit(n % 10)]
}

/// The UTC time of day, `HH:MM:SS`, of an instant given in milliseconds
/// since the epoch.
pub open spec fn clock_text(ms: int) -> Seq<char> {
    let sod = (ms % 86_400_000) / 1000;
    two_digits(sod / 3600) + seq![':'] + two_digits((sod % 3600) / 60) + seq![':'] + two_digits(sod % 60)
}

/// The line a row is shown as: its time of day, glyph and text.
pub open spec fn row_text(r: RenderedRow) -> Seq<char> {
    clock_text(r.timestamp_ms as int) + seq![' '] + r.glyph@ + seq![' '] + r.text@
}

fn push_two_digits(s: &mut String, n: u32)
    requires
        n < 100,
    ensures
        final(s)@ == old(s)@ + two_digits(n as int),
{
    push_char(s, (((n / 10) as u8) + 48) as char);
    push_char(s, (((n % 10) as u8) + 48) as char);
    assert(final(s)@ =~= old(s)@ + two_digits(n as int));
}

/// The time of day, `HH:MM:SS` in UTC, of an instant in milliseconds since
/// the epoch.
pub fn clock(ms: i64) -> (r: String)
    ensures
        r@ == clock_text(ms as int),
{
    let shifted: i128 = ms as i128 + 86_400_000i128 * 1_099_511_627_776i128;
    let day_ms: u128 = (shifted as u128) % 86_400_000;
    proof {
        vstd::arithmetic::div_mod::lemma_mod_multiples_vanish(1_099_511_627_776, ms as int, 86_400_000);
        assert(day_ms == (ms as int) % 86_400_000);
    }
    let sod: u32 = (day_ms / 1000) as u32;
    let mut out = String::new();
    push_two_digits(&mut out, sod / 3600);
    push_char(&mut out, ':');
    push_two_digits(&mut out, (sod % 3600) / 60);
    push_char(&mut out, ':');
    push_two_digits(&mut out, sod % 60);
    assert(out@ =~= clock_text(ms as int));
    out
}

/// The line a row is shown as: its time of day, glyph and text, separated
/// by spaces.
pub fn row_line(r: &RenderedRow) -> (s: String)
    ensures
        s@ == row_text(*r),
{
    let mut out = clock(r.timestamp_ms);
    push_char(&mut out, ' ');
    out = concat(&out, &from_str(r.glyph));
    push_char(&mut out, ' ');
    out = concat(&out, &r.text);
    assert(out@ =~= row_text(*r));
    out
}

} // verus!
