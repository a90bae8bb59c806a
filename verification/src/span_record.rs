//! The spans table: how a stored tracing span is decoded.

use vstd::prelude::*;
use crate::agent_record::{Timestamp, RowError, RowErrorKind, rfc3339_instant, instant, parse_rfc3339};
use crate::json::{json_parses, is_json};

verus! {

/// The columns of a spans row, as SQLite hands them out.
#[derive(Debug)]
pub struct SpanRow {
    pub span_id: String,
    pub trace_id: String,
    pub parent_span_id: Option<String>,
    pub name: String,
    pub level: String,
    pub target: String,
    pub start_time: String,
    pub end_time: Option<String>,
    pub duration_us: Option<i64>,
    pub attributes: String,
    pub events: String,
    pub status: String,
}

/// A span as the store returns it. The level, attributes, events and
/// status are kept as the JSON text stored.
#[derive(Debug)]
pub struct SpanRecord {
    pub span_id: String,
    pub trace_id: String,
    pub parent_span_id: Option<String>,
    pub name: String,
    pub level: String,
    pub target: String,
    pub start_time: Timestamp,
    pub end_time: Option<Timestamp>,
    pub duration_us: Option<u64>,
    pub attributes: String,
    pub events: String,
    pub status: String,
}

/// The column every JSON failure of a span row is reported against.
pub const SPAN_ROW_COLUMN: usize = 0;
/// Column of `start_time`.
pub const SPAN_START_COLUMN: usize = 6;
/// Column of `end_time`.
pub const SPAN_END_COLUMN: usize = 7;

/// What the parsers said of a span row's columns.
pub struct SpanParse {
    pub level_ok: bool,
    pub attributes_ok: bool,
    pub events_ok: bool,
    pub status_ok: bool,
    pub start: Option<(i64, u32)>,
    /// `None` when the end time is NULL.
    pub end: Option<Option<(i64, u32)>>,
}

/// The parsers' verdicts on `row`.
pub open spec fn span_parse_of(row: SpanRow) -> SpanParse {
    SpanParse {
        level_ok: json_parses(row.level@),
        attributes_ok: json_parses(row.attributes@),
        events_ok: json_parses(row.events@),
        status_ok: json_parses(row.status@),
        start: rfc3339_instant(row.start_time@),
        end: match row.end_time {
            Some(t) => Some(rfc3339_instant(t@)),
            None => None,
        },
    }
}

/// The first failure among a span row's columns: the level, attributes,
/// events and status, then the end time, then the start time.
pub open spec fn span_row_error(p: SpanParse) -> Option<RowError> {
    if !p.level_ok || !p.attributes_ok || !p.events_ok || !p.status_ok {
        Some(RowError { column: SPAN_ROW_COLUMN, kind: RowErrorKind::BadJson })
    } else if p.end == Some(None::<(i64, u32)>) {
        Some(RowError { column: SPAN_END_COLUMN, kind: RowErrorKind::BadTimestamp })
    } else if p.start is None {
        Some(RowError { column: SPAN_START_COLUMN, kind: RowErrorKind::BadTimestamp })
    } else {
        None
    }
}

/// `s` is `row` decoded, given the parsers' verdicts.
pub open spec fn span_decoded(s: SpanRecord, row: SpanRow, p: SpanParse) -> bool {
    &&& p.start matches Some(t) && s.start_time == instant(t)
    &&& match p.end {
        None => s.end_time is None,
        Some(Some(t)) => s.end_time == Some(instant(t)),
        Some(None) => false,
    }
    &&& s.duration_us == match row.duration_us {
        Some(d) => Some(d as u64),
        None => None::<u64>,
    }
    &&& s.span_id == row.span_id
    &&& s.trace_id == row.trace_id
    &&& s.parent_span_id == row.parent_span_id
    &&& s.name == row.name
    &&& s.level == row.level
    &&& s.target == row.target
    &&& s.attributes == row.attributes
    &&& s.events == row.events
    &&& s.status == row.status
}

/// Decode a span row given the parsers' verdicts on its columns.
pub fn span_from_parts(row: SpanRow, p: SpanParse) -> (r: Result<SpanRecord, RowError>)
    ensures
        r is Ok <==> span_row_error(p) is None,
        r matches Err(e) ==> span_row_error(p) == Some(e),
        r matches Ok(s) ==> span_decoded(s, row, p),
{
    if !p.level_ok || !p.attributes_ok || !p.events_ok || !p.status_ok {
        return Err(RowError { column: SPAN_ROW_COLUMN, kind: RowErrorKind::BadJson });
    }
    let end_time = match p.end {
        None => None,
        Some(Some(t)) => Some(Timestamp { secs: t.0, nanos: t.1 }),
        Some(None) => {
            return Err(RowError { column: SPAN_END_COLUMN, kind: RowErrorKind::BadTimestamp });
        },
    };
    let start_time = match p.start {
        Some(t) => Timestamp { secs: t.0, nanos: t.1 },
        None => {
            return Err(RowError { column: SPAN_START_COLUMN, kind: RowErrorKind::BadTimestamp });
        },
    };
    let duration_us = match row.duration_us {
        Some(d) => Some(d as u64),
        None => None,
    };
    Ok(SpanRecord {
        span_id: row.span_id,
        trace_id: row.trace_id,
        parent_span_id: row.parent_span_id,
        name: row.name,
        level: row.level,
        target: row.target,
        start_time,
        end_time,
        duration_us,
        attributes: row.attributes,
        events: row.events,
        status: row.status,
    })
}

/// Decode a spans row: the level, attributes, events and status must be
/// JSON and the times RFC 3339; the stored duration is read as unsigned.
pub fn decode_span_row(row: SpanRow) -> (r: Result<SpanRecord, RowError>)
    ensures
        r is Ok <==> span_row_error(span_parse_of(row)) is None,
        r matches Err(e) ==> span_row_error(span_parse_of(row)) == Some(e),
        r matches Ok(s) ==> span_decoded(s, row, span_parse_of(row)),
{
    let p = SpanParse {
        level_ok: is_json(row.level.as_str()),
        attributes_ok: is_json(row.attributes.as_str()),
        events_ok: is_json(row.events.as_str()),
        status_ok: is_json(row.status.as_str()),
        start: parse_rfc3339(row.start_time.as_str()),
        end: match &row.end_time {
            Some(t) => Some(parse_rfc3339(t.as_str())),
            None => None,
        },
    };
    span_from_parts(row, p)
}

} // verus!
