//! The interrupt_requests table: how a row read back is decoded into an
//! interrupt request.

use vstd::prelude::*;
use crate::agent_record::{Timestamp, RowError, RowErrorKind, rfc3339_instant, instant, parse_rfc3339};
use crate::ids::{AgentId, CheckpointId, InterruptId};
use crate::json::{column_ok, json_column_ok, is_json};
use crate::store_policy::{InterruptKind, InterruptStatus, kind_of_text, status_of_text};

verus! {

/// The columns of an interrupt_requests row, as SQLite hands them out.
#[derive(Debug)]
pub struct InterruptRow {
    pub id: InterruptId,
    pub agent_id: AgentId,
    pub checkpoint_id: CheckpointId,
    pub interrupt_type: String,
    pub payload: Option<String>,
    pub status: String,
    pub response: Option<String>,
    pub question_hash: Option<String>,
    pub ask_count: i64,
    pub created_at: String,
    pub resolved_at: Option<String>,
}

/// An interrupt request as the store returns it.
#[derive(Debug)]
pub struct InterruptRecord {
    pub id: InterruptId,
    pub agent_id: AgentId,
    pub checkpoint_id: CheckpointId,
    pub kind: InterruptKind,
    /// The payload, as the JSON text stored.
    pub payload: Option<String>,
    pub status: InterruptStatus,
    /// The operator's response, as the JSON text stored.
    pub response: Option<String>,
    pub question_hash: Option<String>,
    pub ask_count: i64,
    pub created_at: Timestamp,
    pub resolved_at: Option<Timestamp>,
}

/// Column of `payload`.
pub const PAYLOAD_COLUMN: usize = 4;
/// Column of `response`.
pub const RESPONSE_COLUMN: usize = 6;
/// Column of `created_at`.
pub const INTERRUPT_CREATED_COLUMN: usize = 9;
/// Column of `resolved_at`.
pub const RESOLVED_COLUMN: usize = 10;

/// The first column of an interrupt row that fails to decode, given what
/// the parsers said of its columns: the payload, the response, the
/// resolution time, then the creation time.
pub open spec fn interrupt_row_error(
    row: InterruptRow,
    payload_ok: bool,
    response_ok: bool,
    created: Option<(i64, u32)>,
    resolved: Option<Option<(i64, u32)>>,
) -> Option<RowError> {
    if !column_ok(row.payload is Some, payload_ok) {
        Some(RowError { column: PAYLOAD_COLUMN, kind: RowErrorKind::BadJson })
    } else if !column_ok(row.response is Some, response_ok) {
        Some(RowError { column: RESPONSE_COLUMN, kind: RowErrorKind::BadJson })
    } else if resolved == Some(None::<(i64, u32)>) {
        Some(RowError { column: RESOLVED_COLUMN, kind: RowErrorKind::BadTimestamp })
    } else if created is None {
        Some(RowError { column: INTERRUPT_CREATED_COLUMN, kind: RowErrorKind::BadTimestamp })
    } else {
        None
    }
}

/// `r` is `row` decoded, given the parsed timestamps.
pub open spec fn interrupt_decoded(
    r: InterruptRecord,
    row: InterruptRow,
    created: Option<(i64, u32)>,
    resolved: Option<Option<(i64, u32)>>,
) -> bool {
    &&& r.id == row.id
    &&& r.agent_id == row.agent_id
    &&& r.checkpoint_id == row.checkpoint_id
    &&& r.kind == kind_of_text(row.interrupt_type@)
    &&& r.payload == row.payload
    &&& r.status == status_of_text(row.status@)
    &&& r.response == row.response
    &&& r.question_hash == row.question_hash
    &&& r.ask_count == row.ask_count
    &&& created matches Some(c) && r.created_at == instant(c)
    &&& match resolved {
        None => r.resolved_at is None,
        Some(Some(t)) => r.resolved_at == Some(instant(t)),
        Some(None) => false,
    }
}

/// The stored resolution time, parsed: `None` when the column is NULL.
pub open spec fn parsed_resolved(resolved_at: Option<String>) -> Option<Option<(i64, u32)>> {
    match resolved_at {
        Some(t) => Some(rfc3339_instant(t@)),
        None => None,
    }
}

/// Decode a row given what the parsers said of its columns: whether the
/// payload and the response are JSON, and the two timestamps.
pub fn interrupt_from_parts(
    row: InterruptRow,
    payload_ok: bool,
    response_ok: bool,
    created: Option<(i64, u32)>,
    resolved: Option<Option<(i64, u32)>>,
) -> (r: Result<InterruptRecord, RowError>)
    ensures
        r is Ok <==> interrupt_row_error(row, payload_ok, response_ok, created, resolved) is None,
        r matches Err(e) ==> interrupt_row_error(row, payload_ok, response_ok, created, resolved) == Some(e),
        r matches Ok(x) ==> interrupt_decoded(x, row, created, resolved),
{
    if row.payload.is_some() && !payload_ok {
        return Err(RowError { column: PAYLOAD_COLUMN, kind: RowErrorKind::BadJson });
    }
    if row.response.is_some() && !response_ok {
        return Err(RowError { column: RESPONSE_COLUMN, kind: RowErrorKind::BadJson });
    }
    let resolved_at = match resolved {
        None => None,
        Some(Some(t)) => Some(Timestamp { secs: t.0, nanos: t.1 }),
        Some(None) => {
            return Err(RowError { column: RESOLVED_COLUMN, kind: RowErrorKind::BadTimestamp });
        },
    };
    let created_at = match created {
        Some(c) => Timestamp { secs: c.0, nanos: c.1 },
        None => {
            return Err(RowError { column: INTERRUPT_CREATED_COLUMN, kind: RowErrorKind::BadTimestamp });
        },
    };
    let kind = InterruptKind::from_text(row.interrupt_type.as_str());
    let status = InterruptStatus::from_text(row.status.as_str());
    Ok(InterruptRecord {
        id: row.id,
        agent_id: row.agent_id,
        checkpoint_id: row.checkpoint_id,
        kind,
        payload: row.payload,
        status,
        response: row.response,
        question_hash: row.question_hash,
        ask_count: row.ask_count,
        created_at,
        resolved_at,
    })
}

/// Decode an interrupt_requests row: unknown types read as drain, unknown
/// statuses as pending; the payload and the response, where present, must
/// be JSON, and the timestamps RFC 3339.
pub fn decode_interrupt_row(row: InterruptRow) -> (r: Result<InterruptRecord, RowError>)
    ensures
        ({
            let payload_ok = json_column_ok(row.payload);
            let response_ok = json_column_ok(row.response);
            let created = rfc3339_instant(row.created_at@);
            let resolved = parsed_resolved(row.resolved_at);
            &&& r is Ok <==> interrupt_row_error(row, payload_ok, response_ok, created, resolved) is None
            &&& r matches Err(e) ==> interrupt_row_error(row, payload_ok, response_ok, created, resolved) == Some(e)
            &&& r matches Ok(x) ==> interrupt_decoded(x, row, created, resolved)
        }),
{
    let payload_ok = match &row.payload {
        Some(p) => is_json(p.as_str()),
        None => true,
    };
    let response_ok = match &row.response {
        Some(p) => is_json(p.as_str()),
        None => true,
    };
    let created = parse_rfc3339(row.created_at.as_str());
    let resolved = match &row.resolved_at {
        Some(t) => Some(parse_rfc3339(t.as_str())),
        None => None,
    };
    interrupt_from_parts(row, payload_ok, response_ok, created, resolved)
}

} // verus!
