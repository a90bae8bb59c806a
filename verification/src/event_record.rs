//! The domain_events, aggregate_snapshots and events tables: how a stored
//! domain event is decoded into an envelope, a stored snapshot into its
//! record, and a stored MCP event into its record.

use vstd::prelude::*;
use crate::agent_record::{
    Timestamp, RowError, RowErrorKind, rfc3339_instant, instant, parse_rfc3339, uuid_from_text, parse_uuid,
};
use crate::ids::{AgentId, EventId, ObjectiveId};
use crate::json::{json_parses, is_json};

verus! {

/// The columns of a domain_events row, as SQLite hands them out.
#[derive(Debug)]
pub struct EventRow {
    pub id: String,
    pub aggregate_type: String,
    pub aggregate_id: String,
    pub sequence: i64,
    pub event_type: String,
    pub payload: String,
    pub trace_id: String,
    pub outcome: String,
    pub timestamp: String,
    pub context_snapshot: String,
    pub metadata: String,
}

/// A stored event as the store returns it. The JSON columns are kept as
/// the JSON text stored.
#[derive(Debug, Clone)]
pub struct EventRecord {
    pub id: EventId,
    pub aggregate_type: String,
    pub aggregate_id: String,
    pub sequence: u64,
    pub event_type: String,
    pub payload: String,
    pub trace_id: String,
    pub outcome: String,
    pub timestamp: Timestamp,
    pub context_snapshot: String,
    pub metadata: String,
}

/// The column every identifier and JSON failure of an event row is
/// reported against.
pub const EVENT_ROW_COLUMN: usize = 0;
/// Column of `timestamp`.
pub const EVENT_TIMESTAMP_COLUMN: usize = 8;

/// What the parsers said of an event row's columns.
pub struct EventParse {
    pub id: Option<u128>,
    pub payload_ok: bool,
    pub outcome_ok: bool,
    pub context_ok: bool,
    pub metadata_ok: bool,
    pub timestamp: Option<(i64, u32)>,
}

/// The parsers' verdicts on `row`.
pub open spec fn event_parse_of(row: EventRow) -> EventParse {
    EventParse {
        id: uuid_from_text(row.id@),
        payload_ok: json_parses(row.payload@),
        outcome_ok: json_parses(row.outcome@),
        context_ok: json_parses(row.context_snapshot@),
        metadata_ok: json_parses(row.metadata@),
        timestamp: rfc3339_instant(row.timestamp@),
    }
}

/// The first failure among an event row's columns: the identifier, the
/// payload, the outcome, the context snapshot, the metadata, then the
/// timestamp.
pub open spec fn event_row_error(p: EventParse) -> Option<RowError> {
    if p.id is None {
        Some(RowError { column: EVENT_ROW_COLUMN, kind: RowErrorKind::BadId })
    } else if !p.payload_ok || !p.outcome_ok || !p.context_ok || !p.metadata_ok {
        Some(RowError { column: EVENT_ROW_COLUMN, kind: RowErrorKind::BadJson })
    } else if p.timestamp is None {
        Some(RowError { column: EVENT_TIMESTAMP_COLUMN, kind: RowErrorKind::BadTimestamp })
    } else {
        None
    }
}

/// `e` is `row` decoded, given the parsers' verdicts.
pub open spec fn event_decoded(e: EventRecord, row: EventRow, p: EventParse) -> bool {
    &&& p.id matches Some(id) && e.id == EventId(id)
    &&& p.timestamp matches Some(t) && e.timestamp == instant(t)
    &&& e.aggregate_type == row.aggregate_type
    &&& e.aggregate_id == row.aggregate_id
    &&& e.sequence == row.sequence as u64
    &&& e.event_type == row.event_type
    &&& e.payload == row.payload
    &&& e.trace_id == row.trace_id
    &&& e.outcome == row.outcome
    &&& e.context_snapshot == row.context_snapshot
    &&& e.metadata == row.metadata
}

/// Decode an event row given the parsers' verdicts on its columns.
pub fn event_from_parts(row: EventRow, p: EventParse) -> (r: Result<EventRecord, RowError>)
    ensures
        r is Ok <==> event_row_error(p) is None,
        r matches Err(e) ==> event_row_error(p) == Some(e),
        r matches Ok(e) ==> event_decoded(e, row, p),
{
    let id = match p.id {
        Some(v) => v,
        None => {
            return Err(RowError { column: EVENT_ROW_COLUMN, kind: RowErrorKind::BadId });
        },
    };
    if !p.payload_ok || !p.outcome_ok || !p.context_ok || !p.metadata_ok {
        return Err(RowError { column: EVENT_ROW_COLUMN, kind: RowErrorKind::BadJson });
    }
    let timestamp = match p.timestamp {
        Some(t) => Timestamp { secs: t.0, nanos: t.1 },
        None => {
            return Err(RowError { column: EVENT_TIMESTAMP_COLUMN, kind: RowErrorKind::BadTimestamp });
        },
    };
    Ok(EventRecord {
        id: EventId(id),
        aggregate_type: row.aggregate_type,
        aggregate_id: row.aggregate_id,
        sequence: row.sequence as u64,
        event_type: row.event_type,
        payload: row.payload,
        trace_id: row.trace_id,
        outcome: row.outcome,
        timestamp,
        context_snapshot: row.context_snapshot,
        metadata: row.metadata,
    })
}

/// Decode a domain_events row: the identifier must be a UUID, the payload,
/// outcome, context snapshot and metadata JSON, and the timestamp RFC 3339;
/// the stored sequence is read as unsigned.
pub fn decode_event_row(row: EventRow) -> (r: Result<EventRecord, RowError>)
    ensures
        r is Ok <==> event_row_error(event_parse_of(row)) is None,
        r matches Err(e) ==> event_row_error(event_parse_of(row)) == Some(e),
        r matches Ok(e) ==> event_decoded(e, row, event_parse_of(row)),
{
    let p = EventParse {
        id: parse_uuid(row.id.as_str()),
        payload_ok: is_json(row.payload.as_str()),
        outcome_ok: is_json(row.outcome.as_str()),
        context_ok: is_json(row.context_snapshot.as_str()),
        metadata_ok: is_json(row.metadata.as_str()),
        timestamp: parse_rfc3339(row.timestamp.as_str()),
    };
    event_from_parts(row, p)
}

/// The columns of an events row (an MCP event), as SQLite hands them out.
#[derive(Debug)]
pub struct McpEventRow {
    pub id: String,
    pub agent_id: AgentId,
    pub event_type: String,
    pub timestamp: String,
    pub content: String,
    pub objective_id: Option<ObjectiveId>,
}

/// An MCP event as the store returns it. The event type and content are
/// kept as the JSON text stored.
#[derive(Debug)]
pub struct McpEventRecord {
    pub id: u128,
    pub agent_id: AgentId,
    pub event_type: String,
    pub timestamp: Timestamp,
    pub content: String,
    pub objective_id: Option<ObjectiveId>,
}

/// Column of an MCP event's `timestamp`.
pub const MCP_TIMESTAMP_COLUMN: usize = 3;

/// The first failure among an MCP event row's columns, given what the
/// parsers said of them: the identifier, the event type, the timestamp,
/// then the content.
pub open spec fn mcp_row_error(
    id: Option<u128>,
    event_type_ok: bool,
    timestamp: Option<(i64, u32)>,
    content_ok: bool,
) -> Option<RowError> {
    if id is None {
        Some(RowError { column: EVENT_ROW_COLUMN, kind: RowErrorKind::BadId })
    } else if !event_type_ok {
        Some(RowError { column: EVENT_ROW_COLUMN, kind: RowErrorKind::BadJson })
    } else if timestamp is None {
        Some(RowError { column: MCP_TIMESTAMP_COLUMN, kind: RowErrorKind::BadTimestamp })
    } else if !content_ok {
        Some(RowError { column: EVENT_ROW_COLUMN, kind: RowErrorKind::BadJson })
    } else {
        None
    }
}

/// `e` is `row` decoded, given its parsed identifier and timestamp.
pub open spec fn mcp_decoded(e: McpEventRecord, row: McpEventRow, id: Option<u128>, timestamp: Option<(i64, u32)>) -> bool {
    &&& id == Some(e.id)
    &&& timestamp matches Some(t) && e.timestamp == instant(t)
    &&& e.agent_id == row.agent_id
    &&& e.event_type == row.event_type
    &&& e.content == row.content
    &&& e.objective_id == row.objective_id
}

/// Decode an MCP event row given what the parsers said of its columns.
pub fn mcp_event_from_parts(
    row: McpEventRow,
    id: Option<u128>,
    event_type_ok: bool,
    timestamp: Option<(i64, u32)>,
    content_ok: bool,
) -> (r: Result<McpEventRecord, RowError>)
    ensures
        r is Ok <==> mcp_row_error(id, event_type_ok, timestamp, content_ok) is None,
        r matches Err(e) ==> mcp_row_error(id, event_type_ok, timestamp, content_ok) == Some(e),
        r matches Ok(e) ==> mcp_decoded(e, row, id, timestamp),
{
    let id = match id {
        Some(v) => v,
        None => {
            return Err(RowError { column: EVENT_ROW_COLUMN, kind: RowErrorKind::BadId });
        },
    };
    if !event_type_ok {
        return Err(RowError { column: EVENT_ROW_COLUMN, kind: RowErrorKind::BadJson });
    }
    let timestamp = match timestamp {
        Some(t) => Timestamp { secs: t.0, nanos: t.1 },
        None => {
            return Err(RowError { column: MCP_TIMESTAMP_COLUMN, kind: RowErrorKind::BadTimestamp });
        },
    };
    if !content_ok {
        return Err(RowError { column: EVENT_ROW_COLUMN, kind: RowErrorKind::BadJson });
    }
    Ok(McpEventRecord {
        id,
        agent_id: row.agent_id,
        event_type: row.event_type,
        timestamp,
        content: row.content,
        objective_id: row.objective_id,
    })
}

/// Decode an events row: the identifier must be a UUID, the event type and
/// content JSON, and the timestamp RFC 3339.
pub fn decode_mcp_event_row(row: McpEventRow) -> (r: Result<McpEventRecord, RowError>)
    ensures
        ({
            let id = uuid_from_text(row.id@);
            let event_type_ok = json_parses(row.event_type@);
            let timestamp = rfc3339_instant(row.timestamp@);
            let content_ok = json_parses(row.content@);
            &&& r is Ok <==> mcp_row_error(id, event_type_ok, timestamp, content_ok) is None
            &&& r matches Err(e) ==> mcp_row_error(id, event_type_ok, timestamp, content_ok) == Some(e)
            &&& r matches Ok(e) ==> mcp_decoded(e, row, id, timestamp)
        }),
{
    let id = parse_uuid(row.id.as_str());
    let event_type_ok = is_json(row.event_type.as_str());
    let timestamp = parse_rfc3339(row.timestamp.as_str());
    let content_ok = is_json(row.content.as_str());
    mcp_event_from_parts(row, id, event_type_ok, timestamp, content_ok)
}

/// The columns of an aggregate_snapshots row, as SQLite hands them out.
#[derive(Debug)]
pub struct SnapshotRow {
    pub aggregate_type: String,
    pub aggregate_id: String,
    pub sequence: i64,
    pub state: String,
    pub timestamp: String,
}

/// A snapshot as the store returns it; the state is kept as the JSON text
/// stored.
#[derive(Debug)]
pub struct SnapshotRecord {
    pub aggregate_type: String,
    pub aggregate_id: String,
    pub sequence: u64,
    pub state: String,
    pub timestamp: Timestamp,
}

/// Column of a snapshot's `timestamp`.
pub const SNAPSHOT_TIMESTAMP_COLUMN: usize = 4;

/// The first failure of a snapshot row: its state, then its timestamp.
pub open spec fn snapshot_row_error(state_ok: bool, timestamp: Option<(i64, u32)>) -> Option<RowError> {
    if !state_ok {
        Some(RowError { column: EVENT_ROW_COLUMN, kind: RowErrorKind::BadJson })
    } else if timestamp is None {
        Some(RowError { column: SNAPSHOT_TIMESTAMP_COLUMN, kind: RowErrorKind::BadTimestamp })
    } else {
        None
    }
}

/// `s` is `row` decoded, given its parsed timestamp.
pub open spec fn snapshot_decoded(s: SnapshotRecord, row: SnapshotRow, timestamp: Option<(i64, u32)>) -> bool {
    &&& timestamp matches Some(t) && s.timestamp == instant(t)
    &&& s.aggregate_type == row.aggregate_type
    &&& s.aggregate_id == row.aggregate_id
    &&& s.sequence == row.sequence as u64
    &&& s.state == row.state
}

/// Decode a snapshot row given what the parsers said of its state and
/// timestamp.
pub fn snapshot_from_parts(row: SnapshotRow, state_ok: bool, timestamp: Option<(i64, u32)>) -> (r: Result<SnapshotRecord, RowError>)
    ensures
        r is Ok <==> snapshot_row_error(state_ok, timestamp) is None,
        r matches Err(e) ==> snapshot_row_error(state_ok, timestamp) == Some(e),
        r matches Ok(s) ==> snapshot_decoded(s, row, timestamp),
{
    if !state_ok {
        return Err(RowError { column: EVENT_ROW_COLUMN, kind: RowErrorKind::BadJson });
    }
    let timestamp = match timestamp {
        Some(t) => Timestamp { secs: t.0, nanos: t.1 },
        None => {
            return Err(RowError { column: SNAPSHOT_TIMESTAMP_COLUMN, kind: RowErrorKind::BadTimestamp });
        },
    };
    Ok(SnapshotRecord {
        aggregate_type: row.aggregate_type,
        aggregate_id: row.aggregate_id,
        sequence: row.sequence as u64,
        state: row.state,
        timestamp,
    })
}

/// Decode an aggregate_snapshots row: the state must be JSON and the
/// timestamp RFC 3339; the stored sequence is read as unsigned.
pub fn decode_snapshot_row(row: SnapshotRow) -> (r: Result<SnapshotRecord, RowError>)
    ensures
        r is Ok <==> snapshot_row_error(json_parses(row.state@), rfc3339_instant(row.timestamp@)) is None,
        r matches Err(e) ==> snapshot_row_error(json_parses(row.state@), rfc3339_instant(row.timestamp@)) == Some(e),
        r matches Ok(s) ==> snapshot_decoded(s, row, rfc3339_instant(row.timestamp@)),
{
    let state_ok = is_json(row.state.as_str());
    let timestamp = parse_rfc3339(row.timestamp.as_str());
    snapshot_from_parts(row, state_ok, timestamp)
}

} // verus!
