//! The checkpoints table: how a stored checkpoint row is decoded.

use vstd::prelude::*;
use crate::agent_record::{Timestamp, RowError, RowErrorKind, rfc3339_instant, instant, parse_rfc3339};
use crate::ids::{AgentId, CheckpointId};
use crate::json::{column_ok, json_column_ok, json_parses, is_json};

verus! {

/// The columns of a checkpoints row, as SQLite hands them out.
#[derive(Debug)]
pub struct CheckpointRow {
    pub id: CheckpointId,
    pub agent_id: AgentId,
    pub parent_id: Option<CheckpointId>,
    pub branch_label: Option<String>,
    pub channels: String,
    pub l2_namespace: String,
    pub interrupt: Option<String>,
    pub created_at: String,
}

/// A checkpoint as the store returns it. The channels and the interrupt
/// are kept as the JSON text stored.
#[derive(Debug)]
pub struct CheckpointRecord {
    pub id: CheckpointId,
    pub agent_id: AgentId,
    pub parent_id: Option<CheckpointId>,
    pub branch_label: Option<String>,
    pub channels: String,
    pub l2_namespace: String,
    pub interrupt: Option<String>,
    pub created_at: Timestamp,
}

/// Column of `channels`.
pub const CHANNELS_COLUMN: usize = 4;
/// Column of `interrupt`.
pub const CHECKPOINT_INTERRUPT_COLUMN: usize = 6;
/// Column of `created_at`.
pub const CHECKPOINT_CREATED_COLUMN: usize = 7;

/// The first column of a checkpoint row that fails to decode, given what
/// the parsers said of it: the channels, the interrupt, then the creation
/// time.
pub open spec fn checkpoint_row_error(
    row: CheckpointRow,
    channels_ok: bool,
    interrupt_ok: bool,
    created: Option<(i64, u32)>,
) -> Option<RowError> {
    if !channels_ok {
        Some(RowError { column: CHANNELS_COLUMN, kind: RowErrorKind::BadJson })
    } else if !column_ok(row.interrupt is Some, interrupt_ok) {
        Some(RowError { column: CHECKPOINT_INTERRUPT_COLUMN, kind: RowErrorKind::BadJson })
    } else if created is None {
        Some(RowError { column: CHECKPOINT_CREATED_COLUMN, kind: RowErrorKind::BadTimestamp })
    } else {
        None
    }
}

/// `c` is `row` decoded, given its parsed creation time.
pub open spec fn checkpoint_decoded(c: CheckpointRecord, row: CheckpointRow, created: Option<(i64, u32)>) -> bool {
    &&& created matches Some(t) && c.created_at == instant(t)
    &&& c.id == row.id
    &&& c.agent_id == row.agent_id
    &&& c.parent_id == row.parent_id
    &&& c.branch_label == row.branch_label
    &&& c.channels == row.channels
    &&& c.l2_namespace == row.l2_namespace
    &&& c.interrupt == row.interrupt
}

/// Decode a checkpoint row given what the parsers said of its columns.
pub fn checkpoint_from_parts(
    row: CheckpointRow,
    channels_ok: bool,
    interrupt_ok: bool,
    created: Option<(i64, u32)>,
) -> (r: Result<CheckpointRecord, RowError>)
    ensures
        r is Ok <==> checkpoint_row_error(row, channels_ok, interrupt_ok, created) is None,
        r matches Err(e) ==> checkpoint_row_error(row, channels_ok, interrupt_ok, created) == Some(e),
        r matches Ok(c) ==> checkpoint_decoded(c, row, created),
{
    if !channels_ok {
        return Err(RowError { column: CHANNELS_COLUMN, kind: RowErrorKind::BadJson });
    }
    if row.interrupt.is_some() && !interrupt_ok {
        return Err(RowError { column: CHECKPOINT_INTERRUPT_COLUMN, kind: RowErrorKind::BadJson });
    }
    let created_at = match created {
        Some(t) => Timestamp { secs: t.0, nanos: t.1 },
        None => {
            return Err(RowError { column: CHECKPOINT_CREATED_COLUMN, kind: RowErrorKind::BadTimestamp });
        },
    };
    Ok(CheckpointRecord {
        id: row.id,
        agent_id: row.agent_id,
        parent_id: row.parent_id,
        branch_label: row.branch_label,
        channels: row.channels,
        l2_namespace: row.l2_namespace,
        interrupt: row.interrupt,
        created_at,
    })
}

/// Decode a checkpoints row: the channels and the interrupt, where present,
/// must be JSON and the creation time RFC 3339.
pub fn decode_checkpoint_row(row: CheckpointRow) -> (r: Result<CheckpointRecord, RowError>)
    ensures
        ({
            let channels_ok = json_parses(row.channels@);
            let interrupt_ok = json_column_ok(row.interrupt);
            let created = rfc3339_instant(row.created_at@);
            &&& r is Ok <==> checkpoint_row_error(row, channels_ok, interrupt_ok, created) is None
            &&& r matches Err(e) ==> checkpoint_row_error(row, channels_ok, interrupt_ok, created) == Some(e)
            &&& r matches Ok(c) ==> checkpoint_decoded(c, row, created)
        }),
{
    let channels_ok = is_json(row.channels.as_str());
    let interrupt_ok = match &row.interrupt {
        Some(s) => is_json(s.as_str()),
        None => true,
    };
    let created = parse_rfc3339(row.created_at.as_str());
    checkpoint_from_parts(row, channels_ok, interrupt_ok, created)
}

} // verus!
