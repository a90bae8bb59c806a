//! The agents table: how an agent's spawn origin is stored in three
//! columns, and how a row read back is decoded into an agent record.

use vstd::prelude::*;
use crate::agent::{AgentState, Directive, state_of_text, directive_of_text};
use crate::ids::{AgentId, ObjectiveId, CheckpointId};
use crate::text::{str_equal, opt_view};
use crate::json::{JsonReading, json_reading, read_json};

verus! {

/// Who spawned an agent.
#[derive(Debug, Clone, Copy, PartialEq, Eq, Structural)]
pub enum SpawnOrigin {
    Operator,
    Agent(AgentId),
    Fork { source_agent_id: AgentId, source_checkpoint_id: CheckpointId },
}

/// A point in time: seconds since the Unix epoch and the nanoseconds past it.
#[derive(Debug, Clone, Copy, PartialEq, Eq, Structural)]
pub struct Timestamp {
    pub secs: i64,
    pub nanos: u32,
}

/// The columns of an agents row, as SQLite hands them out.
#[derive(Debug)]
pub struct AgentRow {
    pub id: AgentId,
    pub state: String,
    pub directory: String,
    pub objective_id: ObjectiveId,
    pub checkpoint_id: Option<CheckpointId>,
    pub spawned_by: Option<AgentId>,
    pub injected_message: Option<String>,
    pub created_at: String,
    pub updated_at: String,
    pub directive: Option<String>,
    pub session_id: Option<String>,
    pub spawn_origin_type: Option<String>,
    pub source_checkpoint_id: Option<String>,
    pub restore_checkpoint_id: Option<CheckpointId>,
    pub last_config_snapshot: Option<String>,
}

/// An agent as the store returns it.
#[derive(Debug)]
pub struct AgentRecord {
    pub id: AgentId,
    pub state: AgentState,
    pub directive: Directive,
    pub session_id: Option<String>,
    pub directory: String,
    pub objective_id: ObjectiveId,
    pub checkpoint_id: Option<CheckpointId>,
    pub restore_checkpoint_id: Option<CheckpointId>,
    pub origin: SpawnOrigin,
    pub injected_message: Option<String>,
    /// The configuration snapshot, as the JSON text stored; none when the
    /// column is NULL or holds the JSON `null`.
    pub last_config_snapshot: Option<String>,
    pub created_at: Timestamp,
    pub updated_at: Timestamp,
}

/// Why a row could not be decoded.
#[derive(Debug, Clone, Copy, PartialEq, Eq, Structural)]
pub enum RowErrorKind {
    ForkWithoutSpawner,
    ForkWithoutSourceCheckpoint,
    BadSourceCheckpoint,
    AgentWithoutSpawner,
    BadTimestamp,
    BadJson,
    BadId,
}

/// A column that could not be decoded, and why.
#[derive(Debug, Clone, Copy, PartialEq, Eq, Structural)]
pub struct RowError {
    pub column: usize,
    pub kind: RowErrorKind,
}

/// Column of `spawned_by`.
pub const SPAWNED_BY_COLUMN: usize = 5;
/// Column of `created_at`.
pub const CREATED_AT_COLUMN: usize = 7;
/// Column of `updated_at`.
pub const UPDATED_AT_COLUMN: usize = 8;
/// Column of `source_checkpoint_id`.
pub const SOURCE_CHECKPOINT_COLUMN: usize = 12;
/// Column of `last_config_snapshot`.
pub const SNAPSHOT_COLUMN: usize = 14;

/// The value `uuid::Uuid::parse_str` gives for this text, as 128 bits.
pub uninterp spec fn uuid_from_text(s: Seq<char>) -> Option<u128>;

/// The instant `chrono::DateTime::parse_from_rfc3339` gives for this text,
/// as seconds and nanoseconds since the epoch.
pub uninterp spec fn rfc3339_instant(s: Seq<char>) -> Option<(i64, u32)>;

/// Calls `uuid::Uuid::parse_str`. Claims only that the result, as 128 bits,
/// is a function of the text; what texts parse is not stated.
#[verifier::external_body]
pub(crate) fn parse_uuid(s: &str) -> (r: Option<u128>)
    ensures
        r == uuid_from_text(s@),
{
    uuid::Uuid::parse_str(s).ok().map(|u| u.as_u128())
}

/// Calls `chrono::DateTime::parse_from_rfc3339` and reads the instant back
/// with `timestamp` and `timestamp_subsec_nanos`. Claims only that the
/// result is a function of the text; what texts parse is not stated.
#[verifier::external_body]
pub(crate) fn parse_rfc3339(s: &str) -> (r: Option<(i64, u32)>)
    ensures
        r == rfc3339_instant(s@),
{
    chrono::DateTime::parse_from_rfc3339(s).ok().map(|d| (d.timestamp(), d.timestamp_subsec_nanos()))
}

/// The stored origin type of an origin.
pub open spec fn origin_type_text(o: SpawnOrigin) -> Seq<char> {
    match o {
        SpawnOrigin::Operator => "operator"@,
        SpawnOrigin::Agent(_) => "agent"@,
        SpawnOrigin::Fork { .. } => "fork"@,
    }
}

/// The `spawned_by` column of an origin.
pub open spec fn origin_spawner(o: SpawnOrigin) -> Option<AgentId> {
    match o {
        SpawnOrigin::Operator => None,
        SpawnOrigin::Agent(a) => Some(a),
        SpawnOrigin::Fork { source_agent_id, .. } => Some(source_agent_id),
    }
}

/// The `source_checkpoint_id` column of an origin.
pub open spec fn origin_source(o: SpawnOrigin) -> Option<CheckpointId> {
    match o {
        SpawnOrigin::Fork { source_checkpoint_id, .. } => Some(source_checkpoint_id),
        _ => None,
    }
}

/// The origin of a row, given its origin type, its `spawned_by` column and
/// the source checkpoint column already parsed (`None`: the column is
/// NULL; `Some(None)`: it holds no UUID). A missing type means the operator;
/// an unknown type too.
pub open spec fn spec_origin(
    origin_type: Option<Seq<char>>,
    spawned_by: Option<AgentId>,
    source: Option<Option<u128>>,
) -> Result<SpawnOrigin, RowError> {
    match origin_type {
        None => Ok(SpawnOrigin::Operator),
        Some(t) => if t == "fork"@ {
            match spawned_by {
                None => Err(RowError { column: SPAWNED_BY_COLUMN, kind: RowErrorKind::ForkWithoutSpawner }),
                Some(a) => match source {
                    None => Err(RowError { column: SOURCE_CHECKPOINT_COLUMN, kind: RowErrorKind::ForkWithoutSourceCheckpoint }),
                    Some(None) => Err(RowError { column: SOURCE_CHECKPOINT_COLUMN, kind: RowErrorKind::BadSourceCheckpoint }),
                    Some(Some(c)) => Ok(SpawnOrigin::Fork { source_agent_id: a, source_checkpoint_id: CheckpointId(c) }),
                },
            }
        } else if t == "agent"@ {
            match spawned_by {
                Some(a) => Ok(SpawnOrigin::Agent(a)),
                None => Err(RowError { column: SPAWNED_BY_COLUMN, kind: RowErrorKind::AgentWithoutSpawner }),
            }
        } else {
            Ok(SpawnOrigin::Operator)
        },
    }
}

/// A stored source checkpoint column, parsed.
pub open spec fn parsed_source(source: Option<String>) -> Option<Option<u128>> {
    match source {
        Some(s) => Some(uuid_from_text(s@)),
        None => None,
    }
}

/// A stored state; unknown text reads as failed.
pub open spec fn stored_state(s: Seq<char>) -> AgentState {
    match state_of_text(s) {
        Some(st) => st,
        None => AgentState::Failed,
    }
}

/// A stored directive; NULL or unknown text reads as continue.
pub open spec fn stored_directive(d: Option<String>) -> Directive {
    match d {
        Some(t) => match directive_of_text(t@) {
            Some(x) => x,
            None => Directive::Continue,
        },
        None => Directive::Continue,
    }
}

pub open spec fn instant(p: (i64, u32)) -> Timestamp {
    Timestamp { secs: p.0, nanos: p.1 }
}

/// The first column of `row` that fails to decode, given what its
/// configuration snapshot reads as and its parsed source checkpoint and
/// timestamps: the snapshot first, then the origin, then `created_at`, then
/// `updated_at`.
pub open spec fn row_error(
    row: AgentRow,
    snapshot: JsonReading,
    source: Option<Option<u128>>,
    created: Option<(i64, u32)>,
    updated: Option<(i64, u32)>,
) -> Option<RowError> {
    if row.last_config_snapshot is Some && snapshot is Invalid {
        Some(RowError { column: SNAPSHOT_COLUMN, kind: RowErrorKind::BadJson })
    } else {
        match spec_origin(opt_view(row.spawn_origin_type), row.spawned_by, source) {
            Err(e) => Some(e),
            Ok(_) => if created is None {
                Some(RowError { column: CREATED_AT_COLUMN, kind: RowErrorKind::BadTimestamp })
            } else if updated is None {
                Some(RowError { column: UPDATED_AT_COLUMN, kind: RowErrorKind::BadTimestamp })
            } else {
                None
            },
        }
    }
}

/// The stored snapshot column as the record holds it, given what its text
/// reads as: the JSON `null` reads as no snapshot.
pub open spec fn stored_snapshot(col: Option<String>, reading: JsonReading) -> Option<String> {
    match col {
        Some(s) => if reading is Null { None } else { Some(s) },
        None => None,
    }
}

/// `a` is `row` decoded, given what its snapshot text reads as and its
/// parsed source checkpoint and timestamps.
pub open spec fn decoded(
    a: AgentRecord,
    row: AgentRow,
    snapshot: JsonReading,
    source: Option<Option<u128>>,
    created: Option<(i64, u32)>,
    updated: Option<(i64, u32)>,
) -> bool {
    &&& spec_origin(opt_view(row.spawn_origin_type), row.spawned_by, source) == Ok::<SpawnOrigin, RowError>(a.origin)
    &&& created matches Some(c) && a.created_at == instant(c)
    &&& updated matches Some(u) && a.updated_at == instant(u)
    &&& a.id == row.id
    &&& a.state == stored_state(row.state@)
    &&& a.directive == stored_directive(row.directive)
    &&& a.session_id == row.session_id
    &&& a.directory == row.directory
    &&& a.objective_id == row.objective_id
    &&& a.checkpoint_id == row.checkpoint_id
    &&& a.restore_checkpoint_id == row.restore_checkpoint_id
    &&& a.injected_message == row.injected_message
    &&& a.last_config_snapshot == stored_snapshot(row.last_config_snapshot, snapshot)
}

/// The three columns an origin is stored in: its type, `spawned_by` and
/// `source_checkpoint_id`.
pub fn origin_columns(o: &SpawnOrigin) -> (r: (&'static str, Option<AgentId>, Option<CheckpointId>))
    ensures
        r.0@ == origin_type_text(*o),
        r.1 == origin_spawner(*o),
        r.2 == origin_source(*o),
{
    match o {
        SpawnOrigin::Operator => ("operator", None, None),
        SpawnOrigin::Agent(id) => ("agent", Some(*id), None),
        SpawnOrigin::Fork { source_agent_id, source_checkpoint_id } =>
            ("fork", Some(*source_agent_id), Some(*source_checkpoint_id)),
    }
}

/// The origin of a row from its origin type, its `spawned_by` column and
/// its source checkpoint column already parsed.
pub fn origin_from_parts(
    origin_type: &Option<String>,
    spawned_by: Option<AgentId>,
    source: Option<Option<u128>>,
) -> (r: Result<SpawnOrigin, RowError>)
    ensures
        r == spec_origin(opt_view(*origin_type), spawned_by, source),
{
    match origin_type {
        None => Ok(SpawnOrigin::Operator),
        Some(t) => {
            if str_equal(t.as_str(), "fork") {
                match spawned_by {
                    None => Err(RowError { column: SPAWNED_BY_COLUMN, kind: RowErrorKind::ForkWithoutSpawner }),
                    Some(a) => match source {
                        None => Err(RowError {
                            column: SOURCE_CHECKPOINT_COLUMN,
                            kind: RowErrorKind::ForkWithoutSourceCheckpoint,
                        }),
                        Some(None) => Err(RowError {
                            column: SOURCE_CHECKPOINT_COLUMN,
                            kind: RowErrorKind::BadSourceCheckpoint,
                        }),
                        Some(Some(c)) => Ok(SpawnOrigin::Fork {
                            source_agent_id: a,
                            source_checkpoint_id: CheckpointId(c),
                        }),
                    },
                }
            } else if str_equal(t.as_str(), "agent") {
                match spawned_by {
                    Some(a) => Ok(SpawnOrigin::Agent(a)),
                    None => Err(RowError { column: SPAWNED_BY_COLUMN, kind: RowErrorKind::AgentWithoutSpawner }),
                }
            } else {
                Ok(SpawnOrigin::Operator)
            }
        },
    }
}

/// The origin of a row, parsing its source checkpoint column as a UUID.
pub fn decode_origin(
    origin_type: &Option<String>,
    spawned_by: Option<AgentId>,
    source: &Option<String>,
) -> (r: Result<SpawnOrigin, RowError>)
    ensures
        r == spec_origin(opt_view(*origin_type), spawned_by, parsed_source(*source)),
{
    let parsed = match source {
        Some(s) => Some(parse_uuid(s.as_str())),
        None => None,
    };
    origin_from_parts(origin_type, spawned_by, parsed)
}

/// Decode a row given what its configuration snapshot reads as and its
/// source checkpoint and timestamps already parsed.
pub fn agent_from_parts(
    row: AgentRow,
    snapshot: JsonReading,
    source: Option<Option<u128>>,
    created: Option<(i64, u32)>,
    updated: Option<(i64, u32)>,
) -> (r: Result<AgentRecord, RowError>)
    ensures
        r is Ok <==> row_error(row, snapshot, source, created, updated) is None,
        r matches Err(e) ==> row_error(row, snapshot, source, created, updated) == Some(e),
        r matches Ok(a) ==> decoded(a, row, snapshot, source, created, updated),
{
    if row.last_config_snapshot.is_some() && snapshot == JsonReading::Invalid {
        return Err(RowError { column: SNAPSHOT_COLUMN, kind: RowErrorKind::BadJson });
    }
    let origin = match origin_from_parts(&row.spawn_origin_type, row.spawned_by, source) {
        Ok(o) => o,
        Err(e) => {
            return Err(e);
        },
    };
    let created_at = match created {
        Some(c) => Timestamp { secs: c.0, nanos: c.1 },
        None => {
            return Err(RowError { column: CREATED_AT_COLUMN, kind: RowErrorKind::BadTimestamp });
        },
    };
    let updated_at = match updated {
        Some(u) => Timestamp { secs: u.0, nanos: u.1 },
        None => {
            return Err(RowError { column: UPDATED_AT_COLUMN, kind: RowErrorKind::BadTimestamp });
        },
    };
    let state = match AgentState::parse(row.state.as_str()) {
        Some(st) => st,
        None => AgentState::Failed,
    };
    let directive = match &row.directive {
        Some(d) => match Directive::parse(d.as_str()) {
            Some(x) => x,
            None => Directive::Continue,
        },
        None => Directive::Continue,
    };
    Ok(AgentRecord {
        id: row.id,
        state,
        directive,
        session_id: row.session_id,
        directory: row.directory,
        objective_id: row.objective_id,
        checkpoint_id: row.checkpoint_id,
        restore_checkpoint_id: row.restore_checkpoint_id,
        origin,
        injected_message: row.injected_message,
        last_config_snapshot: if snapshot == JsonReading::Null { None } else { row.last_config_snapshot },
        created_at,
        updated_at,
    })
}

/// Decode an agents row: unknown states read as failed, a missing or
/// unknown directive as continue, a missing origin type as the operator;
/// the configuration snapshot, where present, must be JSON (`null` reads
/// as no snapshot), the source
/// checkpoint a UUID and the timestamps RFC 3339.
pub fn decode_agent_row(row: AgentRow) -> (r: Result<AgentRecord, RowError>)
    ensures
        ({
            let snapshot = match row.last_config_snapshot {
                Some(s) => json_reading(s@),
                None => JsonReading::Value,
            };
            let source = parsed_source(row.source_checkpoint_id);
            let created = rfc3339_instant(row.created_at@);
            let updated = rfc3339_instant(row.updated_at@);
            &&& r is Ok <==> row_error(row, snapshot, source, created, updated) is None
            &&& r matches Err(e) ==> row_error(row, snapshot, source, created, updated) == Some(e)
            &&& r matches Ok(a) ==> decoded(a, row, snapshot, source, created, updated)
        }),
{
    let snapshot = match &row.last_config_snapshot {
        Some(s) => read_json(s.as_str()),
        None => JsonReading::Value,
    };
    let source = match &row.source_checkpoint_id {
        Some(s) => Some(parse_uuid(s.as_str())),
        None => None,
    };
    let created = parse_rfc3339(row.created_at.as_str());
    let updated = parse_rfc3339(row.updated_at.as_str());
    agent_from_parts(row, snapshot, source, created, updated)
}

/// Storing an origin in its three columns and reading them back gives the
/// origin again (the source checkpoint read back as the UUID it was
/// written as).
pub proof fn lemma_origin_columns_round_trip(o: SpawnOrigin)
    ensures
        spec_origin(
            Some(origin_type_text(o)),
            origin_spawner(o),
            match origin_source(o) {
                Some(c) => Some(Some(c.0)),
                None => None,
            },
        ) == Ok::<SpawnOrigin, RowError>(o),
{
    reveal_strlit("operator");
    reveal_strlit("agent");
    reveal_strlit("fork");
    match o {
        SpawnOrigin::Operator => {
            assert("operator"@[0] != "fork"@[0]);
            assert("operator"@[0] != "agent"@[0]);
        },
        SpawnOrigin::Agent(_) => {
            assert("agent"@[0] != "fork"@[0]);
        },
        SpawnOrigin::Fork { .. } => {},
    }
}

} // verus!
