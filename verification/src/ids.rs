//! Identifiers of the runtime's entities, held as the 128-bit value of their UUID.

use vstd::prelude::*;

verus! {

#[derive(Debug, Clone, Copy, PartialEq, Eq, Hash, Structural)]
pub struct AgentId(pub u128);

#[derive(Debug, Clone, Copy, PartialEq, Eq, Hash, Structural)]
pub struct ObjectiveId(pub u128);

#[derive(Debug, Clone, Copy, PartialEq, Eq, Hash, Structural)]
pub struct CheckpointId(pub u128);

#[derive(Debug, Clone, Copy, PartialEq, Eq, Hash, Structural)]
pub struct CheckpointVersion(pub u64);

#[derive(Debug, Clone, Copy, PartialEq, Eq, Hash, Structural)]
pub struct InterruptId(pub u128);

#[derive(Debug, Clone, Copy, PartialEq, Eq, Hash, Structural)]
pub struct EventId(pub u128);

} // verus!
