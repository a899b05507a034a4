use vstd::prelude::*;

verus! {

/// Identifies an entity of a running world; two ids are equal when their numbers are.
#[derive(Debug, Clone, Copy, PartialEq, Eq, Hash, Structural)]
pub struct EntityId(pub u64);

} // verus!
