//! Entity handles of the ECS world
use vstd::prelude::*;

verus! {

/// A handle to an entity of the ECS world; opaque here, carried through as it is
#[verifier::external_type_specification]
#[verifier::external_body]
pub struct ExEntity(hecs::Entity);

} // verus!
