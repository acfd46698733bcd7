use vstd::prelude::*;

verus! {

/// *Fragile* entities should be destroyed on collision
#[derive(Debug, Clone, Copy)]
pub struct Fragile;

} // verus!
