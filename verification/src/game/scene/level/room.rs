//! Rooms of the level
use vstd::prelude::*;

pub mod collision;
pub mod meta;
pub mod room;

verus! {

/// Mark the entity of the room the player is in
#[derive(Debug, Clone, Default)]
pub struct ActiveRoom;

} // verus!
