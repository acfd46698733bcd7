//! Collision of entities with room tiles
use vstd::prelude::*;

verus! {

/// Maximum number of collision resolution attempts before giving up on an entity
pub const MAX_COLLISION_PHASES: u32 = 10;

/// Entities with this component will collide with room tiles and be resolved
#[derive(Default)]
pub struct RoomCollision;

/// Whether a shot breaks the tile it hits: rockets break strong and soft tiles, bullets break
/// soft tiles
pub open spec fn spec_shot_breaks_tile(strong: bool, soft: bool, bullet: bool, rocket: bool) -> bool {
    (strong && rocket) || (soft && (rocket || bullet))
}

/// Check whether an entity that is a bullet or a rocket breaks a strong or soft tile it hits
pub fn shot_breaks_tile(strong: bool, soft: bool, bullet: bool, rocket: bool) -> (breaks: bool)
    ensures
        breaks == spec_shot_breaks_tile(strong, soft, bullet, rocket),
{
    strong && rocket || (soft && (rocket || bullet))
}

} // verus!
