//! Flat flying creature that moves horizontally and switches direction when colliding with walls
use vstd::prelude::*;

use crate::game::utility::direction::Direction;

verus! {

/// Health of a Ripper
pub const RIPPER_HEALTH: u32 = 30;

/// Damage a Ripper deals
pub const RIPPER_DAMAGE: u32 = 10;

/// Check that a Ripper starts out flying left or right
pub fn check_ripper_direction(initial_direction: Direction) -> (checked: Result<(), String>)
    ensures
        checked is Ok <==> (initial_direction == Direction::Left || initial_direction
            == Direction::Right),
        checked matches Err(message) ==> message@
            == "Ripper must be initialized with a horizontal direction"@,
{
    if initial_direction != Direction::Left && initial_direction != Direction::Right {
        return Err(String::from_str("Ripper must be initialized with a horizontal direction"));
    }
    Ok(())
}

} // verus!
