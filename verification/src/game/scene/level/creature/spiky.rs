//! Small clueless creature that wanders back and forth on the ground
use vstd::prelude::*;

use crate::game::utility::direction::Direction;

verus! {

/// Health of a Spiky
pub const SPIKY_HEALTH: u32 = 30;

/// Damage a Spiky deals
pub const SPIKY_DAMAGE: u32 = 10;

/// Small clueless creature that wanders back and forth on the ground
pub struct Spiky;

/// Check that a Spiky starts out walking left or right
pub fn check_spiky_direction(initial_direction: Direction) -> (checked: Result<(), String>)
    ensures
        checked is Ok <==> (initial_direction == Direction::Left || initial_direction
            == Direction::Right),
        checked matches Err(message) ==> message@
            == "Spiky must be initialized with a horizontal direction"@,
{
    if initial_direction != Direction::Left && initial_direction != Direction::Right {
        return Err(String::from_str("Spiky must be initialized with a horizontal direction"));
    }
    Ok(())
}

/// Whether a walking Spiky turns around: it turns at a wall in front of it and again where the
/// floor in front of it ends, so at a wall over a drop it keeps going
pub fn spiky_turns(wall_ahead: bool, floor_ahead: bool) -> (turns: bool)
    ensures
        turns == (wall_ahead == floor_ahead),
{
    let mut turns = false;
    if wall_ahead {
        turns = !turns;
    }
    if !floor_ahead {
        turns = !turns;
    }
    turns
}

} // verus!
