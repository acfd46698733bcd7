//! Small irritable flying creature that follows the player when close enough
use vstd::prelude::*;

verus! {

/// Buzz state
#[derive(Debug, Copy, Clone, PartialEq, Eq, Structural)]
pub enum BuzzState {
    /// the Buzz will float about idly within the room
    Idle,
    /// the Buzz will follow the player
    Follow,
}

impl Default for BuzzState {
    fn default() -> (state: Self)
        ensures
            state == BuzzState::Idle,
    {
        BuzzState::Idle
    }
}

/// The next state of a Buzz: an idle Buzz starts following once the player is within the
/// follow radius, a following Buzz gives up once the player is beyond the forget radius, and
/// otherwise the state stays
pub open spec fn next_buzz_state(state: BuzzState, within_follow_radius: bool, beyond_forget_radius: bool) -> BuzzState {
    if state == BuzzState::Idle && within_follow_radius {
        BuzzState::Follow
    } else if state == BuzzState::Follow && beyond_forget_radius {
        BuzzState::Idle
    } else {
        state
    }
}

impl BuzzState {
    /// Update the Buzz state from how far the player is: whether the distance is below the
    /// follow radius and whether it is above the forget radius
    pub fn update(&mut self, within_follow_radius: bool, beyond_forget_radius: bool) -> (state: Self)
        ensures
            *final(self) == next_buzz_state(*old(self), within_follow_radius, beyond_forget_radius),
            state == *final(self),
    {
        if *self == BuzzState::Idle && within_follow_radius {
            *self = BuzzState::Follow;
        } else if *self == BuzzState::Follow && beyond_forget_radius {
            *self = BuzzState::Idle;
        }
        *self
    }
}

/// Buzz component
pub struct Buzz(pub BuzzState);

/// An idle Buzz starts following exactly when the player comes within the follow radius; a
/// following Buzz gives up exactly when the player goes beyond the forget radius
pub proof fn lemma_buzz_moves(within_follow_radius: bool, beyond_forget_radius: bool)
    ensures
        (next_buzz_state(BuzzState::Idle, within_follow_radius, beyond_forget_radius)
            == BuzzState::Follow) <==> within_follow_radius,
        (next_buzz_state(BuzzState::Follow, within_follow_radius, beyond_forget_radius)
            == BuzzState::Idle) <==> beyond_forget_radius,
{
}

} // verus!
