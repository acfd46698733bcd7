//! Large enemy that charges at the player on sight
use vstd::prelude::*;

use crate::game::utility::direction::Direction;

verus! {

/// Health of a Grunt
pub const GRUNT_HEALTH: u32 = 128;

/// Damage a Grunt deals while idle
pub const GRUNT_DAMAGE_IDLE: u32 = 15;

/// Damage a Grunt deals while charging
pub const GRUNT_DAMAGE_CHARGE: u32 = 25;

/// How long a charge lasts, in milliseconds
pub const GRUNT_CHARGE_TIME_MS: u64 = 1500;

/// How long an idle Grunt waits before it can charge, in milliseconds
pub const GRUNT_CHARGE_COOLDOWN_MS: u64 = 1000;

/// The shortest time an idle Grunt keeps its heading, in milliseconds
pub const GRUNT_TURN_COOLDOWN_MIN: u64 = 1000;

/// The longest time an idle Grunt keeps its heading, in milliseconds
pub const GRUNT_TURN_COOLDOWN_MAX: u64 = 5000;

/// The heading drawn at random for an idle Grunt: left, right, or standing still
pub open spec fn random_heading(pick: u32) -> Option<Direction> {
    if pick == 0 {
        Some(Direction::Left)
    } else if pick == 1 {
        Some(Direction::Right)
    } else {
        None
    }
}

/// Randomize the direction of the Grunt from a random `pick` among three
pub fn randomize_direction(pick: u32) -> (direction: Option<Direction>)
    requires
        pick < 3,
    ensures
        direction == random_heading(pick),
{
    match pick {
        0 => Some(Direction::Left),
        1 => Some(Direction::Right),
        _ => None,
    }
}

/// Compute the side a Grunt should face: towards the player
pub fn compute_side(player_left: bool) -> (side: Direction)
    ensures
        side == (if player_left {
            Direction::Left
        } else {
            Direction::Right
        }),
{
    if player_left {
        Direction::Left
    } else {
        Direction::Right
    }
}

/// Grunt state; each timer is given by the duration it runs for
#[derive(Debug, Copy, Clone, PartialEq, Eq, Structural)]
pub enum GruntState {
    /// The Grunt walks about, turning when its turn timer runs out
    Idle { direction: Option<Direction>, turn_timer_ms: u64, charge_cooldown_ms: u64 },
    /// The Grunt will charge in a direction for a time
    Charge { timer_ms: u64, direction: Direction },
}

/// What a Grunt senses in a frame
#[derive(Debug, Copy, Clone, PartialEq, Eq, Structural)]
pub struct GruntSense {
    /// The player is within the charge radius
    pub player_close: bool,
    /// The player is to the left of the Grunt
    pub player_left: bool,
    /// The charge cooldown of an idle Grunt has run out
    pub charge_cooldown_done: bool,
    /// The turn timer of an idle Grunt has run out
    pub turn_timer_done: bool,
    /// The charge of a charging Grunt is over
    pub charge_done: bool,
}

/// An idle state whose turn timer runs for `turn_timer_ms`
pub open spec fn idle_state(turn_timer_ms: u64) -> GruntState {
    GruntState::Idle {
        direction: None,
        turn_timer_ms,
        charge_cooldown_ms: GRUNT_CHARGE_COOLDOWN_MS,
    }
}

/// A charging state towards `direction`
pub open spec fn charge_state(direction: Direction) -> GruntState {
    GruntState::Charge { timer_ms: GRUNT_CHARGE_TIME_MS, direction }
}

/// The next state of a Grunt, given what it senses, the random `turn_pick` for a new heading
/// and the random duration `turn_timer_ms` for a new idle state; the flag tells whether the turn
/// timer restarts
pub open spec fn next_grunt_state(state: GruntState, sense: GruntSense, turn_pick: u32, turn_timer_ms: u64) -> (GruntState, bool) {
    match state {
        GruntState::Idle { direction, turn_timer_ms: turn, charge_cooldown_ms } => {
            if sense.charge_cooldown_done && sense.player_close {
                (
                    charge_state(
                        if sense.player_left {
                            Direction::Left
                        } else {
                            Direction::Right
                        },
                    ),
                    false,
                )
            } else if sense.turn_timer_done {
                (
                    GruntState::Idle {
                        direction: random_heading(turn_pick),
                        turn_timer_ms: turn,
                        charge_cooldown_ms,
                    },
                    true,
                )
            } else {
                (state, false)
            }
        },
        GruntState::Charge { .. } => {
            if sense.charge_done {
                (idle_state(turn_timer_ms), false)
            } else {
                (state, false)
            }
        },
    }
}

impl GruntState {
    /// Instantiate an idle state, whose turn timer runs for the random `turn_timer_ms`
    pub fn build_idle(turn_timer_ms: u64) -> (state: Self)
        requires
            GRUNT_TURN_COOLDOWN_MIN <= turn_timer_ms <= GRUNT_TURN_COOLDOWN_MAX,
        ensures
            state == idle_state(turn_timer_ms),
    {
        GruntState::Idle {
            direction: None,
            turn_timer_ms,
            charge_cooldown_ms: GRUNT_CHARGE_COOLDOWN_MS,
        }
    }

    /// Instantiate a charging state
    pub fn build_charge(direction: Direction) -> (state: Self)
        ensures
            state == charge_state(direction),
    {
        GruntState::Charge { timer_ms: GRUNT_CHARGE_TIME_MS, direction }
    }

    /// Update the state: an idle Grunt charges towards the player once its cooldown is over and
    /// the player is close, and otherwise turns to the random heading `turn_pick` when its turn
    /// timer runs out; a charging Grunt goes idle, with a turn timer of the random
    /// `turn_timer_ms`, when its charge is over. Returns the new state and whether the turn timer
    /// restarts.
    pub fn update(&mut self, sense: GruntSense, turn_pick: u32, turn_timer_ms: u64) -> (next: (Self, bool))
        requires
            turn_pick < 3,
            GRUNT_TURN_COOLDOWN_MIN <= turn_timer_ms <= GRUNT_TURN_COOLDOWN_MAX,
        ensures
            next == next_grunt_state(*old(self), sense, turn_pick, turn_timer_ms),
            *final(self) == next.0,
    {
        let mut restart = false;
        match *self {
            GruntState::Idle { direction: _, turn_timer_ms: turn, charge_cooldown_ms } => {
                if sense.charge_cooldown_done && sense.player_close {
                    *self = GruntState::build_charge(compute_side(sense.player_left));
                } else if sense.turn_timer_done {
                    restart = true;
                    *self = GruntState::Idle {
                        direction: randomize_direction(turn_pick),
                        turn_timer_ms: turn,
                        charge_cooldown_ms,
                    };
                }
            },
            GruntState::Charge { .. } => {
                if sense.charge_done {
                    *self = GruntState::build_idle(turn_timer_ms);
                }
            },
        }
        (*self, restart)
    }

    /// The damage a Grunt in this state deals
    pub fn damage(&self) -> (amount: u32)
        ensures
            amount == (if self is Charge {
                GRUNT_DAMAGE_CHARGE
            } else {
                GRUNT_DAMAGE_IDLE
            }),
    {
        match self {
            GruntState::Idle { .. } => GRUNT_DAMAGE_IDLE,
            GruntState::Charge { .. } => GRUNT_DAMAGE_CHARGE,
        }
    }

    /// The direction a Grunt in this state walks in, if any
    pub fn heading(&self) -> (direction: Option<Direction>)
        ensures
            direction == (match *self {
                GruntState::Idle { direction, .. } => direction,
                GruntState::Charge { direction, .. } => Some(direction),
            }),
    {
        match self {
            GruntState::Idle { direction, .. } => *direction,
            GruntState::Charge { direction, .. } => Some(*direction),
        }
    }
}

/// Grunt component
#[derive(Debug, Copy, Clone)]
pub struct Grunt(pub GruntState);

/// How a Grunt's state moves: it charges only from idle, only once its cooldown is over and the
/// player is close, towards the side the player is on, with the full charge time; an idle Grunt
/// that does not charge changes its heading only when its turn timer runs out, to the random
/// heading, and keeps its timers; a charging Grunt keeps charging until its charge is over and
/// then stands idle with a fresh turn timer
pub proof fn lemma_grunt_moves(state: GruntState, sense: GruntSense, turn_pick: u32, turn_timer_ms: u64)
    ensures
        ({
            let (next, restart) = next_grunt_state(state, sense, turn_pick, turn_timer_ms);
            &&& (next is Charge && state is Idle) ==> sense.charge_cooldown_done && sense.player_close
            &&& (state is Idle && sense.charge_cooldown_done && sense.player_close) ==> next == (
            GruntState::Charge {
                timer_ms: 1500,
                direction: if sense.player_left {
                    Direction::Left
                } else {
                    Direction::Right
                },
            })
            &&& restart ==> state is Idle && sense.turn_timer_done
            &&& (state is Idle && !(sense.charge_cooldown_done && sense.player_close)
                && sense.turn_timer_done)
                ==> next == (GruntState::Idle {
                direction: if turn_pick == 0 {
                    Some(Direction::Left)
                } else if turn_pick == 1 {
                    Some(Direction::Right)
                } else {
                    None
                },
                turn_timer_ms: state->turn_timer_ms,
                charge_cooldown_ms: state->charge_cooldown_ms,
            })
            &&& (state is Idle && !(sense.charge_cooldown_done && sense.player_close)
                && !sense.turn_timer_done) ==> next == state
            &&& (state is Charge && !sense.charge_done) ==> next == state
            &&& (state is Charge && sense.charge_done) ==> next == (GruntState::Idle {
                direction: None,
                turn_timer_ms,
                charge_cooldown_ms: 1000,
            })
        }),
{
}

} // verus!
