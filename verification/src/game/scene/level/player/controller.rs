//! The decisions the player controller makes from the controls each frame
use vstd::prelude::*;

use crate::game::scene::level::room::meta::Collectable;
use crate::game::utility::direction::Direction;

verus! {

/// The direction the player faces and aims in when the game starts
pub const INITIAL_DIRECTION: Direction = Direction::Right;

/// The weapons the player can fire
#[derive(Debug, Clone, Copy, PartialEq, Eq, Structural)]
pub enum Weapon {
    Bullet,
    Rocket,
    IceBeam,
}

/// The jumping state after the controls are read while the player is on the floor or not:
/// standing on the floor, the player jumps exactly when the jump control is pressed; in the air
/// the state stays. The flag tells whether a jump starts.
pub open spec fn jump_start_of(jumping: bool, on_floor: bool, jump_pressed: bool) -> (bool, bool) {
    if on_floor {
        (jump_pressed, jump_pressed)
    } else {
        (jumping, false)
    }
}

/// Decide whether a jump starts, and the jumping state after it
pub fn start_jump(jumping: bool, on_floor: bool, jump_pressed: bool) -> (next: (bool, bool))
    ensures
        next == jump_start_of(jumping, on_floor, jump_pressed),
{
    if on_floor {
        (jump_pressed, jump_pressed)
    } else {
        (jumping, false)
    }
}

/// Decide whether a jump is cut short: a jump still going up ends once the jump control is let
/// go. Returns the jumping state after it and whether the upward speed is cut.
pub fn cut_jump(jumping: bool, going_up: bool, jump_held: bool) -> (next: (bool, bool))
    ensures
        next == (if jumping && going_up && !jump_held {
            (false, true)
        } else {
            (jumping, false)
        }),
{
    if jumping && going_up && !jump_held {
        (false, true)
    } else {
        (jumping, false)
    }
}

/// The direction the player walks in: left or right when only that control is held, and no
/// walking when both or neither are held
pub fn walk_direction(left_held: bool, right_held: bool) -> (walk: Option<Direction>)
    ensures
        walk == (if left_held && !right_held {
            Some(Direction::Left)
        } else if right_held && !left_held {
            Some(Direction::Right)
        } else {
            None
        }),
{
    if left_held && !right_held {
        Some(Direction::Left)
    } else if right_held && !left_held {
        Some(Direction::Right)
    } else {
        None
    }
}

/// The direction the player aims in: the held direction, or the last one aimed in
pub fn aim_direction(held: Option<Direction>, last_aim: Direction) -> (aim: Direction)
    ensures
        aim == (match held {
            Some(direction) => direction,
            None => last_aim,
        }),
{
    match held {
        Some(direction) => direction,
        None => last_aim,
    }
}

/// The weapons fired by the pressed triggers, in order: the primary trigger fires a bullet, the
/// secondary a rocket once the missile tank is collected, the tertiary the ice beam once it is
/// collected
pub open spec fn weapons_of(
    primary: bool,
    secondary: bool,
    tertiary: bool,
    has_rocket: bool,
    has_ice_beam: bool,
) -> Seq<Weapon> {
    let bullets = if primary {
        seq![Weapon::Bullet]
    } else {
        Seq::empty()
    };
    let rockets = if secondary && has_rocket {
        seq![Weapon::Rocket]
    } else {
        Seq::empty()
    };
    let beams = if tertiary && has_ice_beam {
        seq![Weapon::IceBeam]
    } else {
        Seq::empty()
    };
    bullets + rockets + beams
}

/// Decide which weapons the pressed triggers fire, in order
pub fn weapons_fired(
    primary: bool,
    secondary: bool,
    tertiary: bool,
    has_rocket: bool,
    has_ice_beam: bool,
) -> (fired: Vec<Weapon>)
    ensures
        fired@ == weapons_of(primary, secondary, tertiary, has_rocket, has_ice_beam),
{
    let mut fired: Vec<Weapon> = Vec::new();
    if primary {
        fired.push(Weapon::Bullet);
    }
    if secondary && has_rocket {
        fired.push(Weapon::Rocket);
    }
    if tertiary && has_ice_beam {
        fired.push(Weapon::IceBeam);
    }
    assert(fired@ =~= weapons_of(primary, secondary, tertiary, has_rocket, has_ice_beam));
    fired
}

/// The lock control: while it is held the player stands still, whatever direction it walks
/// in, and is locked in place. Returns the direction the player moves in and whether it is
/// locked.
pub fn lock_control(walk: Option<Direction>, lock_held: bool) -> (locked: (Option<Direction>, bool))
    ensures
        locked == (if lock_held {
            (None::<Direction>, true)
        } else {
            (walk, false)
        }),
{
    if lock_held {
        (None, true)
    } else {
        (walk, false)
    }
}

/// How many health pickups are among the collected items
pub open spec fn health_pickups(inventory: Seq<Collectable>) -> nat
    decreases inventory.len(),
{
    if inventory.len() == 0 {
        0
    } else {
        health_pickups(inventory.drop_last()) + if inventory.last() == Collectable::Health {
            1nat
        } else {
            0nat
        }
    }
}

/// The most health the player can have: the base health, and `increase` more for every health
/// pickup collected, the count taken as a `u32`
pub open spec fn max_health_of(inventory: Seq<Collectable>, base: u32, increase: u32) -> int {
    base + ((health_pickups(inventory) as usize) as u32) * increase
}

/// The health pickups of a prefix of the collected items are no more than those of all
proof fn lemma_health_pickups_prefix(inventory: Seq<Collectable>, count: int)
    requires
        0 <= count <= inventory.len(),
    ensures
        health_pickups(inventory.take(count)) <= health_pickups(inventory),
        health_pickups(inventory) <= inventory.len(),
    decreases inventory.len(),
{
    if inventory.len() > 0 {
        if count < inventory.len() {
            assert(inventory.drop_last().take(count) =~= inventory.take(count));
            lemma_health_pickups_prefix(inventory.drop_last(), count);
        } else {
            assert(inventory.take(count) =~= inventory);
            lemma_health_pickups_prefix(inventory.drop_last(), 0);
        }
    }
}

/// The player's maximum health from the collected items, with `base` health and `increase`
/// more for every health pickup
pub fn max_health(inventory: &Vec<Collectable>, base: u32, increase: u32) -> (health: u32)
    requires
        max_health_of(inventory@, base, increase) <= u32::MAX,
    ensures
        health == max_health_of(inventory@, base, increase),
{
    let mut pickups: usize = 0;
    let mut i: usize = 0;
    assert(inventory@.take(0) =~= Seq::<Collectable>::empty());
    while i < inventory.len()
        invariant
            i <= inventory@.len(),
            pickups == health_pickups(inventory@.take(i as int)),
        decreases inventory.len() - i,
    {
        proof {
            assert(inventory@.take(i + 1).drop_last() =~= inventory@.take(i as int));
            lemma_health_pickups_prefix(inventory@.take(i + 1), i as int);
            lemma_health_pickups_prefix(inventory@.take(i + 1), 0);
        }
        if inventory[i] == Collectable::Health {
            pickups = pickups + 1;
        }
        i = i + 1;
    }
    assert(inventory@.take(inventory@.len() as int) =~= inventory@);
    let count = pickups as u32;
    assert(0 <= count * increase <= u32::MAX) by (nonlinear_arith)
        requires
            0 <= base + count * increase <= u32::MAX,
            base >= 0,
            count >= 0,
            increase >= 0,
    ;
    base + count * increase
}

/// A jump starts only on the floor: in the air the jump control starts nothing and the jumping
/// state stays as it was; on the floor a jump starts exactly when the control is pressed, and the
/// player is jumping exactly then
pub proof fn lemma_jumps_start_on_floor(jumping: bool, on_floor: bool, jump_pressed: bool)
    ensures
        !on_floor ==> jump_start_of(jumping, on_floor, jump_pressed) == (jumping, false),
        on_floor ==> jump_start_of(jumping, on_floor, jump_pressed) == (jump_pressed, jump_pressed),
        jump_start_of(jumping, on_floor, jump_pressed).1 ==> on_floor && jump_pressed,
{
}

/// Health pickups count each collected health item once, and nothing else: collecting one more
/// item adds one exactly when it is a health pickup
pub proof fn lemma_health_pickups_count(inventory: Seq<Collectable>, item: Collectable)
    ensures
        health_pickups(Seq::<Collectable>::empty()) == 0,
        health_pickups(inventory.push(item)) == health_pickups(inventory) + (if item
            == Collectable::Health {
            1int
        } else {
            0int
        }),
{
    assert(inventory.push(item).drop_last() =~= inventory);
}

/// Without health pickups the maximum health is the base health, and each further health pickup
/// raises it by the increase
pub proof fn lemma_max_health_grows(inventory: Seq<Collectable>, base: u32, increase: u32)
    requires
        health_pickups(inventory) < u32::MAX,
    ensures
        health_pickups(inventory) == 0 ==> max_health_of(inventory, base, increase) == base,
        max_health_of(inventory.push(Collectable::Health), base, increase) == max_health_of(
            inventory,
            base,
            increase,
        ) + increase,
{
    lemma_health_pickups_count(inventory, Collectable::Health);
    let n = health_pickups(inventory);
    assert((n as usize) as u32 == n);
    assert(((n + 1) as usize) as u32 == n + 1);
    assert((n + 1) * increase == n * increase + increase) by (nonlinear_arith);
    if n == 0 {
        assert(n * increase == 0) by (nonlinear_arith)
            requires
                n == 0,
        ;
    }
}

} // verus!
