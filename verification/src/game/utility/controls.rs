//! Player control utilities
use vstd::prelude::*;

use crate::game::utility::direction::Direction;

verus! {

/// How a control was interacted with
#[derive(Debug, Clone, Copy, PartialEq, Eq, Structural)]
pub enum Behaviour {
    Pressed,
    Held,
}

/// A control a player can execute
#[derive(Debug, Clone, Copy, PartialEq, Eq, Structural)]
pub enum Control {
    Up,
    Down,
    Left,
    Right,
    Lock,
    Select,
    Debug,
    Escape,
    Trigger,
}

/// The keyboard keys that are bound to controls
#[derive(Debug, Clone, Copy, PartialEq, Eq, Structural)]
pub enum Key {
    Up,
    Down,
    Left,
    Right,
    W,
    A,
    S,
    D,
    Return,
    Space,
    Q,
    LShift,
    RShift,
    J,
    Escape,
    E,
    G,
}

/// The keys pressed this frame and the keys held down
pub struct KeyEvents {
    pub pressed: Vec<Key>,
    pub held: Vec<Key>,
}

/// Whether `key` is in `keys`
fn contains_key(keys: &Vec<Key>, key: Key) -> (found: bool)
    ensures
        found == keys@.contains(key),
{
    let mut i: usize = 0;
    while i < keys.len()
        invariant
            i <= keys@.len(),
            forall|j: int| 0 <= j < i ==> keys@[j] != key,
        decreases keys.len() - i,
    {
        if keys[i] == key {
            return true;
        }
        i = i + 1;
    }
    false
}

impl KeyEvents {
    /// Whether `key` is interacted with in the way `behaviour` describes
    pub open spec fn key_active(&self, key: Key, behaviour: Behaviour) -> bool {
        match behaviour {
            Behaviour::Pressed => self.pressed@.contains(key),
            Behaviour::Held => self.held@.contains(key),
        }
    }

    /// Check if `key` was pressed this frame
    pub fn is_key_pressed(&self, key: Key) -> (pressed: bool)
        ensures
            pressed == self.key_active(key, Behaviour::Pressed),
    {
        contains_key(&self.pressed, key)
    }

    /// Check if `key` is held down
    pub fn is_key_held(&self, key: Key) -> (held: bool)
        ensures
            held == self.key_active(key, Behaviour::Held),
    {
        contains_key(&self.held, key)
    }
}

/// Whether `control` is interacted with in the way `behaviour` describes: one of its keys is
pub open spec fn control_active(events: KeyEvents, control: Control, behaviour: Behaviour) -> bool {
    let active = |key: Key| events.key_active(key, behaviour);
    match control {
        Control::Up => active(Key::Up) || active(Key::W),
        Control::Down => active(Key::Down) || active(Key::S),
        Control::Left => active(Key::Left) || active(Key::A),
        Control::Right => active(Key::Right) || active(Key::D),
        Control::Select => active(Key::Return) || active(Key::Space),
        Control::Debug => active(Key::Q),
        Control::Lock => active(Key::LShift) || active(Key::RShift),
        Control::Trigger => active(Key::J),
        Control::Escape => active(Key::Escape),
    }
}

/// Check one key in the way `behaviour` describes
fn check(events: &KeyEvents, key: Key, behaviour: Behaviour) -> (active: bool)
    ensures
        active == events.key_active(key, behaviour),
{
    match behaviour {
        Behaviour::Pressed => events.is_key_pressed(key),
        Behaviour::Held => events.is_key_held(key),
    }
}

/// Check if `control` is being interacted with `behaviour`
pub fn is_control(control: Control, behaviour: Behaviour, events: &KeyEvents) -> (active: bool)
    ensures
        active == control_active(*events, control, behaviour),
{
    match control {
        Control::Up => check(events, Key::Up, behaviour) || check(events, Key::W, behaviour),
        Control::Down => check(events, Key::Down, behaviour) || check(events, Key::S, behaviour),
        Control::Left => check(events, Key::Left, behaviour) || check(events, Key::A, behaviour),
        Control::Right => check(events, Key::Right, behaviour) || check(events, Key::D, behaviour),
        Control::Select => check(events, Key::Return, behaviour) || check(
            events,
            Key::Space,
            behaviour,
        ),
        Control::Debug => check(events, Key::Q, behaviour),
        Control::Lock => check(events, Key::LShift, behaviour) || check(
            events,
            Key::RShift,
            behaviour,
        ),
        Control::Trigger => check(events, Key::J, behaviour),
        Control::Escape => check(events, Key::Escape, behaviour),
    }
}

/// The net direction of the directional controls: opposite controls cancel out, two
/// perpendicular controls make a diagonal
pub open spec fn net_direction(up: bool, down: bool, left: bool, right: bool) -> Option<Direction> {
    if (up && down) || (left && right) {
        None
    } else if up && left {
        Some(Direction::UpLeft)
    } else if up && right {
        Some(Direction::UpRight)
    } else if down && left {
        Some(Direction::DownLeft)
    } else if down && right {
        Some(Direction::DownRight)
    } else if up {
        Some(Direction::Up)
    } else if down {
        Some(Direction::Down)
    } else if left {
        Some(Direction::Left)
    } else if right {
        Some(Direction::Right)
    } else {
        None
    }
}

/// Determine a net direction based on pressed controls
pub fn get_direction(events: &KeyEvents, behaviour: Behaviour) -> (direction: Option<Direction>)
    ensures
        direction == net_direction(
            control_active(*events, Control::Up, behaviour),
            control_active(*events, Control::Down, behaviour),
            control_active(*events, Control::Left, behaviour),
            control_active(*events, Control::Right, behaviour),
        ),
{
    let up = is_control(Control::Up, behaviour, events);
    let down = is_control(Control::Down, behaviour, events);
    let left = is_control(Control::Left, behaviour, events);
    let right = is_control(Control::Right, behaviour, events);

    if (up && down) || (left && right) {
        return None;
    }
    if up && left {
        return Some(Direction::UpLeft);
    }
    if up && right {
        return Some(Direction::UpRight);
    }
    if down && left {
        return Some(Direction::DownLeft);
    }
    if down && right {
        return Some(Direction::DownRight);
    }
    if up {
        return Some(Direction::Up);
    }
    if down {
        return Some(Direction::Down);
    }
    if left {
        return Some(Direction::Left);
    }
    if right {
        return Some(Direction::Right);
    }
    None
}

} // verus!
