use vstd::prelude::*;

use crate::game::utility::text::str_eq;

verus! {

/// One of the eight compass directions
#[derive(Debug, Clone, Copy, PartialEq, Eq, Structural)]
pub enum Direction {
    Up,
    UpRight,
    Right,
    DownRight,
    Down,
    DownLeft,
    Left,
    UpLeft,
}

/// Whether a compass direction lies on an axis or between two axes
#[derive(Debug, Clone, Copy, PartialEq, Eq, Structural)]
pub enum CompassDirectionType {
    Cardinal,
    Ordinal,
}

impl Direction {
    /// Whether the direction lies on one of the four cardinal axes
    pub open spec fn is_cardinal(self) -> bool {
        self is Up || self is Right || self is Down || self is Left
    }

    /// The direction half a turn away
    pub open spec fn spec_opposite(self) -> Direction {
        match self {
            Direction::Up => Direction::Down,
            Direction::UpRight => Direction::DownLeft,
            Direction::Right => Direction::Left,
            Direction::DownRight => Direction::UpLeft,
            Direction::Down => Direction::Up,
            Direction::DownLeft => Direction::UpRight,
            Direction::Left => Direction::Right,
            Direction::UpLeft => Direction::DownRight,
        }
    }

    /// Turn the direction half a turn around
    pub fn opposite(self) -> (turned: Direction)
        ensures
            turned == self.spec_opposite(),
    {
        match self {
            Direction::Up => Direction::Down,
            Direction::UpRight => Direction::DownLeft,
            Direction::Right => Direction::Left,
            Direction::DownRight => Direction::UpLeft,
            Direction::Down => Direction::Up,
            Direction::DownLeft => Direction::UpRight,
            Direction::Left => Direction::Right,
            Direction::UpLeft => Direction::DownRight,
        }
    }

    /// The direction a property value names, if it names one. The names, the lowercase snake
    /// case of the variants, are this library's own spelling of the eight directions.
    pub open spec fn named(name: Seq<char>) -> Option<Direction> {
        if name == "up"@ {
            Some(Direction::Up)
        } else if name == "up_right"@ {
            Some(Direction::UpRight)
        } else if name == "right"@ {
            Some(Direction::Right)
        } else if name == "down_right"@ {
            Some(Direction::DownRight)
        } else if name == "down"@ {
            Some(Direction::Down)
        } else if name == "down_left"@ {
            Some(Direction::DownLeft)
        } else if name == "left"@ {
            Some(Direction::Left)
        } else if name == "up_left"@ {
            Some(Direction::UpLeft)
        } else {
            None
        }
    }

    /// Read a direction from its name; an unknown name gives the error `Invalid direction: `
    /// followed by the name. The names and the error text are this library's own choice.
    pub fn from_name(name: &str) -> (direction: Result<Direction, String>)
        ensures
            direction matches Ok(d) ==> Direction::named(name@) == Some(d),
            direction is Err <==> Direction::named(name@) is None,
            direction matches Err(message) ==> message@ == "Invalid direction: "@ + name@,
    {
        if str_eq(name, "up") {
            Ok(Direction::Up)
        } else if str_eq(name, "up_right") {
            Ok(Direction::UpRight)
        } else if str_eq(name, "right") {
            Ok(Direction::Right)
        } else if str_eq(name, "down_right") {
            Ok(Direction::DownRight)
        } else if str_eq(name, "down") {
            Ok(Direction::Down)
        } else if str_eq(name, "down_left") {
            Ok(Direction::DownLeft)
        } else if str_eq(name, "left") {
            Ok(Direction::Left)
        } else if str_eq(name, "up_left") {
            Ok(Direction::UpLeft)
        } else {
            let mut message = String::from_str("Invalid direction: ");
            message.append(name);
            Err(message)
        }
    }
}

impl CompassDirectionType {
    /// The compass direction type a property value names, if it names one. The names, the
    /// lowercase variants, are this library's own spelling of the two types.
    pub open spec fn named(name: Seq<char>) -> Option<CompassDirectionType> {
        if name == "cardinal"@ {
            Some(CompassDirectionType::Cardinal)
        } else if name == "ordinal"@ {
            Some(CompassDirectionType::Ordinal)
        } else {
            None
        }
    }

    /// Read a compass direction type from its name; an unknown name gives the error
    /// `Invalid compass direction type: ` followed by the name. The names and the error text are
    /// this library's own choice.
    pub fn from_name(name: &str) -> (kind: Result<CompassDirectionType, String>)
        ensures
            kind matches Ok(k) ==> CompassDirectionType::named(name@) == Some(k),
            kind is Err <==> CompassDirectionType::named(name@) is None,
            kind matches Err(message) ==> message@ == "Invalid compass direction type: "@ + name@,
    {
        if str_eq(name, "cardinal") {
            Ok(CompassDirectionType::Cardinal)
        } else if str_eq(name, "ordinal") {
            Ok(CompassDirectionType::Ordinal)
        } else {
            let mut message = String::from_str("Invalid compass direction type: ");
            message.append(name);
            Err(message)
        }
    }
}

/// Turning half a turn twice comes back to the same direction, and keeps a cardinal direction
/// cardinal
pub proof fn lemma_opposite_involution(direction: Direction)
    ensures
        direction.spec_opposite().spec_opposite() == direction,
        direction.is_cardinal() <==> direction.spec_opposite().is_cardinal(),
{
}

/// Each direction is read from its own name, and two names never read as the same direction
pub proof fn lemma_direction_names(a: Seq<char>, b: Seq<char>)
    ensures
        Direction::named("up"@) == Some(Direction::Up),
        Direction::named("up_right"@) == Some(Direction::UpRight),
        Direction::named("right"@) == Some(Direction::Right),
        Direction::named("down_right"@) == Some(Direction::DownRight),
        Direction::named("down"@) == Some(Direction::Down),
        Direction::named("down_left"@) == Some(Direction::DownLeft),
        Direction::named("left"@) == Some(Direction::Left),
        Direction::named("up_left"@) == Some(Direction::UpLeft),
        Direction::named(a) is Some && Direction::named(a) == Direction::named(b) ==> a == b,
        CompassDirectionType::named("cardinal"@) == Some(CompassDirectionType::Cardinal),
        CompassDirectionType::named("ordinal"@) == Some(CompassDirectionType::Ordinal),
{
    reveal_strlit("up");
    reveal_strlit("up_right");
    reveal_strlit("right");
    reveal_strlit("down_right");
    reveal_strlit("down");
    reveal_strlit("down_left");
    reveal_strlit("left");
    reveal_strlit("up_left");
    assert("up_right"@.len() != "up"@.len());
    assert("right"@.len() != "up"@.len());
    assert("right"@.len() != "up_right"@.len());
    assert("down_right"@.len() != "up"@.len());
    assert("down_right"@.len() != "up_right"@.len());
    assert("down_right"@.len() != "right"@.len());
    assert("down"@.len() != "up"@.len());
    assert("down"@.len() != "up_right"@.len());
    assert("down"@.len() != "right"@.len());
    assert("down"@.len() != "down_right"@.len());
    assert("down_left"@.len() != "up"@.len());
    assert("down_left"@.len() != "up_right"@.len());
    assert("down_left"@.len() != "right"@.len());
    assert("down_left"@.len() != "down_right"@.len());
    assert("down_left"@.len() != "down"@.len());
    assert("left"@.len() != "up"@.len());
    assert("left"@.len() != "up_right"@.len());
    assert("left"@.len() != "right"@.len());
    assert("left"@.len() != "down_right"@.len());
    assert("left"@[0] != "down"@[0]);
    assert("left"@.len() != "down_left"@.len());
    assert("up_left"@.len() != "up"@.len());
    assert("up_left"@.len() != "up_right"@.len());
    assert("up_left"@.len() != "right"@.len());
    assert("up_left"@.len() != "down_right"@.len());
    assert("up_left"@.len() != "down"@.len());
    assert("up_left"@.len() != "down_left"@.len());
    assert("up_left"@.len() != "left"@.len());
    reveal_strlit("cardinal");
    reveal_strlit("ordinal");
    assert("ordinal"@.len() != "cardinal"@.len());
}

} // verus!
