use vstd::prelude::*;

use crate::game::geometry::Vec2;
use crate::game::scene::level::collision::{shot_breaks_tile, spec_shot_breaks_tile};
use crate::game::utility::direction::Direction;

verus! {

/// Describes the presentation sides of a collision that are resolvable
#[derive(Debug, Clone, Copy, Default, PartialEq, Eq, Structural)]
pub struct CollisionMask {
    pub top: bool,
    pub bottom: bool,
    pub left: bool,
    pub right: bool,
}

impl CollisionMask {
    /// Instantiate a new collision mask
    pub fn new(top: bool, right: bool, bottom: bool, left: bool) -> (mask: Self)
        ensures
            mask == (CollisionMask { top, right, bottom, left }),
    {
        Self { top, right, bottom, left }
    }

    /// The mask a collider gets by default: no side is resolvable
    pub open spec fn default_mask() -> Self {
        CollisionMask { top: false, right: false, bottom: false, left: false }
    }

    /// Instantiate a new full collision mask
    pub fn full() -> (mask: Self)
        ensures
            mask == (CollisionMask { top: true, right: true, bottom: true, left: true }),
    {
        Self { top: true, right: true, bottom: true, left: true }
    }

    /// Whether no side of the mask is resolvable
    pub open spec fn spec_is_empty(self) -> bool {
        !self.top && !self.right && !self.bottom && !self.left
    }

    /// Check if the collision mask is empty
    pub fn is_empty(&self) -> (empty: bool)
        ensures
            empty == self.spec_is_empty(),
    {
        !self.top && !self.right && !self.bottom && !self.left
    }

    /// The mask with the side facing `side` set to `value`; ordinal directions have no side
    pub open spec fn with_side(self, side: Direction, value: bool) -> Self {
        match side {
            Direction::Up => CollisionMask { top: value, ..self },
            Direction::Right => CollisionMask { right: value, ..self },
            Direction::Down => CollisionMask { bottom: value, ..self },
            Direction::Left => CollisionMask { left: value, ..self },
            _ => self,
        }
    }

    /// Set a specific side of the mask
    pub fn set_side(&mut self, side: Direction, value: bool) -> (result: Result<(), String>)
        ensures
            side.is_cardinal() <==> result is Ok,
            *final(self) == old(self).with_side(side, value),
            result matches Err(message) ==> message@
                == "Ordinal direction is not supported for collision masks"@,
    {
        match side {
            Direction::Up => self.top = value,
            Direction::Right => self.right = value,
            Direction::Down => self.bottom = value,
            Direction::Left => self.left = value,
            _ => {
                return Err(String::from_str("Ordinal direction is not supported for collision masks"));
            },
        }
        Ok(())
    }
}

/// The collision mask of a tile next to a removed tile, which lies towards `neighbour` from the
/// removed one: the tile's mask, or an empty one when it had no collider, with the side facing
/// the removed tile made resolvable
pub fn repaired_mask(mask: Option<CollisionMask>, neighbour: Direction) -> (repaired: CollisionMask)
    requires
        neighbour.is_cardinal(),
    ensures
        repaired == (match mask {
            Some(mask) => mask,
            None => CollisionMask::default_mask(),
        }).with_side(neighbour.spec_opposite(), true),
{
    let mut repaired = match mask {
        Some(mask) => mask,
        None => CollisionMask::new(false, false, false, false),
    };
    let facing = neighbour.opposite();
    let _ = repaired.set_side(facing, true);
    repaired
}

/// Opening a side of a mask makes it non-empty, the full mask is not empty, and a mask with no
/// side set is empty
pub proof fn lemma_mask_emptiness(mask: CollisionMask, side: Direction)
    requires
        side.is_cardinal(),
    ensures
        !mask.with_side(side, true).spec_is_empty(),
        !(CollisionMask { top: true, right: true, bottom: true, left: true }).spec_is_empty(),
        (CollisionMask { top: false, right: false, bottom: false, left: false }).spec_is_empty(),
{
}

/// Setting a side twice to the same value is the same as setting it once, and setting a side
/// leaves the other sides as they were
pub proof fn lemma_with_side_idempotent(mask: CollisionMask, side: Direction, value: bool)
    ensures
        mask.with_side(side, value).with_side(side, value) == mask.with_side(side, value),
        side != Direction::Up ==> mask.with_side(side, value).top == mask.top,
        side != Direction::Right ==> mask.with_side(side, value).right == mask.right,
        side != Direction::Down ==> mask.with_side(side, value).bottom == mask.bottom,
        side != Direction::Left ==> mask.with_side(side, value).left == mask.left,
{
}

/// Maximum number of collision resolution attempts before giving up on an entity
pub const MAX_COLLISION_PHASES: u32 = 10;

/// What an entity and the tile it collides with are made of
#[derive(Debug, Clone, Copy, PartialEq, Eq, Structural)]
pub struct TileContact {
    /// The tile breaks on any collision
    pub brittle: bool,
    /// The tile breaks under rockets
    pub strong: bool,
    /// The tile breaks under rockets and bullets
    pub soft: bool,
    /// The entity is a bullet
    pub bullet: bool,
    /// The entity is a rocket
    pub rocket: bool,
    /// The entity is destroyed when it collides
    pub fragile: bool,
}

impl TileContact {
    /// Whether the tile of the contact is broken by it
    pub open spec fn spec_breaks_tile(self) -> bool {
        self.brittle || spec_shot_breaks_tile(self.strong, self.soft, self.bullet, self.rocket)
    }

    /// Check whether the tile of the contact is broken by it
    pub fn breaks_tile(&self) -> (breaks: bool)
        ensures
            breaks == self.spec_breaks_tile(),
    {
        self.brittle || shot_breaks_tile(self.strong, self.soft, self.bullet, self.rocket)
    }
}

/// What to do with an entity after looking for a tile it collides with
#[derive(Debug, Clone, Copy, PartialEq, Eq, Structural)]
pub enum ResolutionStep {
    /// The entity collides with no tile; it is resolved
    Settled,
    /// The entity still collides after the last attempt; tile collisions are left for this
    /// frame
    Abandon,
    /// The entity is destroyed, after breaking the tile when `break_tile`
    Destroy { break_tile: bool },
    /// The entity is pushed out of the tile, after breaking it when `break_tile`, and looked at
    /// again
    Resolve { break_tile: bool },
}

/// The step after attempt number `phase`, which found `contact` with a tile, or nothing
pub open spec fn resolution_step_of(phase: u32, contact: Option<TileContact>) -> ResolutionStep {
    match contact {
        None => ResolutionStep::Settled,
        Some(contact) => if phase > MAX_COLLISION_PHASES {
            ResolutionStep::Abandon
        } else if contact.fragile {
            ResolutionStep::Destroy { break_tile: contact.spec_breaks_tile() }
        } else {
            ResolutionStep::Resolve { break_tile: contact.spec_breaks_tile() }
        },
    }
}

/// Count one more attempt at resolving the collisions of an entity, which has made `phase`
/// attempts so far, and decide what to do with the `contact` that attempt found
pub fn resolution_step(phase: u32, contact: Option<TileContact>) -> (next: (u32, ResolutionStep))
    requires
        phase <= MAX_COLLISION_PHASES,
    ensures
        next.0 == phase + 1,
        next.1 == resolution_step_of(next.0, contact),
        next.1 is Resolve ==> next.0 <= MAX_COLLISION_PHASES,
{
    let phase = phase + 1;
    let step = match contact {
        None => ResolutionStep::Settled,
        Some(contact) => if phase > MAX_COLLISION_PHASES {
            ResolutionStep::Abandon
        } else if contact.fragile {
            ResolutionStep::Destroy { break_tile: contact.breaks_tile() }
        } else {
            ResolutionStep::Resolve { break_tile: contact.breaks_tile() }
        },
    };
    (phase, step)
}

/// Whether an entity on collision layer `entity` collides with a tile on layer `tile`: tiles on
/// the layer of everything collide with every entity, the others with entities of their layer
pub open spec fn spec_layers_collide(entity: RoomCollision, tile: RoomCollision) -> bool {
    tile == RoomCollision::All || entity == tile
}

/// Check whether an entity on collision layer `entity` collides with a tile on layer `tile`
pub fn layers_collide(entity: RoomCollision, tile: RoomCollision) -> (collide: bool)
    ensures
        collide == spec_layers_collide(entity, tile),
{
    tile == RoomCollision::All || entity == tile
}

/// Collision layers for entities
#[derive(Clone, Copy, Debug, PartialEq, Eq, Structural)]
pub enum RoomCollision {
    /// collides with tiles
    All,
    /// Collides with only creatures
    Creature,
    /// Only collides with the player
    Player,
}

impl Default for RoomCollision {
    fn default() -> (layer: Self)
        ensures
            layer == RoomCollision::All,
    {
        RoomCollision::All
    }
}

/// A line from one point to another, in pixels
pub type Segment = (Vec2<i32>, Vec2<i32>);

/// The outline drawn for the resolvable sides of a tile collider of `width` by `height`, in
/// pixels from its top left corner, in the order top, right, bottom, left
pub open spec fn mask_outline_of(mask: CollisionMask, width: u32, height: u32) -> Seq<Segment> {
    let right = (width as i32) - 1;
    let bottom = (height as i32) - 1;
    let top_side = if mask.top {
        seq![(Vec2 { x: 0i32, y: 0i32 }, Vec2 { x: right as i32, y: 0i32 })]
    } else {
        Seq::empty()
    };
    let right_side = if mask.right {
        seq![(Vec2 { x: right as i32, y: 0i32 }, Vec2 { x: right as i32, y: bottom as i32 })]
    } else {
        Seq::empty()
    };
    let bottom_side = if mask.bottom {
        seq![(Vec2 { x: 0i32, y: bottom as i32 }, Vec2 { x: right as i32, y: bottom as i32 })]
    } else {
        Seq::empty()
    };
    let left_side = if mask.left {
        seq![(Vec2 { x: 0i32, y: 0i32 }, Vec2 { x: 0i32, y: bottom as i32 })]
    } else {
        Seq::empty()
    };
    top_side + right_side + bottom_side + left_side
}

/// The lines that show the resolvable sides of a tile collider of `width` by `height` when
/// colliders are drawn for debugging
pub fn mask_outline(mask: CollisionMask, width: u32, height: u32) -> (outline: Vec<Segment>)
    requires
        width as i32 != i32::MIN,
        height as i32 != i32::MIN,
    ensures
        outline@ == mask_outline_of(mask, width, height),
{
    let right = width as i32 - 1;
    let bottom = height as i32 - 1;
    let mut outline: Vec<Segment> = Vec::new();
    if mask.top {
        outline.push((Vec2::new(0, 0), Vec2::new(right, 0)));
    }
    if mask.right {
        outline.push((Vec2::new(right, 0), Vec2::new(right, bottom)));
    }
    if mask.bottom {
        outline.push((Vec2::new(0, bottom), Vec2::new(right, bottom)));
    }
    if mask.left {
        outline.push((Vec2::new(0, 0), Vec2::new(0, bottom)));
    }
    assert(outline@ =~= mask_outline_of(mask, width, height));
    outline
}

/// Each attempt at resolving an entity's tile collisions: no contact settles it; past the last
/// attempt a contact is abandoned; within the attempts a fragile entity is always destroyed and a
/// sturdy one always pushed out, and in both cases the hit tile breaks exactly when it is brittle,
/// or strong and hit by a rocket, or soft and hit by a rocket or a bullet
pub proof fn lemma_resolution_steps(phase: u32, contact: TileContact)
    ensures
        resolution_step_of(phase, None) == ResolutionStep::Settled,
        phase > 10 ==> resolution_step_of(phase, Some(contact)) == ResolutionStep::Abandon,
        phase <= 10 && contact.fragile ==> resolution_step_of(phase, Some(contact)) == (
        ResolutionStep::Destroy {
            break_tile: contact.brittle || (contact.strong && contact.rocket) || (contact.soft && (
            contact.rocket || contact.bullet)),
        }),
        phase <= 10 && !contact.fragile ==> resolution_step_of(phase, Some(contact)) == (
        ResolutionStep::Resolve {
            break_tile: contact.brittle || (contact.strong && contact.rocket) || (contact.soft && (
            contact.rocket || contact.bullet)),
        }),
        resolution_step_of(phase, Some(contact)) != ResolutionStep::Settled,
        contact.fragile ==> resolution_step_of(phase, Some(contact)) != (ResolutionStep::Resolve {
            break_tile: true,
        }) && resolution_step_of(phase, Some(contact)) != (ResolutionStep::Resolve {
            break_tile: false,
        }),
{
}

/// Which shots break which tiles: a tile that is neither strong nor soft is never broken by a
/// shot; a strong tile breaks under a rocket but not under a bullet alone; a soft tile breaks
/// under either; nothing else breaks a tile; and a brittle tile breaks on any contact
pub proof fn lemma_shots_break_tiles(contact: TileContact)
    ensures
        !contact.strong && !contact.soft ==> !spec_shot_breaks_tile(
            contact.strong,
            contact.soft,
            contact.bullet,
            contact.rocket,
        ),
        spec_shot_breaks_tile(true, false, false, true),
        !spec_shot_breaks_tile(true, false, true, false),
        spec_shot_breaks_tile(false, true, true, false),
        spec_shot_breaks_tile(false, true, false, true),
        !contact.bullet && !contact.rocket ==> !spec_shot_breaks_tile(
            contact.strong,
            contact.soft,
            contact.bullet,
            contact.rocket,
        ),
        contact.brittle ==> contact.spec_breaks_tile(),
        !contact.brittle && !contact.strong && !contact.soft ==> !contact.spec_breaks_tile(),
        (contact.strong && contact.rocket) ==> contact.spec_breaks_tile(),
        (contact.soft && (contact.rocket || contact.bullet)) ==> contact.spec_breaks_tile(),
        !contact.brittle && !contact.bullet && !contact.rocket ==> !contact.spec_breaks_tile(),
{
}

/// Which entities collide with which tiles: every entity collides with a tile on the layer of
/// everything, every entity collides with a tile of its own layer, and an entity never collides
/// with a tile of another layer that is not the layer of everything
pub proof fn lemma_collision_layers(entity: RoomCollision, tile: RoomCollision)
    ensures
        spec_layers_collide(entity, RoomCollision::All),
        spec_layers_collide(tile, tile),
        tile != RoomCollision::All && entity != tile ==> !spec_layers_collide(entity, tile),
{
}

/// Repairing the neighbour of a removed tile opens exactly the side that faces the removed tile:
/// a neighbour above opens its bottom, one below its top, one to the left its right side and one
/// to the right its left side, and every other side is kept
pub proof fn lemma_repaired_sides(mask: CollisionMask)
    ensures
        mask.with_side(Direction::Up.spec_opposite(), true) == (CollisionMask { bottom: true, ..mask }),
        mask.with_side(Direction::Down.spec_opposite(), true) == (CollisionMask { top: true, ..mask }),
        mask.with_side(Direction::Left.spec_opposite(), true) == (CollisionMask { right: true, ..mask }),
        mask.with_side(Direction::Right.spec_opposite(), true) == (CollisionMask { left: true, ..mask }),
        CollisionMask::default_mask() == (CollisionMask {
            top: false,
            right: false,
            bottom: false,
            left: false,
        }),
{
}

/// The outline of a collider has one line for each resolvable side and none for the others; a
/// full mask is outlined on all four sides, starting along the top from the top left corner
pub proof fn lemma_mask_outline_sides(mask: CollisionMask, width: u32, height: u32)
    ensures
        mask_outline_of(mask, width, height).len() == (if mask.top {
            1int
        } else {
            0int
        }) + (if mask.right {
            1int
        } else {
            0int
        }) + (if mask.bottom {
            1int
        } else {
            0int
        }) + (if mask.left {
            1int
        } else {
            0int
        }),
        mask.top ==> mask_outline_of(mask, width, height)[0].0 == (Vec2 { x: 0i32, y: 0i32 }),
        mask.top ==> mask_outline_of(mask, width, height)[0].1.y == 0,
{
}

} // verus!
