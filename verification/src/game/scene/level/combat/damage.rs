//! Damage dealt by entities
use vstd::prelude::*;

verus! {

/// The amount of health an entity deducts on contact
pub struct Damage {
    pub amount: u32,
}

impl Damage {
    /// Instantiate a new damage component
    pub fn new(amount: u32) -> (damage: Self)
        ensures
            damage.amount == amount,
    {
        Self { amount }
    }
}

/// What a player projectile does to the creature it hits; the projectile is spent either way
#[derive(Debug, Clone, Copy, PartialEq, Eq, Structural)]
pub enum ProjectileHit {
    /// The creature is frozen
    Freeze,
    /// The creature takes the damage of the projectile
    Wound,
    /// Nothing happens to the creature
    Deflect,
}

/// Decide what a projectile does to a creature: an ice beam freezes it, and any other
/// projectile wounds it unless it is frozen
pub fn projectile_hit(ice_beam: bool, creature_frozen: bool) -> (hit: ProjectileHit)
    ensures
        hit == (if ice_beam {
            ProjectileHit::Freeze
        } else if creature_frozen {
            ProjectileHit::Deflect
        } else {
            ProjectileHit::Wound
        }),
{
    if ice_beam {
        ProjectileHit::Freeze
    } else if creature_frozen {
        ProjectileHit::Deflect
    } else {
        ProjectileHit::Wound
    }
}

} // verus!
