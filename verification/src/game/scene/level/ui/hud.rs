use vstd::prelude::*;

verus! {

/// Marks the text that shows the player's health
#[derive(Default)]
pub struct PlayerHealth;

} // verus!
