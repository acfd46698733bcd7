//! The first main menu scene
use vstd::prelude::*;

verus! {

/// The main menu scene that will be displayed when the game starts
pub struct MenuScene;

} // verus!
