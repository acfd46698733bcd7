use vstd::prelude::*;

use crate::game::utility::controls::{Behaviour, Key, KeyEvents};

verus! {

/// The first level scene
pub struct LevelScene;

/// Decide whether to queue the menu scene: leave the level for the menu when E is pressed
pub fn sys_level_listener(events: &KeyEvents) -> (queue_menu: bool)
    ensures
        queue_menu == events.key_active(Key::E, Behaviour::Pressed),
{
    events.is_key_pressed(Key::E)
}

} // verus!
