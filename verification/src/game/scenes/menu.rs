use vstd::prelude::*;

use crate::game::utility::controls::{Behaviour, Key, KeyEvents};

verus! {

/// The first menu scene
pub struct MenuScene;

/// Decide whether to queue the level scene: leave the menu for the level when G is pressed
pub fn sys_menu_listener(events: &KeyEvents) -> (queue_level: bool)
    ensures
        queue_level == events.key_active(Key::G, Behaviour::Pressed),
{
    events.is_key_pressed(Key::G)
}

} // verus!
