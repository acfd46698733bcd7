//! The level scene and its parts
use vstd::prelude::*;

use crate::game::utility::controls::{Behaviour, Control, KeyEvents, control_active, is_control};

pub mod backdrop;
pub mod collectable;
pub mod collision;
pub mod combat;
pub mod creature;
pub mod meta;
pub mod parse;
pub mod physics;
pub mod player;
pub mod registry;
pub mod room;
pub mod story;
pub mod tile;
pub mod transition;
pub mod ui;

verus! {

/// A level of the game, identified by its key
pub struct LevelScene {
    level_key: u32,
}

impl LevelScene {
    /// The key of the level
    pub closed spec fn key(self) -> u32 {
        self.level_key
    }

    /// Build the level scene for a level key
    pub fn build(level_key: u32) -> (scene: Result<Self, String>)
        ensures
            scene matches Ok(s) && s.key() == level_key,
    {
        Ok(Self { level_key })
    }
}

/// Decide whether the level listener leaves for the menu: when escape is pressed
pub fn sys_level_listener(events: &KeyEvents) -> (queue_menu: bool)
    ensures
        queue_menu == control_active(*events, Control::Escape, Behaviour::Pressed),
{
    is_control(Control::Escape, Behaviour::Pressed, events)
}

/// What the level scene does in a frame
#[derive(Debug, Clone, Copy, PartialEq, Eq, Structural)]
pub struct LevelFrame {
    /// Start the level over from the saved game
    pub restart: bool,
    /// Open the in-game menu
    pub open_menu: bool,
    /// Whether debug drawing is on after the frame
    pub debug: bool,
}

/// Decide what the level scene does in a frame: it starts over once the player is dead, opens
/// the menu when escape is pressed while the game runs, and toggles debug drawing when the debug
/// control is pressed
pub fn level_frame(dead: bool, paused: bool, debug: bool, events: &KeyEvents) -> (frame: LevelFrame)
    ensures
        frame.restart == dead,
        frame.open_menu == (control_active(*events, Control::Escape, Behaviour::Pressed) && !paused),
        frame.debug == (debug != control_active(*events, Control::Debug, Behaviour::Pressed)),
{
    let exit = is_control(Control::Escape, Behaviour::Pressed, events);
    let toggle = is_control(Control::Debug, Behaviour::Pressed, events);
    LevelFrame { restart: dead, open_menu: exit && !paused, debug: debug != toggle }
}

} // verus!
