//! The main menu scene
use vstd::prelude::*;

verus! {

/// The main menu displayed when the application starts
pub struct MenuScene;

/// What a button of the main menu does
#[derive(Debug, Clone, Copy, PartialEq, Eq, Structural)]
pub enum MainMenuChoice {
    /// Continue from the saved game
    Start,
    /// Erase the saved game and start over
    NewGame,
    /// Options are not implemented yet
    Options,
    /// Leave the game
    Quit,
}

impl MenuScene {
    /// The action of the selected main menu button, by its index from the top
    pub fn choice_at(index: usize) -> (choice: MainMenuChoice)
        requires
            index < 4,
        ensures
            choice == (if index == 0 {
                MainMenuChoice::Start
            } else if index == 1 {
                MainMenuChoice::NewGame
            } else if index == 2 {
                MainMenuChoice::Options
            } else {
                MainMenuChoice::Quit
            }),
    {
        match index {
            0 => MainMenuChoice::Start,
            1 => MainMenuChoice::NewGame,
            2 => MainMenuChoice::Options,
            _ => MainMenuChoice::Quit,
        }
    }
}

} // verus!
