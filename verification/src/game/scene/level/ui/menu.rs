//! The in-game menu used to pause the game
use vstd::prelude::*;

verus! {

/// Marks the in-game menu pane
#[derive(Default)]
pub struct MenuPane;

/// What a button of the in-game menu does
#[derive(Debug, Clone, Copy, PartialEq, Eq, Structural)]
pub enum PaneChoice {
    /// Close the menu and carry on
    Resume,
    /// Close the menu and show the controls
    Help,
    /// Close the menu and go back to the main menu
    Exit,
    /// Leave the game
    Quit,
}

impl MenuPane {
    /// The action of the selected in-game menu button, by its index from the top
    pub fn choice_at(index: usize) -> (choice: PaneChoice)
        requires
            index < 4,
        ensures
            choice == (if index == 0 {
                PaneChoice::Resume
            } else if index == 1 {
                PaneChoice::Help
            } else if index == 2 {
                PaneChoice::Exit
            } else {
                PaneChoice::Quit
            }),
    {
        match index {
            0 => PaneChoice::Resume,
            1 => PaneChoice::Help,
            2 => PaneChoice::Exit,
            _ => PaneChoice::Quit,
        }
    }
}

} // verus!
