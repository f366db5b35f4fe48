//! The first screen: play, change the options, or leave.

use crate::frame::Selected;
use crate::key::Key;
use vstd::prelude::*;

verus! {

/// The items of the main menu; a value is the selected item.
#[derive(Clone, Copy, Debug, PartialEq, Eq)]
pub enum MainMenu {
    /// Starts a round. Selected when the menu opens.
    Play,
    /// Opens the options.
    Options,
    /// Leaves the game.
    Exit,
}

/// What the main menu asks of its caller.
#[derive(Clone, Copy, Debug, PartialEq, Eq)]
pub enum MainMenuAction {
    /// Leave the game.
    Finish,
    /// Show the options.
    OptionsPage,
    /// Nothing: the key did not commit.
    Pass,
    /// Start a round.
    StartGame,
}

impl Selected for MainMenu {
    type Action = MainMenuAction;

    open spec fn items() -> Seq<Self> {
        seq![MainMenu::Play, MainMenu::Options, MainMenu::Exit]
    }

    open spec fn position(&self) -> int {
        match *self {
            MainMenu::Play => 0,
            MainMenu::Options => 1,
            MainMenu::Exit => 2,
        }
    }

    open spec fn action_of(&self) -> MainMenuAction {
        match *self {
            MainMenu::Play => MainMenuAction::StartGame,
            MainMenu::Options => MainMenuAction::OptionsPage,
            MainMenu::Exit => MainMenuAction::Finish,
        }
    }

    open spec fn no_action() -> MainMenuAction {
        MainMenuAction::Pass
    }

    open spec fn label(&self) -> Seq<char> {
        match *self {
            MainMenu::Play => "Play"@,
            MainMenu::Options => "Options"@,
            MainMenu::Exit => "Exit"@,
        }
    }

    proof fn lemma_position(&self) {
    }

    proof fn lemma_item_at(i: int) {
    }

    fn action(&self) -> (action: MainMenuAction) {
        match *self {
            MainMenu::Play => MainMenuAction::StartGame,
            MainMenu::Options => MainMenuAction::OptionsPage,
            MainMenu::Exit => MainMenuAction::Finish,
        }
    }

    fn list(&self) -> (items: Vec<Self>) {
        let items = vec![MainMenu::Play, MainMenu::Options, MainMenu::Exit];
        assert(items@ =~= Self::items());
        items
    }

    fn next(&mut self, key: Key) {
        proof {
            let items = Self::items();
            assert(items.len() == 3);
            assert(items[0] == MainMenu::Play && items[1] == MainMenu::Options && items[2]
                == MainMenu::Exit);
        }
        match *self {
            MainMenu::Play => {
                if let Key::ArrowUp = key {
                    *self = MainMenu::Exit;
                } else if let Key::ArrowDown = key {
                    *self = MainMenu::Options;
                }
            },
            MainMenu::Options => {
                if let Key::ArrowUp = key {
                    *self = MainMenu::Play;
                } else if let Key::ArrowDown = key {
                    *self = MainMenu::Exit;
                }
            },
            MainMenu::Exit => {
                if let Key::ArrowUp = key {
                    *self = MainMenu::Options;
                } else if let Key::ArrowDown = key {
                    *self = MainMenu::Play;
                }
            },
        }
    }

    fn pass(&self) -> (action: MainMenuAction) {
        MainMenuAction::Pass
    }

    fn repr(&self) -> (text: &str) {
        match *self {
            MainMenu::Play => "Play",
            MainMenu::Options => "Options",
            MainMenu::Exit => "Exit",
        }
    }

    fn index(&self) -> (place: usize) {
        match *self {
            MainMenu::Play => 0,
            MainMenu::Options => 1,
            MainMenu::Exit => 2,
        }
    }
}

} // verus!
