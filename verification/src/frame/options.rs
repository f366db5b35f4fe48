//! The options: change the model, or go back.

use crate::frame::Selected;
use crate::key::Key;
use vstd::prelude::*;

verus! {

/// The items of the options menu; a value is the selected item.
#[derive(Clone, Copy, Debug, PartialEq, Eq)]
pub enum OptionsMenu {
    /// Opens the choice of models.
    Model,
    /// Goes back to the screen before.
    Return,
}

/// What the options menu asks of its caller.
#[derive(Clone, Copy, Debug, PartialEq, Eq)]
pub enum OptionsMenuAction {
    /// Let the player choose another model.
    ChangeModel,
    /// Go back to the screen before.
    GoBack,
    /// Nothing: the key did not commit.
    Pass,
}

impl Selected for OptionsMenu {
    type Action = OptionsMenuAction;

    open spec fn items() -> Seq<Self> {
        seq![OptionsMenu::Model, OptionsMenu::Return]
    }

    open spec fn position(&self) -> int {
        match *self {
            OptionsMenu::Model => 0,
            OptionsMenu::Return => 1,
        }
    }

    open spec fn action_of(&self) -> OptionsMenuAction {
        match *self {
            OptionsMenu::Model => OptionsMenuAction::ChangeModel,
            OptionsMenu::Return => OptionsMenuAction::GoBack,
        }
    }

    open spec fn no_action() -> OptionsMenuAction {
        OptionsMenuAction::Pass
    }

    open spec fn label(&self) -> Seq<char> {
        match *self {
            OptionsMenu::Model => "Model"@,
            OptionsMenu::Return => "Return"@,
        }
    }

    proof fn lemma_position(&self) {
    }

    proof fn lemma_item_at(i: int) {
    }

    fn action(&self) -> (action: OptionsMenuAction) {
        match *self {
            OptionsMenu::Model => OptionsMenuAction::ChangeModel,
            OptionsMenu::Return => OptionsMenuAction::GoBack,
        }
    }

    fn list(&self) -> (items: Vec<Self>) {
        let items = vec![OptionsMenu::Model, OptionsMenu::Return];
        assert(items@ =~= Self::items());
        items
    }

    fn next(&mut self, key: Key) {
        proof {
            let items = Self::items();
            assert(items.len() == 2);
            assert(items[0] == OptionsMenu::Model && items[1] == OptionsMenu::Return);
        }
        match *self {
            OptionsMenu::Model => {
                if let Key::ArrowUp = key {
                    *self = OptionsMenu::Return;
                } else if let Key::ArrowDown = key {
                    *self = OptionsMenu::Return;
                }
            },
            OptionsMenu::Return => {
                if let Key::ArrowUp = key {
                    *self = OptionsMenu::Model;
                } else if let Key::ArrowDown = key {
                    *self = OptionsMenu::Model;
                }
            },
        }
    }

    fn pass(&self) -> (action: OptionsMenuAction) {
        OptionsMenuAction::Pass
    }

    fn repr(&self) -> (text: &str) {
        match *self {
            OptionsMenu::Model => "Model",
            OptionsMenu::Return => "Return",
        }
    }

    fn index(&self) -> (place: usize) {
        match *self {
            OptionsMenu::Model => 0,
            OptionsMenu::Return => 1,
        }
    }
}

} // verus!
