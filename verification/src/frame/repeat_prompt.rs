//! The question after a round: another game, yes or no.

use crate::frame::render::{frame, one_selected, render, Line, LineView};
use crate::key::Key;
use vstd::prelude::*;

verus! {

/// The two places that can have the focus.
#[derive(Clone, Copy, Debug, PartialEq, Eq)]
pub enum PromptSelectable {
    /// The control that accepts the answer in view.
    Accept,
    /// The answer. It has the focus when the screen opens.
    Prompt,
}

/// The two answers.
#[derive(Clone, Copy, Debug, PartialEq, Eq)]
pub enum Selectable {
    /// Leave the game.
    No,
    /// Play another round. In view when the screen opens.
    Yes,
}

/// The question, the answer in view, and the place that has the focus.
#[derive(Clone, Copy, Debug, PartialEq, Eq)]
pub struct RepeatPrompt<'text> {
    pub input: Selectable,
    pub selected: PromptSelectable,
    pub text: &'text str,
}

/// The screen as plain values.
pub ghost struct RepeatView {
    pub input: Selectable,
    pub selected: PromptSelectable,
    pub text: Seq<char>,
}

impl<'text> View for RepeatPrompt<'text> {
    type V = RepeatView;

    open spec fn view(&self) -> RepeatView {
        RepeatView { input: self.input, selected: self.selected, text: self.text@ }
    }
}

/// The other answer.
pub open spec fn other(input: Selectable) -> Selectable {
    match input {
        Selectable::Yes => Selectable::No,
        Selectable::No => Selectable::Yes,
    }
}

/// What a key does to the screen, and the answer it commits, if any.
///
/// With the focus on the answer, left and right change it, and up and down
/// move the focus to the control. With the focus on the control, up and down
/// move it back, and the confirmation key commits the answer in view: `true`
/// for yes. Every other key does nothing.
pub open spec fn answer(screen: RepeatView, key: Key) -> (RepeatView, Option<bool>) {
    match (screen.selected, key) {
        (PromptSelectable::Prompt, Key::ArrowLeft) => (
            RepeatView { input: other(screen.input), ..screen },
            None,
        ),
        (PromptSelectable::Prompt, Key::ArrowRight) => (
            RepeatView { input: other(screen.input), ..screen },
            None,
        ),
        (PromptSelectable::Prompt, Key::ArrowUp) => (
            RepeatView { selected: PromptSelectable::Accept, ..screen },
            None,
        ),
        (PromptSelectable::Prompt, Key::ArrowDown) => (
            RepeatView { selected: PromptSelectable::Accept, ..screen },
            None,
        ),
        (PromptSelectable::Accept, Key::ArrowUp) => (
            RepeatView { selected: PromptSelectable::Prompt, ..screen },
            None,
        ),
        (PromptSelectable::Accept, Key::ArrowDown) => (
            RepeatView { selected: PromptSelectable::Prompt, ..screen },
            None,
        ),
        (PromptSelectable::Accept, Key::Enter) => (screen, Some(screen.input == Selectable::Yes)),
        _ => (screen, None),
    }
}

impl<'text> RepeatPrompt<'text> {
    /// The screen as it opens: yes in view, the focus on the answer.
    pub fn new() -> (screen: Self)
        ensures
            screen@ == (RepeatView {
                input: Selectable::Yes,
                selected: PromptSelectable::Prompt,
                text: "Want to continue for another game?"@,
            }),
    {
        Self {
            text: "Want to continue for another game?",
            input: Selectable::Yes,
            selected: PromptSelectable::Prompt,
        }
    }
}

/// Handles one key on the question.
pub fn nav_repeat_prompt(prompt: &mut RepeatPrompt, key: Key) -> (committed: Option<bool>)
    ensures
        (final(prompt)@, committed) == answer(old(prompt)@, key),
{
    match prompt.selected {
        PromptSelectable::Prompt => match key {
            Key::ArrowRight | Key::ArrowLeft => {
                prompt.input = match prompt.input {
                    Selectable::Yes => Selectable::No,
                    Selectable::No => Selectable::Yes,
                };
                None
            },
            Key::ArrowDown | Key::ArrowUp => {
                prompt.selected = PromptSelectable::Accept;
                None
            },
            _ => None,
        },
        PromptSelectable::Accept => match key {
            Key::ArrowDown | Key::ArrowUp => {
                prompt.selected = PromptSelectable::Prompt;
                None
            },
            Key::Enter => match prompt.input {
                Selectable::Yes => Some(true),
                Selectable::No => Some(false),
            },
            _ => None,
        },
    }
}

/// The text that shows an answer.
pub open spec fn answer_text(input: Selectable) -> Seq<char> {
    match input {
        Selectable::Yes => "< Yes >"@,
        Selectable::No => "< No >"@,
    }
}

/// The three lines of the screen: the question, the answer in view, the
/// control. The place that has the focus is marked.
pub open spec fn repeat_lines(screen: RepeatView) -> Seq<LineView> {
    seq![
        LineView { text: screen.text, selected: false },
        LineView {
            text: answer_text(screen.input),
            selected: screen.selected == PromptSelectable::Prompt,
        },
        LineView { text: "Accept"@, selected: screen.selected == PromptSelectable::Accept },
    ]
}

/// Exactly one line of the screen is marked.
pub proof fn lemma_repeat_has_one_selected(screen: RepeatView)
    ensures
        one_selected(repeat_lines(screen)),
{
    let lines = repeat_lines(screen);
    match screen.selected {
        PromptSelectable::Prompt => {
            assert(lines[1].selected);
        },
        PromptSelectable::Accept => {
            assert(lines[2].selected);
        },
    }
}

/// Lays the screen out for a terminal of `rows` rows and `cols` columns.
pub fn draw_repeat_prompt(prompt: &RepeatPrompt, rows: usize, cols: usize, colors: bool) -> (out:
    Vec<String>)
    ensures
        out.deep_view() == frame(repeat_lines(prompt@), rows as nat, cols as nat, colors),
{
    let on_prompt = match prompt.selected {
        PromptSelectable::Prompt => true,
        PromptSelectable::Accept => false,
    };
    let shown = match prompt.input {
        Selectable::Yes => "< Yes >",
        Selectable::No => "< No >",
    };
    let lines = vec![
        Line { text: String::from_str(prompt.text), selected: false },
        Line { text: String::from_str(shown), selected: on_prompt },
        Line { text: String::from_str("Accept"), selected: !on_prompt },
    ];
    assert(lines.deep_view() =~= repeat_lines(prompt@));
    render(&lines, rows, cols, colors)
}

} // verus!
