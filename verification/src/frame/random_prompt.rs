//! The screen of a round: a field for the range, a field for the guess, and
//! a control to accept both.

use crate::frame::render::{footed, one_selected, render_with_footer, Line, LineView};
use crate::input::{
    decimal_text, number, parse_guess, parse_guess_spec, parse_number, parse_range,
    parse_range_spec, sep_at, write_number, Range,
};
use crate::key::Key;
use vstd::prelude::*;

verus! {

/// A field of free text under a line that says what to type.
#[derive(Debug, PartialEq, Eq)]
pub struct Prompt<'contents> {
    pub text: &'contents str,
    pub prompt: String,
}

/// A field as plain values.
pub ghost struct PromptView {
    pub text: Seq<char>,
    pub prompt: Seq<char>,
}

impl<'contents> View for Prompt<'contents> {
    type V = PromptView;

    open spec fn view(&self) -> PromptView {
        PromptView { text: self.text@, prompt: self.prompt@ }
    }
}

impl<'contents> Prompt<'contents> {
    /// An empty field under the given instruction.
    pub fn new(text: &'contents str) -> (field: Self)
        ensures
            field@ == (PromptView { text: text@, prompt: Seq::<char>::empty() }),
    {
        Self { text, prompt: String::new() }
    }
}

/// The three places of the screen, from top to bottom.
#[derive(Clone, Copy, Debug, PartialEq, Eq)]
pub enum Focus {
    /// The field of the range. It has the focus when the screen opens.
    RangePrompt,
    /// The field of the guess.
    RandomPrompt,
    /// The control that accepts both.
    Accept,
}

/// What the keys currently do.
#[derive(Clone, Copy, Debug, PartialEq, Eq)]
pub enum Stage {
    /// The arrow keys move the focus among the three places.
    Choosing,
    /// The keys are typed into the field that has the focus.
    Typing,
}

/// A validated guess and the range it was made for.
#[derive(Clone, Copy, Debug, PartialEq, Eq)]
pub struct Round {
    pub guess: usize,
    pub range: Range,
}

impl View for Round {
    type V = (usize, usize, usize);

    /// The guess, then the first and the last number of the range.
    open spec fn view(&self) -> (usize, usize, usize) {
        (self.guess, self.range@.0, self.range@.1)
    }
}

/// What a key asks of the caller of the screen.
#[derive(Clone, Copy, Debug, PartialEq, Eq)]
pub enum PromptAction {
    /// Nothing: show the screen again.
    Pass,
    /// Both fields are accepted, and the screen ends.
    Commit(Round),
}

/// The values that an action hands to the caller, if any.
pub open spec fn payload(action: PromptAction) -> Option<(usize, usize, usize)> {
    match action {
        PromptAction::Pass => None,
        PromptAction::Commit(round) => Some(round@),
    }
}

/// The screen of a round, with the score that it shows at the bottom.
pub struct DualPrompt<'contents> {
    range: Prompt<'contents>,
    random: Prompt<'contents>,
    selected: Focus,
    stage: Stage,
    score: u32,
}

/// The screen of a round as plain values.
pub ghost struct DualView {
    pub range: PromptView,
    pub random: PromptView,
    pub selected: Focus,
    pub stage: Stage,
    pub score: u32,
}

impl<'contents> View for DualPrompt<'contents> {
    type V = DualView;

    closed spec fn view(&self) -> DualView {
        DualView {
            range: self.range@,
            random: self.random@,
            selected: self.selected,
            stage: self.stage,
            score: self.score,
        }
    }
}

/// The place above `focus`, going round.
pub open spec fn above(focus: Focus) -> Focus {
    match focus {
        Focus::RangePrompt => Focus::Accept,
        Focus::RandomPrompt => Focus::RangePrompt,
        Focus::Accept => Focus::RandomPrompt,
    }
}

/// The place below `focus`, going round.
pub open spec fn below(focus: Focus) -> Focus {
    match focus {
        Focus::RangePrompt => Focus::RandomPrompt,
        Focus::RandomPrompt => Focus::Accept,
        Focus::Accept => Focus::RangePrompt,
    }
}

/// A buffer after a key was typed into it: a character is appended,
/// backspace removes the last one, any other key changes nothing.
pub open spec fn typed(buffer: Seq<char>, key: Key) -> Seq<char> {
    match key {
        Key::Char(ch) => buffer.push(ch),
        Key::Backspace => if buffer.len() > 0 {
            buffer.drop_last()
        } else {
            buffer
        },
        _ => buffer,
    }
}

/// Whether the field of the guess may be left with `guess` in it, while the
/// field of the range holds `range`: the guess is a number, and where the
/// other field holds a range, a number within that range.
pub open spec fn guess_fits(range: Seq<char>, guess: Seq<char>) -> bool {
    match parse_range_spec(range) {
        Ok(bounds) => parse_guess_spec(guess, bounds) is Ok,
        Err(_) => number(guess) is Some,
    }
}

/// What accepting yields with these two buffers: the guess and the bounds,
/// where the first buffer is a range and the second a guess within it.
pub open spec fn accepted(range: Seq<char>, guess: Seq<char>) -> Option<(usize, usize, usize)> {
    match parse_range_spec(range) {
        Ok(bounds) => match parse_guess_spec(guess, bounds) {
            Ok(guess) => Some((guess, bounds.0, bounds.1)),
            Err(_) => None,
        },
        Err(_) => None,
    }
}

/// The screen with `buffer` in the field that has the focus.
pub open spec fn with_buffer(screen: DualView, buffer: Seq<char>) -> DualView {
    match screen.selected {
        Focus::RangePrompt => DualView {
            range: PromptView { prompt: buffer, ..screen.range },
            ..screen
        },
        Focus::RandomPrompt => DualView {
            random: PromptView { prompt: buffer, ..screen.random },
            ..screen
        },
        Focus::Accept => screen,
    }
}

/// The buffer of the field that has the focus; the control has none.
pub open spec fn buffer(screen: DualView) -> Seq<char> {
    match screen.selected {
        Focus::RangePrompt => screen.range.prompt,
        Focus::RandomPrompt => screen.random.prompt,
        Focus::Accept => Seq::empty(),
    }
}

/// Whether the field that has the focus may be left with what it holds.
pub open spec fn may_leave(screen: DualView) -> bool {
    match screen.selected {
        Focus::RangePrompt => parse_range_spec(screen.range.prompt) is Ok,
        Focus::RandomPrompt => guess_fits(screen.range.prompt, screen.random.prompt),
        Focus::Accept => true,
    }
}

/// What a key does to the screen, and what it hands to the caller.
///
/// While choosing, up and down move the focus, going round; the confirmation
/// key opens the field that has the focus for typing, or, on the control,
/// accepts the two fields if they hold a range and a guess within it. While
/// typing, characters and backspace edit the field; the escape key leaves the
/// field if what it holds is valid, and empties it if not.
pub open spec fn step(screen: DualView, key: Key) -> (DualView, Option<(usize, usize, usize)>) {
    match screen.stage {
        Stage::Typing => match key {
            Key::Escape => if may_leave(screen) {
                (DualView { stage: Stage::Choosing, ..screen }, None)
            } else {
                (with_buffer(screen, Seq::empty()), None)
            },
            _ => (with_buffer(screen, typed(buffer(screen), key)), None),
        },
        Stage::Choosing => match key {
            Key::Enter => match screen.selected {
                Focus::Accept => (screen, accepted(screen.range.prompt, screen.random.prompt)),
                _ => (DualView { stage: Stage::Typing, ..screen }, None),
            },
            Key::ArrowUp => (DualView { selected: above(screen.selected), ..screen }, None),
            Key::ArrowDown => (DualView { selected: below(screen.selected), ..screen }, None),
            _ => (screen, None),
        },
    }
}

fn type_key(buffer: &mut String, key: Key)
    ensures
        final(buffer)@ == typed(old(buffer)@, key),
{
    match key {
        Key::Char(ch) => {
            buffer.push(ch);
        },
        Key::Backspace => {
            let _ = buffer.pop();
        },
        _ => {},
    }
}

fn check_guess(range: &str, guess: &str) -> (fits: bool)
    ensures
        fits == guess_fits(range@, guess@),
{
    match parse_range(range) {
        Ok(bounds) => parse_guess(guess, &bounds).is_ok(),
        Err(_) => parse_number(guess).is_some(),
    }
}

fn accept(range: &str, guess: &str) -> (action: PromptAction)
    ensures
        payload(action) == accepted(range@, guess@),
{
    match parse_range(range) {
        Ok(bounds) => match parse_guess(guess, &bounds) {
            Ok(guess) => PromptAction::Commit(Round { guess, range: bounds }),
            Err(_) => PromptAction::Pass,
        },
        Err(_) => PromptAction::Pass,
    }
}

/// The screen as it opens: both fields empty, the focus on the range, and
/// the given score to show.
pub open spec fn opening(score: u32) -> DualView {
    DualView {
        range: PromptView { text: "Input a range in the format n..m"@, prompt: Seq::empty() },
        random: PromptView {
            text: "Input a random number in the above range"@,
            prompt: Seq::empty(),
        },
        selected: Focus::RangePrompt,
        stage: Stage::Choosing,
        score,
    }
}

impl<'contents> DualPrompt<'contents> {
    /// The screen as it opens, with the score so far.
    pub fn new(score: u32) -> (screen: Self)
        ensures
            screen@ == opening(score),
    {
        Self {
            range: Prompt::new("Input a range in the format n..m"),
            random: Prompt::new("Input a random number in the above range"),
            selected: Focus::RangePrompt,
            stage: Stage::Choosing,
            score,
        }
    }

    /// The score that the screen shows.
    pub fn score(&self) -> (score: u32)
        ensures
            score == self@.score,
    {
        self.score
    }

    /// The field of the range.
    pub fn range(&self) -> (field: &Prompt<'contents>)
        ensures
            field@ == self@.range,
    {
        &self.range
    }

    /// The field of the guess.
    pub fn random(&self) -> (field: &Prompt<'contents>)
        ensures
            field@ == self@.random,
    {
        &self.random
    }

    /// The place that has the focus.
    pub fn selected(&self) -> (focus: Focus)
        ensures
            focus == self@.selected,
    {
        self.selected
    }

    /// Whether keys are typed into a field.
    pub fn typing(&self) -> (typing: bool)
        ensures
            typing == (self@.stage == Stage::Typing),
    {
        match self.stage {
            Stage::Typing => true,
            Stage::Choosing => false,
        }
    }
}

/// Handles one key on the screen of a round.
pub fn nav_input_prompt(screen: &mut DualPrompt, key: Key) -> (action: PromptAction)
    ensures
        final(screen)@ == step(old(screen)@, key).0,
        payload(action) == step(old(screen)@, key).1,
{
    match screen.stage {
        Stage::Typing => match screen.selected {
            Focus::RangePrompt => {
                if let Key::Escape = key {
                    if parse_range(screen.range.prompt.as_str()).is_ok() {
                        screen.stage = Stage::Choosing;
                    } else {
                        screen.range.prompt = String::new();
                    }
                } else {
                    type_key(&mut screen.range.prompt, key);
                }
                PromptAction::Pass
            },
            Focus::RandomPrompt => {
                if let Key::Escape = key {
                    if check_guess(screen.range.prompt.as_str(), screen.random.prompt.as_str()) {
                        screen.stage = Stage::Choosing;
                    } else {
                        screen.random.prompt = String::new();
                    }
                } else {
                    type_key(&mut screen.random.prompt, key);
                }
                PromptAction::Pass
            },
            Focus::Accept => {
                if let Key::Escape = key {
                    screen.stage = Stage::Choosing;
                }
                PromptAction::Pass
            },
        },
        Stage::Choosing => match key {
            Key::Enter => match screen.selected {
                Focus::Accept => accept(
                    screen.range.prompt.as_str(),
                    screen.random.prompt.as_str(),
                ),
                _ => {
                    screen.stage = Stage::Typing;
                    PromptAction::Pass
                },
            },
            Key::ArrowUp => {
                screen.selected = match screen.selected {
                    Focus::RangePrompt => Focus::Accept,
                    Focus::RandomPrompt => Focus::RangePrompt,
                    Focus::Accept => Focus::RandomPrompt,
                };
                PromptAction::Pass
            },
            Key::ArrowDown => {
                screen.selected = match screen.selected {
                    Focus::RangePrompt => Focus::RandomPrompt,
                    Focus::RandomPrompt => Focus::Accept,
                    Focus::Accept => Focus::RangePrompt,
                };
                PromptAction::Pass
            },
            _ => PromptAction::Pass,
        },
    }
}

/// What a field shows: its buffer, or a pair of brackets while it is empty.
pub open spec fn shown(buffer: Seq<char>) -> Seq<char> {
    if buffer.len() == 0 {
        "()"@
    } else {
        buffer
    }
}

/// The five lines of the screen: each field under its instruction, then the
/// control. The place that has the focus is marked.
pub open spec fn input_lines(screen: DualView) -> Seq<LineView> {
    seq![
        LineView { text: screen.range.text, selected: false },
        LineView {
            text: shown(screen.range.prompt),
            selected: screen.selected == Focus::RangePrompt,
        },
        LineView { text: screen.random.text, selected: false },
        LineView {
            text: shown(screen.random.prompt),
            selected: screen.selected == Focus::RandomPrompt,
        },
        LineView { text: "Accept"@, selected: screen.selected == Focus::Accept },
    ]
}

/// Exactly one line of the screen is marked.
pub proof fn lemma_input_has_one_selected(screen: DualView)
    ensures
        one_selected(input_lines(screen)),
{
    let lines = input_lines(screen);
    match screen.selected {
        Focus::RangePrompt => {
            assert(lines[1].selected);
        },
        Focus::RandomPrompt => {
            assert(lines[3].selected);
        },
        Focus::Accept => {
            assert(lines[4].selected);
        },
    }
}

fn show(buffer: &String) -> (text: String)
    ensures
        text@ == shown(buffer@),
{
    if buffer.as_str().is_empty() {
        String::from_str("()")
    } else {
        buffer.clone()
    }
}

/// What the line at the bottom says: the score.
pub open spec fn score_text(score: u32) -> Seq<char> {
    "Score "@ + decimal_text(score as nat)
}

/// The line at the bottom of the screen. It is written in the style of a
/// selected line, though it is none of the three places.
pub open spec fn score_line(screen: DualView) -> LineView {
    LineView { text: score_text(screen.score), selected: true }
}

/// Lays the screen out for a terminal of `rows` rows and `cols` columns: the
/// five lines in the middle of all rows but the last, and the score in the
/// last row.
pub fn draw_input_prompt(screen: &DualPrompt, rows: usize, cols: usize, colors: bool) -> (out: Vec<
    String,
>)
    ensures
        out.deep_view() == footed(
            input_lines(screen@),
            score_line(screen@),
            rows as nat,
            cols as nat,
            colors,
        ),
{
    let (on_range, on_random, on_accept) = match screen.selected {
        Focus::RangePrompt => (true, false, false),
        Focus::RandomPrompt => (false, true, false),
        Focus::Accept => (false, false, true),
    };
    let lines = vec![
        Line { text: String::from_str(screen.range.text), selected: false },
        Line { text: show(&screen.range.prompt), selected: on_range },
        Line { text: String::from_str(screen.random.text), selected: false },
        Line { text: show(&screen.random.prompt), selected: on_random },
        Line { text: String::from_str("Accept"), selected: on_accept },
    ];
    assert(lines.deep_view() =~= input_lines(screen@));
    let mut text = String::from_str("Score ");
    text.append(write_number(screen.score).as_str());
    let footer = Line { text, selected: true };
    render_with_footer(&lines, &footer, rows, cols, colors)
}

/// Accepting does nothing while a field is empty: the screen stays as it
/// is, and nothing is handed to the caller.
pub proof fn lemma_empty_field_is_not_accepted(screen: DualView)
    requires
        screen.stage == Stage::Choosing,
        screen.selected == Focus::Accept,
        screen.range.prompt.len() == 0 || screen.random.prompt.len() == 0,
    ensures
        step(screen, Key::Enter) == (screen, None::<(usize, usize, usize)>),
{
    if screen.range.prompt.len() == 0 {
        assert forall|i: int| !sep_at(screen.range.prompt, i) by {}
    }
}

/// What is handed to the caller is a guess within its range, first bound
/// below the last, and only the confirmation key on the control hands
/// anything over.
pub proof fn lemma_committed_is_valid(screen: DualView, key: Key)
    requires
        step(screen, key).1 is Some,
    ensures
        key == Key::Enter,
        screen.stage == Stage::Choosing,
        screen.selected == Focus::Accept,
        step(screen, key).0 == screen,
        ({
            let (guess, start, end) = step(screen, key).1->0;
            start < end && start <= guess <= end
        }),
{
}

/// Whether the screen is in order: keys are typed into a field only, never
/// into the control.
pub open spec fn types_into_field(screen: DualView) -> bool {
    screen.stage == Stage::Typing ==> screen.selected != Focus::Accept
}

/// The screen opens in order, no key brings it out of order, and none
/// changes the two instructions or the score.
pub proof fn lemma_step_keeps_order(screen: DualView, key: Key, score: u32)
    requires
        types_into_field(screen),
    ensures
        types_into_field(opening(score)),
        step(screen, key).0.score == screen.score,
        types_into_field(step(screen, key).0),
        step(screen, key).0.range.text == screen.range.text,
        step(screen, key).0.random.text == screen.random.text,
{
}

} // verus!
