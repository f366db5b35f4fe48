//! The game: its screens, one on top of the other, and the round that is
//! played at the end.

use crate::frame::main_menu::{MainMenu, MainMenuAction};
use crate::frame::options::{OptionsMenu, OptionsMenuAction};
use crate::frame::prompt::{
    draw_sliding_prompt, nav_sliding_prompt, opened, slide, sliding_lines, SlidingAction,
    SlidingSelection, SlidingView,
};
use crate::frame::random_prompt::{
    draw_input_prompt, input_lines, nav_input_prompt, opening, score_line, step, DualPrompt,
    DualView, PromptAction, Round,
};
use crate::frame::render::{footed, frame, render, Line, LineView};
use crate::frame::{draw_menu, menu_lines, menu_step, nav_menu};
use crate::input::Range;
use crate::key::Key;
use fastrand::Rng;
use vstd::prelude::*;

verus! {

/// The random number generator of the `fastrand` crate. Nothing is known of
/// its state; it is handed through to the draw.
#[verifier::external_type_specification]
#[verifier::external_body]
pub struct ExRng(Rng);

/// Calls `fastrand::Rng::usize` on the inclusive range `start..=end`.
///
/// That method panics on an empty range, which `start <= end` rules out. It
/// returns `start` plus a number below the length of the range, so what comes
/// back lies within the bounds; which number it is depends on the generator.
#[verifier::external_body]
fn draw_between(rng: &mut Rng, start: usize, end: usize) -> (drawn: usize)
    requires
        start <= end,
    ensures
        start <= drawn <= end,
{
    rng.usize(start..=end)
}

/// How a round ended.
#[derive(Clone, Copy, Debug, PartialEq, Eq)]
pub enum RandomResult {
    /// The guess is the number that was drawn.
    Correct,
    /// The guess is another number.
    Incorrect,
}

/// The outcome of a round in which `guess` was made and `drawn` came up.
pub open spec fn outcome(guess: usize, drawn: usize) -> RandomResult {
    if guess == drawn {
        RandomResult::Correct
    } else {
        RandomResult::Incorrect
    }
}

/// Compares a guess with the number drawn.
pub fn evaluate(guess: usize, drawn: usize) -> (result: RandomResult)
    ensures
        result == outcome(guess, drawn),
{
    if guess == drawn {
        RandomResult::Correct
    } else {
        RandomResult::Incorrect
    }
}

/// Draws a number between `start` and `end`, both included, or nothing where
/// `start` lies above `end`. A single point, `start == end`, is drawn as
/// itself.
pub fn draw(rng: &mut Rng, start: usize, end: usize) -> (drawn: Option<usize>)
    ensures
        drawn is Some <==> start <= end,
        drawn matches Some(number) ==> start <= number <= end,
{
    if start <= end {
        Some(draw_between(rng, start, end))
    } else {
        None
    }
}

/// Draws a number between `start` and `end`, both included, and compares
/// `input` with it; nothing where `start` lies above `end`.
///
/// Whatever is drawn lies between the bounds, and the result is the outcome
/// for that number. On a single point, `start == end`, that point is drawn,
/// so the result is `Correct` exactly where `input` is that point.
pub fn process_between(start: usize, end: usize, input: usize, rng: &mut Rng) -> (result: Option<
    RandomResult,
>)
    ensures
        result is Some <==> start <= end,
        result matches Some(found) ==> exists|drawn: usize|
            start <= drawn <= end && found == #[trigger] outcome(input, drawn),
        start == end ==> result == Some(outcome(input, start)),
{
    match draw(rng, start, end) {
        Some(random) => {
            let found = evaluate(input, random);
            assert(found == outcome(input, random));
            Some(found)
        },
        None => None,
    }
}

/// Draws a number from `range`, bounds included.
pub fn select(rng: &mut Rng, range: &Range) -> (drawn: usize)
    ensures
        range@.0 <= drawn <= range@.1,
{
    let start = range.start();
    let end = range.end();
    draw_between(rng, start, end)
}

/// Draws a number from `range` and compares `input` with it.
///
/// Whatever is drawn lies in the range, and the result is the outcome for that
/// number. An input outside the range can therefore only be `Incorrect`.
pub fn process_random(range: &Range, input: usize, rng: &mut Rng) -> (result: RandomResult)
    ensures
        exists|drawn: usize|
            range@.0 <= drawn <= range@.1 && result == #[trigger] outcome(input, drawn),
{
    let random = select(rng, range);
    let result = evaluate(input, random);
    assert(result == outcome(input, random));
    result
}

/// One screen of the game, with its own state.
pub enum Screen {
    Main(MainMenu),
    Options(OptionsMenu),
    Models(SlidingSelection<'static>),
    Round(DualPrompt<'static>),
}

/// A screen as plain values.
pub ghost enum ScreenView {
    Main(MainMenu),
    Options(OptionsMenu),
    Models(SlidingView),
    Round(DualView),
}

impl View for Screen {
    type V = ScreenView;

    open spec fn view(&self) -> ScreenView {
        match self {
            Screen::Main(menu) => ScreenView::Main(*menu),
            Screen::Options(menu) => ScreenView::Options(*menu),
            Screen::Models(selection) => ScreenView::Models(selection@),
            Screen::Round(prompt) => ScreenView::Round(prompt@),
        }
    }
}

impl DeepView for Screen {
    type V = ScreenView;

    open spec fn deep_view(&self) -> ScreenView {
        self@
    }
}

/// The game: the screens that are open, the one in use last, the model
/// that will be asked for the message, and the score so far. A game without
/// screens is over.
pub struct Game {
    screens: Vec<Screen>,
    model: String,
    score: u32,
}

/// The game as plain values.
#[verifier::ext_equal]
pub ghost struct GameView {
    pub screens: Seq<ScreenView>,
    pub model: Seq<char>,
    pub score: u32,
}

impl View for Game {
    type V = GameView;

    closed spec fn view(&self) -> GameView {
        GameView { screens: self.screens.deep_view(), model: self.model@, score: self.score }
    }
}

/// What the game asks of its caller after a key.
#[derive(Clone, Copy, Debug, PartialEq, Eq)]
pub enum Step {
    /// Show the screen again.
    Redraw,
    /// Get the list of models and hand it to `Game::choose_model`.
    FetchModels,
    /// The player asked for the model before or after the current one, but
    /// the current one stands nowhere in the list. The game is left as it
    /// was.
    ModelNotFound,
    /// Play this round; the game is over.
    Play(Round),
    /// Leave; the game is over.
    Finish,
}

/// A step as plain values.
pub ghost enum StepView {
    Redraw,
    FetchModels,
    ModelNotFound,
    Play((usize, usize, usize)),
    Finish,
}

/// The plain values of a step.
pub open spec fn step_view(step: Step) -> StepView {
    match step {
        Step::Redraw => StepView::Redraw,
        Step::FetchModels => StepView::FetchModels,
        Step::ModelNotFound => StepView::ModelNotFound,
        Step::Play(round) => StepView::Play(round@),
        Step::Finish => StepView::Finish,
    }
}

/// The model that is asked where the player names none.
pub open spec fn default_model() -> Seq<char> {
    "featherless/qwerky-72b:free"@
}

/// The instruction above the list of models.
pub open spec fn models_text() -> Seq<char> {
    "Select a model below; use the left and right arrow keys"@
}

/// The game as it starts: the main menu alone, with its first item selected.
pub open spec fn started(model: Option<Seq<char>>, score: u32) -> GameView {
    GameView {
        screens: seq![ScreenView::Main(MainMenu::Play)],
        model: match model {
            Some(name) => name,
            None => default_model(),
        },
        score,
    }
}

/// The game with `screen` in place of its last screen.
pub open spec fn replaced(game: GameView, screen: ScreenView) -> GameView {
    GameView { screens: game.screens.drop_last().push(screen), ..game }
}

/// The game with `screen` opened on top of the others.
pub open spec fn entered(game: GameView, screen: ScreenView) -> GameView {
    GameView { screens: game.screens.push(screen), ..game }
}

/// The game with its last screen closed.
pub open spec fn left(game: GameView) -> GameView {
    GameView { screens: game.screens.drop_last(), ..game }
}

/// The game with all screens closed.
pub open spec fn over(game: GameView) -> GameView {
    GameView { screens: Seq::empty(), ..game }
}

/// What a key does to the game, and what the game then asks of its caller.
///
/// The key goes to the last screen. A screen that asks for nothing is put
/// back as the key left it. The main menu opens the options or the screen of
/// a round on top of itself, or ends the game. The options ask for the list
/// of models or close. The choice of a model closes when it commits, and the
/// name in view becomes the model; where it cannot turn its list because
/// the current model stands nowhere in it, the game says so and stays as it
/// is. The screen of a round ends the game when it commits and hands its
/// values over. A game that is over stays over.
pub open spec fn play(game: GameView, key: Key) -> (GameView, StepView) {
    if game.screens.len() == 0 {
        (game, StepView::Finish)
    } else {
        match game.screens.last() {
            ScreenView::Main(menu) => {
                let next = menu_step(menu, key);
                match next.1 {
                    MainMenuAction::Pass => (
                        replaced(game, ScreenView::Main(next.0)),
                        StepView::Redraw,
                    ),
                    MainMenuAction::Finish => (over(game), StepView::Finish),
                    MainMenuAction::OptionsPage => (
                        entered(game, ScreenView::Options(OptionsMenu::Model)),
                        StepView::Redraw,
                    ),
                    MainMenuAction::StartGame => (
                        entered(game, ScreenView::Round(opening(game.score))),
                        StepView::Redraw,
                    ),
                }
            },
            ScreenView::Options(menu) => {
                let next = menu_step(menu, key);
                match next.1 {
                    OptionsMenuAction::Pass => (
                        replaced(game, ScreenView::Options(next.0)),
                        StepView::Redraw,
                    ),
                    OptionsMenuAction::GoBack => (left(game), StepView::Redraw),
                    OptionsMenuAction::ChangeModel => (game, StepView::FetchModels),
                }
            },
            ScreenView::Models(selection) => {
                let next = slide(selection, key);
                match next.1 {
                    SlidingAction::Pass => (
                        replaced(game, ScreenView::Models(next.0)),
                        StepView::Redraw,
                    ),
                    SlidingAction::Commit => (
                        GameView { model: selection.model, ..left(game) },
                        StepView::Redraw,
                    ),
                    SlidingAction::NotFound => (
                        replaced(game, ScreenView::Models(next.0)),
                        StepView::ModelNotFound,
                    ),
                }
            },
            ScreenView::Round(prompt) => {
                let next = step(prompt, key);
                match next.1 {
                    None => (replaced(game, ScreenView::Round(next.0)), StepView::Redraw),
                    Some(values) => (over(game), StepView::Play(values)),
                }
            },
        }
    }
}

/// The game after the list of models came: where the options are the last
/// screen, the choice of a model opens on the list with the current model
/// in view.
pub open spec fn chosen_from(game: GameView, models: Seq<Seq<char>>) -> Option<GameView> {
    if game.screens.len() > 0 && game.screens.last() is Options {
        Some(entered(game, ScreenView::Models(opened(models_text(), models, game.model))))
    } else {
        None
    }
}

/// Whether the screens lie on each other as the game opens them: the main
/// menu at the bottom; on it the options, and on them the choice of a model;
/// or on the main menu the screen of a round.
pub open spec fn nested(game: GameView) -> bool {
    let screens = game.screens;
    ||| screens.len() == 0
    ||| screens.len() == 1 && screens[0] is Main
    ||| screens.len() == 2 && screens[0] is Main && (screens[1] is Options || screens[1] is Round)
    ||| screens.len() == 3 && screens[0] is Main && screens[1] is Options && screens[2] is Models
}

/// The game starts with its screens in order, no key brings them out of
/// order, and neither does the list of models when it comes. Once the game
/// is over, every key finds it over.
pub proof fn lemma_screens_stay_nested(
    game: GameView,
    key: Key,
    models: Seq<Seq<char>>,
    model: Option<Seq<char>>,
    score: u32,
)
    requires
        nested(game),
    ensures
        nested(started(model, score)),
        play(game, key).0.score == game.score,
        nested(play(game, key).0),
        chosen_from(game, models) matches Some(next) ==> nested(next),
        game.screens.len() == 0 ==> play(game, key) == (game, StepView::Finish),
        (play(game, key).1 is Finish || play(game, key).1 is Play) ==> play(
            game,
            key,
        ).0.screens.len() == 0,
{
}

/// The rows that show the last screen of the game in a terminal of `rows`
/// by `cols`: the frame of its lines, with the score in the last row on the
/// screen of a round. A game that is over shows blank rows only.
pub open spec fn game_frame(game: GameView, rows: nat, cols: nat, colors: bool) -> Seq<Seq<char>> {
    if game.screens.len() == 0 {
        frame(Seq::empty(), rows, cols, colors)
    } else {
        match game.screens.last() {
            ScreenView::Main(menu) => frame(menu_lines(menu), rows, cols, colors),
            ScreenView::Options(menu) => frame(menu_lines(menu), rows, cols, colors),
            ScreenView::Models(selection) => frame(
                sliding_lines(selection.prompt),
                rows,
                cols,
                colors,
            ),
            ScreenView::Round(prompt) => footed(
                input_lines(prompt),
                score_line(prompt),
                rows,
                cols,
                colors,
            ),
        }
    }
}

impl Game {
    /// A game that starts at the main menu, with the given model or the
    /// default one, and the score so far.
    pub fn new(model: Option<String>, score: u32) -> (game: Self)
        ensures
            game@ == started(
                match model {
                    Some(name) => Some(name@),
                    None => None,
                },
                score,
            ),
    {
        let model = match model {
            Some(name) => name,
            None => String::from_str("featherless/qwerky-72b:free"),
        };
        let screens = vec![Screen::Main(MainMenu::Play)];
        let game = Self { screens, model, score };
        assert(game@.screens =~= seq![ScreenView::Main(MainMenu::Play)]);
        game
    }

    /// The model that will be asked for the message.
    pub fn model(&self) -> (name: &String)
        ensures
            name@ == self@.model,
    {
        &self.model
    }

    /// The score so far.
    pub fn score(&self) -> (score: u32)
        ensures
            score == self@.score,
    {
        self.score
    }

    /// Whether the game is over.
    pub fn finished(&self) -> (over: bool)
        ensures
            over == (self@.screens.len() == 0),
    {
        self.screens.len() == 0
    }

    /// Handles one key.
    pub fn handle(&mut self, key: Key) -> (asked: Step)
        ensures
            final(self)@ == play(old(self)@, key).0,
            step_view(asked) == play(old(self)@, key).1,
    {
        let ghost before = self@;
        let top = match self.screens.pop() {
            Some(screen) => screen,
            None => {
                return Step::Finish;
            },
        };
        assert(self.screens.deep_view() =~= before.screens.drop_last());
        assert(top@ == before.screens.last());
        match top {
            Screen::Main(mut menu) => match nav_menu(&mut menu, key) {
                MainMenuAction::Pass => {
                    self.screens.push(Screen::Main(menu));
                    assert(self@ =~= replaced(before, ScreenView::Main(menu)));
                    Step::Redraw
                },
                MainMenuAction::Finish => {
                    self.screens.clear();
                    assert(self@ =~= over(before));
                    Step::Finish
                },
                MainMenuAction::OptionsPage => {
                    self.screens.push(Screen::Main(menu));
                    self.screens.push(Screen::Options(OptionsMenu::Model));
                    assert(self@ =~= entered(before, ScreenView::Options(OptionsMenu::Model)));
                    Step::Redraw
                },
                MainMenuAction::StartGame => {
                    self.screens.push(Screen::Main(menu));
                    self.screens.push(Screen::Round(DualPrompt::new(self.score)));
                    assert(self@ =~= entered(before, ScreenView::Round(opening(before.score))));
                    Step::Redraw
                },
            },
            Screen::Options(mut menu) => match nav_menu(&mut menu, key) {
                OptionsMenuAction::Pass => {
                    self.screens.push(Screen::Options(menu));
                    assert(self@ =~= replaced(before, ScreenView::Options(menu)));
                    Step::Redraw
                },
                OptionsMenuAction::GoBack => {
                    assert(self@ =~= left(before));
                    Step::Redraw
                },
                OptionsMenuAction::ChangeModel => {
                    self.screens.push(Screen::Options(menu));
                    assert(self@ =~= before);
                    Step::FetchModels
                },
            },
            Screen::Models(mut selection) => match nav_sliding_prompt(&mut selection, key) {
                SlidingAction::Pass => {
                    let ghost after = selection@;
                    self.screens.push(Screen::Models(selection));
                    assert(self@ =~= replaced(before, ScreenView::Models(after)));
                    Step::Redraw
                },
                SlidingAction::Commit => {
                    self.model = selection.chosen().clone();
                    assert(self@ =~= GameView { model: selection@.model, ..left(before) });
                    Step::Redraw
                },
                SlidingAction::NotFound => {
                    let ghost after = selection@;
                    self.screens.push(Screen::Models(selection));
                    assert(self@ =~= replaced(before, ScreenView::Models(after)));
                    Step::ModelNotFound
                },
            },
            Screen::Round(mut prompt) => match nav_input_prompt(&mut prompt, key) {
                PromptAction::Pass => {
                    let ghost after = prompt@;
                    self.screens.push(Screen::Round(prompt));
                    assert(self@ =~= replaced(before, ScreenView::Round(after)));
                    Step::Redraw
                },
                PromptAction::Commit(round) => {
                    self.screens.clear();
                    assert(self@ =~= over(before));
                    Step::Play(round)
                },
            },
        }
    }

    /// Takes the list of models that `Step::FetchModels` asked for and opens
    /// the choice among them, with the current model in view. Returns
    /// whether it did: it does not where the options are not the last
    /// screen, and the game is then left as it was.
    pub fn choose_model(&mut self, models: Vec<String>) -> (opened: bool)
        ensures
            opened == chosen_from(old(self)@, models.deep_view()) is Some,
            final(self)@ == match chosen_from(old(self)@, models.deep_view()) {
                Some(game) => game,
                None => old(self)@,
            },
    {
        let ghost before = self@;
        let count = self.screens.len();
        if count == 0 {
            return false;
        }
        match &self.screens[count - 1] {
            Screen::Options(_) => {},
            _ => {
                return false;
            },
        }
        let selection = SlidingSelection::new(
            "Select a model below; use the left and right arrow keys",
            models,
            self.model.as_str(),
        );
        let ghost shown = selection@;
        self.screens.push(Screen::Models(selection));
        assert(self@ =~= entered(before, ScreenView::Models(shown)));
        true
    }

    /// Lays the last screen out for a terminal of `rows` rows and `cols`
    /// columns. A game that is over shows blank rows only.
    pub fn draw(&self, rows: usize, cols: usize, colors: bool) -> (out: Vec<String>)
        ensures
            out.deep_view() == game_frame(self@, rows as nat, cols as nat, colors),
    {
        let count = self.screens.len();
        if count == 0 {
            let lines: Vec<Line> = Vec::new();
            assert(lines.deep_view() =~= Seq::<LineView>::empty());
            return render(&lines, rows, cols, colors);
        }
        assert(self.screens.deep_view().last() == self.screens@[count - 1]@);
        match &self.screens[count - 1] {
            Screen::Main(menu) => draw_menu(menu, rows, cols, colors),
            Screen::Options(menu) => draw_menu(menu, rows, cols, colors),
            Screen::Models(selection) => draw_sliding_prompt(
                selection.prompt(),
                rows,
                cols,
                colors,
            ),
            Screen::Round(prompt) => draw_input_prompt(prompt, rows, cols, colors),
        }
    }
}

} // verus!
