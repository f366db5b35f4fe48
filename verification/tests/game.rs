use randyrand::game::{
    draw, evaluate, process_between, process_random, select, Game, RandomResult, Step,
};
use randyrand::input::parse_range;
use randyrand::key::Key;

fn press(game: &mut Game, keys: &[Key]) {
    for key in keys {
        assert_eq!(game.handle(*key), Step::Redraw);
    }
}

fn type_text(game: &mut Game, text: &str) {
    for ch in text.chars() {
        assert_eq!(game.handle(Key::Char(ch)), Step::Redraw);
    }
}

fn models() -> Vec<String> {
    vec![
        "a/one".to_owned(),
        "featherless/qwerky-72b:free".to_owned(),
        "c/three".to_owned(),
    ]
}

#[test]
fn a_guess_is_correct_only_if_it_is_the_number_drawn() {
    assert_eq!(evaluate(7, 7), RandomResult::Correct);
    assert_eq!(evaluate(3, 7), RandomResult::Incorrect);
}

#[test]
fn draws_stay_within_their_range() {
    let mut rng = fastrand::Rng::with_seed(7);
    let texts = ["0..1", "1..10", "3..4", "5..500", "0..18446744073709551615", "999..1001"];
    let mut draws = 0;
    for text in texts {
        let range = parse_range(text).unwrap();
        for _ in 0..2000 {
            let drawn = select(&mut rng, &range);
            assert!(range.start() <= drawn && drawn <= range.end());
            draws += 1;
        }
    }
    assert!(draws >= 10_000);
}

#[test]
fn draws_reach_both_bounds() {
    let mut rng = fastrand::Rng::with_seed(11);
    let range = parse_range("3..5").unwrap();
    let mut seen = [false; 3];
    for _ in 0..1000 {
        seen[select(&mut rng, &range) - 3] = true;
    }
    assert_eq!(seen, [true, true, true]);
}

#[test]
fn a_single_point_is_drawn_as_itself() {
    let mut rng = fastrand::Rng::new();
    for _ in 0..100 {
        assert_eq!(draw(&mut rng, 5, 5), Some(5));
    }
    assert_eq!(draw(&mut rng, 0, 0), Some(0));
    assert_eq!(draw(&mut rng, 6, 5), None);
    for _ in 0..1000 {
        let drawn = draw(&mut rng, 2, 4).unwrap();
        assert!((2..=4).contains(&drawn));
    }
}

#[test]
fn a_guess_outside_the_range_is_never_correct() {
    let mut rng = fastrand::Rng::new();
    let range = parse_range("1..10").unwrap();
    for _ in 0..1000 {
        assert_eq!(process_random(&range, 11, &mut rng), RandomResult::Incorrect);
        assert_eq!(process_random(&range, 0, &mut rng), RandomResult::Incorrect);
    }
}

#[test]
fn a_guess_inside_the_range_comes_out_both_ways() {
    let mut rng = fastrand::Rng::with_seed(3);
    let range = parse_range("1..2").unwrap();
    let mut correct = 0;
    let mut incorrect = 0;
    for _ in 0..1000 {
        match process_random(&range, 1, &mut rng) {
            RandomResult::Correct => correct += 1,
            RandomResult::Incorrect => incorrect += 1,
        }
    }
    assert!(correct > 0 && incorrect > 0);
}

#[test]
fn a_round_from_the_menu_to_the_outcome() {
    let mut game = Game::new(None, 0);
    press(&mut game, &[Key::Enter, Key::Enter]);
    type_text(&mut game, "1..10");
    press(&mut game, &[Key::Escape, Key::ArrowDown, Key::Enter]);
    type_text(&mut game, "10");
    press(&mut game, &[Key::Escape, Key::ArrowDown]);
    let round = match game.handle(Key::Enter) {
        Step::Play(round) => round,
        other => panic!("no round: {:?}", other),
    };
    assert!(game.finished());
    assert_eq!(
        (round.guess, round.range.start(), round.range.end()),
        (10, 1, 10)
    );
    for drawn in 1..=10 {
        let expected = if drawn == 10 {
            RandomResult::Correct
        } else {
            RandomResult::Incorrect
        };
        assert_eq!(evaluate(round.guess, drawn), expected);
    }
    let mut rng = fastrand::Rng::new();
    for _ in 0..100 {
        let drawn = select(&mut rng, &round.range);
        assert!((1..=10).contains(&drawn));
    }
}

#[test]
fn the_game_starts_at_the_main_menu() {
    let game = Game::new(None, 0);
    assert!(!game.finished());
    assert_eq!(game.model(), "featherless/qwerky-72b:free");
    assert_eq!(
        game.draw(5, 9, false),
        vec!["", "  Play   ", " Options ", "  Exit   ", ""]
    );
    let game = Game::new(Some("x/y".to_owned()), 3);
    assert_eq!(game.model(), "x/y");
    assert_eq!(game.score(), 3);
}

#[test]
fn exit_ends_the_game() {
    let mut game = Game::new(None, 0);
    press(&mut game, &[Key::ArrowUp]);
    assert_eq!(game.handle(Key::Enter), Step::Finish);
    assert!(game.finished());
    assert_eq!(game.handle(Key::Enter), Step::Finish);
    assert_eq!(game.handle(Key::ArrowDown), Step::Finish);
    assert!(!game.choose_model(models()));
    assert_eq!(game.draw(2, 3, true), vec!["", ""]);
}

#[test]
fn the_options_open_and_close() {
    let mut game = Game::new(None, 0);
    press(&mut game, &[Key::ArrowDown, Key::Enter]);
    assert_eq!(
        game.draw(4, 8, false),
        vec!["", " Model  ", " Return ", ""]
    );
    press(&mut game, &[Key::ArrowDown, Key::Enter]);
    assert_eq!(
        game.draw(5, 9, false),
        vec!["", "  Play   ", " Options ", "  Exit   ", ""]
    );
    press(&mut game, &[Key::Enter]);
    assert_eq!(game.draw(2, 7, false), vec![" Model ", "Return "]);
}

#[test]
fn a_model_is_chosen_from_the_list() {
    let mut game = Game::new(None, 0);
    assert!(!game.choose_model(models()));
    press(&mut game, &[Key::ArrowDown, Key::Enter]);
    assert_eq!(game.handle(Key::Enter), Step::FetchModels);
    assert!(game.choose_model(models()));
    assert_eq!(
        game.draw(3, 0, false),
        vec![
            "   Select a model below; use the left and right arrow keys   ",
            "   < featherless/qwerky-72b:free >   ",
            "   Return   ",
        ]
    );
    press(&mut game, &[Key::ArrowRight, Key::ArrowRight]);
    assert_eq!(game.model(), "featherless/qwerky-72b:free");
    press(&mut game, &[Key::ArrowUp, Key::Enter]);
    assert_eq!(game.model(), "a/one");
    assert_eq!(game.draw(2, 0, false), vec!["Model", "Return"]);
}

#[test]
fn a_model_outside_the_list_is_found_missing_when_the_list_is_turned() {
    let mut game = Game::new(Some("not/listed".to_owned()), 0);
    press(&mut game, &[Key::ArrowDown, Key::Enter]);
    assert_eq!(game.handle(Key::Enter), Step::FetchModels);
    assert!(game.choose_model(models()));
    assert!(!game.choose_model(models()));
    assert_eq!(
        game.draw(3, 0, false),
        vec![
            "   Select a model below; use the left and right arrow keys   ",
            "   < not/listed >   ",
            "   Return   ",
        ]
    );
    assert_eq!(game.handle(Key::ArrowLeft), Step::ModelNotFound);
    assert_eq!(game.handle(Key::ArrowRight), Step::ModelNotFound);
    assert_eq!(
        game.draw(3, 0, false)[1],
        "   < not/listed >   "
    );
    press(&mut game, &[Key::ArrowDown, Key::Enter]);
    assert_eq!(game.model(), "not/listed");
    assert_eq!(game.draw(2, 0, false), vec!["Model", "Return"]);
}

#[test]
fn the_round_screen_shows_the_score_of_the_game() {
    let mut game = Game::new(None, 12);
    press(&mut game, &[Key::Enter]);
    assert_eq!(
        game.draw(7, 10, false),
        vec![
            "Input a range in the format n..m",
            "    ()    ",
            "Input a random number in the above range",
            "    ()    ",
            "  Accept  ",
            "",
            " Score 12 ",
        ]
    );
}

#[test]
fn a_round_on_a_single_point_draws_that_point() {
    let mut rng = fastrand::Rng::new();
    for _ in 0..100 {
        assert_eq!(
            process_between(5, 5, 5, &mut rng),
            Some(RandomResult::Correct)
        );
        assert_eq!(
            process_between(5, 5, 4, &mut rng),
            Some(RandomResult::Incorrect)
        );
    }
    assert_eq!(process_between(0, 0, 0, &mut rng), Some(RandomResult::Correct));
    assert_eq!(process_between(6, 5, 5, &mut rng), None);
    assert_eq!(
        process_between(1, 10, 11, &mut rng),
        Some(RandomResult::Incorrect)
    );
    let mut correct = 0;
    for _ in 0..1000 {
        if process_between(1, 2, 2, &mut rng) == Some(RandomResult::Correct) {
            correct += 1;
        }
    }
    assert!(0 < correct && correct < 1000);
}
