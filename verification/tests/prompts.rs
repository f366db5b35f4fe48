use randyrand::frame::prompt::{
    draw_sliding_prompt, find_name, nav_sliding_prompt, verify_model, SelectedItem, SlidingAction,
    SlidingPrompt, SlidingSelection,
};
use randyrand::frame::random_prompt::{
    draw_input_prompt, nav_input_prompt, DualPrompt, Focus, Prompt, PromptAction,
};
use randyrand::frame::repeat_prompt::{
    draw_repeat_prompt, nav_repeat_prompt, PromptSelectable, RepeatPrompt, Selectable,
};
use randyrand::key::Key;

fn names(list: &[&str]) -> Vec<String> {
    list.iter().map(|name| (*name).to_owned()).collect()
}

fn five() -> Vec<String> {
    names(&["a/one", "b/two", "c/three", "d/four", "e/five"])
}

fn type_text(screen: &mut DualPrompt, text: &str) {
    for ch in text.chars() {
        assert_eq!(nav_input_prompt(screen, Key::Char(ch)), PromptAction::Pass);
    }
}

#[test]
fn sliding_prompt_starts_on_the_selector() {
    let prompt = SlidingPrompt::new("Pick one", "< a >".to_owned());
    assert_eq!(prompt.text, "Pick one");
    assert_eq!(prompt.selector, "< a >");
    assert_eq!(prompt.selected, SelectedItem::Selector);
}

#[test]
fn switch_selector_changes_the_entry_only() {
    let mut prompt = SlidingPrompt::new("Pick one", "< a >".to_owned());
    prompt.selected = SelectedItem::Return;
    prompt.switch_selector("< b >".to_owned());
    assert_eq!(
        prompt,
        SlidingPrompt {
            text: "Pick one",
            selector: "< b >".to_owned(),
            selected: SelectedItem::Return,
        }
    );
}

#[test]
fn selection_starts_at_the_current_model() {
    let selection = SlidingSelection::new("Pick", five(), "c/three");
    assert_eq!(selection.chosen(), "c/three");
    assert_eq!(selection.prompt().selector, "< c/three >");
    assert_eq!(selection.prompt().selected, SelectedItem::Selector);
    assert_eq!(selection.prompt().text, "Pick");
}

#[test]
fn a_name_outside_the_list_is_shown_but_cannot_be_turned() {
    for list in [five(), Vec::new()] {
        let mut selection = SlidingSelection::new("Pick", list, "z/none");
        assert_eq!(selection.chosen(), "z/none");
        assert_eq!(selection.prompt().selector, "< z/none >");
        assert_eq!(
            nav_sliding_prompt(&mut selection, Key::ArrowLeft),
            SlidingAction::NotFound
        );
        assert_eq!(
            nav_sliding_prompt(&mut selection, Key::ArrowRight),
            SlidingAction::NotFound
        );
        assert_eq!(selection.chosen(), "z/none");
        assert_eq!(selection.prompt().selector, "< z/none >");
        assert_eq!(selection.prompt().selected, SelectedItem::Selector);
        assert_eq!(
            nav_sliding_prompt(&mut selection, Key::ArrowDown),
            SlidingAction::Pass
        );
        assert_eq!(
            nav_sliding_prompt(&mut selection, Key::ArrowLeft),
            SlidingAction::Pass
        );
        assert_eq!(
            nav_sliding_prompt(&mut selection, Key::Enter),
            SlidingAction::Commit
        );
        assert_eq!(selection.chosen(), "z/none");
    }
}

#[test]
fn a_name_that_stands_twice_counts_at_its_first_place() {
    let mut selection = SlidingSelection::new("Pick", names(&["a", "b", "a", "c"]), "a");
    nav_sliding_prompt(&mut selection, Key::ArrowLeft);
    assert_eq!(selection.chosen(), "c");
    nav_sliding_prompt(&mut selection, Key::ArrowLeft);
    assert_eq!(selection.chosen(), "a");
    nav_sliding_prompt(&mut selection, Key::ArrowLeft);
    assert_eq!(selection.chosen(), "b");
}

#[test]
fn left_from_the_first_of_five_is_the_last() {
    let mut selection = SlidingSelection::new("Pick", five(), "a/one");
    assert_eq!(
        nav_sliding_prompt(&mut selection, Key::ArrowLeft),
        SlidingAction::Pass
    );
    assert_eq!(selection.chosen(), "e/five");
    assert_eq!(selection.prompt().selector, "< e/five >");
}

#[test]
fn right_from_the_last_of_five_is_the_first() {
    let mut selection = SlidingSelection::new("Pick", five(), "e/five");
    assert_eq!(
        nav_sliding_prompt(&mut selection, Key::ArrowRight),
        SlidingAction::Pass
    );
    assert_eq!(selection.chosen(), "a/one");
    assert_eq!(selection.prompt().selector, "< a/one >");
}

#[test]
fn left_and_right_step_through_the_list() {
    let mut selection = SlidingSelection::new("Pick", five(), "b/two");
    nav_sliding_prompt(&mut selection, Key::ArrowRight);
    assert_eq!(selection.chosen(), "c/three");
    nav_sliding_prompt(&mut selection, Key::ArrowLeft);
    nav_sliding_prompt(&mut selection, Key::ArrowLeft);
    assert_eq!(selection.chosen(), "a/one");
}

#[test]
fn the_control_commits_the_name_in_view() {
    let mut selection = SlidingSelection::new("Pick", five(), "b/two");
    assert_eq!(
        nav_sliding_prompt(&mut selection, Key::Enter),
        SlidingAction::Pass
    );
    nav_sliding_prompt(&mut selection, Key::ArrowRight);
    assert_eq!(
        nav_sliding_prompt(&mut selection, Key::ArrowDown),
        SlidingAction::Pass
    );
    assert_eq!(selection.prompt().selected, SelectedItem::Return);
    assert_eq!(
        nav_sliding_prompt(&mut selection, Key::ArrowLeft),
        SlidingAction::Pass
    );
    assert_eq!(selection.chosen(), "c/three");
    assert_eq!(
        nav_sliding_prompt(&mut selection, Key::Enter),
        SlidingAction::Commit
    );
    assert_eq!(selection.chosen(), "c/three");
    nav_sliding_prompt(&mut selection, Key::ArrowUp);
    assert_eq!(selection.prompt().selected, SelectedItem::Selector);
}

#[test]
fn sliding_prompt_is_drawn_with_its_focus() {
    let selection = SlidingSelection::new("Pick", names(&["m"]), "m");
    assert_eq!(
        draw_sliding_prompt(selection.prompt(), 5, 14, false),
        vec![
            "",
            "     Pick     ",
            "    < m >     ",
            "    Return    ",
            "",
        ]
    );
    assert_eq!(
        draw_sliding_prompt(selection.prompt(), 3, 0, true),
        vec![
            "\u{1b}[1m   Pick   \u{1b}[0m",
            "\u{1b}[46m\u{1b}[1m   < m >   \u{1b}[0m",
            "\u{1b}[1m   Return   \u{1b}[0m",
        ]
    );
}

#[test]
fn names_are_found_at_their_first_place() {
    let list = names(&["a", "b", "a"]);
    assert_eq!(find_name(&list, &"a".to_owned()), Some(0));
    assert_eq!(find_name(&list, &"b".to_owned()), Some(1));
    assert_eq!(find_name(&list, &"c".to_owned()), None);
}

#[test]
fn a_model_is_checked_against_the_list() {
    assert_eq!(verify_model(&five(), "d/four"), Ok("d/four".to_owned()));
    assert_eq!(
        verify_model(&five(), "d/fou"),
        Err("The requested model could not be found with the OpenRouter API.".to_owned())
    );
}

#[test]
fn a_field_starts_empty() {
    let field = Prompt::new("Type here");
    assert_eq!(field.text, "Type here");
    assert_eq!(field.prompt, "");
}

#[test]
fn the_round_screen_opens_on_the_range() {
    let screen = DualPrompt::new(0);
    assert_eq!(screen.selected(), Focus::RangePrompt);
    assert!(!screen.typing());
    assert_eq!(screen.range().text, "Input a range in the format n..m");
    assert_eq!(screen.random().text, "Input a random number in the above range");
    assert_eq!(screen.range().prompt, "");
    assert_eq!(screen.random().prompt, "");
}

#[test]
fn the_focus_goes_round_the_three_places() {
    let mut screen = DualPrompt::new(0);
    nav_input_prompt(&mut screen, Key::ArrowDown);
    assert_eq!(screen.selected(), Focus::RandomPrompt);
    nav_input_prompt(&mut screen, Key::ArrowDown);
    assert_eq!(screen.selected(), Focus::Accept);
    nav_input_prompt(&mut screen, Key::ArrowDown);
    assert_eq!(screen.selected(), Focus::RangePrompt);
    nav_input_prompt(&mut screen, Key::ArrowUp);
    assert_eq!(screen.selected(), Focus::Accept);
    nav_input_prompt(&mut screen, Key::ArrowUp);
    assert_eq!(screen.selected(), Focus::RandomPrompt);
    nav_input_prompt(&mut screen, Key::ArrowUp);
    assert_eq!(screen.selected(), Focus::RangePrompt);
}

#[test]
fn accepting_with_an_empty_field_does_nothing() {
    let mut screen = DualPrompt::new(0);
    nav_input_prompt(&mut screen, Key::ArrowUp);
    assert_eq!(nav_input_prompt(&mut screen, Key::Enter), PromptAction::Pass);
    assert_eq!(screen.selected(), Focus::Accept);
    assert!(!screen.typing());

    let mut screen = DualPrompt::new(0);
    nav_input_prompt(&mut screen, Key::Enter);
    type_text(&mut screen, "1..10");
    nav_input_prompt(&mut screen, Key::Escape);
    nav_input_prompt(&mut screen, Key::ArrowUp);
    assert_eq!(screen.selected(), Focus::Accept);
    assert_eq!(nav_input_prompt(&mut screen, Key::Enter), PromptAction::Pass);
    assert_eq!(screen.range().prompt, "1..10");
    assert_eq!(screen.random().prompt, "");

    let mut screen = DualPrompt::new(0);
    nav_input_prompt(&mut screen, Key::ArrowDown);
    nav_input_prompt(&mut screen, Key::Enter);
    type_text(&mut screen, "5");
    nav_input_prompt(&mut screen, Key::Escape);
    nav_input_prompt(&mut screen, Key::ArrowDown);
    assert_eq!(screen.selected(), Focus::Accept);
    assert_eq!(nav_input_prompt(&mut screen, Key::Enter), PromptAction::Pass);
}

#[test]
fn accepting_a_range_and_a_guess_hands_them_over() {
    let mut screen = DualPrompt::new(0);
    nav_input_prompt(&mut screen, Key::Enter);
    assert!(screen.typing());
    type_text(&mut screen, "1..10");
    assert_eq!(nav_input_prompt(&mut screen, Key::Escape), PromptAction::Pass);
    assert!(!screen.typing());
    nav_input_prompt(&mut screen, Key::ArrowDown);
    nav_input_prompt(&mut screen, Key::Enter);
    type_text(&mut screen, "5");
    nav_input_prompt(&mut screen, Key::Escape);
    assert!(!screen.typing());
    nav_input_prompt(&mut screen, Key::ArrowDown);
    match nav_input_prompt(&mut screen, Key::Enter) {
        PromptAction::Commit(round) => {
            assert_eq!(
                (round.guess, round.range.start(), round.range.end()),
                (5, 1, 10)
            );
        }
        PromptAction::Pass => panic!("the fields were not accepted"),
    }
}

#[test]
fn an_invalid_field_is_emptied_and_typing_goes_on() {
    let mut screen = DualPrompt::new(0);
    nav_input_prompt(&mut screen, Key::Enter);
    type_text(&mut screen, "10..3");
    assert_eq!(screen.range().prompt, "10..3");
    nav_input_prompt(&mut screen, Key::Escape);
    assert!(screen.typing());
    assert_eq!(screen.range().prompt, "");
    type_text(&mut screen, "3..10x");
    nav_input_prompt(&mut screen, Key::Backspace);
    assert_eq!(screen.range().prompt, "3..10");
    nav_input_prompt(&mut screen, Key::ArrowUp);
    nav_input_prompt(&mut screen, Key::Enter);
    assert_eq!(screen.range().prompt, "3..10");
    nav_input_prompt(&mut screen, Key::Escape);
    assert!(!screen.typing());
    assert_eq!(screen.selected(), Focus::RangePrompt);

    nav_input_prompt(&mut screen, Key::ArrowDown);
    nav_input_prompt(&mut screen, Key::Enter);
    type_text(&mut screen, "11");
    nav_input_prompt(&mut screen, Key::Escape);
    assert!(screen.typing());
    assert_eq!(screen.random().prompt, "");
    type_text(&mut screen, "abc");
    nav_input_prompt(&mut screen, Key::Escape);
    assert!(screen.typing());
    assert_eq!(screen.random().prompt, "");
    nav_input_prompt(&mut screen, Key::Backspace);
    assert_eq!(screen.random().prompt, "");
    type_text(&mut screen, "10");
    nav_input_prompt(&mut screen, Key::Escape);
    assert!(!screen.typing());
    assert_eq!(screen.random().prompt, "10");
}

#[test]
fn a_guess_without_a_range_only_has_to_be_a_number() {
    let mut screen = DualPrompt::new(0);
    nav_input_prompt(&mut screen, Key::ArrowDown);
    nav_input_prompt(&mut screen, Key::Enter);
    type_text(&mut screen, "700");
    nav_input_prompt(&mut screen, Key::Escape);
    assert!(!screen.typing());
    assert_eq!(screen.random().prompt, "700");
}

#[test]
fn a_guess_that_the_range_no_longer_holds_is_not_accepted() {
    let mut screen = DualPrompt::new(0);
    nav_input_prompt(&mut screen, Key::ArrowDown);
    nav_input_prompt(&mut screen, Key::Enter);
    type_text(&mut screen, "700");
    nav_input_prompt(&mut screen, Key::Escape);
    nav_input_prompt(&mut screen, Key::ArrowUp);
    nav_input_prompt(&mut screen, Key::Enter);
    type_text(&mut screen, "1..10");
    nav_input_prompt(&mut screen, Key::Escape);
    nav_input_prompt(&mut screen, Key::ArrowUp);
    assert_eq!(screen.selected(), Focus::Accept);
    assert_eq!(nav_input_prompt(&mut screen, Key::Enter), PromptAction::Pass);
}

#[test]
fn the_round_screen_is_drawn_with_its_focus() {
    let mut screen = DualPrompt::new(0);
    nav_input_prompt(&mut screen, Key::Enter);
    type_text(&mut screen, "1..10");
    nav_input_prompt(&mut screen, Key::Escape);
    nav_input_prompt(&mut screen, Key::ArrowDown);
    assert_eq!(
        draw_input_prompt(&screen, 6, 0, true),
        vec![
            "\u{1b}[1mInput a range in the format n..m\u{1b}[0m",
            "\u{1b}[1m1..10\u{1b}[0m",
            "\u{1b}[1mInput a random number in the above range\u{1b}[0m",
            "\u{1b}[46m\u{1b}[1m()\u{1b}[0m",
            "\u{1b}[1mAccept\u{1b}[0m",
            "\u{1b}[46m\u{1b}[1mScore 0\u{1b}[0m",
        ]
    );
}

#[test]
fn the_score_stands_in_the_last_row() {
    let screen = DualPrompt::new(1203);
    assert_eq!(screen.score(), 1203);
    assert_eq!(
        draw_input_prompt(&screen, 9, 12, false),
        vec![
            "",
            "Input a range in the format n..m",
            "     ()     ",
            "Input a random number in the above range",
            "     ()     ",
            "   Accept   ",
            "",
            "",
            " Score 1203 ",
        ]
    );
    let rows = draw_input_prompt(&DualPrompt::new(4294967295), 0, 0, false);
    assert_eq!(rows.len(), 6);
    assert_eq!(rows[5], "Score 4294967295");
    let rows = draw_input_prompt(&DualPrompt::new(7), 1, 9, false);
    assert_eq!(rows.len(), 6);
    assert_eq!(rows[5], " Score 7 ");
}

#[test]
fn the_question_opens_on_yes() {
    let prompt = RepeatPrompt::new();
    assert_eq!(prompt.input, Selectable::Yes);
    assert_eq!(prompt.selected, PromptSelectable::Prompt);
    assert_eq!(prompt.text, "Want to continue for another game?");
}

#[test]
fn left_and_right_change_the_answer() {
    let mut prompt = RepeatPrompt::new();
    assert_eq!(nav_repeat_prompt(&mut prompt, Key::ArrowLeft), None);
    assert_eq!(prompt.input, Selectable::No);
    assert_eq!(nav_repeat_prompt(&mut prompt, Key::ArrowRight), None);
    assert_eq!(prompt.input, Selectable::Yes);
    assert_eq!(nav_repeat_prompt(&mut prompt, Key::Enter), None);
}

#[test]
fn the_control_commits_the_answer_in_view() {
    let mut prompt = RepeatPrompt::new();
    nav_repeat_prompt(&mut prompt, Key::ArrowDown);
    assert_eq!(prompt.selected, PromptSelectable::Accept);
    assert_eq!(nav_repeat_prompt(&mut prompt, Key::ArrowLeft), None);
    assert_eq!(prompt.input, Selectable::Yes);
    assert_eq!(nav_repeat_prompt(&mut prompt, Key::Enter), Some(true));

    let mut prompt = RepeatPrompt::new();
    nav_repeat_prompt(&mut prompt, Key::ArrowRight);
    nav_repeat_prompt(&mut prompt, Key::ArrowUp);
    assert_eq!(nav_repeat_prompt(&mut prompt, Key::Enter), Some(false));
    nav_repeat_prompt(&mut prompt, Key::ArrowUp);
    assert_eq!(prompt.selected, PromptSelectable::Prompt);
}

#[test]
fn the_question_is_drawn_with_its_focus() {
    let mut prompt = RepeatPrompt::new();
    nav_repeat_prompt(&mut prompt, Key::ArrowLeft);
    assert_eq!(
        draw_repeat_prompt(&prompt, 4, 36, false),
        vec![
            " Want to continue for another game? ",
            "               < No >               ",
            "               Accept               ",
            "",
        ]
    );
}
