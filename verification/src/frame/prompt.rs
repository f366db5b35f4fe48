//! The choice of a model: a list that slides left and right under a fixed
//! prompt, and a control to go back.

use crate::frame::render::{frame, one_selected, render, Line, LineView};
use crate::key::Key;
use vstd::prelude::*;

verus! {

/// The two places that can have the focus.
#[derive(Clone, Copy, Debug, PartialEq, Eq)]
pub enum SelectedItem {
    /// The sliding list. It has the focus when the screen opens.
    Selector,
    /// The control that ends the screen.
    Return,
}

/// What the screen shows: the instruction, the entry of the list that is
/// in view, and which of the two places has the focus.
#[derive(Debug, PartialEq, Eq)]
pub struct SlidingPrompt<'contents> {
    pub text: &'contents str,
    pub selector: String,
    pub selected: SelectedItem,
}

/// A sliding prompt as plain values.
pub ghost struct SlidingPromptView {
    pub text: Seq<char>,
    pub selector: Seq<char>,
    pub selected: SelectedItem,
}

impl<'contents> View for SlidingPrompt<'contents> {
    type V = SlidingPromptView;

    open spec fn view(&self) -> SlidingPromptView {
        SlidingPromptView { text: self.text@, selector: self.selector@, selected: self.selected }
    }
}

impl<'contents> SlidingPrompt<'contents> {
    /// A prompt with the focus on the list.
    pub fn new(text: &'contents str, selector: String) -> (prompt: Self)
        ensures
            prompt@ == (SlidingPromptView {
                text: text@,
                selector: selector@,
                selected: SelectedItem::Selector,
            }),
    {
        Self { text, selector, selected: SelectedItem::Selector }
    }

    /// Puts another entry in view.
    pub fn switch_selector(&mut self, other: String)
        ensures
            final(self)@ == (SlidingPromptView { selector: other@, ..old(self)@ }),
    {
        self.selector = other;
    }
}

/// A name as the list shows it, between angle brackets.
pub open spec fn bracketed(name: Seq<char>) -> Seq<char> {
    "< "@ + name + " >"@
}

/// A text set off by three spaces on each side.
pub open spec fn spaced(text: Seq<char>) -> Seq<char> {
    "   "@ + text + "   "@
}

fn bracket(name: &str) -> (shown: String)
    ensures
        shown@ == bracketed(name@),
{
    let mut shown = String::from_str("< ");
    shown.append(name);
    shown.append(" >");
    shown
}

fn space(text: &str) -> (shown: String)
    ensures
        shown@ == spaced(text@),
{
    let mut shown = String::from_str("   ");
    shown.append(text);
    shown.append("   ");
    shown
}

/// The three lines of the screen: the instruction, the entry in view, the
/// control to go back. The place that has the focus is marked.
pub open spec fn sliding_lines(prompt: SlidingPromptView) -> Seq<LineView> {
    seq![
        LineView { text: spaced(prompt.text), selected: false },
        LineView {
            text: spaced(prompt.selector),
            selected: prompt.selected == SelectedItem::Selector,
        },
        LineView { text: spaced("Return"@), selected: prompt.selected == SelectedItem::Return },
    ]
}

/// Exactly one line of the screen is marked.
pub proof fn lemma_sliding_has_one_selected(prompt: SlidingPromptView)
    ensures
        one_selected(sliding_lines(prompt)),
{
    let lines = sliding_lines(prompt);
    if prompt.selected == SelectedItem::Selector {
        assert(lines[1].selected);
    } else {
        assert(lines[2].selected);
    }
}

/// Lays the screen out for a terminal of `rows` rows and `cols` columns.
pub fn draw_sliding_prompt(prompt: &SlidingPrompt, rows: usize, cols: usize, colors: bool) -> (out:
    Vec<String>)
    ensures
        out.deep_view() == frame(sliding_lines(prompt@), rows as nat, cols as nat, colors),
{
    let on_selector = match prompt.selected {
        SelectedItem::Selector => true,
        SelectedItem::Return => false,
    };
    let lines = vec![
        Line { text: space(prompt.text), selected: false },
        Line { text: space(prompt.selector.as_str()), selected: on_selector },
        Line { text: space("Return"), selected: !on_selector },
    ];
    assert(lines.deep_view() =~= sliding_lines(prompt@));
    render(&lines, rows, cols, colors)
}

/// The choice among a list of names: the list, the name in view with its
/// place in the list, and the prompt that shows it. The name that is in view
/// when the screen opens need not stand in the list; it then has no place.
pub struct SlidingSelection<'contents> {
    models: Vec<String>,
    index: Option<usize>,
    model: String,
    prompt: SlidingPrompt<'contents>,
}

/// A sliding selection as plain values.
pub ghost struct SlidingView {
    pub models: Seq<Seq<char>>,
    pub index: Option<int>,
    pub model: Seq<char>,
    pub prompt: SlidingPromptView,
}

impl<'contents> View for SlidingSelection<'contents> {
    type V = SlidingView;

    closed spec fn view(&self) -> SlidingView {
        SlidingView {
            models: self.models.deep_view(),
            index: match self.index {
                Some(i) => Some(i as int),
                None => None,
            },
            model: self.model@,
            prompt: self.prompt@,
        }
    }
}

/// What a key asks of the caller of the screen.
#[derive(Clone, Copy, Debug, PartialEq, Eq)]
pub enum SlidingAction {
    /// Nothing: show the screen again.
    Pass,
    /// The name in view is chosen, and the screen ends.
    Commit,
    /// The name before or after was asked for, but the name in view stands
    /// nowhere in the list, so there is none.
    NotFound,
}

/// Whether `name` stands at place `i` of `models` and nowhere before.
pub open spec fn is_first_place(models: Seq<Seq<char>>, name: Seq<char>, i: int) -> bool {
    0 <= i < models.len() && models[i] == name && forall|j: int|
        0 <= j < i ==> #[trigger] models[j] != name
}

/// The first place of `name` in `models`, if it has one.
pub open spec fn place_of(models: Seq<Seq<char>>, name: Seq<char>) -> Option<int> {
    if exists|i: int| is_first_place(models, name, i) {
        Some(choose|i: int| is_first_place(models, name, i))
    } else {
        None
    }
}

/// A name has no more than one first place.
pub proof fn lemma_place_of(models: Seq<Seq<char>>, name: Seq<char>, i: int)
    ensures
        is_first_place(models, name, i) ==> place_of(models, name) == Some(i),
        (forall|j: int| 0 <= j < models.len() ==> #[trigger] models[j] != name) ==> place_of(
            models,
            name,
        ) == None::<int>,
{
    if is_first_place(models, name, i) {
        let k = choose|k: int| is_first_place(models, name, k);
        if k < i {
            assert(models[k] != name);
        } else if i < k {
            assert(models[i] != name);
        }
    }
    if forall|j: int| 0 <= j < models.len() ==> #[trigger] models[j] != name {
        assert forall|k: int| !is_first_place(models, name, k) by {
            if 0 <= k < models.len() {
                assert(models[k] != name);
            }
        }
    }
}

/// The selection as it opens on `models` with `model` in view: the focus on
/// the list, and the place that of `model`, if it has one.
pub open spec fn opened(text: Seq<char>, models: Seq<Seq<char>>, model: Seq<char>) -> SlidingView {
    SlidingView {
        models,
        index: place_of(models, model),
        model,
        prompt: SlidingPromptView {
            text,
            selector: bracketed(model),
            selected: SelectedItem::Selector,
        },
    }
}

/// The selection with the name at place `index` in view.
pub open spec fn turned(selection: SlidingView, index: int) -> SlidingView {
    SlidingView {
        index: Some(index),
        model: selection.models[index],
        prompt: SlidingPromptView {
            selector: bracketed(selection.models[index]),
            ..selection.prompt
        },
        ..selection
    }
}

/// The selection with the focus on `selected`.
pub open spec fn focused(selection: SlidingView, selected: SelectedItem) -> SlidingView {
    SlidingView { prompt: SlidingPromptView { selected, ..selection.prompt }, ..selection }
}

/// The selection after the list was turned by `by` places, and what that
/// asks of the caller: nothing where the name in view has a place, and
/// `NotFound`, with the selection left as it is, where it has none.
pub open spec fn turned_by(selection: SlidingView, by: int) -> (SlidingView, SlidingAction) {
    match selection.index {
        Some(index) => (
            turned(selection, (index + by) % (selection.models.len() as int)),
            SlidingAction::Pass,
        ),
        None => (selection, SlidingAction::NotFound),
    }
}

/// What a key does to the selection.
///
/// With the focus on the list, left and right put the name before or after
/// in view, going round at both ends, and up and down move the focus to the
/// control. With the focus on the control, up and down move it back, and the
/// confirmation key commits the name in view. Every other key does nothing.
pub open spec fn slide(selection: SlidingView, key: Key) -> (SlidingView, SlidingAction) {
    match (selection.prompt.selected, key) {
        (SelectedItem::Selector, Key::ArrowLeft) => turned_by(
            selection,
            selection.models.len() - 1,
        ),
        (SelectedItem::Selector, Key::ArrowRight) => turned_by(selection, 1),
        (SelectedItem::Selector, Key::ArrowUp) => (
            focused(selection, SelectedItem::Return),
            SlidingAction::Pass,
        ),
        (SelectedItem::Selector, Key::ArrowDown) => (
            focused(selection, SelectedItem::Return),
            SlidingAction::Pass,
        ),
        (SelectedItem::Return, Key::ArrowUp) => (
            focused(selection, SelectedItem::Selector),
            SlidingAction::Pass,
        ),
        (SelectedItem::Return, Key::ArrowDown) => (
            focused(selection, SelectedItem::Selector),
            SlidingAction::Pass,
        ),
        (SelectedItem::Return, Key::Enter) => (selection, SlidingAction::Commit),
        _ => (selection, SlidingAction::Pass),
    }
}

/// Looks `name` up in `models`: the first place where it stands, or nothing
/// where it stands nowhere.
pub fn find_name(models: &Vec<String>, name: &String) -> (place: Option<usize>)
    ensures
        match place {
            Some(i) => is_first_place(models.deep_view(), name@, i as int),
            None => forall|j: int|
                0 <= j < models@.len() ==> #[trigger] models.deep_view()[j] != name@,
        },
{
    let mut i: usize = 0;
    while i < models.len()
        invariant
            i <= models.len(),
            forall|j: int| 0 <= j < i ==> #[trigger] models.deep_view()[j] != name@,
        decreases models.len() - i,
    {
        if models[i] == *name {
            return Some(i);
        }
        i += 1;
    }
    None
}

/// What is said of a model that the list does not hold.
pub open spec fn unknown_model_text() -> Seq<char> {
    "The requested model could not be found with the OpenRouter API."@
}

/// Checks a model that the player named against the list of models: the
/// name itself where the list holds it, and the sentence that says it does
/// not where the list holds it nowhere.
pub fn verify_model(models: &Vec<String>, string: &str) -> (checked: Result<String, String>)
    ensures
        match checked {
            Ok(name) => name@ == string@ && exists|i: int|
                is_first_place(models.deep_view(), string@, i),
            Err(output) => output@ == unknown_model_text() && forall|j: int|
                0 <= j < models@.len() ==> #[trigger] models.deep_view()[j] != string@,
        },
{
    let wanted = string.to_owned();
    match find_name(models, &wanted) {
        Some(_) => Ok(wanted),
        None => Err(
            String::from_str("The requested model could not be found with the OpenRouter API."),
        ),
    }
}

impl<'contents> SlidingSelection<'contents> {
    #[verifier::type_invariant]
    spec fn in_list(self) -> bool {
        self.index matches Some(i) ==> i < self.models.len()
    }

    /// A selection among `models` with `model` in view and the focus on the
    /// list.
    pub fn new(text: &'contents str, models: Vec<String>, model: &str) -> (selection: Self)
        ensures
            selection@ == opened(text@, models.deep_view(), model@),
    {
        let wanted = model.to_owned();
        let index = find_name(&models, &wanted);
        proof {
            match index {
                Some(i) => lemma_place_of(models.deep_view(), model@, i as int),
                None => lemma_place_of(models.deep_view(), model@, 0),
            }
        }
        let prompt = SlidingPrompt::new(text, bracket(model));
        Self { models, index, model: wanted, prompt }
    }

    /// The name in view.
    pub fn chosen(&self) -> (name: &String)
        ensures
            name@ == self@.model,
    {
        &self.model
    }

    /// What the screen shows.
    pub fn prompt(&self) -> (prompt: &SlidingPrompt<'contents>)
        ensures
            prompt@ == self@.prompt,
    {
        &self.prompt
    }

    fn turn(&mut self, index: usize)
        requires
            index < old(self)@.models.len(),
        ensures
            final(self)@ == turned(old(self)@, index as int),
    {
        let name = self.models[index].clone();
        let shown = bracket(name.as_str());
        self.index = Some(index);
        self.model = name;
        self.prompt.selector = shown;
    }
}

/// Handles one key on the choice of a model.
pub fn nav_sliding_prompt(selection: &mut SlidingSelection, key: Key) -> (action: SlidingAction)
    ensures
        (final(selection)@, action) == slide(old(selection)@, key),
{
    proof {
        use_type_invariant(&*selection);
    }
    let count: usize = selection.models.len();
    match selection.prompt.selected {
        SelectedItem::Selector => match key {
            Key::ArrowLeft => match selection.index {
                Some(index) => {
                    let before: usize = if index == 0 {
                        count - 1
                    } else {
                        index - 1
                    };
                    assert(before == (index + (count - 1)) % (count as int)) by (nonlinear_arith)
                        requires
                            index < count,
                            before == if index == 0 {
                                count - 1
                            } else {
                                index - 1
                            },
                    ;
                    selection.turn(before);
                    SlidingAction::Pass
                },
                None => SlidingAction::NotFound,
            },
            Key::ArrowRight => match selection.index {
                Some(index) => {
                    let after: usize = if index + 1 == count {
                        0
                    } else {
                        index + 1
                    };
                    assert(after == (index + 1) % (count as int)) by (nonlinear_arith)
                        requires
                            index < count,
                            after == if index + 1 == count {
                                0
                            } else {
                                index + 1
                            },
                    ;
                    selection.turn(after);
                    SlidingAction::Pass
                },
                None => SlidingAction::NotFound,
            },
            Key::ArrowUp | Key::ArrowDown => {
                selection.prompt.selected = SelectedItem::Return;
                SlidingAction::Pass
            },
            _ => SlidingAction::Pass,
        },
        SelectedItem::Return => match key {
            Key::ArrowUp | Key::ArrowDown => {
                selection.prompt.selected = SelectedItem::Selector;
                SlidingAction::Pass
            },
            Key::Enter => SlidingAction::Commit,
            _ => SlidingAction::Pass,
        },
    }
}

/// Going left from the first name leads to the last, and going right from
/// the last leads to the first.
pub proof fn lemma_slides_around(selection: SlidingView)
    requires
        selection.index matches Some(index) && 0 <= index < selection.models.len(),
        selection.prompt.selected == SelectedItem::Selector,
    ensures
        selection.index == Some(0int) ==> slide(selection, Key::ArrowLeft).0.index == Some(
            selection.models.len() - 1,
        ),
        selection.index == Some(selection.models.len() - 1) ==> slide(
            selection,
            Key::ArrowRight,
        ).0.index == Some(0int),
{
    let count = selection.models.len() as int;
    assert((count - 1) % count == count - 1 && count % count == 0) by (nonlinear_arith)
        requires
            count > 0,
    ;
}

/// Whether the selection is in order: the prompt shows the name in view,
/// and where that name has a place, it is a place of the list at which the
/// name stands.
pub open spec fn shows_current(selection: SlidingView) -> bool {
    &&& selection.prompt.selector == bracketed(selection.model)
    &&& selection.index matches Some(index) ==> 0 <= index < selection.models.len()
        && selection.models[index] == selection.model
}

/// The selection opens in order, no key brings it out of order, and none
/// changes the list. Only a name without a place is reported as not found,
/// and a name that has a place keeps having one.
pub proof fn lemma_slide_keeps_order(
    selection: SlidingView,
    key: Key,
    text: Seq<char>,
    models: Seq<Seq<char>>,
    model: Seq<char>,
)
    requires
        shows_current(selection),
    ensures
        shows_current(opened(text, models, model)),
        shows_current(slide(selection, key).0),
        slide(selection, key).0.models == selection.models,
        slide(selection, key).1 is NotFound ==> selection.index is None && slide(
            selection,
            key,
        ).0 == selection,
        selection.index is Some ==> slide(selection, key).0.index is Some,
{
    let count = selection.models.len() as int;
    match selection.index {
        Some(index) => {
            assert(0 <= (index + (count - 1)) % count < count && 0 <= (index + 1) % count < count)
                by (nonlinear_arith)
                requires
                    count > 0,
            ;
        },
        None => {},
    }
    match place_of(models, model) {
        Some(i) => {
            assert(is_first_place(models, model, i));
        },
        None => {},
    }
}

} // verus!
