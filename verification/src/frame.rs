//! Screens that are driven by single keys, and how they are laid out.

pub mod main_menu;
pub mod options;
pub mod prompt;
pub mod random_prompt;
pub mod repeat_prompt;
pub mod render;

use crate::frame::render::{frame, one_selected, render, Line, LineView};
use crate::key::Key;
use vstd::prelude::*;

verus! {

/// A menu: a fixed list of items, one of which is selected. A value of the
/// type is the selected item.
pub trait Selected: Sized {
    /// What committing an item leads to.
    type Action;

    /// All items, in the order in which they are shown.
    spec fn items() -> Seq<Self>;

    /// The place of this item among `items()`.
    spec fn position(&self) -> int;

    /// The action that this item stands for.
    spec fn action_of(&self) -> Self::Action;

    /// The action that asks for nothing.
    spec fn no_action() -> Self::Action;

    /// The text that shows this item.
    spec fn label(&self) -> Seq<char>;

    /// Every item has its place in the list.
    proof fn lemma_position(&self)
        ensures
            Self::items().len() <= usize::MAX,
            0 <= self.position() < Self::items().len(),
            Self::items()[self.position()] == *self,
    ;

    /// Every place in the list is the place of the item that stands there.
    proof fn lemma_item_at(i: int)
        requires
            0 <= i < Self::items().len(),
        ensures
            Self::items()[i].position() == i,
    ;

    /// The action of the selected item; called when the selection is
    /// committed.
    fn action(&self) -> (action: Self::Action)
        ensures
            action == self.action_of(),
    ;

    /// All items, in the order in which they are shown.
    fn list(&self) -> (items: Vec<Self>)
        ensures
            items@ == Self::items(),
    ;

    /// Moves the selection: up to the item before, down to the item after,
    /// going round at both ends. Any other key leaves it where it is.
    fn next(&mut self, key: Key)
        ensures
            *final(self) == match key {
                Key::ArrowUp => Self::items()[(old(self).position() + Self::items().len() - 1) % (
                Self::items().len() as int)],
                Key::ArrowDown => Self::items()[(old(self).position() + 1) % (
                Self::items().len() as int)],
                _ => *old(self),
            },
    ;

    /// The action that asks for nothing; returned for every key that does not
    /// commit.
    fn pass(&self) -> (action: Self::Action)
        ensures
            action == Self::no_action(),
    ;

    /// The text that shows this item.
    fn repr(&self) -> (text: &str)
        ensures
            text@ == self.label(),
    ;

    /// The place of this item in the list.
    fn index(&self) -> (place: usize)
        ensures
            place == self.position(),
    ;
}

/// The item that is selected after `key` was pressed on `item`.
pub open spec fn moved<T: Selected>(item: T, key: Key) -> T {
    let count = T::items().len() as int;
    match key {
        Key::ArrowUp => T::items()[(item.position() + count - 1) % count],
        Key::ArrowDown => T::items()[(item.position() + 1) % count],
        _ => item,
    }
}

/// The item that is selected after `key` was pressed `times` times.
pub open spec fn pressed<T: Selected>(item: T, key: Key, times: nat) -> T
    decreases times,
{
    if times == 0 {
        item
    } else {
        moved(pressed(item, key, (times - 1) as nat), key)
    }
}

/// The selection goes round: moving up from the first item leads to the
/// last, and moving down from the last leads to the first.
pub proof fn lemma_wraps_around<T: Selected>(item: T)
    ensures
        item.position() == 0 ==> moved(item, Key::ArrowUp) == T::items().last(),
        item.position() == T::items().len() - 1 ==> moved(item, Key::ArrowDown)
            == T::items().first(),
{
    item.lemma_position();
    let count = T::items().len() as int;
    assert((count - 1) % count == count - 1 && count % count == 0) by (nonlinear_arith)
        requires
            count > 0,
    ;
}

/// Where the selection stands after the same arrow key was pressed `times`
/// times: that many places further down, or up, counted round the list.
pub proof fn lemma_position_after<T: Selected>(item: T, times: nat)
    ensures
        pressed(item, Key::ArrowDown, times).position() == (item.position() + times) % (
        T::items().len() as int),
        pressed(item, Key::ArrowUp, times).position() == (item.position() - times) % (
        T::items().len() as int),
    decreases times,
{
    item.lemma_position();
    let count = T::items().len() as int;
    let start = item.position();
    if times == 0 {
        assert(start % count == start) by (nonlinear_arith)
            requires
                0 <= start < count,
        ;
    } else {
        let before = (times - 1) as nat;
        lemma_position_after(item, before);
        let down = pressed(item, Key::ArrowDown, before);
        let up = pressed(item, Key::ArrowUp, before);
        down.lemma_position();
        up.lemma_position();
        let below = (start + before) % count;
        let above = (start - before) % count;
        assert(0 <= (below + 1) % count < count && 0 <= (above + count - 1) % count < count)
            by (nonlinear_arith)
            requires
                count > 0,
        ;
        T::lemma_item_at((below + 1) % count);
        T::lemma_item_at((above + count - 1) % count);
        assert((below + 1) % count == (start + times) % count) by (nonlinear_arith)
            requires
                below == (start + before) % count,
                times == before + 1,
                count > 0,
        ;
        assert((above + count - 1) % count == (start - times) % count) by (nonlinear_arith)
            requires
                above == (start - before) % count,
                times == before + 1,
                count > 0,
        ;
    }
}

/// Pressing the same arrow key as many times as the menu has items leads
/// back to the item from which one started.
pub proof fn lemma_full_cycle<T: Selected>(item: T)
    ensures
        pressed(item, Key::ArrowDown, T::items().len()) == item,
        pressed(item, Key::ArrowUp, T::items().len()) == item,
{
    item.lemma_position();
    let count = T::items().len();
    let start = item.position();
    lemma_position_after(item, count);
    let down = pressed(item, Key::ArrowDown, count);
    let up = pressed(item, Key::ArrowUp, count);
    down.lemma_position();
    up.lemma_position();
    assert((start + count) % (count as int) == start && (start - count) % (count as int) == start)
        by (nonlinear_arith)
        requires
            0 <= start < count,
    ;
}

/// What a key does to a menu: the selection afterwards, and the action asked
/// for.
pub open spec fn menu_step<T: Selected>(menu: T, key: Key) -> (T, T::Action) {
    if key == Key::Enter {
        (menu, menu.action_of())
    } else {
        (moved(menu, key), T::no_action())
    }
}

/// Handles one key on a menu. The confirmation key commits the selected
/// item; every other key moves the selection, if it is one that does, and
/// asks for nothing.
pub fn nav_menu<T: Selected>(menu: &mut T, input: Key) -> (action: T::Action)
    ensures
        (*final(menu), action) == menu_step(*old(menu), input),
{
    if let Key::Enter = input {
        return menu.action();
    }
    menu.next(input);
    menu.pass()
}

/// The lines that show a menu: one for each item, in order, the selected one
/// marked.
pub open spec fn menu_lines<T: Selected>(menu: T) -> Seq<LineView> {
    Seq::new(
        T::items().len(),
        |i: int| LineView { text: T::items()[i].label(), selected: i == menu.position() },
    )
}

/// Exactly one line of a menu is marked.
pub proof fn lemma_menu_has_one_selected<T: Selected>(menu: T)
    ensures
        one_selected(menu_lines(menu)),
{
    menu.lemma_position();
    let lines = menu_lines(menu);
    assert(lines[menu.position()].selected);
}

/// Lays a menu out for a terminal of `rows` rows and `cols` columns.
pub fn draw_menu<T: Selected>(menu: &T, rows: usize, cols: usize, colors: bool) -> (out: Vec<
    String,
>)
    ensures
        out.deep_view() == frame(menu_lines(*menu), rows as nat, cols as nat, colors),
{
    let items = menu.list();
    let current = menu.index();
    let mut lines: Vec<Line> = Vec::new();
    let mut i: usize = 0;
    while i < items.len()
        invariant
            i <= items.len(),
            items@ == T::items(),
            current == menu.position(),
            lines@.len() == i,
            forall|k: int| 0 <= k < i ==> (#[trigger] lines@[k])@ == menu_lines(*menu)[k],
        decreases items.len() - i,
    {
        let text = String::from_str(items[i].repr());
        lines.push(Line { text, selected: i == current });
        i += 1;
    }
    assert(lines.deep_view() =~= menu_lines(*menu));
    render(&lines, rows, cols, colors)
}

} // verus!
