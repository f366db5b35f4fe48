//! The layout of a screen: its lines, styled, centred in the terminal.

use vstd::prelude::*;

verus! {

/// The number of terminal columns that a text takes up, as
/// `console::measure_text_width` counts them: escape sequences count for
/// nothing, and each remaining character for the columns it is as wide as.
pub uninterp spec fn text_width(text: Seq<char>) -> nat;

/// A run of `n` spaces.
pub open spec fn spaces(n: nat) -> Seq<char> {
    Seq::new(n, |i: int| ' ')
}

/// `text`, which takes up `measured` columns, centred in `width` columns. The
/// missing columns are filled with spaces, one half on the left, rounded down,
/// and the rest on the right. A text that is too wide is left as it is.
pub open spec fn centered(text: Seq<char>, width: nat, measured: nat) -> Seq<char> {
    if measured >= width {
        text
    } else {
        let gap = (width - measured) as nat;
        spaces(gap / 2) + text + spaces((gap - gap / 2) as nat)
    }
}

/// `text` in bold: wrapped in the escape sequences that switch bold on and
/// all styles off where colours are in use, and unchanged where they are not.
pub open spec fn bold_text(text: Seq<char>, colors: bool) -> Seq<char> {
    if colors {
        "\x1b[1m"@ + text + "\x1b[0m"@
    } else {
        text
    }
}

/// `text` in bold on a cyan ground, which marks the selected line.
pub open spec fn highlighted_text(text: Seq<char>, colors: bool) -> Seq<char> {
    if colors {
        "\x1b[46m\x1b[1m"@ + text + "\x1b[0m"@
    } else {
        text
    }
}

/// With colours on, a highlighted text is never written like a bold one,
/// whatever the two texts are: the third character of the first is that of
/// the cyan ground, the third of the second that of the bold attribute. With
/// colours off, no escape sequence is written, and both are the bare text:
/// the selected line is then told apart by nothing.
pub proof fn lemma_styles_differ(selected: Seq<char>, other: Seq<char>)
    ensures
        highlighted_text(selected, true) != bold_text(other, true),
        highlighted_text(selected, false) == selected,
        bold_text(other, false) == other,
{
    reveal_strlit("\x1b[46m\x1b[1m");
    reveal_strlit("\x1b[1m");
    assert(highlighted_text(selected, true)[2] == '4');
    assert(bold_text(other, true)[2] == '1');
}

/// Calls `console::pad_str` with centred alignment and without truncation.
///
/// That function measures the text with `console::measure_text_width`. Where
/// the text is at least `width` columns wide it hands the text back; else it
/// puts half of the missing columns, rounded down, as spaces before the text
/// and the rest behind it.
#[verifier::external_body]
fn pad_center(text: &str, width: usize) -> (padded: String)
    ensures
        padded@ == centered(text@, width as nat, text_width(text@)),
{
    console::pad_str(text, width, console::Alignment::Center, None).into_owned()
}

/// Formats `console::style(text).bold()` with styling forced on or off.
///
/// With styling on, the text is written between the escape sequence of the
/// bold attribute and the one that resets all styles; with styling off, the
/// text is written alone.
#[verifier::external_body]
fn bold(text: &str, colors: bool) -> (styled: String)
    ensures
        styled@ == bold_text(text@, colors),
{
    format!("{}", console::style(text).bold().force_styling(colors))
}

/// Formats `console::style(text).bold().on_cyan()` with styling forced on or
/// off.
///
/// With styling on, the text is written behind the escape sequences of the
/// cyan ground and of the bold attribute, in this order, and before the one
/// that resets all styles; with styling off, the text is written alone.
#[verifier::external_body]
fn bold_on_cyan(text: &str, colors: bool) -> (styled: String)
    ensures
        styled@ == highlighted_text(text@, colors),
{
    format!("{}", console::style(text).bold().on_cyan().force_styling(colors))
}

/// One line of a screen: what it says, and whether it is the selected one.
#[derive(Debug, PartialEq, Eq)]
pub struct Line {
    pub text: String,
    pub selected: bool,
}

/// A line as plain values.
pub ghost struct LineView {
    pub text: Seq<char>,
    pub selected: bool,
}

impl View for Line {
    type V = LineView;

    open spec fn view(&self) -> LineView {
        LineView { text: self.text@, selected: self.selected }
    }
}

impl DeepView for Line {
    type V = LineView;

    open spec fn deep_view(&self) -> LineView {
        self@
    }
}

/// Whether exactly one of `lines` is selected.
pub open spec fn one_selected(lines: Seq<LineView>) -> bool {
    exists|i: int|
        0 <= i < lines.len() && #[trigger] lines[i].selected && forall|j: int|
            0 <= j < lines.len() && j != i ==> !(#[trigger] lines[j]).selected
}

/// The blank lines above and below a block of `lines` lines in a terminal of
/// `rows` rows. The rows that the block leaves free are split in two: the
/// upper part gets half of them, rounded down, the lower part the rest. A
/// block that fills the terminal or is taller than it gets none.
pub open spec fn fill(rows: nat, lines: nat) -> (nat, nat) {
    if lines >= rows {
        (0, 0)
    } else {
        let free = (rows - lines) as nat;
        (free / 2, (free - free / 2) as nat)
    }
}

/// A block that fits the terminal fills it together with its blank rows, and
/// the part below is the part above or one row more.
pub proof fn lemma_fill_is_balanced(rows: nat, lines: nat)
    requires
        lines <= rows,
    ensures
        fill(rows, lines).0 + lines + fill(rows, lines).1 == rows,
        fill(rows, lines).0 <= fill(rows, lines).1 <= fill(rows, lines).0 + 1,
{
}

/// A text that is narrower than the terminal stands between two margins of
/// spaces that make up the missing columns, and the right margin is the left
/// one or one column more.
pub proof fn lemma_centered_is_balanced(text: Seq<char>, width: nat, measured: nat)
    requires
        measured < width,
    ensures
        ({
            let left = ((width - measured) / 2) as nat;
            let right = (width - measured - left) as nat;
            &&& centered(text, width, measured) == spaces(left) + text + spaces(right)
            &&& left + measured + right == width
            &&& left <= right <= left + 1
        }),
{
}

/// Computes the blank lines above and below a block of `lines` lines.
pub fn vertical_fill(rows: usize, lines: usize) -> (blank: (usize, usize))
    ensures
        blank.0 == fill(rows as nat, lines as nat).0,
        blank.1 == fill(rows as nat, lines as nat).1,
{
    if lines >= rows {
        (0, 0)
    } else {
        let free: usize = rows - lines;
        (free / 2, free - free / 2)
    }
}

/// The text of a line with its style: highlighted where the line is
/// selected, bold where it is not.
pub open spec fn styled(line: LineView, colors: bool) -> Seq<char> {
    if line.selected {
        highlighted_text(line.text, colors)
    } else {
        bold_text(line.text, colors)
    }
}

/// A text as it is written in a terminal of `cols` columns: centred by the
/// columns it takes up.
pub open spec fn row(text: Seq<char>, cols: nat) -> Seq<char> {
    centered(text, cols, text_width(text))
}

/// The rows that show a block of texts in a terminal of `rows` by `cols`:
/// the blank rows above, each text centred, the blank rows below.
pub open spec fn layout(texts: Seq<Seq<char>>, rows: nat, cols: nat) -> Seq<Seq<char>> {
    let blank = fill(rows, texts.len());
    Seq::new(blank.0, |i: int| Seq::<char>::empty()) + Seq::new(
        texts.len(),
        |i: int| row(texts[i], cols),
    ) + Seq::new(blank.1, |i: int| Seq::<char>::empty())
}

/// A block that fits the terminal is laid out on exactly as many rows as the
/// terminal has; a taller block on as many as it has texts. The texts stand
/// in their order, one below the other, and every other row is empty.
pub proof fn lemma_layout_shape(texts: Seq<Seq<char>>, rows: nat, cols: nat, i: int)
    requires
        0 <= i < layout(texts, rows, cols).len(),
    ensures
        layout(texts, rows, cols).len() == if texts.len() <= rows {
            rows
        } else {
            texts.len()
        },
        layout(texts, rows, cols)[i] == if fill(rows, texts.len()).0 <= i < fill(
            rows,
            texts.len(),
        ).0 + texts.len() {
            row(texts[i - fill(rows, texts.len()).0], cols)
        } else {
            Seq::<char>::empty()
        },
{
}

/// The rows that show `lines` in a terminal of `rows` by `cols`: the layout
/// of the lines, each with its style.
pub open spec fn frame(lines: Seq<LineView>, rows: nat, cols: nat, colors: bool) -> Seq<Seq<char>> {
    layout(Seq::new(lines.len(), |i: int| styled(lines[i], colors)), rows, cols)
}

/// With colours on, a selected line and one that is not selected never get
/// the same styled text; with colours off, each gets its bare text.
pub proof fn lemma_selected_is_told_apart(selected: LineView, other: LineView)
    requires
        selected.selected,
        !other.selected,
    ensures
        styled(selected, true) != styled(other, true),
        styled(selected, false) == selected.text,
        styled(other, false) == other.text,
{
    lemma_styles_differ(selected.text, other.text);
}

/// The rows that show `lines` above a footer: the frame of the lines in all
/// rows but the last, and the footer, styled and centred, as the last row.
pub open spec fn footed(
    lines: Seq<LineView>,
    footer: LineView,
    rows: nat,
    cols: nat,
    colors: bool,
) -> Seq<Seq<char>> {
    frame(
        lines,
        if rows > 0 {
            (rows - 1) as nat
        } else {
            0
        },
        cols,
        colors,
    ).push(row(styled(footer, colors), cols))
}

/// Gives one line its style.
pub fn style_line(line: &Line, colors: bool) -> (text: String)
    ensures
        text@ == styled(line@, colors),
{
    if line.selected {
        bold_on_cyan(line.text.as_str(), colors)
    } else {
        bold(line.text.as_str(), colors)
    }
}

/// Lays a block of texts out for a terminal of `rows` rows and `cols`
/// columns: the block is centred vertically by blank rows, and each text
/// horizontally by spaces.
pub fn compose(texts: &Vec<String>, rows: usize, cols: usize) -> (out: Vec<String>)
    ensures
        out.deep_view() == layout(texts.deep_view(), rows as nat, cols as nat),
{
    let (top, bottom) = vertical_fill(rows, texts.len());
    let mut out: Vec<String> = Vec::new();
    let mut i: usize = 0;
    while i < top
        invariant
            i <= top,
            out@.len() == i,
            forall|k: int| 0 <= k < i ==> (#[trigger] out@[k])@ == Seq::<char>::empty(),
        decreases top - i,
    {
        out.push(String::new());
        i += 1;
    }
    let mut j: usize = 0;
    while j < texts.len()
        invariant
            j <= texts.len(),
            out@.len() == top + j,
            forall|k: int| 0 <= k < top ==> (#[trigger] out@[k])@ == Seq::<char>::empty(),
            forall|k: int|
                0 <= k < j ==> (#[trigger] out@[top + k])@ == row(texts@[k]@, cols as nat),
        decreases texts.len() - j,
    {
        out.push(pad_center(texts[j].as_str(), cols));
        j += 1;
    }
    let mut k: usize = 0;
    while k < bottom
        invariant
            k <= bottom,
            out@.len() == top + texts.len() + k,
            forall|n: int| 0 <= n < top ==> (#[trigger] out@[n])@ == Seq::<char>::empty(),
            forall|n: int|
                0 <= n < texts.len() ==> (#[trigger] out@[top + n])@ == row(
                    texts@[n]@,
                    cols as nat,
                ),
            forall|n: int|
                0 <= n < k ==> (#[trigger] out@[top + texts.len() + n])@ == Seq::<char>::empty(),
        decreases bottom - k,
    {
        out.push(String::new());
        k += 1;
    }
    proof {
        let expected = layout(texts.deep_view(), rows as nat, cols as nat);
        assert(out.deep_view().len() == expected.len());
        assert forall|n: int| 0 <= n < expected.len() implies out.deep_view()[n] == expected[n] by {
            if n < top {
            } else if n < top + texts.len() {
                assert(out@[top + (n - top)]@ == row(texts@[n - top]@, cols as nat));
            } else {
                assert(out@[top + texts.len() + (n - top - texts.len())]@ == Seq::<char>::empty());
            }
        }
        assert(out.deep_view() =~= expected);
    }
    out
}

/// Lays `lines` out for a terminal of `rows` rows and `cols` columns.
///
/// The block of lines is centred vertically by blank rows and each line
/// horizontally by spaces; the selected line is highlighted, the others are
/// bold. With `colors` off, no escape sequence is written.
pub fn render(lines: &Vec<Line>, rows: usize, cols: usize, colors: bool) -> (out: Vec<String>)
    ensures
        out.deep_view() == frame(lines.deep_view(), rows as nat, cols as nat, colors),
{
    let mut texts: Vec<String> = Vec::new();
    let mut i: usize = 0;
    while i < lines.len()
        invariant
            i <= lines.len(),
            texts@.len() == i,
            forall|k: int| 0 <= k < i ==> (#[trigger] texts@[k])@ == styled(lines@[k]@, colors),
        decreases lines.len() - i,
    {
        texts.push(style_line(&lines[i], colors));
        i += 1;
    }
    assert(texts.deep_view() =~= Seq::new(
        lines.deep_view().len(),
        |i: int| styled(lines.deep_view()[i], colors),
    ));
    compose(&texts, rows, cols)
}

/// Lays `lines` out above a footer that takes the last row of the terminal.
pub fn render_with_footer(
    lines: &Vec<Line>,
    footer: &Line,
    rows: usize,
    cols: usize,
    colors: bool,
) -> (out: Vec<String>)
    ensures
        out.deep_view() == footed(
            lines.deep_view(),
            footer@,
            rows as nat,
            cols as nat,
            colors,
        ),
{
    let above: usize = if rows > 0 {
        rows - 1
    } else {
        0
    };
    let mut out = render(lines, above, cols, colors);
    let ghost block = out.deep_view();
    let last = style_line(footer, colors);
    out.push(pad_center(last.as_str(), cols));
    assert(out.deep_view() =~= block.push(row(styled(footer@, colors), cols as nat)));
    out
}

} // verus!
