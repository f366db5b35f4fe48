//! Validation of what the player types, a range `n..m` and a guess, and the
//! writing of numbers that are shown.

use vstd::prelude::*;

verus! {

/// `String::push` appends the character to the end of the string.
pub assume_specification[ String::push ](text: &mut String, ch: char)
    ensures
        final(text)@ == old(text)@.push(ch),
;

/// `String::pop` removes the last character of the string and returns it;
/// on an empty string it returns nothing and leaves the string empty.
pub assume_specification[ String::pop ](text: &mut String) -> (last: Option<char>)
    ensures
        old(text)@.len() == 0 ==> last is None && final(text)@ == old(text)@,
        old(text)@.len() > 0 ==> last == Some(old(text)@.last()) && final(text)@ == old(
            text,
        )@.drop_last(),
;

/// Whether `c` is one of the ten ASCII digits.
pub open spec fn is_digit(c: char) -> bool {
    48 <= c as u32 && c as u32 <= 57
}

/// The value of the digit `c`, and 0 for any other character.
pub open spec fn digit_value(c: char) -> nat {
    if is_digit(c) {
        (c as u32 - 48) as nat
    } else {
        0
    }
}

/// Whether every character of `s` is a digit.
pub open spec fn all_digits(s: Seq<char>) -> bool {
    forall|i: int| 0 <= i < s.len() ==> is_digit(#[trigger] s[i])
}

/// The number that `s` denotes in base ten, most significant digit first.
pub open spec fn decimal(s: Seq<char>) -> nat
    decreases s.len(),
{
    if s.len() == 0 {
        0
    } else {
        decimal(s.drop_last()) * 10 + digit_value(s.last())
    }
}

/// What a run of characters is worth as a bound or a guess: a non-empty run of
/// digits whose value fits the machine word, and nothing else.
pub open spec fn number(s: Seq<char>) -> Option<usize> {
    if s.len() > 0 && all_digits(s) && decimal(s) <= usize::MAX {
        Some(decimal(s) as usize)
    } else {
        None
    }
}

/// A prefix never denotes more than the whole.
pub proof fn lemma_decimal_prefix(s: Seq<char>, k: int)
    requires
        0 <= k <= s.len(),
    ensures
        decimal(s.take(k)) <= decimal(s),
    decreases s.len() - k,
{
    if k == s.len() {
        assert(s.take(k) =~= s);
    } else {
        lemma_decimal_prefix(s.drop_last(), k);
        assert(s.drop_last().take(k) =~= s.take(k));
    }
}

/// The digit that writes `d`, a number below ten.
pub open spec fn digit_char(d: nat) -> char {
    seq!['0', '1', '2', '3', '4', '5', '6', '7', '8', '9'][d as int]
}

/// The digits that write `n` in base ten, without leading zeros.
pub open spec fn decimal_text(n: nat) -> Seq<char>
    decreases n,
{
    if n < 10 {
        seq![digit_char(n)]
    } else {
        decimal_text(n / 10).push(digit_char(n % 10))
    }
}

/// What is written is read back as the number it was written for.
pub proof fn lemma_written_is_read_back(n: nat)
    ensures
        decimal_text(n).len() > 0,
        all_digits(decimal_text(n)),
        decimal(decimal_text(n)) == n,
        n <= usize::MAX ==> number(decimal_text(n)) == Some(n as usize),
    decreases n,
{
    let text = decimal_text(n);
    let last = digit_char(n % 10);
    assert(is_digit(last) && digit_value(last) == n % 10);
    if n < 10 {
        assert(text.drop_last() =~= Seq::<char>::empty());
        assert(decimal(text.drop_last()) == 0);
    } else {
        lemma_written_is_read_back(n / 10);
        assert(text.drop_last() =~= decimal_text(n / 10));
    }
}

/// Writes `n` in base ten.
pub fn write_number(n: u32) -> (text: String)
    ensures
        text@ == decimal_text(n as nat),
    decreases n,
{
    let mut text = if n < 10 {
        String::new()
    } else {
        write_number(n / 10)
    };
    let digit = match n % 10 {
        0 => '0',
        1 => '1',
        2 => '2',
        3 => '3',
        4 => '4',
        5 => '5',
        6 => '6',
        7 => '7',
        8 => '8',
        _ => '9',
    };
    text.push(digit);
    assert(text@ =~= decimal_text(n as nat));
    text
}

fn digit_of(c: char) -> (d: Option<usize>)
    ensures
        d == if is_digit(c) {
            Some(digit_value(c) as usize)
        } else {
            None
        },
{
    let code: u32 = c as u32;
    if 48 <= code && code <= 57 {
        Some((code - 48) as usize)
    } else {
        None
    }
}

/// Reads `text` as a non-negative number written in digits only.
pub fn parse_number(text: &str) -> (value: Option<usize>)
    ensures
        value == number(text@),
{
    let len: usize = text.unicode_len();
    if len == 0 {
        return None;
    }
    let mut acc: usize = 0;
    let mut i: usize = 0;
    while i < len
        invariant
            i <= len,
            len == text@.len(),
            all_digits(text@.take(i as int)),
            acc == decimal(text@.take(i as int)),
        decreases len - i,
    {
        let c = text.get_char(i);
        let ghost next = text@.take(i + 1);
        proof {
            assert(next.drop_last() =~= text@.take(i as int));
            assert(next.last() == c);
            lemma_decimal_prefix(text@, i + 1);
        }
        let digit = match digit_of(c) {
            Some(d) => d,
            None => {
                assert(!is_digit(text@[i as int]));
                return None;
            },
        };
        let shifted = match acc.checked_mul(10) {
            Some(m) => m,
            None => {
                return None;
            },
        };
        acc = match shifted.checked_add(digit) {
            Some(n) => n,
            None => {
                return None;
            },
        };
        i += 1;
    }
    assert(text@.take(len as int) =~= text@);
    Some(acc)
}

/// Why a text is no range.
#[derive(Clone, Copy, Debug, PartialEq, Eq)]
pub enum RangeError {
    /// The text has not the shape of a range: it holds no separator `..`, or
    /// holds it at more than one position.
    MalformedRange,
    /// The text holds one separator, but what stands before or after it is
    /// no number.
    NonNumericBound,
    /// Both bounds are numbers, but the first is not below the second.
    InvertedBounds,
}

impl RangeError {
    /// The sentence shown to the player for this error.
    pub open spec fn message_text(self) -> Seq<char> {
        match self {
            RangeError::MalformedRange => "Invalid input; input can only be numeric"@,
            RangeError::NonNumericBound => "Invalid input; check bounds with usize"@,
            RangeError::InvertedBounds => "Invalid input; start must be smaller than end"@,
        }
    }

    pub fn message(&self) -> (text: &'static str)
        ensures
            text@ == self.message_text(),
    {
        match self {
            RangeError::MalformedRange => "Invalid input; input can only be numeric",
            RangeError::NonNumericBound => "Invalid input; check bounds with usize",
            RangeError::InvertedBounds => "Invalid input; start must be smaller than end",
        }
    }
}

/// An inclusive range of numbers to draw from, with its first bound strictly
/// below its last. Only `parse_range` makes one.
#[derive(Clone, Copy, Debug, PartialEq, Eq)]
pub struct Range {
    start: usize,
    end: usize,
}

impl View for Range {
    type V = (usize, usize);

    /// The two bounds, first and last.
    closed spec fn view(&self) -> (usize, usize) {
        (self.start, self.end)
    }
}

impl Range {
    #[verifier::type_invariant]
    spec fn ordered(self) -> bool {
        self.start < self.end
    }

    /// The first number of the range.
    pub fn start(&self) -> (bound: usize)
        ensures
            bound == self@.0,
            self@.0 < self@.1,
    {
        proof {
            use_type_invariant(self);
        }
        self.start
    }

    /// The last number of the range.
    pub fn end(&self) -> (bound: usize)
        ensures
            bound == self@.1,
            self@.0 < self@.1,
    {
        proof {
            use_type_invariant(self);
        }
        self.end
    }

    /// Whether `value` lies in the range, bounds included.
    pub fn contains(&self, value: usize) -> (inside: bool)
        ensures
            inside == (self@.0 <= value <= self@.1),
    {
        self.start <= value && value <= self.end
    }
}

/// Whether the separator `..` stands at position `i` of `s`.
pub open spec fn sep_at(s: Seq<char>, i: int) -> bool {
    0 <= i && i + 1 < s.len() && s[i] == '.' && s[i + 1] == '.'
}

/// Whether `s` holds the separator anywhere.
pub open spec fn has_sep(s: Seq<char>) -> bool {
    exists|i: int| sep_at(s, i)
}

/// Whether `i` is the leftmost position of the separator in `s`.
pub open spec fn is_first_sep(s: Seq<char>, i: int) -> bool {
    sep_at(s, i) && forall|j: int| 0 <= j < i ==> !sep_at(s, j)
}

/// The leftmost position of the separator in `s`, where it has one.
pub open spec fn first_sep(s: Seq<char>) -> int {
    choose|i: int| is_first_sep(s, i)
}

/// Whether `i` is the rightmost position of the separator in `s`.
pub open spec fn is_last_sep(s: Seq<char>, i: int) -> bool {
    sep_at(s, i) && forall|j: int| i < j ==> !sep_at(s, j)
}

/// The rightmost position of the separator in `s`, where it has one.
pub open spec fn last_sep(s: Seq<char>) -> int {
    choose|i: int| is_last_sep(s, i)
}

/// What `s` means as a range.
///
/// The first bound ends at the leftmost separator and the last bound begins
/// behind the rightmost one. The text has the shape of a range only where
/// the two are the same separator: a text without separator, or with the
/// separator at more than one position, is malformed. A text of that shape
/// is a range where both bounds are numbers and the first is below the last.
pub open spec fn parse_range_spec(s: Seq<char>) -> Result<(usize, usize), RangeError> {
    if !has_sep(s) || first_sep(s) != last_sep(s) {
        Err(RangeError::MalformedRange)
    } else {
        match (
            number(s.subrange(0, first_sep(s))),
            number(s.subrange(last_sep(s) + 2, s.len() as int)),
        ) {
            (Some(start), Some(end)) => if start < end {
                Ok((start, end))
            } else {
                Err(RangeError::InvertedBounds)
            },
            _ => Err(RangeError::NonNumericBound),
        }
    }
}

/// The bounds of a parsed range, or the error, as plain values.
pub open spec fn bounds_of(parsed: Result<Range, RangeError>) -> Result<
    (usize, usize),
    RangeError,
> {
    match parsed {
        Ok(range) => Ok(range@),
        Err(error) => Err(error),
    }
}

/// The leftmost separator is the only position that has none before it.
pub proof fn lemma_first_sep(s: Seq<char>, i: int)
    requires
        is_first_sep(s, i),
    ensures
        has_sep(s),
        first_sep(s) == i,
{
    let k = first_sep(s);
    assert(is_first_sep(s, k));
    if k < i {
        assert(!sep_at(s, k));
    } else if i < k {
        assert(!sep_at(s, i));
    }
}

/// Where the separator stands at all, it has a leftmost position.
pub proof fn lemma_has_first_sep(s: Seq<char>, i: int)
    requires
        sep_at(s, i),
    ensures
        is_first_sep(s, first_sep(s)),
        first_sep(s) <= i,
    decreases i,
{
    if exists|j: int| 0 <= j < i && sep_at(s, j) {
        let j = choose|j: int| 0 <= j < i && sep_at(s, j);
        lemma_has_first_sep(s, j);
    } else {
        lemma_first_sep(s, i);
    }
}

/// The rightmost separator is the only position that has none behind it.
pub proof fn lemma_last_sep(s: Seq<char>, i: int)
    requires
        is_last_sep(s, i),
    ensures
        has_sep(s),
        last_sep(s) == i,
{
    let k = last_sep(s);
    assert(is_last_sep(s, k));
    if k < i {
        assert(!sep_at(s, i));
    } else if i < k {
        assert(!sep_at(s, k));
    }
}

/// Where the separator stands at all, it has a rightmost position.
pub proof fn lemma_has_last_sep(s: Seq<char>, i: int)
    requires
        sep_at(s, i),
    ensures
        is_last_sep(s, last_sep(s)),
        i <= last_sep(s),
    decreases s.len() - i,
{
    if exists|j: int| i < j && sep_at(s, j) {
        let j = choose|j: int| i < j && sep_at(s, j);
        lemma_has_last_sep(s, j);
    } else {
        lemma_last_sep(s, i);
    }
}

fn find_separator(text: &str) -> (at: Option<usize>)
    ensures
        match at {
            Some(i) => is_first_sep(text@, i as int),
            None => !has_sep(text@),
        },
{
    let len: usize = text.unicode_len();
    if len < 2 {
        return None;
    }
    let mut i: usize = 0;
    while i + 1 < len
        invariant
            len == text@.len(),
            i + 1 <= len,
            forall|j: int| 0 <= j < i ==> !sep_at(text@, j),
        decreases len - i,
    {
        if text.get_char(i) == '.' && text.get_char(i + 1) == '.' {
            return Some(i);
        }
        i += 1;
    }
    None
}

fn find_last_separator(text: &str) -> (at: Option<usize>)
    ensures
        match at {
            Some(i) => is_last_sep(text@, i as int),
            None => !has_sep(text@),
        },
{
    let len: usize = text.unicode_len();
    if len < 2 {
        return None;
    }
    let mut i: usize = len - 1;
    while i > 0
        invariant
            len == text@.len(),
            i < len,
            forall|j: int| i <= j ==> !sep_at(text@, j),
        decreases i,
    {
        if text.get_char(i - 1) == '.' && text.get_char(i) == '.' {
            return Some(i - 1);
        }
        i -= 1;
    }
    None
}

/// Reads `text` as a range `n..m`.
///
/// The result is a range exactly when the text is a number, the separator
/// and a number, the first below the second. A text without separator, or
/// with more than one, is malformed; with one separator, a bound that is no
/// number is reported as such, and two numbers in the wrong order as
/// inverted.
pub fn parse_range(text: &str) -> (parsed: Result<Range, RangeError>)
    ensures
        bounds_of(parsed) == parse_range_spec(text@),
{
    let first: usize = match find_separator(text) {
        Some(i) => i,
        None => {
            return Err(RangeError::MalformedRange);
        },
    };
    let last: usize = match find_last_separator(text) {
        Some(i) => i,
        None => {
            return Err(RangeError::MalformedRange);
        },
    };
    proof {
        lemma_first_sep(text@, first as int);
        lemma_last_sep(text@, last as int);
    }
    if first != last {
        return Err(RangeError::MalformedRange);
    }
    let len: usize = text.unicode_len();
    let start = parse_number(text.substring_char(0, first));
    let end = parse_number(text.substring_char(last + 2, len));
    match (start, end) {
        (Some(start), Some(end)) => {
            if start < end {
                Ok(Range { start, end })
            } else {
                Err(RangeError::InvertedBounds)
            }
        },
        _ => Err(RangeError::NonNumericBound),
    }
}

/// The separator as a sequence of characters.
pub open spec fn separator() -> Seq<char> {
    seq!['.', '.']
}

/// Two numbers joined by the separator parse to those numbers: to the range
/// they span where the first is below the second, and to `InvertedBounds`
/// where it is not.
pub proof fn lemma_parse_joined(first: Seq<char>, last: Seq<char>)
    requires
        number(first) is Some,
        number(last) is Some,
    ensures
        parse_range_spec(first + separator() + last) == if number(first)->0 < number(last)->0 {
            Ok::<(usize, usize), RangeError>((number(first)->0, number(last)->0))
        } else {
            Err::<(usize, usize), RangeError>(RangeError::InvertedBounds)
        },
{
    let s = first + separator() + last;
    let cut = first.len() as int;
    assert(sep_at(s, cut));
    assert forall|j: int| 0 <= j < cut implies !sep_at(s, j) by {
        assert(s[j] == first[j]);
        assert(is_digit(first[j]));
    }
    assert forall|j: int| cut < j implies !sep_at(s, j) by {
        if j + 1 < s.len() {
            assert(s[j + 1] == last[j - cut - 1]);
            assert(is_digit(last[j - cut - 1]));
        }
    }
    lemma_first_sep(s, cut);
    lemma_last_sep(s, cut);
    assert(s.subrange(0, cut) =~= first);
    assert(s.subrange(cut + 2, s.len() as int) =~= last);
}

/// A range of a single point is rejected: the same number on both sides of
/// the separator gives `InvertedBounds`.
pub proof fn lemma_single_point_rejected(first: Seq<char>, last: Seq<char>)
    requires
        number(first) is Some,
        number(first) == number(last),
    ensures
        parse_range_spec(first + separator() + last) == Err::<(usize, usize), RangeError>(
            RangeError::InvertedBounds,
        ),
{
    lemma_parse_joined(first, last);
}

/// A text that holds the separator at two positions is malformed, whatever
/// stands round them.
pub proof fn lemma_second_separator_is_malformed(s: Seq<char>, i: int, j: int)
    requires
        sep_at(s, i),
        sep_at(s, j),
        i != j,
    ensures
        parse_range_spec(s) == Err::<(usize, usize), RangeError>(RangeError::MalformedRange),
{
    lemma_has_first_sep(s, i);
    lemma_has_first_sep(s, j);
    lemma_has_last_sep(s, i);
    lemma_has_last_sep(s, j);
}

/// Every error but `MalformedRange`, and every range, comes from a text with
/// the separator at exactly one position; and the bounds of a range are
/// strictly ordered.
pub proof fn lemma_parsed_is_unambiguous(s: Seq<char>, i: int)
    requires
        parse_range_spec(s) != Err::<(usize, usize), RangeError>(RangeError::MalformedRange),
        sep_at(s, i),
    ensures
        i == first_sep(s),
        i == last_sep(s),
        parse_range_spec(s) matches Ok(bounds) ==> bounds.0 < bounds.1,
{
    lemma_has_first_sep(s, i);
    lemma_has_last_sep(s, i);
}

/// Why a text is no guess for a given range.
#[derive(Clone, Copy, Debug, PartialEq, Eq)]
pub enum GuessError {
    /// The text is no number.
    NonNumeric,
    /// The number lies outside the range.
    OutOfRange,
}

impl GuessError {
    /// The sentence shown to the player for this error.
    pub open spec fn message_text(self) -> Seq<char> {
        match self {
            GuessError::NonNumeric => "The input should be made up of numbers only"@,
            GuessError::OutOfRange => "The given input is not within the provided range"@,
        }
    }

    pub fn message(&self) -> (text: &'static str)
        ensures
            text@ == self.message_text(),
    {
        match self {
            GuessError::NonNumeric => "The input should be made up of numbers only",
            GuessError::OutOfRange => "The given input is not within the provided range",
        }
    }
}

/// What `s` means as a guess for the range with the given bounds.
pub open spec fn parse_guess_spec(s: Seq<char>, bounds: (usize, usize)) -> Result<
    usize,
    GuessError,
> {
    match number(s) {
        None => Err(GuessError::NonNumeric),
        Some(guess) => if bounds.0 <= guess <= bounds.1 {
            Ok(guess)
        } else {
            Err(GuessError::OutOfRange)
        },
    }
}

/// Reads `text` as a guess for `range`: a number within the range, bounds
/// included.
pub fn parse_guess(text: &str, range: &Range) -> (parsed: Result<usize, GuessError>)
    ensures
        parsed == parse_guess_spec(text@, range@),
{
    match parse_number(text) {
        None => Err(GuessError::NonNumeric),
        Some(guess) => {
            if range.contains(guess) {
                Ok(guess)
            } else {
                Err(GuessError::OutOfRange)
            }
        },
    }
}

} // verus!
