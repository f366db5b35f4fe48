use randyrand::input::{
    parse_guess, parse_number, parse_range, write_number, GuessError, RangeError,
};

fn bounds(text: &str) -> Result<(usize, usize), RangeError> {
    parse_range(text).map(|range| (range.start(), range.end()))
}

#[test]
fn parses_a_plain_range() {
    assert_eq!(bounds("3..10"), Ok((3, 10)));
}

#[test]
fn rejects_inverted_bounds() {
    assert_eq!(bounds("10..3"), Err(RangeError::InvertedBounds));
}

#[test]
fn rejects_a_single_point() {
    assert_eq!(bounds("5..5"), Err(RangeError::InvertedBounds));
}

#[test]
fn rejects_letters_in_a_bound() {
    assert_eq!(bounds("abc..10"), Err(RangeError::NonNumericBound));
}

#[test]
fn rejects_a_text_without_separator() {
    assert_eq!(bounds("310"), Err(RangeError::MalformedRange));
}

#[test]
fn reads_digits_only() {
    assert_eq!(parse_number("007"), Some(7));
    assert_eq!(parse_number("+7"), None);
    assert_eq!(parse_number(""), None);
}

#[test]
fn guess_must_lie_in_the_range() {
    let range = parse_range("1..10").unwrap();
    assert_eq!(parse_guess("10", &range), Ok(10));
    assert_eq!(parse_guess("11", &range), Err(GuessError::OutOfRange));
    assert_eq!(parse_guess("x", &range), Err(GuessError::NonNumeric));
}

#[test]
fn rejects_an_empty_bound() {
    assert_eq!(bounds("..5"), Err(RangeError::NonNumericBound));
    assert_eq!(bounds("5.."), Err(RangeError::NonNumericBound));
    assert_eq!(bounds(".."), Err(RangeError::NonNumericBound));
}

#[test]
fn rejects_a_second_separator() {
    assert_eq!(bounds("1..2..3"), Err(RangeError::MalformedRange));
    assert_eq!(bounds("1...3"), Err(RangeError::MalformedRange));
    assert_eq!(bounds("1....3"), Err(RangeError::MalformedRange));
    assert_eq!(bounds("..1..3"), Err(RangeError::MalformedRange));
    assert_eq!(bounds("a..b..c"), Err(RangeError::MalformedRange));
    assert_eq!(bounds("..."), Err(RangeError::MalformedRange));
}

#[test]
fn rejects_a_bound_that_is_too_large() {
    assert_eq!(
        bounds("1..340282366920938463463374607431768211456"),
        Err(RangeError::NonNumericBound)
    );
    assert_eq!(
        bounds("18446744073709551614..18446744073709551615"),
        Ok((18446744073709551614, 18446744073709551615))
    );
}

#[test]
fn rejects_signs_spaces_and_other_digits() {
    assert_eq!(bounds("+1..5"), Err(RangeError::NonNumericBound));
    assert_eq!(bounds("1..-5"), Err(RangeError::NonNumericBound));
    assert_eq!(bounds(" 1..5"), Err(RangeError::NonNumericBound));
    assert_eq!(bounds("1 .. 5"), Err(RangeError::NonNumericBound));
    assert_eq!(bounds("\u{661}..\u{663}"), Err(RangeError::NonNumericBound));
    assert_eq!(bounds("1.5"), Err(RangeError::MalformedRange));
    assert_eq!(bounds(""), Err(RangeError::MalformedRange));
    assert_eq!(bounds("."), Err(RangeError::MalformedRange));
}

#[test]
fn leading_zeros_do_not_count() {
    assert_eq!(bounds("007..010"), Ok((7, 10)));
    assert_eq!(bounds("0..1"), Ok((0, 1)));
    assert_eq!(bounds("0..0"), Err(RangeError::InvertedBounds));
}

#[test]
fn a_range_holds_both_of_its_bounds() {
    let range = parse_range("3..10").unwrap();
    assert!(range.contains(3));
    assert!(range.contains(10));
    assert!(!range.contains(2));
    assert!(!range.contains(11));
    assert_eq!(parse_guess("3", &range), Ok(3));
    assert_eq!(parse_guess("2", &range), Err(GuessError::OutOfRange));
    assert_eq!(parse_guess("", &range), Err(GuessError::NonNumeric));
    assert_eq!(
        parse_guess("340282366920938463463374607431768211456", &range),
        Err(GuessError::NonNumeric)
    );
}

#[test]
fn every_error_has_its_sentence() {
    assert_eq!(
        RangeError::MalformedRange.message(),
        "Invalid input; input can only be numeric"
    );
    assert_eq!(
        RangeError::NonNumericBound.message(),
        "Invalid input; check bounds with usize"
    );
    assert_eq!(
        RangeError::InvertedBounds.message(),
        "Invalid input; start must be smaller than end"
    );
    assert_eq!(
        GuessError::NonNumeric.message(),
        "The input should be made up of numbers only"
    );
    assert_eq!(
        GuessError::OutOfRange.message(),
        "The given input is not within the provided range"
    );
}

#[test]
fn numbers_are_written_as_they_are_read() {
    assert_eq!(write_number(0), "0");
    assert_eq!(write_number(7), "7");
    assert_eq!(write_number(10), "10");
    assert_eq!(write_number(1203), "1203");
    assert_eq!(write_number(4294967295), "4294967295");
    for n in [0, 9, 10, 99, 100, 65535, 4294967295] {
        assert_eq!(parse_number(&write_number(n)), Some(n as usize));
    }
}
