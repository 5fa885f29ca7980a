//! Reading decimal numbers and separated parts out of ASCII text.

use vstd::prelude::*;

verus! {

/// The digit `0`.
pub const DIGIT_ZERO: u8 = 0x30;

/// The digit `9`.
pub const DIGIT_NINE: u8 = 0x39;

/// The largest limit that `parse_number` takes.
pub const MAX_LIMIT: u32 = 0x0FFF_FFFF;

/// Whether `byte` is an ASCII decimal digit.
pub open spec fn is_digit(byte: u8) -> bool {
    DIGIT_ZERO <= byte && byte <= DIGIT_NINE
}

/// Whether `text` consists of decimal digits only.
pub open spec fn all_digits(text: Seq<u8>) -> bool {
    forall|i: int| 0 <= i < text.len() ==> is_digit(#[trigger] text[i])
}

/// The number that a string of decimal digits denotes.
pub open spec fn decimal_value(digits: Seq<u8>) -> nat
    decreases digits.len(),
{
    if digits.len() == 0 {
        0
    } else {
        decimal_value(digits.drop_last()) * 10 + (digits.last() - DIGIT_ZERO) as nat
    }
}

/// The number that `text` denotes if it is one or more decimal digits and
/// nothing else, with a value of at most `limit`.
pub open spec fn number_of_text(text: Seq<u8>, limit: nat) -> Option<nat> {
    if text.len() > 0 && all_digits(text) && decimal_value(text) <= limit {
        Some(decimal_value(text))
    } else {
        None
    }
}

/// Where the part of `text` that begins at `start` ends: at the first
/// `separator` at or behind `start`, or at the end of the text.
pub open spec fn part_end(text: Seq<u8>, start: int, separator: u8) -> int
    decreases text.len() - start,
{
    if start < 0 || start >= text.len() {
        text.len() as int
    } else if text[start] == separator {
        start
    } else {
        part_end(text, start + 1, separator)
    }
}

/// A string of digits denotes at least what any of its prefixes denotes.
pub proof fn lemma_decimal_value_grows(digits: Seq<u8>, length: int)
    requires
        all_digits(digits),
        0 <= length <= digits.len(),
    ensures
        decimal_value(digits.take(length)) <= decimal_value(digits),
    decreases digits.len() - length,
{
    if length < digits.len() {
        let shorter = digits.drop_last();
        assert(all_digits(shorter)) by {
            assert forall|i: int| 0 <= i < shorter.len() implies is_digit(#[trigger] shorter[i]) by {
                assert(shorter[i] == digits[i]);
            }
        }
        lemma_decimal_value_grows(shorter, length);
        assert(shorter.take(length) =~= digits.take(length));
    } else {
        assert(digits.take(length) =~= digits);
    }
}

/// Finds where the part of `text` that begins at `start` ends.
pub(crate) fn find_part_end(text: &[u8], start: usize, separator: u8) -> (end: usize)
    requires
        start <= text@.len(),
    ensures
        end == part_end(text@, start as int, separator),
        start <= end <= text@.len(),
{
    let mut end: usize = start;
    while end < text.len() && text[end] != separator
        invariant
            start <= end <= text@.len(),
            part_end(text@, start as int, separator) == part_end(text@, end as int, separator),
        decreases text@.len() - end,
    {
        end = end + 1;
    }
    end
}

/// Reads the number that `text[start..end]` denotes, if it is one of at most
/// `limit`.
pub(crate) fn parse_number(text: &[u8], start: usize, end: usize, limit: u32) -> (number: Option<u32>)
    requires
        start <= end <= text@.len(),
        limit <= MAX_LIMIT,
    ensures
        number_of_text(text@.subrange(start as int, end as int), limit as nat) matches Some(value)
            ==> number == Some(value as u32),
        number_of_text(text@.subrange(start as int, end as int), limit as nat) is None
            ==> number is None,
{
    let ghost digits = text@.subrange(start as int, end as int);
    if start == end {
        return None;
    }
    let mut index: usize = start;
    let mut value: u32 = 0;
    assert(digits.take(0) =~= Seq::<u8>::empty());
    while index < end
        invariant
            start <= index <= end <= text@.len(),
            limit <= MAX_LIMIT,
            digits == text@.subrange(start as int, end as int),
            all_digits(digits.take(index - start)),
            value == decimal_value(digits.take(index - start)),
            value <= limit,
        decreases end - index,
    {
        let byte: u8 = text[index];
        let ghost read = digits.take(index - start);
        let ghost longer = digits.take(index - start + 1);
        assert(longer.drop_last() =~= read);
        assert(longer.last() == byte);
        if byte < DIGIT_ZERO || byte > DIGIT_NINE {
            assert(!is_digit(digits[index - start]));
            return None;
        }
        assert(all_digits(longer)) by {
            assert forall|i: int| 0 <= i < longer.len() implies is_digit(#[trigger] longer[i]) by {
                if i < read.len() {
                    assert(longer[i] == read[i]);
                }
            }
        }
        let next: u32 = value * 10 + (byte - DIGIT_ZERO) as u32;
        if next > limit {
            proof {
                if all_digits(digits) {
                    lemma_decimal_value_grows(digits, index - start + 1);
                }
            }
            return None;
        }
        value = next;
        index = index + 1;
    }
    assert(digits.take(index - start) =~= digits);
    Some(value)
}

} // verus!
