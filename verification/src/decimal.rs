//! Decimal numbers as text: reading them and writing them.

use vstd::prelude::*;

verus! {

/// Whether `byte` is an ASCII decimal digit.
pub open spec fn is_digit(byte: u8) -> bool {
    0x30 <= byte <= 0x39
}

/// The number written by a non-empty run of decimal digits.
pub open spec fn digits_value(text: Seq<u8>) -> Option<int>
    decreases text.len(),
{
    if text.len() == 0 || !is_digit(text.last()) {
        None
    } else if text.len() == 1 {
        Some(text.last() as int - 0x30)
    } else {
        match digits_value(text.drop_last()) {
            Some(value) => Some(value * 10 + (text.last() as int - 0x30)),
            None => None,
        }
    }
}

/// The number written by an optional sign followed by decimal digits.
pub open spec fn decimal_value(text: Seq<u8>) -> Option<int> {
    if text.len() > 0 && text[0] == 0x2b {
        digits_value(text.skip(1))
    } else if text.len() > 0 && text[0] == 0x2d {
        match digits_value(text.skip(1)) {
            Some(value) => Some(-value),
            None => None,
        }
    } else {
        digits_value(text)
    }
}

/// A longer run of digits never writes a smaller number.
pub proof fn lemma_digits_grow(text: Seq<u8>, cut: int)
    requires
        0 < cut <= text.len(),
        digits_value(text) is Some,
    ensures
        digits_value(text.take(cut)) matches Some(prefix) && 0 <= prefix <= digits_value(text)->0,
    decreases text.len(),
{
    if cut == text.len() {
        assert(text.take(cut) == text);
        if text.len() > 1 {
            lemma_digits_grow(text.drop_last(), cut - 1);
            assert(text.drop_last().take(cut - 1) == text.drop_last());
        }
    } else {
        assert(text.len() > 1);
        lemma_digits_grow(text.drop_last(), cut);
        assert(text.drop_last().take(cut) == text.take(cut));
    }
}

/// Reads everything from `start` on as a run of decimal digits that writes
/// a number of at most `max`.
pub fn parse_digits_upto(text: &[u8], start: usize, max: u64) -> (r: Option<u64>)
    requires
        start <= text.len(),
    ensures
        match r {
            Some(value) => value <= max && digits_value(text@.skip(start as int)) == Some(
                value as int,
            ),
            None => digits_value(text@.skip(start as int)) matches Some(value) ==> value > max,
        },
{
    let ghost digits = text@.skip(start as int);
    if start == text.len() {
        return None;
    }
    let mut value: u64 = 0;
    let mut i: usize = start;
    while i < text.len()
        invariant
            start <= i <= text.len(),
            digits == text@.skip(start as int),
            i == start ==> value == 0,
            i > start ==> digits_value(digits.take(i - start)) == Some(value as int),
            value <= max,
        decreases text.len() - i,
    {
        let byte = text[i];
        let ghost upto = digits.take(i + 1 - start);
        assert(upto.last() == byte);
        assert(upto.drop_last() == digits.take(i - start));
        if byte < 0x30 || byte > 0x39 {
            proof {
                if digits_value(digits) is Some {
                    lemma_digits_grow(digits, i + 1 - start);
                }
            }
            return None;
        }
        let next: u128 = value as u128 * 10 + (byte - 0x30) as u128;
        if next > max as u128 {
            proof {
                if digits_value(digits) is Some {
                    lemma_digits_grow(digits, i + 1 - start);
                }
            }
            return None;
        }
        value = next as u64;
        i += 1;
    }
    assert(digits.take(i - start) == digits);
    Some(value)
}

/// Reads everything from `start` on as a run of decimal digits that writes
/// a number of at most 2^31.
pub fn parse_digits(text: &[u8], start: usize) -> (r: Option<u32>)
    requires
        start <= text.len(),
    ensures
        match r {
            Some(value) => value <= 0x8000_0000 && digits_value(text@.skip(start as int)) == Some(
                value as int,
            ),
            None => digits_value(text@.skip(start as int)) matches Some(value) ==> value
                > 0x8000_0000,
        },
{
    match parse_digits_upto(text, start, 0x8000_0000) {
        Some(value) => Some(value as u32),
        None => None,
    }
}

/// The number written by decimal digits with an optional plus sign before
/// them.
pub open spec fn unsigned_value(text: Seq<u8>) -> Option<int> {
    if text.len() > 0 && text[0] == 0x2b {
        digits_value(text.skip(1))
    } else {
        digits_value(text)
    }
}

/// The number of type `usize` that `text` writes: decimal digits, with an
/// optional plus sign before them and nothing else around them.
pub open spec fn usize_of(text: Seq<u8>) -> Option<usize> {
    match unsigned_value(text) {
        Some(value) => if value <= usize::MAX {
            Some(value as usize)
        } else {
            None
        },
        None => None,
    }
}

/// Reads a number of type `usize` from its decimal text.
pub fn parse_usize(text: &[u8]) -> (number: Option<usize>)
    ensures
        number == usize_of(text@),
{
    let start: usize = if text.len() > 0 && text[0] == 0x2b {
        1
    } else {
        0
    };
    assert(text@.skip(0) == text@);
    match parse_digits_upto(text, start, usize::MAX as u64) {
        Some(value) => Some(value as usize),
        None => None,
    }
}

/// The digits that write `number`, most significant first.
pub open spec fn digits_of(number: nat) -> Seq<u8>
    decreases number,
{
    if number < 10 {
        seq![(0x30 + number) as u8]
    } else {
        digits_of(number / 10).push((0x30 + number % 10) as u8)
    }
}

/// The text that writes `number`: a minus sign for a negative one, then its
/// digits.
pub open spec fn decimal_text(number: int) -> Seq<u8> {
    if number < 0 {
        seq![0x2du8] + digits_of((-number) as nat)
    } else {
        digits_of(number as nat)
    }
}

/// What `digits_of` writes is a non-empty run of digits that reads back as
/// the number.
pub proof fn lemma_digits_round_trip(number: nat)
    ensures
        digits_of(number).len() > 0,
        forall|i: int| 0 <= i < digits_of(number).len() ==> is_digit(#[trigger] digits_of(number)[i]),
        digits_value(digits_of(number)) == Some(number as int),
    decreases number,
{
    if number >= 10 {
        lemma_digits_round_trip(number / 10);
        let init = digits_of(number / 10);
        let all = digits_of(number);
        assert(all.drop_last() == init);
        assert(all.last() == (0x30 + number % 10) as u8);
    }
}

/// Reading the text of a number gives the number back.
pub proof fn lemma_decimal_round_trip(number: int)
    ensures
        decimal_value(decimal_text(number)) == Some(number),
{
    if number < 0 {
        let digits = digits_of((-number) as nat);
        lemma_digits_round_trip((-number) as nat);
        assert(decimal_text(number).skip(1) == digits);
    } else {
        lemma_digits_round_trip(number as nat);
        assert(is_digit(digits_of(number as nat)[0]));
    }
}

/// Appends the digits of `number` to `out`.
pub fn push_digits(number: u32, out: &mut Vec<u8>)
    ensures
        final(out)@ == old(out)@ + digits_of(number as nat),
    decreases number,
{
    if number >= 10 {
        push_digits(number / 10, out);
    }
    out.push((0x30 + number % 10) as u8);
    assert(final(out)@ =~= old(out)@ + digits_of(number as nat));
}

/// Writes a 16-bit number as decimal text.
pub fn i16_to_decimal(number: i16) -> (text: Vec<u8>)
    ensures
        text@ == decimal_text(number as int),
        decimal_value(text@) == Some(number as int),
{
    let mut text: Vec<u8> = Vec::new();
    if number < 0 {
        text.push(0x2d);
        push_digits((-(number as i32)) as u32, &mut text);
    } else {
        push_digits(number as u32, &mut text);
    }
    proof {
        assert(text@ =~= decimal_text(number as int));
        lemma_decimal_round_trip(number as int);
    }
    text
}

} // verus!
