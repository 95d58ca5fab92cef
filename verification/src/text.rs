//! Decimal text: rendering unsigned integers and reading them back.

use vstd::prelude::*;
use numtoa::NumToA;
use vstd::string::StrSliceExecFns;

verus! {

/// The character of a single decimal digit.
pub open spec fn digit_char(d: nat) -> char
    recommends
        d < 10,
{
    if d == 0 {
        '0'
    } else if d == 1 {
        '1'
    } else if d == 2 {
        '2'
    } else if d == 3 {
        '3'
    } else if d == 4 {
        '4'
    } else if d == 5 {
        '5'
    } else if d == 6 {
        '6'
    } else if d == 7 {
        '7'
    } else if d == 8 {
        '8'
    } else {
        '9'
    }
}

/// The base-10 rendering of `n`, most significant digit first, without
/// leading zeros; zero is rendered as `"0"`.
pub open spec fn decimal(n: nat) -> Seq<char>
    decreases n,
{
    if n < 10 {
        seq![digit_char(n)]
    } else {
        decimal(n / 10).push(digit_char(n % 10))
    }
}

/// Renders `n` in base 10.
///
/// Trusted: calls `numtoa_str` of `numtoa`'s `NumToA<u64>` impl for `u64`
/// with base 10 and a 20-byte buffer, which is large enough for every `u64`.
/// The contract claims that the text returned is the usual decimal numeral.
#[verifier::external_body]
pub(crate) fn decimal_text(n: u64) -> (text: String)
    ensures
        text@ == decimal(n as nat),
{
    let mut buffer = [0u8; 20];
    String::from(n.numtoa_str(10, &mut buffer))
}

/// Whether `c` is one of the ten decimal digits.
pub open spec fn is_digit(c: char) -> bool {
    '0' <= c <= '9'
}

/// The number that a run of digits denotes, the empty run denoting zero.
pub open spec fn digits_value(digits: Seq<char>) -> nat
    decreases digits.len(),
{
    if digits.len() == 0 {
        0
    } else {
        digits_value(digits.drop_last()) * 10 + (digits.last() as u32 - 48) as nat
    }
}

/// Whether every character of `digits` is a decimal digit.
pub open spec fn all_digits(digits: Seq<char>) -> bool {
    forall|i: int| 0 <= i < digits.len() ==> is_digit(#[trigger] digits[i])
}

/// The text without one leading plus sign, if it has one.
pub open spec fn unsigned_part(text: Seq<char>) -> Seq<char> {
    if text.len() > 0 && text[0] == '+' {
        text.subrange(1, text.len() as int)
    } else {
        text
    }
}

/// What a text denotes as a `u64`: an optional plus sign, then at least one
/// digit and nothing but digits, of a value that `u64` can hold.
pub open spec fn unsigned_value(text: Seq<char>) -> Option<u64> {
    let digits = unsigned_part(text);
    if digits.len() > 0 && all_digits(digits) && digits_value(digits) <= u64::MAX {
        Some(digits_value(digits) as u64)
    } else {
        None
    }
}

/// A run of digits denotes at least what any of its prefixes denotes.
proof fn lemma_prefix_value(digits: Seq<char>, taken: int)
    requires
        all_digits(digits),
        0 <= taken <= digits.len(),
    ensures
        digits_value(digits.subrange(0, taken)) <= digits_value(digits),
    decreases digits.len(),
{
    if taken == digits.len() {
        assert(digits.subrange(0, taken) =~= digits);
    } else {
        let shorter = digits.drop_last();
        assert(shorter.subrange(0, taken) =~= digits.subrange(0, taken));
        assert forall|i: int| 0 <= i < shorter.len() implies is_digit(#[trigger] shorter[i]) by {
            assert(shorter[i] == digits[i]);
        }
        lemma_prefix_value(shorter, taken);
    }
}

/// Reads an unsigned decimal number: an optional plus sign followed by one or
/// more digits. Anything else, and any value above `u64::MAX`, gives `None`.
pub fn parse_u64(text: &str) -> (value: Option<u64>)
    ensures
        value == unsigned_value(text@),
{
    if !text.is_ascii() {
        proof {
            let digits = unsigned_part(text@);
            let at = choose|i: int|
                0 <= i < text@.len() && !('\0' <= #[trigger] text@[i] <= '\u{7f}');
            assert(!is_digit(text@[at]));
            if digits.len() == text@.len() {
                assert(!is_digit(digits[at]));
            } else {
                assert(at >= 1);
                assert(digits[at - 1] == text@[at]);
                assert(!is_digit(digits[at - 1]));
            }
        }
        return None;
    }
    let count: usize = text.unicode_len();
    let start: usize = if count > 0 && text.get_ascii(0) == 43 {
        1
    } else {
        0
    };
    let ghost digits = unsigned_part(text@);
    assert(digits =~= text@.subrange(start as int, count as int));
    if start == count {
        return None;
    }
    let mut at: usize = start;
    let mut total: u64 = 0;
    while at < count
        invariant
            text.is_ascii(),
            count == text@.len(),
            start <= at <= count,
            digits == text@.subrange(start as int, count as int),
            digits == unsigned_part(text@),
            digits.len() > 0,
            all_digits(digits.subrange(0, at - start)),
            total == digits_value(digits.subrange(0, at - start)),
        decreases count - at,
    {
        let byte: u8 = text.get_ascii(at);
        assert(digits[at - start] == text@[at as int]);
        if byte < 48 || byte > 57 {
            assert(!is_digit(digits[at - start]));
            return None;
        }
        let digit: u64 = (byte - 48) as u64;
        let ghost longer = digits.subrange(0, at - start + 1);
        assert(longer.drop_last() =~= digits.subrange(0, at - start));
        assert(longer.last() == digits[at - start]);
        assert(digits_value(longer) == total * 10 + digit);
        if total > (u64::MAX - digit) / 10 {
            proof {
                if all_digits(digits) {
                    lemma_prefix_value(digits, at - start + 1);
                }
            }
            return None;
        }
        assert forall|i: int| 0 <= i < longer.len() implies is_digit(#[trigger] longer[i]) by {
            if i < at - start {
                assert(longer[i] == digits.subrange(0, at - start)[i]);
            }
        }
        total = total * 10 + digit;
        at = at + 1;
    }
    assert(digits.subrange(0, at - start) =~= digits);
    Some(total)
}

} // verus!
