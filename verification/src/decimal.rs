//! Unsigned decimal numbers as they stand in a callback: an optional `+`, then
//! one or more digits, nothing else, and a value that fits in 64 bits.

use vstd::prelude::*;

verus! {

/// The ASCII code of `+`.
const PLUS: u8 = 43;

/// The ASCII code of `0`.
const ZERO: u8 = 48;

/// The ASCII code of `9`.
const NINE: u8 = 57;

pub open spec fn is_digit(c: char) -> bool {
    '0' <= c <= '9'
}

/// The value of one digit; zero for any other character.
pub open spec fn digit_value(c: char) -> nat {
    if is_digit(c) {
        (c as int - '0' as int) as nat
    } else {
        0
    }
}

/// The number that a sequence of digits writes, the most significant first.
pub open spec fn digits_value(digits: Seq<char>) -> nat
    decreases digits.len(),
{
    if digits.len() == 0 {
        0
    } else {
        digits_value(digits.drop_last()) * 10 + digit_value(digits.last())
    }
}

pub open spec fn all_digits(digits: Seq<char>) -> bool {
    forall|i: int| 0 <= i < digits.len() ==> is_digit(#[trigger] digits[i])
}

/// The text without a leading `+`.
pub open spec fn unsigned_part(text: Seq<char>) -> Seq<char> {
    if text.len() > 0 && text[0] == '+' {
        text.subrange(1, text.len() as int)
    } else {
        text
    }
}

/// The number that `text` writes, if it writes one that fits in 64 bits.
pub open spec fn decimal_u64(text: Seq<char>) -> Option<u64> {
    let digits = unsigned_part(text);
    if digits.len() > 0 && all_digits(digits) && digits_value(digits) <= u64::MAX {
        Some(digits_value(digits) as u64)
    } else {
        None
    }
}

/// A number is at least as large as any number written by its leading digits.
pub proof fn prefix_is_smaller(digits: Seq<char>, k: int)
    requires
        0 <= k <= digits.len(),
    ensures
        digits_value(digits.subrange(0, k)) <= digits_value(digits),
    decreases digits.len(),
{
    if k == digits.len() {
        assert(digits.subrange(0, k) =~= digits);
    } else {
        prefix_is_smaller(digits.drop_last(), k);
        assert(digits.drop_last().subrange(0, k) =~= digits.subrange(0, k));
    }
}

/// Reads an unsigned decimal number of at most 64 bits.
pub fn parse_u64(text: &str) -> (value: Option<u64>)
    ensures
        value == decimal_u64(text@),
{
    let ghost digits = unsigned_part(text@);
    if !text.is_ascii() {
        proof {
            let i = choose|i: int|
                0 <= i < text@.len() && !('\0' <= #[trigger] text@[i] <= '\u{7f}');
            if text@[0] == '+' {
                assert(digits[i - 1] == text@[i]);
            }
        }
        return None;
    }
    let n = text.as_bytes().len();
    proof {
        vstd::string::is_ascii_spec_bytes(text);
    }
    let mut i: usize = 0;
    if n > 0 && text.get_ascii(0) == PLUS {
        i = 1;
    }
    let start = i;
    if i == n {
        return None;
    }
    let mut acc: u64 = 0;
    while i < n
        invariant
            text.is_ascii(),
            n == text@.len(),
            start <= i <= n,
            digits == unsigned_part(text@),
            digits == text@.subrange(start as int, n as int),
            all_digits(digits.subrange(0, i - start)),
            acc == digits_value(digits.subrange(0, i - start)),
        decreases n - i,
    {
        let b = text.get_ascii(i);
        assert(text@[i as int] == digits[i - start]);
        if b < ZERO || b > NINE {
            return None;
        }
        let d: u64 = (b - ZERO) as u64;
        proof {
            let next = digits.subrange(0, i - start + 1);
            assert(next.drop_last() =~= digits.subrange(0, i - start));
            assert(all_digits(next));
            prefix_is_smaller(digits, i - start + 1);
        }
        if acc > (u64::MAX - d) / 10 {
            return None;
        }
        acc = acc * 10 + d;
        i += 1;
    }
    assert(digits.subrange(0, n - start) =~= digits);
    Some(acc)
}

} // verus!
