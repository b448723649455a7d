//! Comparison and reading of strings.

use vstd::prelude::*;
use vstd::string::StringSliceAdditionalSpecFns;
use vstd::utf8::encode_utf8_decode_utf8;

verus! {

/// Whether two strings hold the same text, decided byte by byte.
pub fn str_eq(a: &str, b: &str) -> (same: bool)
    ensures
        same == (a@ == b@),
{
    let left = a.as_bytes();
    let right = b.as_bytes();
    proof {
        encode_utf8_decode_utf8(a@);
        encode_utf8_decode_utf8(b@);
    }
    if left.len() != right.len() {
        return false;
    }
    let mut idx: usize = 0;
    while idx < left.len()
        invariant
            idx <= left@.len(),
            left@.len() == right@.len(),
            left@ == a.spec_bytes(),
            right@ == b.spec_bytes(),
            forall|i: int| 0 <= i < idx ==> left@[i] == right@[i],
        decreases left@.len() - idx,
    {
        if left[idx] != right[idx] {
            return false;
        }
        idx += 1;
    }
    assert(left@ =~= right@);
    true
}

/// The value of a decimal digit.
pub open spec fn digit(c: char) -> Option<nat> {
    if '0' <= c <= '9' {
        Some((c as u32 - '0' as u32) as nat)
    } else {
        None
    }
}

/// The number that a row of decimal digits writes, the most significant
/// digit first. A row that holds anything but digits writes no number; the
/// empty row writes 0.
pub open spec fn digits_value(digits: Seq<char>) -> Option<nat>
    decreases digits.len(),
{
    if digits.len() == 0 {
        Some(0)
    } else {
        match (digits_value(digits.drop_last()), digit(digits.last())) {
            (Some(value), Some(d)) => Some(value * 10 + d),
            _ => None,
        }
    }
}

/// How many characters of a text are its sign: one for a leading `+`.
pub open spec fn sign_len(text: Seq<char>) -> int {
    if text.len() > 0 && text[0] == '+' {
        1
    } else {
        0
    }
}

/// The number of at most 32 bits that a text writes in decimal digits: at
/// least one digit, nothing else but a `+` in front, and a value that fits.
pub open spec fn decimal_u32(text: Seq<char>) -> Option<u32> {
    let digits = text.skip(sign_len(text));
    match digits_value(digits) {
        Some(value) => if digits.len() > 0 && value <= u32::MAX {
            Some(value as u32)
        } else {
            None
        },
        None => None,
    }
}

/// The first digits of a number write a number that is no larger, and
/// where some of the first characters are no digits, the whole is no number.
pub proof fn lemma_digits_prefix(digits: Seq<char>, n: int)
    requires
        0 <= n <= digits.len(),
        digits_value(digits) is Some,
    ensures
        digits_value(digits.take(n)) is Some,
        digits_value(digits.take(n))->0 <= digits_value(digits)->0,
    decreases digits.len() - n,
{
    if n < digits.len() {
        assert(digits.drop_last().take(n) =~= digits.take(n));
        lemma_digits_prefix(digits.drop_last(), n);
    } else {
        assert(digits.take(n) =~= digits);
    }
}

/// Reads a number of at most 32 bits from its decimal digits.
pub fn parse_u32(text: &str) -> (parsed: Option<u32>)
    ensures
        parsed == decimal_u32(text@),
{
    let mut value: u64 = 0;
    let mut any = false;
    let mut first = true;
    let ghost mut read: int = 0;
    let ghost digits = text@.skip(sign_len(text@));
    for c in it: text.chars()
        invariant
            it.seq() == text@,
            digits == text@.skip(sign_len(text@)),
            first <==> it.index() == 0,
            first ==> read == 0,
            !first ==> read == it.index() - sign_len(text@),
            0 <= read <= it.index(),
            any <==> read > 0,
            digits_value(digits.take(read)) == Some(value as nat),
            value <= u32::MAX,
    {
        let ghost at = it.index();
        assert(c == text@[at]);
        if first && c == '+' {
            first = false;
        } else {
            first = false;
            assert(digits[read] == c);
            assert(digits.take(read + 1).drop_last() =~= digits.take(read));
            assert(digits.take(read + 1).last() == c);
            if c < '0' || c > '9' {
                proof {
                    if digits_value(digits) is Some {
                        lemma_digits_prefix(digits, read + 1);
                    }
                }
                return None;
            }
            value = value * 10 + (c as u32 - '0' as u32) as u64;
            any = true;
            proof {
                read = read + 1;
            }
            if value > 0xffff_ffff {
                proof {
                    if digits_value(digits) is Some {
                        lemma_digits_prefix(digits, read);
                    }
                }
                return None;
            }
        }
    }
    proof {
        assert(digits.take(digits.len() as int) =~= digits);
    }
    if any {
        Some(value as u32)
    } else {
        None
    }
}

} // verus!
