//! Numbers on the command line: plain decimal digits, nothing else.

use vstd::prelude::*;
use vstd::string::StrSliceExecFns;

verus! {

/// The value of a decimal digit; `None` for any other character.
pub open spec fn digit_value(c: char) -> Option<nat> {
    if 48 <= c as u32 <= 57 {
        Some((c as u32 - 48) as nat)
    } else {
        None
    }
}

/// The number that a text of decimal digits denotes; `None` for the empty text and
/// for text that holds anything but digits.
pub open spec fn decimal_value(text: Seq<char>) -> Option<nat>
    decreases text.len(),
{
    if text.len() == 0 {
        None
    } else {
        match digit_value(text.last()) {
            None => None,
            Some(digit) => if text.len() == 1 {
                Some(digit)
            } else {
                match decimal_value(text.drop_last()) {
                    Some(value) => Some(value * 10 + digit),
                    None => None,
                }
            },
        }
    }
}

/// The number that a text denotes if it lies from `low` to `high`, both included.
pub open spec fn number_in(text: Seq<char>, low: u64, high: u64) -> Option<u64> {
    match decimal_value(text) {
        Some(value) => if low <= value <= high {
            Some(value as u64)
        } else {
            None
        },
        None => None,
    }
}

/// A text that denotes a number denotes one at least as large as any of its
/// beginnings does, and each of its beginnings denotes a number.
pub proof fn lemma_decimal_grows(text: Seq<char>, shorter: int)
    requires
        1 <= shorter <= text.len(),
        decimal_value(text) is Some,
    ensures
        decimal_value(text.take(shorter)) is Some,
        decimal_value(text.take(shorter))->0 <= decimal_value(text)->0,
    decreases text.len(),
{
    if shorter == text.len() {
        assert(text.take(shorter) =~= text);
    } else {
        let rest = text.drop_last();
        lemma_decimal_grows(rest, shorter);
        assert(rest.take(shorter) =~= text.take(shorter));
    }
}

/// Reads a number of decimal digits that lies from `low` to `high`, both included.
pub fn parse_number(text: &str, low: u64, high: u64) -> (number: Option<u64>)
    ensures
        number == number_in(text@, low, high),
{
    let len = text.unicode_len();
    if len == 0 {
        return None;
    }
    let mut value: u64 = 0;
    let mut i: usize = 0;
    while i < len
        invariant
            i <= len,
            len == text@.len(),
            i > 0 ==> decimal_value(text@.take(i as int)) == Some(value as nat),
            i == 0 ==> value == 0,
        decreases len - i,
    {
        let c = text.get_char(i);
        let code = c as u32;
        proof {
            let upto = text@.take(i + 1);
            assert(upto.drop_last() =~= text@.take(i as int));
            if decimal_value(text@) is Some {
                lemma_decimal_grows(text@, i + 1);
            }
        }
        if code < 48 || code > 57 {
            return None;
        }
        let digit = (code - 48) as u64;
        if value > (u64::MAX - digit) / 10 {
            return None;
        }
        value = value * 10 + digit;
        i = i + 1;
    }
    proof {
        assert(text@.take(len as int) =~= text@);
    }
    if low <= value && value <= high {
        Some(value)
    } else {
        None
    }
}

} // verus!
