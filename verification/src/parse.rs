//! Reading numbers and flags from text, as the parameters of the agent are
//! written in the environment.

use vstd::prelude::*;
use vstd::string::{StrSliceExecFns, StringExecFns};

verus! {

/// The value of a decimal digit.
pub open spec fn digit_value(c: char) -> Option<nat> {
    if '0' <= c && c <= '9' {
        Some((c as nat - '0' as nat) as nat)
    } else {
        None
    }
}

/// The number that a run of decimal digits writes, and `None` where a
/// character is no decimal digit. The empty run writes 0.
pub open spec fn decimal_value(s: Seq<char>) -> Option<nat>
    decreases s.len(),
{
    if s.len() == 0 {
        Some(0)
    } else {
        match (decimal_value(s.drop_last()), digit_value(s.last())) {
            (Some(value), Some(digit)) => Some(value * 10 + digit),
            _ => None,
        }
    }
}

/// The text after a sign at its start, where it has one of the given two.
pub open spec fn unsigned_part(s: Seq<char>, minus_too: bool) -> Seq<char> {
    if s.len() > 0 && (s[0] == '+' || (minus_too && s[0] == '-')) {
        s.drop_first()
    } else {
        s
    }
}

/// The number up to `max` that a run of decimal digits writes, where the
/// run is not empty and holds nothing else.
pub open spec fn digits_spec(digits: Seq<char>, max: nat) -> Option<nat> {
    if digits.len() == 0 {
        None
    } else {
        match decimal_value(digits) {
            Some(value) => if value <= max {
                Some(value)
            } else {
                None
            },
            None => None,
        }
    }
}

/// The number up to `max` that a text writes: an optional `+`, then at
/// least one decimal digit and nothing else.
pub open spec fn unsigned_spec(s: Seq<char>, max: nat) -> Option<nat> {
    digits_spec(unsigned_part(s, false), max)
}

/// The 64-bit signed number that a text writes: an optional `+` or `-`,
/// then at least one decimal digit and nothing else.
pub open spec fn signed_spec(s: Seq<char>) -> Option<int> {
    let digits = unsigned_part(s, true);
    let negative = s.len() > 0 && s[0] == '-';
    if digits.len() == 0 {
        None
    } else {
        match decimal_value(digits) {
            Some(value) => {
                let number = if negative {
                    -(value as int)
                } else {
                    value as int
                };
                if i64::MIN <= number && number <= i64::MAX {
                    Some(number)
                } else {
                    None
                }
            },
            None => None,
        }
    }
}

/// The flag that a text writes: `true` or `false`, and nothing else.
pub open spec fn flag_spec(s: Seq<char>) -> Option<bool> {
    if s == "true"@ {
        Some(true)
    } else if s == "false"@ {
        Some(false)
    } else {
        None
    }
}

/// A run of digits writes no smaller a number than any of its beginnings.
pub proof fn lemma_decimal_value_grows(s: Seq<char>, n: int)
    requires
        0 <= n <= s.len(),
        decimal_value(s).is_some(),
    ensures
        decimal_value(s.take(n)).is_some(),
        decimal_value(s.take(n)).unwrap() <= decimal_value(s).unwrap(),
    decreases s.len(),
{
    if n == s.len() {
        assert(s.take(n) =~= s);
    } else {
        lemma_decimal_value_grows(s.drop_last(), n);
        assert(s.drop_last().take(n) =~= s.take(n));
    }
}

/// The value of a decimal digit, and `None` for any other character.
pub fn digit_of(c: char) -> (digit: Option<u8>)
    ensures
        digit.is_some() == digit_value(c).is_some(),
        digit matches Some(d) ==> d == digit_value(c).unwrap() && d <= 9,
{
    if '0' <= c && c <= '9' {
        Some(((c as u32) - ('0' as u32)) as u8)
    } else {
        None
    }
}

/// The number that the characters of `text` from `from` on write, where
/// they are decimal digits, at least one, and the number is at most `max`.
fn parse_digits(text: &str, from: usize, max: u64) -> (out: Option<u64>)
    requires
        from <= text@.len(),
    ensures
        out.is_some() == digits_spec(
            text@.subrange(from as int, text@.len() as int),
            max as nat,
        ).is_some(),
        out matches Some(value) ==> decimal_value(text@.subrange(from as int, text@.len() as int))
            == Some(value as nat),
{
    let n: usize = text.unicode_len();
    if from >= n {
        return None;
    }
    let ghost digits = text@.subrange(from as int, n as int);
    let mut value: u64 = 0;
    let mut i: usize = from;
    proof {
        assert(digits.take(0) =~= Seq::<char>::empty());
    }
    while i < n
        invariant
            n == text@.len(),
            from <= i <= n,
            digits == text@.subrange(from as int, n as int),
            decimal_value(digits.take(i - from)) == Some(value as nat),
            value <= max,
        decreases n - i,
    {
        let c = text.get_char(i);
        proof {
            assert(digits.take(i - from + 1).drop_last() =~= digits.take(i - from));
            assert(digits.take(i - from + 1).last() == c);
        }
        let digit: u64 = match digit_of(c) {
            Some(d) => d as u64,
            None => {
                proof {
                    if decimal_value(digits).is_some() {
                        lemma_decimal_value_grows(digits, i - from + 1);
                    }
                }
                return None;
            },
        };
        if digit > max || value > (max - digit) / 10 {
            proof {
                assert(value * 10 + digit > max) by (nonlinear_arith)
                    requires
                        digit > max || value > (max - digit) / 10,
                        0 <= value,
                        0 <= digit,
                ;
                if decimal_value(digits).is_some() {
                    lemma_decimal_value_grows(digits, i - from + 1);
                }
            }
            return None;
        }
        proof {
            assert(value * 10 + digit <= max) by (nonlinear_arith)
                requires
                    value <= (max - digit) / 10,
                    digit <= max,
                    0 <= value,
            ;
        }
        value = value * 10 + digit;
        i = i + 1;
    }
    proof {
        assert(digits.take(n - from) =~= digits);
    }
    Some(value)
}

/// Whether `text` starts with a plus sign, or with a minus sign where that
/// counts as a sign too.
fn starts_with_sign(text: &str, minus_too: bool) -> (signed: bool)
    ensures
        signed == (text@.len() > 0 && (text@[0] == '+' || (minus_too && text@[0] == '-'))),
{
    if text.unicode_len() == 0 {
        return false;
    }
    let c = text.get_char(0);
    c == '+' || (minus_too && c == '-')
}

/// The number up to `max` that `text` writes.
pub fn parse_unsigned(text: &str, max: u64) -> (out: Option<u64>)
    ensures
        out.is_some() == unsigned_spec(text@, max as nat).is_some(),
        out matches Some(value) ==> unsigned_spec(text@, max as nat) == Some(value as nat),
{
    let from: usize = if starts_with_sign(text, false) {
        1
    } else {
        0
    };
    proof {
        assert(unsigned_part(text@, false) =~= text@.subrange(from as int, text@.len() as int));
    }
    parse_digits(text, from, max)
}

/// The 64-bit unsigned number that `text` writes.
pub fn parse_u64(text: &str) -> (out: Option<u64>)
    ensures
        out.is_some() == unsigned_spec(text@, u64::MAX as nat).is_some(),
        out matches Some(value) ==> unsigned_spec(text@, u64::MAX as nat) == Some(value as nat),
{
    parse_unsigned(text, 0xffff_ffff_ffff_ffffu64)
}

/// The number of the machine's word size that `text` writes.
pub fn parse_usize(text: &str) -> (out: Option<usize>)
    ensures
        out.is_some() == unsigned_spec(text@, usize::MAX as nat).is_some(),
        out matches Some(value) ==> unsigned_spec(text@, usize::MAX as nat) == Some(value as nat),
{
    match parse_unsigned(text, usize::MAX as u64) {
        Some(value) => Some(value as usize),
        None => None,
    }
}

/// The 64-bit signed number that `text` writes.
pub fn parse_i64(text: &str) -> (out: Option<i64>)
    ensures
        out.is_some() == signed_spec(text@).is_some(),
        out matches Some(value) ==> signed_spec(text@) == Some(value as int),
{
    let from: usize = if starts_with_sign(text, true) {
        1
    } else {
        0
    };
    let negative = from == 1 && text.get_char(0) == '-';
    proof {
        assert(unsigned_part(text@, true) =~= text@.subrange(from as int, text@.len() as int));
    }
    if negative {
        match parse_digits(text, from, 0x8000_0000_0000_0000u64) {
            Some(magnitude) => {
                if magnitude == 0x8000_0000_0000_0000u64 {
                    Some(i64::MIN)
                } else {
                    Some(-(magnitude as i64))
                }
            },
            None => None,
        }
    } else {
        match parse_digits(text, from, 0x7fff_ffff_ffff_ffffu64) {
            Some(magnitude) => Some(magnitude as i64),
            None => None,
        }
    }
}

/// The flag that `text` writes.
pub fn parse_bool(text: &str) -> (out: Option<bool>)
    ensures
        out == flag_spec(text@),
{
    let given = String::from_str(text);
    let yes = String::from_str("true");
    let no = String::from_str("false");
    if given == yes {
        Some(true)
    } else if given == no {
        Some(false)
    } else {
        None
    }
}

} // verus!
