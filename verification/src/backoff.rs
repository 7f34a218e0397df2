//! The polling interval that an update server advises, read from text of the
//! form `days:hours:seconds`.
//!
//! The text is cut at its first two colons. Each field is a whole number in
//! decimal, with or without a sign; a text with one or two fields gives days,
//! or days and hours. The fields add up to a number of seconds.

use vstd::prelude::*;
use vstd::slice::slice_subrange;
use vstd::string::StringSliceAdditionalSpecFns;

verus! {

/// The byte that separates the fields.
pub const COLON: u8 = 0x3a;

/// Whether `b` is a decimal digit.
pub open spec fn is_digit(b: u8) -> bool {
    0x30 <= b <= 0x39
}

/// Whether `s` is made of decimal digits only.
pub open spec fn all_digits(s: Seq<u8>) -> bool {
    forall|i: int| 0 <= i < s.len() ==> is_digit(#[trigger] s[i])
}

/// The number that a run of decimal digits spells.
pub open spec fn digits_value(digits: Seq<u8>) -> nat
    decreases digits.len(),
{
    if digits.len() == 0 {
        0
    } else {
        (digits_value(digits.drop_last()) * 10 + (digits.last() - 0x30)) as nat
    }
}

/// The number that `field` spells: an optional `+` or `-`, then at least one
/// digit and nothing else, and a value that a signed integer of 64 bits holds.
pub open spec fn field_value(field: Seq<u8>) -> Option<int> {
    let signed = field.len() > 0 && (field[0] == 0x2d || field[0] == 0x2b);
    let negative = field.len() > 0 && field[0] == 0x2d;
    let digits = if signed {
        field.skip(1)
    } else {
        field
    };
    if digits.len() == 0 || !all_digits(digits) {
        None
    } else {
        let value = if negative {
            -(digits_value(digits) as int)
        } else {
            digits_value(digits) as int
        };
        if i64::MIN <= value <= i64::MAX {
            Some(value)
        } else {
            None
        }
    }
}

/// The place of the first colon among the first `n` bytes of `s`, or `n`
/// where there is none.
pub open spec fn first_colon(s: Seq<u8>, n: int) -> int
    decreases n,
{
    if n <= 0 {
        0
    } else {
        let before = first_colon(s, n - 1);
        if before < n - 1 {
            before
        } else if s[n - 1] == COLON {
            n - 1
        } else {
            n
        }
    }
}

/// The seconds that days, hours and seconds add up to, where the sum is not
/// negative and fits in 64 bits.
pub open spec fn total_seconds(days: int, hours: int, seconds: int) -> Option<u64> {
    let total = days * 86400 + hours * 3600 + seconds;
    if 0 <= total <= u64::MAX {
        Some(total as u64)
    } else {
        None
    }
}

/// The interval that `text` spells, in seconds; none where a field is no
/// number or the sum is out of range.
pub open spec fn backoff_seconds(text: Seq<u8>) -> Option<u64> {
    let c1 = first_colon(text, text.len() as int);
    if c1 >= text.len() {
        match field_value(text) {
            Some(days) => total_seconds(days, 0, 0),
            None => None,
        }
    } else {
        let rest = text.skip(c1 + 1);
        let c2 = first_colon(rest, rest.len() as int);
        match field_value(text.take(c1)) {
            Some(days) => if c2 >= rest.len() {
                match field_value(rest) {
                    Some(hours) => total_seconds(days, hours, 0),
                    None => None,
                }
            } else {
                match (field_value(rest.take(c2)), field_value(rest.skip(c2 + 1))) {
                    (Some(hours), Some(seconds)) => total_seconds(days, hours, seconds),
                    _ => None,
                }
            },
            None => None,
        }
    }
}

proof fn lemma_first_colon_stops(s: Seq<u8>, i: int, n: int)
    requires
        0 <= i <= n <= s.len(),
        first_colon(s, i) == i,
        i < n ==> s[i] == COLON,
    ensures
        first_colon(s, n) == i,
    decreases n - i,
{
    if i < n {
        if i + 1 < n {
            lemma_first_colon_stops(s, i, n - 1);
        }
    }
}

fn find_colon(s: &[u8]) -> (at: usize)
    ensures
        at == first_colon(s@, s@.len() as int),
        at <= s@.len(),
{
    let n = s.len();
    let mut i: usize = 0;
    while i < n
        invariant
            i <= n,
            n == s@.len(),
            first_colon(s@, i as int) == i,
        decreases n - i,
    {
        if s[i] == COLON {
            proof {
                lemma_first_colon_stops(s@, i as int, n as int);
            }
            return i;
        }
        i += 1;
    }
    i
}

proof fn lemma_digits_value_grows(digits: Seq<u8>, k: int)
    requires
        0 <= k <= digits.len(),
        all_digits(digits),
    ensures
        digits_value(digits.take(k)) <= digits_value(digits),
    decreases digits.len() - k,
{
    if k < digits.len() {
        let longer = digits.take(k + 1);
        assert(longer.drop_last() =~= digits.take(k));
        assert(is_digit(digits[k]));
        assert(longer.last() == digits[k]);
        lemma_digits_value_grows(digits, k + 1);
    } else {
        assert(digits.take(k) =~= digits);
    }
}

/// Reads a whole number as Rust reads a signed integer of 64 bits.
pub fn parse_field(field: &[u8]) -> (value: Option<i64>)
    ensures
        match value {
            Some(v) => field_value(field@) == Some(v as int),
            None => field_value(field@) is None,
        },
{
    let n = field.len();
    let signed = n > 0 && (field[0] == 0x2d || field[0] == 0x2b);
    let negative = n > 0 && field[0] == 0x2d;
    let start: usize = if signed {
        1
    } else {
        0
    };
    let digits = slice_subrange(field, start, n);
    assert(digits@ =~= if signed {
        field@.skip(1)
    } else {
        field@
    });
    let m = digits.len();
    if m == 0 {
        return None;
    }
    let limit: u128 = 0x8000_0000_0000_0000;
    let mut magnitude: u128 = 0;
    let mut i: usize = 0;
    while i < m
        invariant
            i <= m,
            m == digits@.len(),
            limit == 0x8000_0000_0000_0000,
            magnitude <= limit,
            magnitude == digits_value(digits@.take(i as int)),
            all_digits(digits@.take(i as int)),
            signed == (field@.len() > 0 && (field@[0] == 0x2d || field@[0] == 0x2b)),
            digits@ == if signed {
                field@.skip(1)
            } else {
                field@
            },
        decreases m - i,
    {
        let b = digits[i];
        let ghost longer = digits@.take(i + 1);
        proof {
            assert(longer.drop_last() =~= digits@.take(i as int));
            assert(longer.last() == b);
        }
        if b < 0x30 || b > 0x39 {
            assert(!is_digit(digits@[i as int]));
            return None;
        }
        let next = magnitude * 10 + (b - 0x30) as u128;
        assert(all_digits(longer)) by {
            assert forall|j: int| 0 <= j < longer.len() implies is_digit(#[trigger] longer[j]) by {
                if j < i {
                    assert(longer[j] == digits@.take(i as int)[j]);
                }
            }
        }
        if next > limit {
            proof {
                if all_digits(digits@) {
                    lemma_digits_value_grows(digits@, i + 1);
                }
            }
            return None;
        }
        magnitude = next;
        i += 1;
    }
    assert(digits@.take(m as int) =~= digits@);
    if negative {
        if magnitude == limit {
            Some(i64::MIN)
        } else {
            Some(-(magnitude as i64))
        }
    } else if magnitude == limit {
        None
    } else {
        Some(magnitude as i64)
    }
}

fn sum_seconds(days: i64, hours: i64, seconds: i64) -> (total: Option<u64>)
    ensures
        total == total_seconds(days as int, hours as int, seconds as int),
{
    let sum: i128 = days as i128 * 86400 + hours as i128 * 3600 + seconds as i128;
    if sum < 0 || sum > u64::MAX as i128 {
        None
    } else {
        Some(sum as u64)
    }
}

/// Reads a polling interval of the form `days:hours:seconds`.
pub fn parse_backoff(text: &str) -> (seconds: Option<u64>)
    ensures
        seconds == backoff_seconds(text.spec_bytes()),
{
    let bytes = text.as_bytes();
    let n = bytes.len();
    let c1 = find_colon(bytes);
    if c1 >= n {
        return match parse_field(bytes) {
            Some(days) => sum_seconds(days, 0, 0),
            None => None,
        };
    }
    let first = slice_subrange(bytes, 0, c1);
    let rest = slice_subrange(bytes, c1 + 1, n);
    assert(first@ =~= bytes@.take(c1 as int));
    assert(rest@ =~= bytes@.skip(c1 + 1));
    let days = match parse_field(first) {
        Some(v) => v,
        None => return None,
    };
    let c2 = find_colon(rest);
    if c2 >= rest.len() {
        return match parse_field(rest) {
            Some(hours) => sum_seconds(days, hours, 0),
            None => None,
        };
    }
    let second = slice_subrange(rest, 0, c2);
    let third = slice_subrange(rest, c2 + 1, rest.len());
    assert(second@ =~= rest@.take(c2 as int));
    assert(third@ =~= rest@.skip(c2 + 1));
    match (parse_field(second), parse_field(third)) {
        (Some(hours), Some(seconds)) => sum_seconds(days, hours, seconds),
        _ => None,
    }
}

} // verus!
