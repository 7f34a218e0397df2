//! Small operations on text that the rest of the library is built from.

use vstd::prelude::*;
use vstd::string::StringSliceAdditionalSpecFns;
use vstd::utf8::{decode_utf8, encode_utf8_decode_utf8, valid_utf8};

use crate::metadata::same_bytes;

verus! {

/// Whether two texts are equal, character for character.
pub fn str_eq(a: &str, b: &str) -> (same: bool)
    ensures
        same == (a@ == b@),
{
    let same = same_bytes(a.as_bytes(), b.as_bytes());
    proof {
        encode_utf8_decode_utf8(a@);
        encode_utf8_decode_utf8(b@);
    }
    same
}

/// Calls `core::str::from_utf8`, which accepts exactly the byte strings that
/// are valid UTF-8 and reads them as the text they encode.
#[verifier::external_body]
pub(crate) fn utf8_text(bytes: &[u8]) -> (text: Option<&str>)
    ensures
        text is Some <==> valid_utf8(bytes@),
        text is Some ==> text->0@ == decode_utf8(bytes@),
{
    core::str::from_utf8(bytes).ok()
}

/// The text that `bytes` encode, or `fallback` where they are not UTF-8.
pub open spec fn text_or(bytes: Seq<u8>, fallback: Seq<char>) -> Seq<char> {
    if valid_utf8(bytes) {
        decode_utf8(bytes)
    } else {
        fallback
    }
}

/// Reads `bytes` as UTF-8 text, and gives `fallback` where they are none.
pub fn text_or_else(bytes: &[u8], fallback: &str) -> (text: String)
    ensures
        text@ == text_or(bytes@, fallback@),
{
    match utf8_text(bytes) {
        Some(text) => text.to_owned(),
        None => fallback.to_owned(),
    }
}

/// The decimal digit for a number below ten.
pub open spec fn digit_char(d: nat) -> char {
    if d == 0 {
        '0'
    } else if d == 1 {
        '1'
    } else if d == 2 {
        '2'
    } else if d == 3 {
        '3'
    } else if d == 4 {
        '4'
    } else if d == 5 {
        '5'
    } else if d == 6 {
        '6'
    } else if d == 7 {
        '7'
    } else if d == 8 {
        '8'
    } else {
        '9'
    }
}

/// The decimal form of `n`, without leading zeroes.
pub open spec fn decimal(n: nat) -> Seq<char>
    decreases n,
{
    if n < 10 {
        seq![digit_char(n)]
    } else {
        decimal(n / 10).push(digit_char(n % 10))
    }
}

fn digit_str(d: u64) -> (digit: &'static str)
    requires
        d < 10,
    ensures
        digit@ == seq![digit_char(d as nat)],
{
    proof {
        reveal_strlit("0");
        reveal_strlit("1");
        reveal_strlit("2");
        reveal_strlit("3");
        reveal_strlit("4");
        reveal_strlit("5");
        reveal_strlit("6");
        reveal_strlit("7");
        reveal_strlit("8");
        reveal_strlit("9");
    }
    let digit = if d == 0 {
        "0"
    } else if d == 1 {
        "1"
    } else if d == 2 {
        "2"
    } else if d == 3 {
        "3"
    } else if d == 4 {
        "4"
    } else if d == 5 {
        "5"
    } else if d == 6 {
        "6"
    } else if d == 7 {
        "7"
    } else if d == 8 {
        "8"
    } else {
        "9"
    };
    assert(digit@ =~= seq![digit_char(d as nat)]);
    digit
}

/// Appends the decimal form of `n` to `out`.
pub fn push_decimal(out: &mut String, n: u64)
    ensures
        final(out)@ == old(out)@ + decimal(n as nat),
    decreases n,
{
    if n >= 10 {
        push_decimal(out, n / 10);
    }
    out.append(digit_str(n % 10));
    assert(out@ =~= old(out)@ + decimal(n as nat));
}

/// The text made of `a` followed by `b`.
pub fn concat2(a: &str, b: &str) -> (text: String)
    ensures
        text@ == a@ + b@,
{
    let mut text = a.to_owned();
    text.append(b);
    text
}

/// The place of the first comma among the first `n` characters of `s`, or
/// `n` where there is none.
pub open spec fn first_comma(s: Seq<char>, n: int) -> int
    decreases n,
{
    if n <= 0 {
        0
    } else {
        let before = first_comma(s, n - 1);
        if before < n - 1 {
            before
        } else if s[n - 1] == ',' {
            n - 1
        } else {
            n
        }
    }
}

/// The parts of a list whose items are separated by commas. A text without
/// a comma is one part, the empty text too.
pub open spec fn comma_separated(s: Seq<char>) -> Seq<Seq<char>>
    decreases s.len(),
{
    let at = first_comma(s, s.len() as int);
    if 0 <= at < s.len() {
        seq![s.take(at)] + comma_separated(s.skip(at + 1))
    } else {
        seq![s]
    }
}

proof fn lemma_first_comma(s: Seq<char>, n: int)
    requires
        0 <= n <= s.len(),
    ensures
        0 <= first_comma(s, n) <= n,
        first_comma(s, n) < n ==> s[first_comma(s, n)] == ',',
        forall|j: int| 0 <= j < first_comma(s, n) ==> #[trigger] s[j] != ',',
    decreases n,
{
    if n > 0 {
        lemma_first_comma(s, n - 1);
    }
}

proof fn lemma_first_comma_is(s: Seq<char>, at: int)
    requires
        0 <= at <= s.len(),
        forall|j: int| 0 <= j < at ==> #[trigger] s[j] != ',',
        at < s.len() ==> s[at] == ',',
    ensures
        first_comma(s, s.len() as int) == at,
{
    let found = first_comma(s, s.len() as int);
    lemma_first_comma(s, s.len() as int);
    if found < at {
        assert(s[found] != ',');
    } else if found > at {
        assert(s[at] != ',');
    }
}

/// Cuts a list at its commas.
pub fn split_commas(text: &str) -> (parts: Vec<String>)
    ensures
        parts@.map_values(|p: String| p@) == comma_separated(text@),
{
    let n = text.unicode_len();
    let mut parts: Vec<String> = Vec::new();
    let mut start: usize = 0;
    let mut i: usize = 0;
    proof {
        assert(text@.skip(0) =~= text@);
        assert(parts@.map_values(|p: String| p@) + comma_separated(text@) =~= comma_separated(
            text@,
        ));
    }
    while i < n
        invariant
            start <= i <= n,
            n == text@.len(),
            forall|j: int| start <= j < i ==> #[trigger] text@[j] != ',',
            comma_separated(text@) == parts@.map_values(|p: String| p@) + comma_separated(
                text@.skip(start as int),
            ),
        decreases n - i,
    {
        if text.get_char(i) == ',' {
            let part = text.substring_char(start, i).to_owned();
            proof {
                let rest = text@.skip(start as int);
                let at = i - start;
                assert forall|j: int| 0 <= j < at implies #[trigger] rest[j] != ',' by {
                    assert(rest[j] == text@[start + j]);
                }
                assert(rest[at] == text@[i as int]);
                lemma_first_comma_is(rest, at);
                assert(rest.take(at) =~= text@.subrange(start as int, i as int));
                assert(rest.skip(at + 1) =~= text@.skip(i + 1));
                let before = parts@.map_values(|p: String| p@);
                assert(parts@.push(part).map_values(|p: String| p@) =~= before + seq![part@]);
                assert(before + (seq![rest.take(at)] + comma_separated(rest.skip(at + 1)))
                    =~= (before + seq![part@]) + comma_separated(text@.skip(i + 1)));
            }
            parts.push(part);
            start = i + 1;
        }
        i += 1;
    }
    let part = text.substring_char(start, n).to_owned();
    proof {
        let rest = text@.skip(start as int);
        assert forall|j: int| 0 <= j < rest.len() implies #[trigger] rest[j] != ',' by {
            assert(rest[j] == text@[start + j]);
        }
        lemma_first_comma_is(rest, rest.len() as int);
        assert(rest =~= text@.subrange(start as int, n as int));
        let before = parts@.map_values(|p: String| p@);
        assert(parts@.push(part).map_values(|p: String| p@) =~= before + seq![part@]);
        assert(comma_separated(rest) == seq![rest]);
    }
    parts.push(part);
    parts
}

} // verus!
