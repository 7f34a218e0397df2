//! The few items of CBOR that the wire frames are made of: unsigned
//! integers, byte strings and `null`, each in its shortest form.
//!
//! Every item has one encoding only, and the parsers accept that encoding and
//! no other, so that a frame and its value determine each other.

use vstd::prelude::*;
use vstd::slice::slice_subrange;

verus! {

/// Major type of an unsigned integer.
pub const MAJOR_UINT: u8 = 0;

/// Major type of a byte string.
pub const MAJOR_BYTES: u8 = 2;

/// The encoding of `null`.
pub const NULL: u8 = 0xf6;

/// The two bytes of `v`, high byte first.
pub open spec fn be2(v: int) -> Seq<u8>
    recommends
        0 <= v < 0x1_0000,
{
    seq![(v / 0x100) as u8, (v % 0x100) as u8]
}

/// The four bytes of `v`, high byte first.
pub open spec fn be4(v: int) -> Seq<u8>
    recommends
        0 <= v < 0x1_0000_0000,
{
    be2(v / 0x1_0000) + be2(v % 0x1_0000)
}

/// The eight bytes of `v`, high byte first.
pub open spec fn be8(v: int) -> Seq<u8>
    recommends
        0 <= v < 0x1_0000_0000_0000_0000,
{
    be4(v / 0x1_0000_0000) + be4(v % 0x1_0000_0000)
}

/// The number that the first two bytes of `s` spell, high byte first.
pub open spec fn from_be2(s: Seq<u8>) -> int
    recommends
        s.len() >= 2,
{
    s[0] * 0x100 + s[1]
}

/// The number that the first four bytes of `s` spell, high byte first.
pub open spec fn from_be4(s: Seq<u8>) -> int
    recommends
        s.len() >= 4,
{
    from_be2(s.subrange(0, 2)) * 0x1_0000 + from_be2(s.subrange(2, 4))
}

/// The number that the first eight bytes of `s` spell, high byte first.
pub open spec fn from_be8(s: Seq<u8>) -> int
    recommends
        s.len() >= 8,
{
    from_be4(s.subrange(0, 4)) * 0x1_0000_0000 + from_be4(s.subrange(4, 8))
}

/// The shortest head of an item of type `major` with argument `value`: the
/// argument sits in the initial byte where it is below 24, else in the 1, 2, 4
/// or 8 bytes that follow, high byte first.
#[verifier::opaque]
pub open spec fn head(major: u8, value: u64) -> Seq<u8> {
    let m = major * 32;
    if value < 24 {
        seq![(m + value) as u8]
    } else if value < 0x100 {
        seq![(m + 24) as u8, value as u8]
    } else if value < 0x1_0000 {
        seq![(m + 25) as u8] + be2(value as int)
    } else if value < 0x1_0000_0000 {
        seq![(m + 26) as u8] + be4(value as int)
    } else {
        seq![(m + 27) as u8] + be8(value as int)
    }
}

/// Reads a head of type `major` from the front of `s`: its argument and what
/// follows it. A head that is longer than it has to be is refused.
#[verifier::opaque]
pub open spec fn parse_head(major: u8, s: Seq<u8>) -> Option<(u64, Seq<u8>)> {
    if s.len() == 0 || s[0] / 32 != major {
        None
    } else {
        let info = s[0] % 32;
        if info < 24 {
            Some((info as u64, s.skip(1)))
        } else if info == 24 {
            if s.len() < 2 || s[1] < 24 {
                None
            } else {
                Some((s[1] as u64, s.skip(2)))
            }
        } else if info == 25 {
            if s.len() < 3 || from_be2(s.subrange(1, 3)) < 0x100 {
                None
            } else {
                Some((from_be2(s.subrange(1, 3)) as u64, s.skip(3)))
            }
        } else if info == 26 {
            if s.len() < 5 || from_be4(s.subrange(1, 5)) < 0x1_0000 {
                None
            } else {
                Some((from_be4(s.subrange(1, 5)) as u64, s.skip(5)))
            }
        } else if info == 27 {
            if s.len() < 9 || from_be8(s.subrange(1, 9)) < 0x1_0000_0000 {
                None
            } else {
                Some((from_be8(s.subrange(1, 9)) as u64, s.skip(9)))
            }
        } else {
            None
        }
    }
}

/// The encoding of an unsigned integer of 32 bits.
pub open spec fn uint(value: u32) -> Seq<u8> {
    head(MAJOR_UINT, value as u64)
}

/// Reads an unsigned integer of 32 bits from the front of `s`.
pub open spec fn parse_uint(s: Seq<u8>) -> Option<(u32, Seq<u8>)> {
    match parse_head(MAJOR_UINT, s) {
        Some((v, rest)) => if v <= u32::MAX {
            Some((v as u32, rest))
        } else {
            None
        },
        None => None,
    }
}

/// The encoding of an optional unsigned integer: `null` where there is none.
pub open spec fn opt_uint(value: Option<u32>) -> Seq<u8> {
    match value {
        Some(v) => uint(v),
        None => seq![NULL],
    }
}

/// Reads an optional unsigned integer from the front of `s`.
pub open spec fn parse_opt_uint(s: Seq<u8>) -> Option<(Option<u32>, Seq<u8>)> {
    if s.len() > 0 && s[0] == NULL {
        Some((None, s.skip(1)))
    } else {
        match parse_uint(s) {
            Some((v, rest)) => Some((Some(v), rest)),
            None => None,
        }
    }
}

/// The encoding of a byte string: its length, then its bytes.
pub open spec fn bstr(bytes: Seq<u8>) -> Seq<u8>
    recommends
        bytes.len() <= u64::MAX,
{
    head(MAJOR_BYTES, bytes.len() as u64) + bytes
}

/// Reads a byte string from the front of `s`.
pub open spec fn parse_bstr(s: Seq<u8>) -> Option<(Seq<u8>, Seq<u8>)> {
    match parse_head(MAJOR_BYTES, s) {
        Some((n, rest)) => if n <= rest.len() {
            Some((rest.take(n as int), rest.skip(n as int)))
        } else {
            None
        },
        None => None,
    }
}

/// Reads the single byte `byte` from the front of `s`.
pub open spec fn parse_byte(byte: u8, s: Seq<u8>) -> Option<Seq<u8>> {
    if s.len() > 0 && s[0] == byte {
        Some(s.skip(1))
    } else {
        None
    }
}

/// Two bytes spell the number they were made from.
pub proof fn lemma_be2(v: int)
    requires
        0 <= v < 0x1_0000,
    ensures
        be2(v).len() == 2,
        from_be2(be2(v)) == v,
{
}

/// A number below 65536 is made of the two bytes that spell it.
pub proof fn lemma_from_be2(s: Seq<u8>)
    requires
        s.len() == 2,
    ensures
        0 <= from_be2(s) < 0x1_0000,
        be2(from_be2(s)) == s,
{
    assert(be2(from_be2(s)) =~= s);
}

/// Four bytes spell the number they were made from.
pub proof fn lemma_be4(v: int)
    requires
        0 <= v < 0x1_0000_0000,
    ensures
        be4(v).len() == 4,
        from_be4(be4(v)) == v,
{
    let hi = v / 0x1_0000;
    let lo = v % 0x1_0000;
    lemma_be2(hi);
    lemma_be2(lo);
    assert(be4(v).subrange(0, 2) =~= be2(hi));
    assert(be4(v).subrange(2, 4) =~= be2(lo));
}

/// A number below 2^32 is made of the four bytes that spell it.
pub proof fn lemma_from_be4(s: Seq<u8>)
    requires
        s.len() == 4,
    ensures
        0 <= from_be4(s) < 0x1_0000_0000,
        be4(from_be4(s)) == s,
{
    let hi = s.subrange(0, 2);
    let lo = s.subrange(2, 4);
    lemma_from_be2(hi);
    lemma_from_be2(lo);
    let v = from_be4(s);
    assert(v / 0x1_0000 == from_be2(hi));
    assert(v % 0x1_0000 == from_be2(lo));
    assert(be4(v) =~= s);
}

/// Eight bytes spell the number they were made from.
pub proof fn lemma_be8(v: int)
    requires
        0 <= v < 0x1_0000_0000_0000_0000,
    ensures
        be8(v).len() == 8,
        from_be8(be8(v)) == v,
{
    let hi = v / 0x1_0000_0000;
    let lo = v % 0x1_0000_0000;
    lemma_be4(hi);
    lemma_be4(lo);
    assert(be8(v).subrange(0, 4) =~= be4(hi));
    assert(be8(v).subrange(4, 8) =~= be4(lo));
}

/// A number below 2^64 is made of the eight bytes that spell it.
pub proof fn lemma_from_be8(s: Seq<u8>)
    requires
        s.len() == 8,
    ensures
        0 <= from_be8(s) < 0x1_0000_0000_0000_0000,
        be8(from_be8(s)) == s,
{
    let hi = s.subrange(0, 4);
    let lo = s.subrange(4, 8);
    lemma_from_be4(hi);
    lemma_from_be4(lo);
    let v = from_be8(s);
    assert(v / 0x1_0000_0000 == from_be4(hi));
    assert(v % 0x1_0000_0000 == from_be4(lo));
    assert(be8(v) =~= s);
}

/// A head is read back from the front of whatever it was put in front of.
pub proof fn lemma_parse_head_of_head(major: u8, value: u64, rest: Seq<u8>)
    requires
        major < 8,
    ensures
        parse_head(major, head(major, value) + rest) == Some((value, rest)),
{
    reveal(head);
    reveal(parse_head);
    let h = head(major, value);
    let s = h + rest;
    if value < 24 {
        assert(s[0] == h[0]);
        assert(s.skip(1) =~= rest);
    } else if value < 0x100 {
        assert(s[0] == h[0] && s[1] == h[1]);
        assert(s.skip(2) =~= rest);
    } else if value < 0x1_0000 {
        lemma_be2(value as int);
        assert(s[0] == h[0]);
        assert(s.subrange(1, 3) =~= be2(value as int));
        assert(s.skip(3) =~= rest);
    } else if value < 0x1_0000_0000 {
        lemma_be4(value as int);
        assert(s[0] == h[0]);
        assert(s.subrange(1, 5) =~= be4(value as int));
        assert(s.skip(5) =~= rest);
    } else {
        lemma_be8(value as int);
        assert(s[0] == h[0]);
        assert(s.subrange(1, 9) =~= be8(value as int));
        assert(s.skip(9) =~= rest);
    }
}

/// What a head was read from begins with that head.
pub proof fn lemma_head_of_parse_head(major: u8, s: Seq<u8>)
    requires
        major < 8,
    ensures
        match parse_head(major, s) {
            Some((value, rest)) => s == head(major, value) + rest,
            None => true,
        },
{
    reveal(head);
    reveal(parse_head);
    match parse_head(major, s) {
        Some((value, rest)) => {
            let info = s[0] % 32;
            assert(s[0] == major * 32 + info);
            if info < 24 {
                assert(s =~= head(major, value) + rest);
            } else if info == 24 {
                assert(s =~= head(major, value) + rest);
            } else if info == 25 {
                lemma_from_be2(s.subrange(1, 3));
                assert(s =~= seq![s[0]] + s.subrange(1, 3) + rest);
            } else if info == 26 {
                lemma_from_be4(s.subrange(1, 5));
                assert(s =~= seq![s[0]] + s.subrange(1, 5) + rest);
            } else {
                lemma_from_be8(s.subrange(1, 9));
                assert(s =~= seq![s[0]] + s.subrange(1, 9) + rest);
            }
        },
        None => {},
    }
}

/// An unsigned integer is read back from the front of whatever follows it.
pub proof fn lemma_parse_uint_of_uint(value: u32, rest: Seq<u8>)
    ensures
        parse_uint(uint(value) + rest) == Some((value, rest)),
{
    lemma_parse_head_of_head(MAJOR_UINT, value as u64, rest);
}

/// What an unsigned integer was read from begins with its encoding.
pub proof fn lemma_uint_of_parse_uint(s: Seq<u8>)
    ensures
        match parse_uint(s) {
            Some((value, rest)) => s == uint(value) + rest,
            None => true,
        },
{
    lemma_head_of_parse_head(MAJOR_UINT, s);
}

/// An optional unsigned integer is read back from the front of whatever follows it.
pub proof fn lemma_parse_opt_uint_of_opt_uint(value: Option<u32>, rest: Seq<u8>)
    ensures
        parse_opt_uint(opt_uint(value) + rest) == Some((value, rest)),
{
    reveal(head);
    let s = opt_uint(value) + rest;
    match value {
        Some(v) => {
            lemma_parse_uint_of_uint(v, rest);
            assert(s[0] == head(MAJOR_UINT, v as u64)[0]);
        },
        None => {
            assert(s[0] == NULL);
            assert(s.skip(1) =~= rest);
        },
    }
}

/// What an optional unsigned integer was read from begins with its encoding.
pub proof fn lemma_opt_uint_of_parse_opt_uint(s: Seq<u8>)
    ensures
        match parse_opt_uint(s) {
            Some((value, rest)) => s == opt_uint(value) + rest,
            None => true,
        },
{
    if s.len() > 0 && s[0] == NULL {
        assert(s =~= seq![NULL] + s.skip(1));
    } else {
        lemma_uint_of_parse_uint(s);
    }
}

/// A byte string is read back from the front of whatever follows it.
pub proof fn lemma_parse_bstr_of_bstr(bytes: Seq<u8>, rest: Seq<u8>)
    requires
        bytes.len() <= u64::MAX,
    ensures
        parse_bstr(bstr(bytes) + rest) == Some((bytes, rest)),
{
    let h = head(MAJOR_BYTES, bytes.len() as u64);
    assert(bstr(bytes) + rest =~= h + (bytes + rest));
    lemma_parse_head_of_head(MAJOR_BYTES, bytes.len() as u64, bytes + rest);
    assert((bytes + rest).take(bytes.len() as int) =~= bytes);
    assert((bytes + rest).skip(bytes.len() as int) =~= rest);
}

/// What a byte string was read from begins with its encoding.
pub proof fn lemma_bstr_of_parse_bstr(s: Seq<u8>)
    ensures
        match parse_bstr(s) {
            Some((bytes, rest)) => s == bstr(bytes) + rest && bytes.len() <= u64::MAX,
            None => true,
        },
{
    lemma_head_of_parse_head(MAJOR_BYTES, s);
    match parse_head(MAJOR_BYTES, s) {
        Some((n, after)) => {
            if n <= after.len() {
                let bytes = after.take(n as int);
                let rest = after.skip(n as int);
                assert(after =~= bytes + rest);
                assert(s =~= bstr(bytes) + rest);
            }
        },
        None => {},
    }
}

/// A byte is read back from the front of whatever follows it.
pub proof fn lemma_parse_byte_of_byte(byte: u8, rest: Seq<u8>)
    ensures
        parse_byte(byte, seq![byte] + rest) == Some(rest),
{
    assert((seq![byte] + rest).skip(1) =~= rest);
}

/// What a byte was read from begins with that byte.
pub proof fn lemma_byte_of_parse_byte(byte: u8, s: Seq<u8>)
    ensures
        match parse_byte(byte, s) {
            Some(rest) => s == seq![byte] + rest,
            None => true,
        },
{
    if s.len() > 0 && s[0] == byte {
        assert(s =~= seq![byte] + s.skip(1));
    }
}

fn put_be2(out: &mut Vec<u8>, v: u64)
    requires
        v < 0x1_0000,
    ensures
        final(out)@ == old(out)@ + be2(v as int),
{
    out.push((v / 0x100) as u8);
    out.push((v % 0x100) as u8);
    assert(out@ =~= old(out)@ + be2(v as int));
}

fn put_be4(out: &mut Vec<u8>, v: u64)
    requires
        v < 0x1_0000_0000,
    ensures
        final(out)@ == old(out)@ + be4(v as int),
{
    put_be2(out, v / 0x1_0000);
    put_be2(out, v % 0x1_0000);
    assert(out@ =~= old(out)@ + be4(v as int));
}

fn put_be8(out: &mut Vec<u8>, v: u64)
    ensures
        final(out)@ == old(out)@ + be8(v as int),
{
    put_be4(out, v / 0x1_0000_0000);
    put_be4(out, v % 0x1_0000_0000);
    assert(out@ =~= old(out)@ + be8(v as int));
}

/// Appends the head of an item of type `major` with argument `value`.
pub fn put_head(out: &mut Vec<u8>, major: u8, value: u64)
    requires
        major < 8,
    ensures
        final(out)@ == old(out)@ + head(major, value),
{
    reveal(head);
    let m: u8 = major * 32;
    if value < 24 {
        out.push(m + value as u8);
        assert(out@ =~= old(out)@ + head(major, value));
    } else if value < 0x100 {
        out.push(m + 24);
        out.push(value as u8);
        assert(out@ =~= old(out)@ + head(major, value));
    } else if value < 0x1_0000 {
        out.push(m + 25);
        put_be2(out, value);
        assert(out@ =~= old(out)@ + head(major, value));
    } else if value < 0x1_0000_0000 {
        out.push(m + 26);
        put_be4(out, value);
        assert(out@ =~= old(out)@ + head(major, value));
    } else {
        out.push(m + 27);
        put_be8(out, value);
        assert(out@ =~= old(out)@ + head(major, value));
    }
}

/// Appends the single byte `byte`.
pub fn put_byte(out: &mut Vec<u8>, byte: u8)
    ensures
        final(out)@ == old(out)@ + seq![byte],
{
    out.push(byte);
    assert(out@ =~= old(out)@ + seq![byte]);
}

/// Appends an unsigned integer.
pub fn put_uint(out: &mut Vec<u8>, value: u32)
    ensures
        final(out)@ == old(out)@ + uint(value),
{
    put_head(out, MAJOR_UINT, value as u64);
}

/// Appends an optional unsigned integer.
pub fn put_opt_uint(out: &mut Vec<u8>, value: Option<u32>)
    ensures
        final(out)@ == old(out)@ + opt_uint(value),
{
    match value {
        Some(v) => put_uint(out, v),
        None => put_byte(out, NULL),
    }
}

/// Appends a byte string.
pub fn put_bstr(out: &mut Vec<u8>, bytes: &[u8])
    ensures
        final(out)@ == old(out)@ + bstr(bytes@),
{
    put_head(out, MAJOR_BYTES, bytes.len() as u64);
    let ghost before = out@;
    let mut i: usize = 0;
    while i < bytes.len()
        invariant
            i <= bytes@.len(),
            out@ == before + bytes@.take(i as int),
        decreases bytes@.len() - i,
    {
        out.push(bytes[i]);
        assert(out@ =~= before + bytes@.take(i + 1));
        i += 1;
    }
    assert(bytes@.take(i as int) =~= bytes@);
    assert(out@ =~= old(out)@ + bstr(bytes@));
}

fn take_be2(bytes: &[u8], pos: usize) -> (v: u64)
    requires
        pos + 2 <= bytes@.len(),
    ensures
        v == from_be2(bytes@.subrange(pos as int, pos + 2)),
{
    bytes[pos] as u64 * 0x100 + bytes[pos + 1] as u64
}

fn take_be4(bytes: &[u8], pos: usize) -> (v: u64)
    requires
        pos + 4 <= bytes@.len(),
    ensures
        v == from_be4(bytes@.subrange(pos as int, pos + 4)),
{
    let ghost s = bytes@.subrange(pos as int, pos + 4);
    let _len = bytes.len();
    assert(s.subrange(0, 2) =~= bytes@.subrange(pos as int, pos + 2));
    assert(s.subrange(2, 4) =~= bytes@.subrange(pos + 2, pos + 4));
    take_be2(bytes, pos) * 0x1_0000 + take_be2(bytes, pos + 2)
}

fn take_be8(bytes: &[u8], pos: usize) -> (v: u64)
    requires
        pos + 8 <= bytes@.len(),
    ensures
        v == from_be8(bytes@.subrange(pos as int, pos + 8)),
{
    let ghost s = bytes@.subrange(pos as int, pos + 8);
    let _len = bytes.len();
    assert(s.subrange(0, 4) =~= bytes@.subrange(pos as int, pos + 4));
    assert(s.subrange(4, 8) =~= bytes@.subrange(pos + 4, pos + 8));
    proof {
        lemma_from_be4(s.subrange(0, 4));
        lemma_from_be4(s.subrange(4, 8));
    }
    take_be4(bytes, pos) * 0x1_0000_0000 + take_be4(bytes, pos + 4)
}

/// What a reader has found at `pos`: the item and the place after it, as
/// the parser finds them in the bytes from `pos` on.
pub open spec fn reads<T>(
    bytes: Seq<u8>,
    pos: usize,
    found: Option<(T, usize)>,
    parsed: Option<(T, Seq<u8>)>,
) -> bool {
    match found {
        Some((value, next)) => pos <= next <= bytes.len() && parsed == Some(
            (value, bytes.skip(next as int)),
        ),
        None => parsed is None,
    }
}

/// Reads the head of an item of type `major` at `pos`.
pub fn take_head(bytes: &[u8], pos: usize, major: u8) -> (found: Option<(u64, usize)>)
    requires
        pos <= bytes@.len(),
        major < 8,
    ensures
        reads(bytes@, pos, found, parse_head(major, bytes@.skip(pos as int))),
{
    reveal(parse_head);
    let ghost s = bytes@.skip(pos as int);
    let len = bytes.len();
    if pos >= len {
        return None;
    }
    let first = bytes[pos];
    assert(s[0] == first);
    if first / 32 != major {
        return None;
    }
    let info = first % 32;
    let rest = len - pos;
    if info < 24 {
        assert(s.skip(1) =~= bytes@.skip(pos + 1));
        Some((info as u64, pos + 1))
    } else if info == 24 {
        if rest < 2 {
            return None;
        }
        let v = bytes[pos + 1];
        assert(s[1] == v);
        if v < 24 {
            return None;
        }
        assert(s.skip(2) =~= bytes@.skip(pos + 2));
        Some((v as u64, pos + 2))
    } else if info == 25 {
        if rest < 3 {
            return None;
        }
        assert(s.subrange(1, 3) =~= bytes@.subrange(pos + 1, pos + 3));
        let v = take_be2(bytes, pos + 1);
        if v < 0x100 {
            return None;
        }
        assert(s.skip(3) =~= bytes@.skip(pos + 3));
        Some((v, pos + 3))
    } else if info == 26 {
        if rest < 5 {
            return None;
        }
        assert(s.subrange(1, 5) =~= bytes@.subrange(pos + 1, pos + 5));
        let v = take_be4(bytes, pos + 1);
        if v < 0x1_0000 {
            return None;
        }
        assert(s.skip(5) =~= bytes@.skip(pos + 5));
        Some((v, pos + 5))
    } else if info == 27 {
        if rest < 9 {
            return None;
        }
        assert(s.subrange(1, 9) =~= bytes@.subrange(pos + 1, pos + 9));
        let v = take_be8(bytes, pos + 1);
        if v < 0x1_0000_0000 {
            return None;
        }
        assert(s.skip(9) =~= bytes@.skip(pos + 9));
        Some((v, pos + 9))
    } else {
        None
    }
}

/// Reads an unsigned integer of 32 bits at `pos`.
pub fn take_uint(bytes: &[u8], pos: usize) -> (found: Option<(u32, usize)>)
    requires
        pos <= bytes@.len(),
    ensures
        reads(bytes@, pos, found, parse_uint(bytes@.skip(pos as int))),
{
    match take_head(bytes, pos, MAJOR_UINT) {
        Some((v, next)) => if v <= u32::MAX as u64 {
            Some((v as u32, next))
        } else {
            None
        },
        None => None,
    }
}

/// Reads an optional unsigned integer at `pos`.
pub fn take_opt_uint(bytes: &[u8], pos: usize) -> (found: Option<(Option<u32>, usize)>)
    requires
        pos <= bytes@.len(),
    ensures
        reads(bytes@, pos, found, parse_opt_uint(bytes@.skip(pos as int))),
{
    let ghost s = bytes@.skip(pos as int);
    if pos < bytes.len() && bytes[pos] == NULL {
        assert(s[0] == NULL);
        assert(s.skip(1) =~= bytes@.skip(pos + 1));
        return Some((None, pos + 1));
    }
    if pos < bytes.len() {
        assert(s[0] == bytes@[pos as int]);
    }
    match take_uint(bytes, pos) {
        Some((v, next)) => Some((Some(v), next)),
        None => None,
    }
}

/// What a reader of byte strings has found at `pos`.
pub open spec fn reads_bstr(
    bytes: Seq<u8>,
    pos: usize,
    found: Option<(&[u8], usize)>,
) -> bool {
    match found {
        Some((value, next)) => pos <= next <= bytes.len() && parse_bstr(bytes.skip(pos as int))
            == Some((value@, bytes.skip(next as int))),
        None => parse_bstr(bytes.skip(pos as int)) is None,
    }
}

/// Reads a byte string at `pos`.
pub fn take_bstr(bytes: &[u8], pos: usize) -> (found: Option<(&[u8], usize)>)
    requires
        pos <= bytes@.len(),
    ensures
        reads_bstr(bytes@, pos, found),
{
    match take_head(bytes, pos, MAJOR_BYTES) {
        Some((n, start)) => {
            let rest = bytes.len() - start;
            if n <= rest as u64 {
                let end = start + n as usize;
                let value = slice_subrange(bytes, start, end);
                assert(bytes@.skip(start as int).take(n as int) =~= value@);
                assert(bytes@.skip(start as int).skip(n as int) =~= bytes@.skip(end as int));
                Some((value, end))
            } else {
                None
            }
        },
        None => None,
    }
}

/// Reads the single byte `byte` at `pos`.
pub fn take_byte(bytes: &[u8], pos: usize, byte: u8) -> (found: Option<usize>)
    requires
        pos <= bytes@.len(),
    ensures
        match found {
            Some(next) => pos <= next <= bytes@.len() && parse_byte(byte, bytes@.skip(pos as int))
                == Some(bytes@.skip(next as int)),
            None => parse_byte(byte, bytes@.skip(pos as int)) is None,
        },
{
    let ghost s = bytes@.skip(pos as int);
    if pos < bytes.len() {
        assert(s[0] == bytes@[pos as int]);
        if bytes[pos] == byte {
            assert(s.skip(1) =~= bytes@.skip(pos + 1));
            return Some(pos + 1);
        }
    }
    None
}

} // verus!
