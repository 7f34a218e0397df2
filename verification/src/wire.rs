//! The compact binary form of the frames.
//!
//! A frame is a CBOR map whose keys are the positions of the fields, in
//! order: a status is `{0: version, 1: mtu, 2: correlation_id, 3: update}`, a
//! command is `{variant: {0: .., 1: .., ..}}`. Versions, blocks and digests are
//! byte strings, absent values are `null`, and every item is in its shortest
//! form. The decoders accept these frames and nothing else, so decoding an
//! encoded frame gives back every field, byte for byte.

use vstd::prelude::*;

use crate::cbor::{
    bstr, lemma_bstr_of_parse_bstr, lemma_byte_of_parse_byte, lemma_opt_uint_of_parse_opt_uint,
    lemma_parse_bstr_of_bstr, lemma_parse_byte_of_byte, lemma_parse_opt_uint_of_opt_uint,
    lemma_parse_uint_of_uint, lemma_uint_of_parse_uint, opt_uint, parse_bstr, parse_byte,
    parse_opt_uint, parse_uint, put_bstr, put_byte, put_opt_uint, put_uint, take_bstr, take_byte,
    take_opt_uint, take_uint, uint, NULL,
};
use crate::views::found_view;
use crate::protocol::{
    Command, CommandRef, CommandView, Sha256, Status, StatusRef, StatusView, UpdateStatusRef,
    UpdateStatusView,
};

verus! {

/// The frame of a transfer in progress.
pub open spec fn update_frame(update: UpdateStatusView) -> Seq<u8> {
    seq![0xa2u8] + seq![0u8] + bstr(update.version) + seq![1u8] + uint(update.offset)
}

/// The frame of an optional transfer in progress.
pub open spec fn opt_update_frame(update: Option<UpdateStatusView>) -> Seq<u8> {
    match update {
        Some(u) => update_frame(u),
        None => seq![NULL],
    }
}

/// The frame of a status.
pub open spec fn status_frame(status: StatusView) -> Seq<u8> {
    seq![0xa4u8] + seq![0u8] + bstr(status.version) + seq![1u8] + opt_uint(status.mtu) + seq![2u8]
        + opt_uint(status.correlation_id) + seq![3u8] + opt_update_frame(status.update)
}

/// What the frames of `Sync`, `Write` and `Swap` begin with: the variant, the
/// header of its map, the version, the correlation id, and the key of the
/// third field.
pub open spec fn versioned_frame(
    variant: u8,
    map: u8,
    version: Seq<u8>,
    correlation_id: Option<u32>,
) -> Seq<u8> {
    seq![0xa1u8] + seq![variant] + seq![map] + seq![0u8] + bstr(version) + seq![1u8] + opt_uint(
        correlation_id,
    ) + seq![2u8]
}

/// The frame of a command.
pub open spec fn command_frame(command: CommandView) -> Seq<u8> {
    match command {
        CommandView::Wait { correlation_id, poll } => seq![0xa1u8] + seq![0u8] + seq![0xa2u8]
            + seq![0u8] + opt_uint(correlation_id) + seq![1u8] + opt_uint(poll),
        CommandView::Sync { version, correlation_id, poll } => versioned_frame(
            1,
            0xa3,
            version,
            correlation_id,
        ) + opt_uint(poll),
        CommandView::Write { version, correlation_id, offset, data } => versioned_frame(
            2,
            0xa4,
            version,
            correlation_id,
        ) + uint(offset) + seq![3u8] + bstr(data),
        CommandView::Swap { version, correlation_id, checksum } => versioned_frame(
            3,
            0xa3,
            version,
            correlation_id,
        ) + bstr(checksum),
    }
}

/// Whether the byte strings of a status are short enough to have a frame.
pub open spec fn status_fits(status: StatusView) -> bool {
    &&& status.version.len() <= u64::MAX
    &&& match status.update {
        Some(u) => u.version.len() <= u64::MAX,
        None => true,
    }
}

/// Whether a command is well formed and its byte strings are short enough to
/// have a frame.
pub open spec fn command_fits(command: CommandView) -> bool {
    match command {
        CommandView::Wait { .. } => true,
        CommandView::Sync { version, .. } => version.len() <= u64::MAX,
        CommandView::Write { version, data, .. } => version.len() <= u64::MAX && data.len()
            <= u64::MAX,
        CommandView::Swap { version, checksum, .. } => version.len() <= u64::MAX && checksum.len()
            == 32,
    }
}

/// Reads a transfer in progress from the front of `s`.
pub open spec fn parse_update(s: Seq<u8>) -> Option<(UpdateStatusView, Seq<u8>)> {
    match parse_byte(0xa2, s) {
        Some(s1) => match parse_byte(0, s1) {
            Some(s2) => match parse_bstr(s2) {
                Some((version, s3)) => match parse_byte(1, s3) {
                    Some(s4) => match parse_uint(s4) {
                        Some((offset, s5)) => Some((UpdateStatusView { version, offset }, s5)),
                        None => None,
                    },
                    None => None,
                },
                None => None,
            },
            None => None,
        },
        None => None,
    }
}

/// Reads an optional transfer in progress from the front of `s`.
pub open spec fn parse_opt_update(s: Seq<u8>) -> Option<(Option<UpdateStatusView>, Seq<u8>)> {
    if s.len() > 0 && s[0] == NULL {
        Some((None, s.skip(1)))
    } else {
        match parse_update(s) {
            Some((u, rest)) => Some((Some(u), rest)),
            None => None,
        }
    }
}

/// The status whose frame `s` is, if it is one.
pub open spec fn parse_status(s: Seq<u8>) -> Option<StatusView> {
    match parse_byte(0xa4, s) {
        Some(s1) => match parse_byte(0, s1) {
            Some(s2) => match parse_bstr(s2) {
                Some((version, s3)) => match parse_byte(1, s3) {
                    Some(s4) => match parse_opt_uint(s4) {
                        Some((mtu, s5)) => match parse_byte(2, s5) {
                            Some(s6) => match parse_opt_uint(s6) {
                                Some((correlation_id, s7)) => match parse_byte(3, s7) {
                                    Some(s8) => match parse_opt_update(s8) {
                                        Some((update, s9)) => if s9.len() == 0 {
                                            Some(
                                                StatusView { version, mtu, correlation_id, update },
                                            )
                                        } else {
                                            None
                                        },
                                        None => None,
                                    },
                                    None => None,
                                },
                                None => None,
                            },
                            None => None,
                        },
                        None => None,
                    },
                    None => None,
                },
                None => None,
            },
            None => None,
        },
        None => None,
    }
}

/// The fields of a `Wait`, read from `s`, which they must fill.
pub open spec fn parse_wait(s: Seq<u8>) -> Option<CommandView> {
    match parse_byte(0xa2, s) {
        Some(s1) => match parse_byte(0, s1) {
            Some(s2) => match parse_opt_uint(s2) {
                Some((correlation_id, s3)) => match parse_byte(1, s3) {
                    Some(s4) => match parse_opt_uint(s4) {
                        Some((poll, s5)) => if s5.len() == 0 {
                            Some(CommandView::Wait { correlation_id, poll })
                        } else {
                            None
                        },
                        None => None,
                    },
                    None => None,
                },
                None => None,
            },
            None => None,
        },
        None => None,
    }
}

/// The fields that `Sync`, `Write` and `Swap` begin with, read from the
/// front of `s` behind the map header `map`: the version, the correlation id,
/// and what follows the key of the third field.
pub open spec fn parse_versioned(map: u8, s: Seq<u8>) -> Option<(Seq<u8>, Option<u32>, Seq<u8>)> {
    match parse_byte(map, s) {
        Some(s1) => match parse_byte(0, s1) {
            Some(s2) => match parse_bstr(s2) {
                Some((version, s3)) => match parse_byte(1, s3) {
                    Some(s4) => match parse_opt_uint(s4) {
                        Some((correlation_id, s5)) => match parse_byte(2, s5) {
                            Some(s6) => Some((version, correlation_id, s6)),
                            None => None,
                        },
                        None => None,
                    },
                    None => None,
                },
                None => None,
            },
            None => None,
        },
        None => None,
    }
}

/// The fields of a `Sync`, read from `s`, which they must fill.
pub open spec fn parse_sync(s: Seq<u8>) -> Option<CommandView> {
    match parse_versioned(0xa3, s) {
        Some((version, correlation_id, s1)) => match parse_opt_uint(s1) {
            Some((poll, s2)) => if s2.len() == 0 {
                Some(CommandView::Sync { version, correlation_id, poll })
            } else {
                None
            },
            None => None,
        },
        None => None,
    }
}

/// The fields of a `Write`, read from `s`, which they must fill.
pub open spec fn parse_write(s: Seq<u8>) -> Option<CommandView> {
    match parse_versioned(0xa4, s) {
        Some((version, correlation_id, s1)) => match parse_uint(s1) {
            Some((offset, s2)) => match parse_byte(3, s2) {
                Some(s3) => match parse_bstr(s3) {
                    Some((data, s4)) => if s4.len() == 0 {
                        Some(CommandView::Write { version, correlation_id, offset, data })
                    } else {
                        None
                    },
                    None => None,
                },
                None => None,
            },
            None => None,
        },
        None => None,
    }
}

/// The fields of a `Swap`, read from `s`, which they must fill.
pub open spec fn parse_swap(s: Seq<u8>) -> Option<CommandView> {
    match parse_versioned(0xa3, s) {
        Some((version, correlation_id, s1)) => match parse_bstr(s1) {
            Some((checksum, s2)) => if s2.len() == 0 && checksum.len() == 32 {
                Some(CommandView::Swap { version, correlation_id, checksum })
            } else {
                None
            },
            None => None,
        },
        None => None,
    }
}

/// The command whose frame `s` is, if it is one.
pub open spec fn parse_command(s: Seq<u8>) -> Option<CommandView> {
    match parse_byte(0xa1, s) {
        Some(s1) => if s1.len() == 0 {
            None
        } else if s1[0] == 0 {
            parse_wait(s1.skip(1))
        } else if s1[0] == 1 {
            parse_sync(s1.skip(1))
        } else if s1[0] == 2 {
            parse_write(s1.skip(1))
        } else if s1[0] == 3 {
            parse_swap(s1.skip(1))
        } else {
            None
        },
        None => None,
    }
}

proof fn lemma_concat_assoc(a: Seq<u8>, b: Seq<u8>, c: Seq<u8>)
    ensures
        (a + b) + c == a + (b + c),
{
    assert((a + b) + c =~= a + (b + c));
}

proof fn lemma_update_frame_then(u: UpdateStatusView, rest: Seq<u8>)
    ensures
        update_frame(u) + rest == seq![0xa2u8] + (seq![0u8] + (bstr(u.version) + (seq![1u8] + (uint(
            u.offset,
        ) + rest)))),
{
    let a = seq![0xa2u8];
    let b = seq![0u8];
    let c = bstr(u.version);
    let d = seq![1u8];
    let e = uint(u.offset);
    lemma_concat_assoc(a + b + c + d, e, rest);
    lemma_concat_assoc(a + b + c, d, e + rest);
    lemma_concat_assoc(a + b, c, d + (e + rest));
    lemma_concat_assoc(a, b, c + (d + (e + rest)));
}

proof fn lemma_status_frame_nested(status: StatusView)
    ensures
        status_frame(status) == seq![0xa4u8] + (seq![0u8] + (bstr(status.version) + (seq![1u8] + (
        opt_uint(status.mtu) + (seq![2u8] + (opt_uint(status.correlation_id) + (seq![3u8]
            + opt_update_frame(status.update)))))))),
{
    let a = seq![0xa4u8];
    let b = seq![0u8];
    let c = bstr(status.version);
    let d = seq![1u8];
    let e = opt_uint(status.mtu);
    let f = seq![2u8];
    let g = opt_uint(status.correlation_id);
    let h = seq![3u8];
    let i = opt_update_frame(status.update);
    lemma_concat_assoc(a + b + c + d + e + f + g, h, i);
    lemma_concat_assoc(a + b + c + d + e + f, g, h + i);
    lemma_concat_assoc(a + b + c + d + e, f, g + (h + i));
    lemma_concat_assoc(a + b + c + d, e, f + (g + (h + i)));
    lemma_concat_assoc(a + b + c, d, e + (f + (g + (h + i))));
    lemma_concat_assoc(a + b, c, d + (e + (f + (g + (h + i)))));
    lemma_concat_assoc(a, b, c + (d + (e + (f + (g + (h + i))))));
}

proof fn lemma_versioned_frame_then(
    variant: u8,
    map: u8,
    version: Seq<u8>,
    correlation_id: Option<u32>,
    rest: Seq<u8>,
)
    ensures
        versioned_frame(variant, map, version, correlation_id) + rest == seq![0xa1u8] + (seq![
            variant,
        ] + (seq![map] + (seq![0u8] + (bstr(version) + (seq![1u8] + (opt_uint(correlation_id) + (
        seq![2u8] + rest))))))),
{
    let a = seq![0xa1u8];
    let b = seq![variant];
    let c = seq![map];
    let d = seq![0u8];
    let e = bstr(version);
    let f = seq![1u8];
    let g = opt_uint(correlation_id);
    let h = seq![2u8];
    lemma_concat_assoc(a + b + c + d + e + f + g, h, rest);
    lemma_concat_assoc(a + b + c + d + e + f, g, h + rest);
    lemma_concat_assoc(a + b + c + d + e, f, g + (h + rest));
    lemma_concat_assoc(a + b + c + d, e, f + (g + (h + rest)));
    lemma_concat_assoc(a + b + c, d, e + (f + (g + (h + rest))));
    lemma_concat_assoc(a + b, c, d + (e + (f + (g + (h + rest)))));
    lemma_concat_assoc(a, b, c + (d + (e + (f + (g + (h + rest))))));
}

proof fn lemma_command_frame_nested(command: CommandView)
    ensures
        command_frame(command) == match command {
            CommandView::Wait { correlation_id, poll } => seq![0xa1u8] + (seq![0u8] + (seq![
                0xa2u8,
            ] + (seq![0u8] + (opt_uint(correlation_id) + (seq![1u8] + opt_uint(poll)))))),
            CommandView::Sync { version, correlation_id, poll } => seq![0xa1u8] + (seq![1u8] + (
            seq![0xa3u8] + (seq![0u8] + (bstr(version) + (seq![1u8] + (opt_uint(correlation_id)
                + (seq![2u8] + opt_uint(poll)))))))),
            CommandView::Write { version, correlation_id, offset, data } => seq![0xa1u8] + (seq![
                2u8,
            ] + (seq![0xa4u8] + (seq![0u8] + (bstr(version) + (seq![1u8] + (opt_uint(
                correlation_id,
            ) + (seq![2u8] + (uint(offset) + (seq![3u8] + bstr(data)))))))))),
            CommandView::Swap { version, correlation_id, checksum } => seq![0xa1u8] + (seq![3u8]
                + (seq![0xa3u8] + (seq![0u8] + (bstr(version) + (seq![1u8] + (opt_uint(
                correlation_id,
            ) + (seq![2u8] + bstr(checksum)))))))),
        },
{
    match command {
        CommandView::Wait { correlation_id, poll } => {
            let a = seq![0xa1u8];
            let b = seq![0u8];
            let c = seq![0xa2u8];
            let d = seq![0u8];
            let e = opt_uint(correlation_id);
            let f = seq![1u8];
            let g = opt_uint(poll);
            lemma_concat_assoc(a + b + c + d + e, f, g);
            lemma_concat_assoc(a + b + c + d, e, f + g);
            lemma_concat_assoc(a + b + c, d, e + (f + g));
            lemma_concat_assoc(a + b, c, d + (e + (f + g)));
            lemma_concat_assoc(a, b, c + (d + (e + (f + g))));
        },
        CommandView::Sync { version, correlation_id, poll } => {
            lemma_versioned_frame_then(1, 0xa3, version, correlation_id, opt_uint(poll));
        },
        CommandView::Write { version, correlation_id, offset, data } => {
            let v = versioned_frame(2, 0xa4, version, correlation_id);
            let x = uint(offset);
            let y = seq![3u8];
            let z = bstr(data);
            lemma_concat_assoc(v + x, y, z);
            lemma_concat_assoc(v, x, y + z);
            lemma_versioned_frame_then(2, 0xa4, version, correlation_id, x + (y + z));
        },
        CommandView::Swap { version, correlation_id, checksum } => {
            lemma_versioned_frame_then(3, 0xa3, version, correlation_id, bstr(checksum));
        },
    }
}

proof fn lemma_parse_update_of_frame(u: UpdateStatusView, rest: Seq<u8>)
    requires
        u.version.len() <= u64::MAX,
    ensures
        parse_update(update_frame(u) + rest) == Some((u, rest)),
{
    let t4 = uint(u.offset) + rest;
    let t3 = seq![1u8] + t4;
    let t2 = bstr(u.version) + t3;
    let t1 = seq![0u8] + t2;
    lemma_update_frame_then(u, rest);
    lemma_parse_byte_of_byte(0xa2, t1);
    lemma_parse_byte_of_byte(0, t2);
    lemma_parse_bstr_of_bstr(u.version, t3);
    lemma_parse_byte_of_byte(1, t4);
    lemma_parse_uint_of_uint(u.offset, rest);
}

proof fn lemma_frame_of_parse_update(s: Seq<u8>)
    ensures
        match parse_update(s) {
            Some((u, rest)) => s == update_frame(u) + rest && u.version.len() <= u64::MAX,
            None => true,
        },
{
    match parse_update(s) {
        Some((u, rest)) => {
            let s1 = parse_byte(0xa2, s)->0;
            let s2 = parse_byte(0, s1)->0;
            let s3 = (parse_bstr(s2)->0).1;
            let s4 = parse_byte(1, s3)->0;
            lemma_byte_of_parse_byte(0xa2, s);
            lemma_byte_of_parse_byte(0, s1);
            lemma_bstr_of_parse_bstr(s2);
            lemma_byte_of_parse_byte(1, s3);
            lemma_uint_of_parse_uint(s4);
            lemma_update_frame_then(u, rest);
        },
        None => {},
    }
}

proof fn lemma_update_frame_starts(u: UpdateStatusView)
    ensures
        update_frame(u).len() > 0,
        update_frame(u)[0] == 0xa2,
{
    lemma_update_frame_then(u, Seq::empty());
    assert(update_frame(u) + Seq::<u8>::empty() =~= update_frame(u));
}

proof fn lemma_parse_opt_update_of_frame(u: Option<UpdateStatusView>, rest: Seq<u8>)
    requires
        u is Some ==> u->0.version.len() <= u64::MAX,
    ensures
        parse_opt_update(opt_update_frame(u) + rest) == Some((u, rest)),
{
    let s = opt_update_frame(u) + rest;
    match u {
        Some(v) => {
            lemma_parse_update_of_frame(v, rest);
            lemma_update_frame_starts(v);
            assert(s[0] == update_frame(v)[0]);
        },
        None => {
            assert(s[0] == NULL);
            assert(s.skip(1) =~= rest);
        },
    }
}

proof fn lemma_frame_of_parse_opt_update(s: Seq<u8>)
    ensures
        match parse_opt_update(s) {
            Some((u, rest)) => s == opt_update_frame(u) + rest && (u is Some
                ==> u->0.version.len() <= u64::MAX),
            None => true,
        },
{
    if s.len() > 0 && s[0] == NULL {
        assert(s =~= seq![NULL] + s.skip(1));
    } else {
        lemma_frame_of_parse_update(s);
    }
}

/// Decoding the frame of a status gives back that status, field for field.
pub proof fn lemma_status_round_trip(status: StatusView)
    requires
        status_fits(status),
    ensures
        parse_status(status_frame(status)) == Some(status),
{
    let t8 = opt_update_frame(status.update);
    let t7 = seq![3u8] + t8;
    let t6 = opt_uint(status.correlation_id) + t7;
    let t5 = seq![2u8] + t6;
    let t4 = opt_uint(status.mtu) + t5;
    let t3 = seq![1u8] + t4;
    let t2 = bstr(status.version) + t3;
    let t1 = seq![0u8] + t2;
    lemma_status_frame_nested(status);
    lemma_parse_byte_of_byte(0xa4, t1);
    lemma_parse_byte_of_byte(0, t2);
    lemma_parse_bstr_of_bstr(status.version, t3);
    lemma_parse_byte_of_byte(1, t4);
    lemma_parse_opt_uint_of_opt_uint(status.mtu, t5);
    lemma_parse_byte_of_byte(2, t6);
    lemma_parse_opt_uint_of_opt_uint(status.correlation_id, t7);
    lemma_parse_byte_of_byte(3, t8);
    lemma_parse_opt_update_of_frame(status.update, Seq::empty());
    assert(t8 + Seq::<u8>::empty() =~= t8);
}

/// Only the frame of a status decodes to it: what decodes to `status` is
/// `status_frame(status)`.
pub proof fn lemma_status_frame_unique(s: Seq<u8>)
    ensures
        match parse_status(s) {
            Some(status) => s == status_frame(status) && status_fits(status),
            None => true,
        },
{
    match parse_status(s) {
        Some(status) => {
            let s1 = parse_byte(0xa4, s)->0;
            let s2 = parse_byte(0, s1)->0;
            let s3 = (parse_bstr(s2)->0).1;
            let s4 = parse_byte(1, s3)->0;
            let s5 = (parse_opt_uint(s4)->0).1;
            let s6 = parse_byte(2, s5)->0;
            let s7 = (parse_opt_uint(s6)->0).1;
            let s8 = parse_byte(3, s7)->0;
            let s9 = (parse_opt_update(s8)->0).1;
            lemma_byte_of_parse_byte(0xa4, s);
            lemma_byte_of_parse_byte(0, s1);
            lemma_bstr_of_parse_bstr(s2);
            lemma_byte_of_parse_byte(1, s3);
            lemma_opt_uint_of_parse_opt_uint(s4);
            lemma_byte_of_parse_byte(2, s5);
            lemma_opt_uint_of_parse_opt_uint(s6);
            lemma_byte_of_parse_byte(3, s7);
            lemma_frame_of_parse_opt_update(s8);
            assert(s9 =~= Seq::<u8>::empty());
            assert(s8 =~= opt_update_frame(status.update));
            lemma_status_frame_nested(status);
        },
        None => {},
    }
}

proof fn lemma_parse_versioned_of_frame(
    map: u8,
    version: Seq<u8>,
    correlation_id: Option<u32>,
    rest: Seq<u8>,
)
    requires
        version.len() <= u64::MAX,
    ensures
        parse_versioned(
            map,
            seq![map] + (seq![0u8] + (bstr(version) + (seq![1u8] + (opt_uint(correlation_id) + (
            seq![2u8] + rest))))),
        ) == Some((version, correlation_id, rest)),
{
    let t5 = seq![2u8] + rest;
    let t4 = opt_uint(correlation_id) + t5;
    let t3 = seq![1u8] + t4;
    let t2 = bstr(version) + t3;
    let t1 = seq![0u8] + t2;
    lemma_parse_byte_of_byte(map, t1);
    lemma_parse_byte_of_byte(0, t2);
    lemma_parse_bstr_of_bstr(version, t3);
    lemma_parse_byte_of_byte(1, t4);
    lemma_parse_opt_uint_of_opt_uint(correlation_id, t5);
    lemma_parse_byte_of_byte(2, rest);
}

proof fn lemma_frame_of_parse_versioned(map: u8, s: Seq<u8>)
    ensures
        match parse_versioned(map, s) {
            Some((version, correlation_id, rest)) => s == seq![map] + (seq![0u8] + (bstr(version)
                + (seq![1u8] + (opt_uint(correlation_id) + (seq![2u8] + rest))))) && version.len()
                <= u64::MAX,
            None => true,
        },
{
    match parse_versioned(map, s) {
        Some((version, correlation_id, rest)) => {
            let s1 = parse_byte(map, s)->0;
            let s2 = parse_byte(0, s1)->0;
            let s3 = (parse_bstr(s2)->0).1;
            let s4 = parse_byte(1, s3)->0;
            let s5 = (parse_opt_uint(s4)->0).1;
            lemma_byte_of_parse_byte(map, s);
            lemma_byte_of_parse_byte(0, s1);
            lemma_bstr_of_parse_bstr(s2);
            lemma_byte_of_parse_byte(1, s3);
            lemma_opt_uint_of_parse_opt_uint(s4);
            lemma_byte_of_parse_byte(2, s5);
        },
        None => {},
    }
}

/// Decoding the frame of a command gives back that command, field for field.
pub proof fn lemma_command_round_trip(command: CommandView)
    requires
        command_fits(command),
    ensures
        parse_command(command_frame(command)) == Some(command),
{
    lemma_command_frame_nested(command);
    let empty = Seq::<u8>::empty();
    match command {
        CommandView::Wait { correlation_id, poll } => {
            let t4 = opt_uint(poll);
            let t3 = seq![1u8] + t4;
            let t2 = opt_uint(correlation_id) + t3;
            let t1 = seq![0u8] + t2;
            let t0 = seq![0xa2u8] + t1;
            let body = seq![0u8] + t0;
            lemma_parse_byte_of_byte(0xa1, body);
            assert(body[0] == 0);
            assert(body.skip(1) =~= t0);
            lemma_parse_byte_of_byte(0xa2, t1);
            lemma_parse_byte_of_byte(0, t2);
            lemma_parse_opt_uint_of_opt_uint(correlation_id, t3);
            lemma_parse_byte_of_byte(1, t4);
            lemma_parse_opt_uint_of_opt_uint(poll, empty);
            assert(t4 + empty =~= t4);
        },
        CommandView::Sync { version, correlation_id, poll } => {
            let tail = opt_uint(poll);
            let t0 = seq![0xa3u8] + (seq![0u8] + (bstr(version) + (seq![1u8] + (opt_uint(
                correlation_id,
            ) + (seq![2u8] + tail)))));
            let body = seq![1u8] + t0;
            lemma_parse_byte_of_byte(0xa1, body);
            assert(body[0] == 1);
            assert(body.skip(1) =~= t0);
            lemma_parse_versioned_of_frame(0xa3, version, correlation_id, tail);
            lemma_parse_opt_uint_of_opt_uint(poll, empty);
            assert(tail + empty =~= tail);
        },
        CommandView::Write { version, correlation_id, offset, data } => {
            let t2 = bstr(data);
            let t1 = seq![3u8] + t2;
            let tail = uint(offset) + t1;
            let t0 = seq![0xa4u8] + (seq![0u8] + (bstr(version) + (seq![1u8] + (opt_uint(
                correlation_id,
            ) + (seq![2u8] + tail)))));
            let body = seq![2u8] + t0;
            lemma_parse_byte_of_byte(0xa1, body);
            assert(body[0] == 2);
            assert(body.skip(1) =~= t0);
            lemma_parse_versioned_of_frame(0xa4, version, correlation_id, tail);
            lemma_parse_uint_of_uint(offset, t1);
            lemma_parse_byte_of_byte(3, t2);
            lemma_parse_bstr_of_bstr(data, empty);
            assert(t2 + empty =~= t2);
        },
        CommandView::Swap { version, correlation_id, checksum } => {
            let tail = bstr(checksum);
            let t0 = seq![0xa3u8] + (seq![0u8] + (bstr(version) + (seq![1u8] + (opt_uint(
                correlation_id,
            ) + (seq![2u8] + tail)))));
            let body = seq![3u8] + t0;
            lemma_parse_byte_of_byte(0xa1, body);
            assert(body[0] == 3);
            assert(body.skip(1) =~= t0);
            lemma_parse_versioned_of_frame(0xa3, version, correlation_id, tail);
            lemma_parse_bstr_of_bstr(checksum, empty);
            assert(tail + empty =~= tail);
        },
    }
}

/// Only the frame of a command decodes to it: what decodes to `command` is
/// `command_frame(command)`.
pub proof fn lemma_command_frame_unique(s: Seq<u8>)
    ensures
        match parse_command(s) {
            Some(command) => s == command_frame(command) && command_fits(command),
            None => true,
        },
{
    match parse_command(s) {
        Some(command) => {
            lemma_command_frame_nested(command);
            let s1 = parse_byte(0xa1, s)->0;
            lemma_byte_of_parse_byte(0xa1, s);
            let body = s1.skip(1);
            assert(s1 =~= seq![s1[0]] + body);
            let empty = Seq::<u8>::empty();
            if s1[0] == 0 {
                let b1 = parse_byte(0xa2, body)->0;
                let b2 = parse_byte(0, b1)->0;
                let b3 = (parse_opt_uint(b2)->0).1;
                let b4 = parse_byte(1, b3)->0;
                let b5 = (parse_opt_uint(b4)->0).1;
                lemma_byte_of_parse_byte(0xa2, body);
                lemma_byte_of_parse_byte(0, b1);
                lemma_opt_uint_of_parse_opt_uint(b2);
                lemma_byte_of_parse_byte(1, b3);
                lemma_opt_uint_of_parse_opt_uint(b4);
                assert(b5 =~= empty);
                assert(b4 =~= opt_uint(command->Wait_poll));
            } else if s1[0] == 1 {
                lemma_frame_of_parse_versioned(0xa3, body);
                let tail = (parse_versioned(0xa3, body)->0).2;
                lemma_opt_uint_of_parse_opt_uint(tail);
                assert((parse_opt_uint(tail)->0).1 =~= empty);
                assert(tail =~= opt_uint(command->Sync_poll));
            } else if s1[0] == 2 {
                lemma_frame_of_parse_versioned(0xa4, body);
                let tail = (parse_versioned(0xa4, body)->0).2;
                let t1 = (parse_uint(tail)->0).1;
                let t2 = parse_byte(3, t1)->0;
                let t3 = (parse_bstr(t2)->0).1;
                lemma_uint_of_parse_uint(tail);
                lemma_byte_of_parse_byte(3, t1);
                lemma_bstr_of_parse_bstr(t2);
                assert(t3 =~= empty);
                assert(t2 =~= bstr(command->Write_data));
            } else {
                lemma_frame_of_parse_versioned(0xa3, body);
                let tail = (parse_versioned(0xa3, body)->0).2;
                lemma_bstr_of_parse_bstr(tail);
                assert((parse_bstr(tail)->0).1 =~= empty);
                assert(tail =~= bstr(command->Swap_checksum));
            }
        },
        None => {},
    }
}

/// Encoding then decoding a status gives back every field of it, byte for
/// byte: the frame of a status is the frame of that status and of no other,
/// and it is read as such.
pub proof fn lemma_decode_encode_status(status: Status)
    ensures
        status_fits(status@),
        parse_status(status_frame(status@)) == Some(status@),
{
    assert(status.version@.len() == status.version.len());
    match status.update {
        Some(update) => {
            assert(update.version@.len() == update.version.len());
        },
        None => {},
    }
    lemma_status_round_trip(status@);
}

/// Encoding then decoding a command gives back every field of it, byte for byte.
pub proof fn lemma_decode_encode_command(command: Command)
    ensures
        command_fits(command@),
        parse_command(command_frame(command@)) == Some(command@),
{
    match command {
        Command::Wait { .. } => {},
        Command::Sync { version, .. } => {
            assert(version@.len() == version.len());
        },
        Command::Write { version, data, .. } => {
            assert(version@.len() == version.len());
            assert(data@.len() == data.len());
        },
        Command::Swap { version, checksum, .. } => {
            assert(version@.len() == version.len());
            assert(checksum@.len() == 32);
        },
    }
    lemma_command_round_trip(command@);
}

/// A frame is the frame of at most one status.
pub proof fn lemma_status_frame_injective(a: StatusView, b: StatusView)
    requires
        status_fits(a),
        status_fits(b),
        status_frame(a) == status_frame(b),
    ensures
        a == b,
{
    lemma_status_round_trip(a);
    lemma_status_round_trip(b);
}

/// A frame is the frame of at most one command.
pub proof fn lemma_command_frame_injective(a: CommandView, b: CommandView)
    requires
        command_fits(a),
        command_fits(b),
        command_frame(a) == command_frame(b),
    ensures
        a == b,
{
    lemma_command_round_trip(a);
    lemma_command_round_trip(b);
}

fn put_update(out: &mut Vec<u8>, version: &[u8], offset: u32)
    ensures
        final(out)@ == old(out)@ + update_frame(UpdateStatusView { version: version@, offset }),
{
    let ghost p = old(out)@;
    let ghost a = seq![0xa2u8];
    let ghost b = seq![0u8];
    let ghost c = bstr(version@);
    let ghost d = seq![1u8];
    let ghost e = uint(offset);
    put_byte(out, 0xa2);
    put_byte(out, 0);
    put_bstr(out, version);
    put_byte(out, 1);
    put_uint(out, offset);
    proof {
        lemma_concat_assoc(p, a, b);
        lemma_concat_assoc(p, a + b, c);
        lemma_concat_assoc(p, a + b + c, d);
        lemma_concat_assoc(p, a + b + c + d, e);
    }
}

fn put_versioned(out: &mut Vec<u8>, variant: u8, map: u8, version: &[u8], correlation_id: Option<u32>)
    requires
        old(out)@.len() == 0,
    ensures
        final(out)@ == versioned_frame(variant, map, version@, correlation_id),
{
    put_byte(out, 0xa1);
    assert(out@ =~= seq![0xa1u8]);
    put_byte(out, variant);
    put_byte(out, map);
    put_byte(out, 0);
    put_bstr(out, version);
    put_byte(out, 1);
    put_opt_uint(out, correlation_id);
    put_byte(out, 2);
}

/// Encodes a borrowed status.
pub fn encode_status_ref(status: &StatusRef<'_>) -> (frame: Vec<u8>)
    ensures
        frame@ == status_frame(status@),
{
    let mut out: Vec<u8> = Vec::new();
    put_byte(&mut out, 0xa4);
    assert(out@ =~= seq![0xa4u8]);
    put_byte(&mut out, 0);
    put_bstr(&mut out, status.version);
    put_byte(&mut out, 1);
    put_opt_uint(&mut out, status.mtu);
    put_byte(&mut out, 2);
    put_opt_uint(&mut out, status.correlation_id);
    put_byte(&mut out, 3);
    match &status.update {
        Some(u) => put_update(&mut out, u.version, u.offset),
        None => put_byte(&mut out, NULL),
    }
    out
}

/// Encodes a status.
pub fn encode_status(status: &Status) -> (frame: Vec<u8>)
    ensures
        frame@ == status_frame(status@),
{
    let borrowed = StatusRef {
        version: status.version.as_slice(),
        mtu: status.mtu,
        correlation_id: status.correlation_id,
        update: match &status.update {
            Some(u) => Some(UpdateStatusRef { version: u.version.as_slice(), offset: u.offset }),
            None => None,
        },
    };
    encode_status_ref(&borrowed)
}

fn encode_wait(correlation_id: Option<u32>, poll: Option<u32>) -> (frame: Vec<u8>)
    ensures
        frame@ == command_frame(CommandView::Wait { correlation_id, poll }),
{
    let mut out: Vec<u8> = Vec::new();
    put_byte(&mut out, 0xa1);
    assert(out@ =~= seq![0xa1u8]);
    put_byte(&mut out, 0);
    put_byte(&mut out, 0xa2);
    put_byte(&mut out, 0);
    put_opt_uint(&mut out, correlation_id);
    put_byte(&mut out, 1);
    put_opt_uint(&mut out, poll);
    out
}

fn encode_sync(version: &[u8], correlation_id: Option<u32>, poll: Option<u32>) -> (frame: Vec<u8>)
    ensures
        frame@ == command_frame(CommandView::Sync { version: version@, correlation_id, poll }),
{
    let mut out: Vec<u8> = Vec::new();
    put_versioned(&mut out, 1, 0xa3, version, correlation_id);
    put_opt_uint(&mut out, poll);
    out
}

fn encode_write(version: &[u8], correlation_id: Option<u32>, offset: u32, data: &[u8]) -> (frame:
    Vec<u8>)
    ensures
        frame@ == command_frame(
            CommandView::Write { version: version@, correlation_id, offset, data: data@ },
        ),
{
    let mut out: Vec<u8> = Vec::new();
    put_versioned(&mut out, 2, 0xa4, version, correlation_id);
    put_uint(&mut out, offset);
    put_byte(&mut out, 3);
    put_bstr(&mut out, data);
    out
}

fn encode_swap(version: &[u8], correlation_id: Option<u32>, checksum: &Sha256) -> (frame: Vec<u8>)
    ensures
        frame@ == command_frame(
            CommandView::Swap { version: version@, correlation_id, checksum: checksum@ },
        ),
{
    let mut out: Vec<u8> = Vec::new();
    put_versioned(&mut out, 3, 0xa3, version, correlation_id);
    put_bstr(&mut out, checksum.as_slice());
    out
}

/// Encodes a borrowed command.
pub fn encode_command_ref(command: &CommandRef<'_>) -> (frame: Vec<u8>)
    ensures
        frame@ == command_frame(command@),
{
    match command {
        CommandRef::Wait { correlation_id, poll } => encode_wait(*correlation_id, *poll),
        CommandRef::Sync { version, correlation_id, poll } => encode_sync(
            version,
            *correlation_id,
            *poll,
        ),
        CommandRef::Write { version, correlation_id, offset, data } => encode_write(
            version,
            *correlation_id,
            *offset,
            data,
        ),
        CommandRef::Swap { version, correlation_id, checksum } => encode_swap(
            version,
            *correlation_id,
            checksum,
        ),
    }
}

/// Encodes a command.
pub fn encode_command(command: &Command) -> (frame: Vec<u8>)
    ensures
        frame@ == command_frame(command@),
{
    let borrowed = match command {
        Command::Wait { correlation_id, poll } => CommandRef::Wait {
            correlation_id: *correlation_id,
            poll: *poll,
        },
        Command::Sync { version, correlation_id, poll } => CommandRef::Sync {
            version: version.as_slice(),
            correlation_id: *correlation_id,
            poll: *poll,
        },
        Command::Write { version, correlation_id, offset, data } => CommandRef::Write {
            version: version.as_slice(),
            correlation_id: *correlation_id,
            offset: *offset,
            data: data.as_slice(),
        },
        Command::Swap { version, correlation_id, checksum } => CommandRef::Swap {
            version: version.as_slice(),
            correlation_id: *correlation_id,
            checksum: *checksum,
        },
    };
    encode_command_ref(&borrowed)
}

fn take_update<'a>(bytes: &'a [u8], pos: usize) -> (found: Option<(UpdateStatusRef<'a>, usize)>)
    requires
        pos <= bytes@.len(),
    ensures
        match found {
            Some((u, next)) => pos <= next <= bytes@.len() && parse_update(
                bytes@.skip(pos as int),
            ) == Some((u@, bytes@.skip(next as int))),
            None => parse_update(bytes@.skip(pos as int)) is None,
        },
{
    let p1 = match take_byte(bytes, pos, 0xa2) {
        Some(p) => p,
        None => return None,
    };
    let p2 = match take_byte(bytes, p1, 0) {
        Some(p) => p,
        None => return None,
    };
    let (version, p3) = match take_bstr(bytes, p2) {
        Some(f) => f,
        None => return None,
    };
    let p4 = match take_byte(bytes, p3, 1) {
        Some(p) => p,
        None => return None,
    };
    let (offset, p5) = match take_uint(bytes, p4) {
        Some(f) => f,
        None => return None,
    };
    Some((UpdateStatusRef { version, offset }, p5))
}

fn take_opt_update<'a>(bytes: &'a [u8], pos: usize) -> (found: Option<
    (Option<UpdateStatusRef<'a>>, usize),
>)
    requires
        pos <= bytes@.len(),
    ensures
        match found {
            Some((u, next)) => pos <= next <= bytes@.len() && parse_opt_update(
                bytes@.skip(pos as int),
            ) == Some((found_view(u), bytes@.skip(next as int))),
            None => parse_opt_update(bytes@.skip(pos as int)) is None,
        },
{
    let ghost s = bytes@.skip(pos as int);
    if pos < bytes.len() {
        assert(s[0] == bytes@[pos as int]);
        if bytes[pos] == NULL {
            assert(s.skip(1) =~= bytes@.skip(pos + 1));
            return Some((None, pos + 1));
        }
    }
    match take_update(bytes, pos) {
        Some((u, next)) => Some((Some(u), next)),
        None => None,
    }
}

/// Decodes a status without copying its byte strings: the status whose frame
/// `bytes` is, or nothing where `bytes` is no frame of a status.
pub fn decode_status_ref<'a>(bytes: &'a [u8]) -> (found: Option<StatusRef<'a>>)
    ensures
        found_view(found) == parse_status(bytes@),
{
    assert(bytes@.skip(0) =~= bytes@);
    let p1 = match take_byte(bytes, 0, 0xa4) {
        Some(p) => p,
        None => return None,
    };
    let p2 = match take_byte(bytes, p1, 0) {
        Some(p) => p,
        None => return None,
    };
    let (version, p3) = match take_bstr(bytes, p2) {
        Some(f) => f,
        None => return None,
    };
    let p4 = match take_byte(bytes, p3, 1) {
        Some(p) => p,
        None => return None,
    };
    let (mtu, p5) = match take_opt_uint(bytes, p4) {
        Some(f) => f,
        None => return None,
    };
    let p6 = match take_byte(bytes, p5, 2) {
        Some(p) => p,
        None => return None,
    };
    let (correlation_id, p7) = match take_opt_uint(bytes, p6) {
        Some(f) => f,
        None => return None,
    };
    let p8 = match take_byte(bytes, p7, 3) {
        Some(p) => p,
        None => return None,
    };
    let (update, p9) = match take_opt_update(bytes, p8) {
        Some(f) => f,
        None => return None,
    };
    if p9 != bytes.len() {
        return None;
    }
    Some(StatusRef { version, mtu, correlation_id, update })
}

/// Decodes a status: the status whose frame `bytes` is, or nothing where
/// `bytes` is no frame of a status.
pub fn decode_status(bytes: &[u8]) -> (found: Option<Status>)
    ensures
        found_view(found) == parse_status(bytes@),
{
    match decode_status_ref(bytes) {
        Some(status) => Some(Status::from(status)),
        None => None,
    }
}

fn take_versioned<'a>(bytes: &'a [u8], pos: usize, map: u8) -> (found: Option<
    (&'a [u8], Option<u32>, usize),
>)
    requires
        pos <= bytes@.len(),
    ensures
        match found {
            Some((version, correlation_id, next)) => pos <= next <= bytes@.len()
                && parse_versioned(map, bytes@.skip(pos as int)) == Some(
                (version@, correlation_id, bytes@.skip(next as int)),
            ),
            None => parse_versioned(map, bytes@.skip(pos as int)) is None,
        },
{
    let p1 = match take_byte(bytes, pos, map) {
        Some(p) => p,
        None => return None,
    };
    let p2 = match take_byte(bytes, p1, 0) {
        Some(p) => p,
        None => return None,
    };
    let (version, p3) = match take_bstr(bytes, p2) {
        Some(f) => f,
        None => return None,
    };
    let p4 = match take_byte(bytes, p3, 1) {
        Some(p) => p,
        None => return None,
    };
    let (correlation_id, p5) = match take_opt_uint(bytes, p4) {
        Some(f) => f,
        None => return None,
    };
    let p6 = match take_byte(bytes, p5, 2) {
        Some(p) => p,
        None => return None,
    };
    Some((version, correlation_id, p6))
}

fn decode_wait<'a>(bytes: &'a [u8], pos: usize) -> (found: Option<CommandRef<'a>>)
    requires
        pos <= bytes@.len(),
    ensures
        found_view(found) == parse_wait(bytes@.skip(pos as int)),
{
    let p1 = match take_byte(bytes, pos, 0xa2) {
        Some(p) => p,
        None => return None,
    };
    let p2 = match take_byte(bytes, p1, 0) {
        Some(p) => p,
        None => return None,
    };
    let (correlation_id, p3) = match take_opt_uint(bytes, p2) {
        Some(f) => f,
        None => return None,
    };
    let p4 = match take_byte(bytes, p3, 1) {
        Some(p) => p,
        None => return None,
    };
    let (poll, p5) = match take_opt_uint(bytes, p4) {
        Some(f) => f,
        None => return None,
    };
    if p5 != bytes.len() {
        return None;
    }
    Some(CommandRef::Wait { correlation_id, poll })
}

fn decode_sync<'a>(bytes: &'a [u8], pos: usize) -> (found: Option<CommandRef<'a>>)
    requires
        pos <= bytes@.len(),
    ensures
        found_view(found) == parse_sync(bytes@.skip(pos as int)),
{
    let (version, correlation_id, p1) = match take_versioned(bytes, pos, 0xa3) {
        Some(f) => f,
        None => return None,
    };
    let (poll, p2) = match take_opt_uint(bytes, p1) {
        Some(f) => f,
        None => return None,
    };
    if p2 != bytes.len() {
        return None;
    }
    Some(CommandRef::Sync { version, correlation_id, poll })
}

fn decode_write<'a>(bytes: &'a [u8], pos: usize) -> (found: Option<CommandRef<'a>>)
    requires
        pos <= bytes@.len(),
    ensures
        found_view(found) == parse_write(bytes@.skip(pos as int)),
{
    let (version, correlation_id, p1) = match take_versioned(bytes, pos, 0xa4) {
        Some(f) => f,
        None => return None,
    };
    let (offset, p2) = match take_uint(bytes, p1) {
        Some(f) => f,
        None => return None,
    };
    let p3 = match take_byte(bytes, p2, 3) {
        Some(p) => p,
        None => return None,
    };
    let (data, p4) = match take_bstr(bytes, p3) {
        Some(f) => f,
        None => return None,
    };
    if p4 != bytes.len() {
        return None;
    }
    Some(CommandRef::Write { version, correlation_id, offset, data })
}

fn to_digest(bytes: &[u8]) -> (digest: Sha256)
    requires
        bytes@.len() == 32,
    ensures
        digest@ == bytes@,
{
    let mut digest: Sha256 = [0u8;32];
    let mut i: usize = 0;
    while i < 32
        invariant
            i <= 32,
            bytes@.len() == 32,
            forall|j: int| 0 <= j < i ==> digest@[j] == bytes@[j],
        decreases 32 - i,
    {
        digest[i] = bytes[i];
        i += 1;
    }
    assert(digest@ =~= bytes@);
    digest
}

fn decode_swap<'a>(bytes: &'a [u8], pos: usize) -> (found: Option<CommandRef<'a>>)
    requires
        pos <= bytes@.len(),
    ensures
        found_view(found) == parse_swap(bytes@.skip(pos as int)),
{
    let (version, correlation_id, p1) = match take_versioned(bytes, pos, 0xa3) {
        Some(f) => f,
        None => return None,
    };
    let (checksum, p2) = match take_bstr(bytes, p1) {
        Some(f) => f,
        None => return None,
    };
    if p2 != bytes.len() || checksum.len() != 32 {
        return None;
    }
    Some(CommandRef::Swap { version, correlation_id, checksum: to_digest(checksum) })
}

/// Decodes a command without copying its byte strings: the command whose
/// frame `bytes` is, or nothing where `bytes` is no frame of a command.
pub fn decode_command_ref<'a>(bytes: &'a [u8]) -> (found: Option<CommandRef<'a>>)
    ensures
        found_view(found) == parse_command(bytes@),
{
    assert(bytes@.skip(0) =~= bytes@);
    let p1 = match take_byte(bytes, 0, 0xa1) {
        Some(p) => p,
        None => return None,
    };
    if p1 >= bytes.len() {
        return None;
    }
    let variant = bytes[p1];
    let ghost s1 = bytes@.skip(p1 as int);
    assert(s1[0] == variant);
    assert(s1.skip(1) =~= bytes@.skip(p1 + 1));
    if variant == 0 {
        decode_wait(bytes, p1 + 1)
    } else if variant == 1 {
        decode_sync(bytes, p1 + 1)
    } else if variant == 2 {
        decode_write(bytes, p1 + 1)
    } else if variant == 3 {
        decode_swap(bytes, p1 + 1)
    } else {
        None
    }
}

/// Decodes a command: the command whose frame `bytes` is, or nothing where
/// `bytes` is no frame of a command.
pub fn decode_command(bytes: &[u8]) -> (found: Option<Command>)
    ensures
        found_view(found) == parse_command(bytes@),
{
    match decode_command_ref(bytes) {
        Some(command) => Some(Command::from(command)),
        None => None,
    }
}

} // verus!
