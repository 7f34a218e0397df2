//! The human-readable form of a status: a JSON object with the members
//! `version`, `mtu`, `correlation_id` and `update`.
//!
//! The version is a list of bytes. `mtu`, `correlation_id` and `update` may
//! be missing or `null`. Members that the protocol does not know are passed
//! over.

use vstd::prelude::*;

use crate::json::{lemma_member_found, member, Json, Member, Number};
use crate::protocol::{Status, StatusView, UpdateStatus, UpdateStatusView};
use crate::views::found_view;

verus! {

/// The byte that a document stands for, if it is a whole number below 256.
pub open spec fn spec_byte(document: Json) -> Option<u8> {
    match document {
        Json::Number(Number::Unsigned(n)) => if n <= 255 {
            Some(n as u8)
        } else {
            None
        },
        _ => None,
    }
}

/// The bytes that a document stands for, if it is a list of bytes.
pub open spec fn spec_byte_list(document: Json) -> Option<Seq<u8>> {
    match document {
        Json::Array(elements) => if forall|i: int|
            0 <= i < elements@.len() ==> spec_byte(#[trigger] elements@[i]) is Some {
            Some(Seq::new(elements@.len(), |i: int| spec_byte(elements@[i])->0))
        } else {
            None
        },
        _ => None,
    }
}

/// The number of 32 bits that an optional member stands for, where it is
/// missing, `null` or such a number.
pub open spec fn spec_opt_number(member: Option<Json>) -> Option<Option<u32>> {
    match member {
        None => Some(None),
        Some(Json::Null) => Some(None),
        Some(Json::Number(Number::Unsigned(n))) => if n <= u32::MAX {
            Some(Some(n as u32))
        } else {
            None
        },
        Some(_) => None,
    }
}

/// The transfer in progress that a document stands for, if it is an object
/// with a list of bytes as `version` and a number of 32 bits as `offset`.
pub open spec fn spec_update(document: Json) -> Option<UpdateStatusView> {
    match (document.spec_member("version"@), document.spec_member("offset"@)) {
        (Some(version), Some(Json::Number(Number::Unsigned(offset)))) => match spec_byte_list(
            version,
        ) {
            Some(version) => if offset <= u32::MAX {
                Some(UpdateStatusView { version, offset: offset as u32 })
            } else {
                None
            },
            None => None,
        },
        _ => None,
    }
}

/// The transfer in progress that an optional member stands for, where it is
/// missing, `null` or a transfer.
pub open spec fn spec_opt_update(member: Option<Json>) -> Option<Option<UpdateStatusView>> {
    match member {
        None => Some(None),
        Some(Json::Null) => Some(None),
        Some(document) => match spec_update(document) {
            Some(update) => Some(Some(update)),
            None => None,
        },
    }
}

/// The status that a document stands for, if it stands for one.
pub open spec fn spec_status(document: Json) -> Option<StatusView> {
    match document.spec_member("version"@) {
        Some(version) => match (
            spec_byte_list(version),
            spec_opt_number(document.spec_member("mtu"@)),
            spec_opt_number(document.spec_member("correlation_id"@)),
            spec_opt_update(document.spec_member("update"@)),
        ) {
            (Some(version), Some(mtu), Some(correlation_id), Some(update)) => Some(
                StatusView { version, mtu, correlation_id, update },
            ),
            _ => None,
        },
        None => None,
    }
}

fn read_byte(document: &Json) -> (byte: Option<u8>)
    ensures
        byte == spec_byte(*document),
{
    match document {
        Json::Number(Number::Unsigned(n)) => if *n <= 255 {
            Some(*n as u8)
        } else {
            None
        },
        _ => None,
    }
}

fn read_bytes(elements: &Vec<Json>) -> (bytes: Option<Vec<u8>>)
    ensures
        match bytes {
            Some(b) => spec_byte_list(Json::Array(*elements)) == Some(b@),
            None => spec_byte_list(Json::Array(*elements)) is None,
        },
{
    let mut bytes: Vec<u8> = Vec::new();
    let n = elements.len();
    let mut i: usize = 0;
    while i < n
        invariant
            i <= n,
            n == elements@.len(),
            bytes@.len() == i,
            forall|j: int| 0 <= j < i ==> spec_byte(#[trigger] elements@[j]) == Some(bytes@[j]),
        decreases n - i,
    {
        match read_byte(&elements[i]) {
            Some(byte) => bytes.push(byte),
            None => {
                assert(!(spec_byte(elements@[i as int]) is Some));
                return None;
            },
        }
        i += 1;
    }
    assert(bytes@ =~= Seq::new(elements@.len(), |i: int| spec_byte(elements@[i])->0));
    Some(bytes)
}

fn read_byte_list(document: &Json) -> (bytes: Option<Vec<u8>>)
    ensures
        found_view(bytes) == spec_byte_list(*document),
{
    match document {
        Json::Array(elements) => read_bytes(elements),
        _ => None,
    }
}

fn read_opt_number(member: Option<&Json>) -> (number: Option<Option<u32>>)
    ensures
        number == spec_opt_number(
            match member {
                Some(m) => Some(*m),
                None => None,
            },
        ),
{
    match member {
        None => Some(None),
        Some(Json::Null) => Some(None),
        Some(Json::Number(Number::Unsigned(n))) => if *n <= u32::MAX as u64 {
            Some(Some(*n as u32))
        } else {
            None
        },
        Some(_) => None,
    }
}

fn read_update(document: &Json) -> (update: Option<UpdateStatus>)
    ensures
        found_view(update) == spec_update(*document),
{
    match (document.member("version"), document.member("offset")) {
        (Some(version), Some(Json::Number(Number::Unsigned(offset)))) => match read_byte_list(
            version,
        ) {
            Some(version) => if *offset <= u32::MAX as u64 {
                Some(UpdateStatus { version, offset: *offset as u32 })
            } else {
                None
            },
            None => None,
        },
        _ => None,
    }
}

fn read_opt_update(member: Option<&Json>) -> (update: Option<Option<UpdateStatus>>)
    ensures
        match update {
            Some(u) => Some(found_view(u)),
            None => None,
        } == spec_opt_update(
            match member {
                Some(m) => Some(*m),
                None => None,
            },
        ),
{
    match member {
        None => Some(None),
        Some(Json::Null) => Some(None),
        Some(document) => match read_update(document) {
            Some(update) => Some(Some(update)),
            None => None,
        },
    }
}

/// Reads a status in its human-readable form.
pub fn read_status_document(document: &Json) -> (status: Option<Status>)
    ensures
        found_view(status) == spec_status(*document),
{
    let version = match document.member("version") {
        Some(version) => match read_byte_list(version) {
            Some(version) => version,
            None => return None,
        },
        None => return None,
    };
    let mtu = match read_opt_number(document.member("mtu")) {
        Some(mtu) => mtu,
        None => return None,
    };
    let correlation_id = match read_opt_number(document.member("correlation_id")) {
        Some(correlation_id) => correlation_id,
        None => return None,
    };
    let update = match read_opt_update(document.member("update")) {
        Some(update) => update,
        None => return None,
    };
    Some(Status { version, correlation_id, mtu, update })
}

fn write_bytes(bytes: &[u8]) -> (document: Json)
    ensures
        spec_byte_list(document) == Some(bytes@),
{
    let mut elements: Vec<Json> = Vec::new();
    let n = bytes.len();
    let mut i: usize = 0;
    while i < n
        invariant
            i <= n,
            n == bytes@.len(),
            elements@.len() == i,
            forall|j: int| 0 <= j < i ==> spec_byte(#[trigger] elements@[j]) == Some(bytes@[j]),
        decreases n - i,
    {
        elements.push(Json::Number(Number::Unsigned(bytes[i] as u64)));
        i += 1;
    }
    assert(bytes@ =~= Seq::new(elements@.len(), |i: int| spec_byte(elements@[i])->0));
    Json::Array(elements)
}

fn write_opt_number(number: Option<u32>) -> (document: Json)
    ensures
        spec_opt_number(Some(document)) == Some(number),
{
    match number {
        Some(n) => Json::Number(Number::Unsigned(n as u64)),
        None => Json::Null,
    }
}

fn write_update(update: &UpdateStatus) -> (document: Json)
    ensures
        spec_update(document) == Some(update@),
        !(document is Null),
{
    let mut members: Vec<Member> = Vec::new();
    members.push(member("version", write_bytes(update.version.as_slice())));
    members.push(member("offset", Json::Number(Number::Unsigned(update.offset as u64))));
    proof {
        reveal_strlit("version");
        reveal_strlit("offset");
        assert("version"@.len() != "offset"@.len());
        lemma_member_found(members, 0);
        lemma_member_found(members, 1);
    }
    Json::Object(members)
}

/// Writes a status in its human-readable form. Reading what was written
/// gives back the status, field for field.
pub fn write_status_document(status: &Status) -> (document: Json)
    ensures
        spec_status(document) == Some(status@),
{
    let mut members: Vec<Member> = Vec::new();
    members.push(member("version", write_bytes(status.version.as_slice())));
    members.push(member("mtu", write_opt_number(status.mtu)));
    members.push(member("correlation_id", write_opt_number(status.correlation_id)));
    members.push(
        member(
            "update",
            match &status.update {
                Some(update) => write_update(update),
                None => Json::Null,
            },
        ),
    );
    proof {
        reveal_strlit("version");
        reveal_strlit("mtu");
        reveal_strlit("correlation_id");
        reveal_strlit("update");
        assert("version"@.len() == 7 && "mtu"@.len() == 3 && "correlation_id"@.len() == 14
            && "update"@.len() == 6);
        lemma_member_found(members, 0);
        lemma_member_found(members, 1);
        lemma_member_found(members, 2);
        lemma_member_found(members, 3);
    }
    Json::Object(members)
}

} // verus!
