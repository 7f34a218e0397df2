//! The answer to one device status.
//!
//! The coordinator keeps no session: everything it needs is in the status
//! that the device sent and in what the store says about the wanted image.
//! The functions here are pure, so the same status always gets the same reply.

use vstd::prelude::*;
use vstd::slice::slice_subrange;
use vstd::utf8::encode_utf8;

use crate::digest::{checksum_bytes, decode_checksum, HexError};
use crate::metadata::{same_bytes, Metadata, MetadataView};
use crate::protocol::{padded_checksum, Command, CommandView, Status, StatusView};

verus! {

/// The block size used for a device that does not state one.
pub const DEFAULT_MTU: u32 = 512;

/// A status and an image that do not fit together.
#[derive(Debug, Clone, Copy, PartialEq, Eq)]
pub enum ProtocolError {
    /// The digest of the image is not hexadecimal.
    Checksum(HexError),
    /// The device asks for bytes past the end of what the store delivered.
    ImpossibleOffset { offset: u32, available: usize },
}

/// Where a device stands with respect to the wanted image.
#[derive(Debug, Clone, Copy, PartialEq, Eq)]
pub enum Verdict {
    /// It runs the wanted version.
    UpToDate,
    /// It needs the bytes from `offset` on, at most `mtu` at a time.
    Transfer { offset: u32, mtu: u32 },
    /// It holds the whole image and can activate it.
    Activate { offset: u32 },
}

/// The largest block that the device accepts.
pub open spec fn block_size(status: StatusView) -> u32 {
    match status.mtu {
        Some(mtu) => mtu,
        None => DEFAULT_MTU,
    }
}

/// The number of bytes of `target` that the device already holds. Progress
/// towards any other version does not count.
pub open spec fn resume_offset(status: StatusView, target: Seq<u8>) -> u32 {
    match status.update {
        Some(update) => if update.version == target {
            update.offset
        } else {
            0
        },
        None => 0,
    }
}

/// The verdict on `status` when the store offers `metadata`.
pub open spec fn spec_verdict(status: StatusView, metadata: MetadataView) -> Verdict {
    if status.version == metadata.version {
        Verdict::UpToDate
    } else {
        let offset = resume_offset(status, metadata.version);
        if offset < metadata.size {
            Verdict::Transfer { offset, mtu: block_size(status) }
        } else {
            Verdict::Activate { offset }
        }
    }
}

/// The block of `firmware` that starts at `offset` and is cut at `mtu` bytes.
pub open spec fn spec_block(firmware: Seq<u8>, offset: u32, mtu: u32) -> Seq<u8>
    recommends
        offset <= firmware.len(),
{
    let rest = firmware.len() - offset;
    let len = if rest < mtu {
        rest
    } else {
        mtu as int
    };
    firmware.subrange(offset as int, offset + len)
}

/// The reply to `status` when the store offers `metadata` (or advises
/// `backoff` where it has none) and delivers `firmware` for it.
pub open spec fn spec_reply(
    status: StatusView,
    metadata: Option<MetadataView>,
    backoff: Option<u32>,
    firmware: Seq<u8>,
) -> Result<CommandView, ProtocolError> {
    match metadata {
        None => Ok(CommandView::Wait { correlation_id: status.correlation_id, poll: backoff }),
        Some(metadata) => match spec_verdict(status, metadata) {
            Verdict::UpToDate => Ok(
                CommandView::Sync {
                    version: status.version,
                    correlation_id: status.correlation_id,
                    poll: None,
                },
            ),
            Verdict::Transfer { offset, mtu } => spec_write(status, metadata, offset, mtu, firmware),
            Verdict::Activate { offset } => spec_swap(status, metadata),
        },
    }
}

/// The `Write` that carries the block at `offset`, where `firmware` reaches that far.
pub open spec fn spec_write(
    status: StatusView,
    metadata: MetadataView,
    offset: u32,
    mtu: u32,
    firmware: Seq<u8>,
) -> Result<CommandView, ProtocolError> {
    if offset > firmware.len() {
        Err(ProtocolError::ImpossibleOffset { offset, available: firmware.len() as usize })
    } else {
        Ok(
            CommandView::Write {
                version: metadata.version,
                correlation_id: status.correlation_id,
                offset,
                data: spec_block(firmware, offset, mtu),
            },
        )
    }
}

/// The `Swap` to the image of `metadata`, where its digest can be read.
pub open spec fn spec_swap(status: StatusView, metadata: MetadataView) -> Result<
    CommandView,
    ProtocolError,
> {
    match checksum_bytes(encode_utf8(metadata.checksum)) {
        Ok(digest) => Ok(
            CommandView::Swap {
                version: metadata.version,
                correlation_id: status.correlation_id,
                checksum: padded_checksum(digest),
            },
        ),
        Err(e) => Err(ProtocolError::Checksum(e)),
    }
}

/// A reply, its command taken by its value.
pub open spec fn reply_view(reply: Result<Command, ProtocolError>) -> Result<
    CommandView,
    ProtocolError,
> {
    match reply {
        Ok(command) => Ok(command@),
        Err(e) => Err(e),
    }
}

/// Decides where the device stands: in sync when it runs the wanted version
/// (compared byte for byte), else in transfer until its offset reaches the size
/// of the image, else ready to activate.
pub fn verdict(status: &Status, metadata: &Metadata) -> (v: Verdict)
    ensures
        v == spec_verdict(status@, metadata@),
{
    if same_bytes(status.version.as_slice(), metadata.version.as_slice()) {
        return Verdict::UpToDate;
    }
    let mtu: u32 = match status.mtu {
        Some(m) => m,
        None => DEFAULT_MTU,
    };
    let offset: u32 = match &status.update {
        Some(update) => if same_bytes(update.version.as_slice(), metadata.version.as_slice()) {
            update.offset
        } else {
            0
        },
        None => 0,
    };
    if offset < metadata.size {
        Verdict::Transfer { offset, mtu }
    } else {
        Verdict::Activate { offset }
    }
}

/// The reply while the store has no image yet.
pub fn wait_command(status: &Status, backoff: Option<u32>) -> (command: Command)
    ensures
        Ok::<CommandView, ProtocolError>(command@) == spec_reply(status@, None, backoff, seq![]),
{
    Command::new_wait(backoff, status.correlation_id)
}

/// The reply to a device that runs the wanted version.
pub fn sync_command(status: &Status) -> (command: Command)
    ensures
        command@ == (CommandView::Sync {
            version: status@.version,
            correlation_id: status@.correlation_id,
            poll: None,
        }),
{
    Command::new_sync(status.version.as_slice(), None, status.correlation_id)
}

/// The reply that carries the next block: the bytes of `firmware` from
/// `offset` on, at most `mtu` of them. An offset past the end of `firmware` is
/// refused.
pub fn write_command(
    status: &Status,
    metadata: &Metadata,
    offset: u32,
    mtu: u32,
    firmware: &[u8],
) -> (reply: Result<Command, ProtocolError>)
    ensures
        reply_view(reply) == spec_write(status@, metadata@, offset, mtu, firmware@),
{
    let available = firmware.len();
    if offset as usize > available {
        return Err(ProtocolError::ImpossibleOffset { offset, available });
    }
    let start = offset as usize;
    let rest = available - start;
    let to_copy = if rest < mtu as usize {
        rest
    } else {
        mtu as usize
    };
    let block = slice_subrange(firmware, start, start + to_copy);
    Ok(Command::new_write(metadata.version.as_slice(), offset, block, status.correlation_id))
}

/// The reply that tells the device to activate the image: it carries the
/// digest that `metadata` spells out, cut or zero-filled to 32 bytes.
pub fn swap_command(status: &Status, metadata: &Metadata) -> (reply: Result<Command, ProtocolError>)
    ensures
        reply_view(reply) == spec_swap(status@, metadata@),
{
    match decode_checksum(metadata.checksum.as_str()) {
        Ok(digest) => Ok(
            Command::new_swap(
                metadata.version.as_slice(),
                digest.as_slice(),
                status.correlation_id,
            ),
        ),
        Err(e) => Err(ProtocolError::Checksum(e)),
    }
}

/// The reply to `status`, given everything the store had to say: `Wait` where
/// it has no image, `Sync` where the device runs the wanted version, the next
/// `Write` while bytes are missing, and `Swap` once the device holds them all.
pub fn reply(
    status: &Status,
    metadata: Option<&Metadata>,
    backoff: Option<u32>,
    firmware: &[u8],
) -> (reply: Result<Command, ProtocolError>)
    ensures
        reply_view(reply) == spec_reply(
            status@,
            match metadata {
                Some(m) => Some(m@),
                None => None,
            },
            backoff,
            firmware@,
        ),
{
    match metadata {
        None => Ok(wait_command(status, backoff)),
        Some(metadata) => match verdict(status, metadata) {
            Verdict::UpToDate => Ok(sync_command(status)),
            Verdict::Transfer { offset, mtu } => write_command(
                status,
                metadata,
                offset,
                mtu,
                firmware,
            ),
            Verdict::Activate { offset } => swap_command(status, metadata),
        },
    }
}

/// A block never leaves the image and never exceeds what the device accepts:
/// where the store delivers no more bytes than the metadata announces, a
/// `Write` starts inside the image, ends inside it and holds at most
/// [`block_size`] bytes.
pub proof fn lemma_write_stays_in_image(
    status: StatusView,
    metadata: MetadataView,
    backoff: Option<u32>,
    firmware: Seq<u8>,
)
    requires
        firmware.len() <= metadata.size,
    ensures
        match spec_reply(status, Some(metadata), backoff, firmware) {
            Ok(CommandView::Write { offset, data, .. }) => {
                &&& 0 <= offset < metadata.size
                &&& offset + data.len() <= metadata.size
                &&& data.len() <= block_size(status)
            },
            _ => true,
        },
{
}

/// Whatever the store delivers, a block holds at most [`block_size`] bytes,
/// starts before the announced end of the image and ends within what was
/// delivered.
pub proof fn lemma_write_is_bounded(
    status: StatusView,
    metadata: MetadataView,
    backoff: Option<u32>,
    firmware: Seq<u8>,
)
    ensures
        match spec_reply(status, Some(metadata), backoff, firmware) {
            Ok(CommandView::Write { offset, data, .. }) => {
                &&& 0 <= offset < metadata.size
                &&& offset + data.len() <= firmware.len()
                &&& data.len() <= block_size(status)
                &&& data == firmware.subrange(offset as int, offset + data.len())
            },
            _ => true,
        },
{
}

/// Every `Swap` carries a digest of exactly 32 bytes.
pub proof fn lemma_swap_carries_full_digest(
    status: StatusView,
    metadata: Option<MetadataView>,
    backoff: Option<u32>,
    firmware: Seq<u8>,
)
    ensures
        match spec_reply(status, metadata, backoff, firmware) {
            Ok(command) => command.wf(),
            Err(_) => true,
        },
{
}

/// Every reply echoes the correlation id of the status it answers.
pub proof fn lemma_reply_echoes_correlation_id(
    status: StatusView,
    metadata: Option<MetadataView>,
    backoff: Option<u32>,
    firmware: Seq<u8>,
)
    ensures
        match spec_reply(status, metadata, backoff, firmware) {
            Ok(command) => command.correlation_id() == status.correlation_id,
            Err(_) => true,
        },
{
}

/// A device that runs the wanted version gets a `Sync` and nothing else: the
/// reply does not depend on the bytes of the image, so none is needed for it.
pub proof fn lemma_up_to_date_gets_sync(
    status: StatusView,
    metadata: MetadataView,
    backoff: Option<u32>,
    firmware: Seq<u8>,
)
    requires
        status.version == metadata.version,
    ensures
        spec_reply(status, Some(metadata), backoff, firmware) == Ok::<CommandView, ProtocolError>(
            CommandView::Sync {
                version: status.version,
                correlation_id: status.correlation_id,
                poll: None,
            },
        ),
{
}

/// Progress towards another version is discarded: where the device reports a
/// transfer of a version that is not the wanted one, a `Write` starts at 0.
pub proof fn lemma_stale_resume_restarts(
    status: StatusView,
    metadata: MetadataView,
    backoff: Option<u32>,
    firmware: Seq<u8>,
)
    requires
        status.update is Some,
        status.update->0.version != metadata.version,
    ensures
        match spec_reply(status, Some(metadata), backoff, firmware) {
            Ok(CommandView::Write { offset, .. }) => offset == 0,
            _ => true,
        },
{
}

/// `Wait` is the reply exactly when the store has no image.
pub proof fn lemma_wait_iff_no_metadata(
    status: StatusView,
    metadata: Option<MetadataView>,
    backoff: Option<u32>,
    firmware: Seq<u8>,
)
    ensures
        spec_reply(status, metadata, backoff, firmware) matches Ok(CommandView::Wait { .. })
            <==> metadata is None,
{
}

} // verus!
