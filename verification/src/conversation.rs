//! The answering of one status, turn by turn.
//!
//! Answering takes up to two questions to a store: what it has, and, where a
//! block is due, the image itself. Between the questions nothing is kept but
//! a [`Progress`]. Each answer of the store is an [`Event`]; a [`Turn`] says
//! what to tell the registry and the store, and what comes next. Whoever
//! talks to the store runs the turns; what is decided does not depend on how.

use vstd::prelude::*;

use crate::decision::{
    spec_reply, spec_swap, spec_verdict, spec_write, swap_command, sync_command, verdict,
    wait_command, write_command, ProtocolError, Verdict,
};
use crate::metadata::{Metadata, MetadataView};
use crate::protocol::{Command, CommandView, Status, StatusView};

verus! {

/// Where the answering of a status stands.
#[derive(Debug, PartialEq, Eq)]
pub enum Progress {
    /// Nothing has been asked yet.
    Start,
    /// The store has been asked what it has.
    AwaitingMetadata,
    /// The store has been asked for the image that `metadata` describes, of
    /// which the block at `offset`, of at most `mtu` bytes, is due.
    AwaitingFirmware { metadata: Metadata, offset: u32, mtu: u32 },
    /// The status has its answer, or will get none.
    Done,
}

/// What happened since the last turn.
#[derive(Debug, PartialEq, Eq)]
pub enum Event {
    /// A status arrived.
    Begin,
    /// The store said what it has, or failed to. Where it has nothing,
    /// `backoff` is the polling interval that it advises.
    Metadata { found: Result<Option<Metadata>, String>, backoff: Option<u32> },
    /// The store delivered the image, or failed to.
    Firmware(Result<Vec<u8>, String>),
}

/// Something to tell the registry or the store. That it cannot be told
/// stops nothing.
#[derive(Debug, PartialEq, Eq)]
pub enum Notice {
    /// Record in the registry what the store said.
    Status(Result<Metadata, String>),
    /// Tell the store that the device is in sync.
    Synced,
    /// Tell the store how far the transfer has come.
    Transfer { offset: u32, size: u32 },
}

/// Why a status gets no command.
#[derive(Debug, Clone, PartialEq, Eq)]
pub enum Failure {
    /// The store failed.
    Store(String),
    /// The status and the image do not fit together.
    Protocol(ProtocolError),
    /// An event came that was not due.
    OutOfTurn,
}

/// What comes after a turn.
#[derive(Debug, PartialEq, Eq)]
pub enum Next {
    /// Ask the store what it has.
    FetchMetadata,
    /// Ask the store for the image.
    FetchFirmware,
    /// Send the command.
    Reply(Command),
    /// Send nothing.
    Fail(Failure),
}

/// A turn: what to tell, in this order, and what comes next.
#[derive(Debug, PartialEq, Eq)]
pub struct Turn {
    pub progress: Progress,
    pub notices: Vec<Notice>,
    pub next: Next,
}

/// Mathematical value of a [`Progress`].
pub enum ProgressView {
    Start,
    AwaitingMetadata,
    AwaitingFirmware { metadata: MetadataView, offset: u32, mtu: u32 },
    Done,
}

/// Mathematical value of an [`Event`].
pub enum EventView {
    Begin,
    Metadata { found: Result<Option<MetadataView>, Seq<char>>, backoff: Option<u32> },
    Firmware(Result<Seq<u8>, Seq<char>>),
}

/// Mathematical value of a [`Notice`].
pub enum NoticeView {
    Status(Result<MetadataView, Seq<char>>),
    Synced,
    Transfer { offset: u32, size: u32 },
}

/// Mathematical value of a [`Failure`].
pub enum FailureView {
    Store(Seq<char>),
    Protocol(ProtocolError),
    OutOfTurn,
}

/// Mathematical value of a [`Next`].
pub enum NextView {
    FetchMetadata,
    FetchFirmware,
    Reply(CommandView),
    Fail(FailureView),
}

/// Mathematical value of a [`Turn`].
pub struct TurnView {
    pub progress: ProgressView,
    pub notices: Seq<NoticeView>,
    pub next: NextView,
}

impl View for Progress {
    type V = ProgressView;

    open spec fn view(&self) -> ProgressView {
        match self {
            Progress::Start => ProgressView::Start,
            Progress::AwaitingMetadata => ProgressView::AwaitingMetadata,
            Progress::AwaitingFirmware { metadata, offset, mtu } => ProgressView::AwaitingFirmware {
                metadata: metadata@,
                offset: *offset,
                mtu: *mtu,
            },
            Progress::Done => ProgressView::Done,
        }
    }
}

impl View for Event {
    type V = EventView;

    open spec fn view(&self) -> EventView {
        match self {
            Event::Begin => EventView::Begin,
            Event::Metadata { found, backoff } => EventView::Metadata {
                found: match found {
                    Ok(Some(metadata)) => Ok(Some(metadata@)),
                    Ok(None) => Ok(None),
                    Err(e) => Err(e@),
                },
                backoff: *backoff,
            },
            Event::Firmware(delivered) => EventView::Firmware(
                match delivered {
                    Ok(firmware) => Ok(firmware@),
                    Err(e) => Err(e@),
                },
            ),
        }
    }
}

impl View for Notice {
    type V = NoticeView;

    open spec fn view(&self) -> NoticeView {
        match self {
            Notice::Status(found) => NoticeView::Status(
                match found {
                    Ok(metadata) => Ok(metadata@),
                    Err(e) => Err(e@),
                },
            ),
            Notice::Synced => NoticeView::Synced,
            Notice::Transfer { offset, size } => NoticeView::Transfer {
                offset: *offset,
                size: *size,
            },
        }
    }
}

impl View for Failure {
    type V = FailureView;

    open spec fn view(&self) -> FailureView {
        match self {
            Failure::Store(e) => FailureView::Store(e@),
            Failure::Protocol(e) => FailureView::Protocol(*e),
            Failure::OutOfTurn => FailureView::OutOfTurn,
        }
    }
}

impl View for Next {
    type V = NextView;

    open spec fn view(&self) -> NextView {
        match self {
            Next::FetchMetadata => NextView::FetchMetadata,
            Next::FetchFirmware => NextView::FetchFirmware,
            Next::Reply(command) => NextView::Reply(command@),
            Next::Fail(failure) => NextView::Fail(failure@),
        }
    }
}

impl View for Turn {
    type V = TurnView;

    open spec fn view(&self) -> TurnView {
        TurnView {
            progress: self.progress@,
            notices: self.notices@.map_values(|n: Notice| n@),
            next: self.next@,
        }
    }
}

/// What becomes of a reply: the command is sent, or nothing is.
pub open spec fn next_of(reply: Result<CommandView, ProtocolError>) -> NextView {
    match reply {
        Ok(command) => NextView::Reply(command),
        Err(error) => NextView::Fail(FailureView::Protocol(error)),
    }
}

/// The turn that an event leads to.
///
/// At the start the store is asked what it has. Where it has nothing, the
/// device waits. What it has is recorded; a device that runs it is in sync,
/// which the store is told; any other device is in transfer, which the store
/// is told too, and gets the next block, for which the image is asked for, or
/// the order to activate the image. A failure of the store is recorded, if it
/// concerns what the store has, and ends the answering. So does an event that
/// is not due.
pub open spec fn spec_turn(status: StatusView, progress: ProgressView, event: EventView)
    -> TurnView {
    let done = ProgressView::Done;
    match (progress, event) {
        (ProgressView::Start, EventView::Begin) => TurnView {
            progress: ProgressView::AwaitingMetadata,
            notices: seq![],
            next: NextView::FetchMetadata,
        },
        (ProgressView::AwaitingMetadata, EventView::Metadata { found: Ok(None), backoff }) => {
            TurnView {
                progress: done,
                notices: seq![],
                next: next_of(spec_reply(status, None, backoff, seq![])),
            }
        },
        (
            ProgressView::AwaitingMetadata,
            EventView::Metadata { found: Ok(Some(metadata)), backoff },
        ) => {
            let recorded = NoticeView::Status(Ok(metadata));
            match spec_verdict(status, metadata) {
                Verdict::UpToDate => TurnView {
                    progress: done,
                    notices: seq![recorded, NoticeView::Synced],
                    next: next_of(spec_reply(status, Some(metadata), backoff, seq![])),
                },
                Verdict::Transfer { offset, mtu } => TurnView {
                    progress: ProgressView::AwaitingFirmware { metadata, offset, mtu },
                    notices: seq![recorded, NoticeView::Transfer { offset, size: metadata.size }],
                    next: NextView::FetchFirmware,
                },
                Verdict::Activate { offset } => TurnView {
                    progress: done,
                    notices: seq![recorded, NoticeView::Transfer { offset, size: metadata.size }],
                    next: next_of(spec_swap(status, metadata)),
                },
            }
        },
        (ProgressView::AwaitingMetadata, EventView::Metadata { found: Err(error), backoff }) => {
            TurnView {
                progress: done,
                notices: seq![NoticeView::Status(Err(error))],
                next: NextView::Fail(FailureView::Store(error)),
            }
        },
        (
            ProgressView::AwaitingFirmware { metadata, offset, mtu },
            EventView::Firmware(Ok(firmware)),
        ) => TurnView {
            progress: done,
            notices: seq![],
            next: next_of(spec_write(status, metadata, offset, mtu, firmware)),
        },
        (ProgressView::AwaitingFirmware { .. }, EventView::Firmware(Err(error))) => TurnView {
            progress: done,
            notices: seq![],
            next: NextView::Fail(FailureView::Store(error)),
        },
        _ => TurnView {
            progress: done,
            notices: seq![],
            next: NextView::Fail(FailureView::OutOfTurn),
        },
    }
}

fn next_for(reply: Result<Command, ProtocolError>) -> (next: Next)
    ensures
        next@ == next_of(crate::decision::reply_view(reply)),
{
    match reply {
        Ok(command) => Next::Reply(command),
        Err(error) => Next::Fail(Failure::Protocol(error)),
    }
}

fn with_metadata(status: &Status, metadata: Metadata) -> (turn: Turn)
    ensures
        turn@ == spec_turn(
            status@,
            ProgressView::AwaitingMetadata,
            EventView::Metadata { found: Ok(Some(metadata@)), backoff: None },
        ),
{
    let mut notices: Vec<Notice> = Vec::new();
    notices.push(Notice::Status(Ok(metadata.clone())));
    let turn = match verdict(status, &metadata) {
        Verdict::UpToDate => {
            notices.push(Notice::Synced);
            Turn { progress: Progress::Done, notices, next: Next::Reply(sync_command(status)) }
        },
        Verdict::Transfer { offset, mtu } => {
            notices.push(Notice::Transfer { offset, size: metadata.size });
            Turn {
                progress: Progress::AwaitingFirmware { metadata, offset, mtu },
                notices,
                next: Next::FetchFirmware,
            }
        },
        Verdict::Activate { offset } => {
            notices.push(Notice::Transfer { offset, size: metadata.size });
            let next = next_for(swap_command(status, &metadata));
            Turn { progress: Progress::Done, notices, next }
        },
    };
    assert(turn@.notices =~= spec_turn(
        status@,
        ProgressView::AwaitingMetadata,
        EventView::Metadata { found: Ok(Some(metadata@)), backoff: None },
    ).notices);
    turn
}

/// Takes a turn: decides what an event leads to.
pub fn step(status: &Status, progress: Progress, event: Event) -> (turn: Turn)
    ensures
        turn@ == spec_turn(status@, progress@, event@),
{
    let turn = match (progress, event) {
        (Progress::Start, Event::Begin) => Turn {
            progress: Progress::AwaitingMetadata,
            notices: Vec::new(),
            next: Next::FetchMetadata,
        },
        (Progress::AwaitingMetadata, Event::Metadata { found: Ok(None), backoff }) => Turn {
            progress: Progress::Done,
            notices: Vec::new(),
            next: Next::Reply(wait_command(status, backoff)),
        },
        (Progress::AwaitingMetadata, Event::Metadata { found: Ok(Some(metadata)), backoff }) => {
            return with_metadata(status, metadata);
        },
        (Progress::AwaitingMetadata, Event::Metadata { found: Err(error), backoff }) => {
            let mut notices: Vec<Notice> = Vec::new();
            notices.push(Notice::Status(Err(error.clone())));
            Turn { progress: Progress::Done, notices, next: Next::Fail(Failure::Store(error)) }
        },
        (Progress::AwaitingFirmware { metadata, offset, mtu }, Event::Firmware(Ok(firmware))) => {
            let next = next_for(write_command(status, &metadata, offset, mtu, firmware.as_slice()));
            Turn { progress: Progress::Done, notices: Vec::new(), next }
        },
        (Progress::AwaitingFirmware { .. }, Event::Firmware(Err(error))) => Turn {
            progress: Progress::Done,
            notices: Vec::new(),
            next: Next::Fail(Failure::Store(error)),
        },
        _ => Turn {
            progress: Progress::Done,
            notices: Vec::new(),
            next: Next::Fail(Failure::OutOfTurn),
        },
    };
    assert(turn@.notices =~= spec_turn(status@, progress@, event@).notices);
    turn
}

/// The turns add up to the reply.
///
/// Whatever the store offers and delivers, taking the turns from the start
/// ends with the reply that [`spec_reply`] names, or with its refusal; and
/// the image is only asked for where a block is due.
pub proof fn lemma_turns_give_the_reply(
    status: StatusView,
    found: Option<MetadataView>,
    backoff: Option<u32>,
    firmware: Seq<u8>,
)
    ensures
        ({
            let first = spec_turn(status, ProgressView::Start, EventView::Begin);
            let second = spec_turn(
                status,
                first.progress,
                EventView::Metadata { found: Ok(found), backoff },
            );
            let last = if second.next is FetchFirmware {
                spec_turn(status, second.progress, EventView::Firmware(Ok(firmware)))
            } else {
                second
            };
            &&& first.next is FetchMetadata
            &&& last.next == next_of(spec_reply(status, found, backoff, firmware))
            &&& last.progress is Done
            &&& second.next is FetchFirmware <==> found is Some && spec_verdict(
                status,
                found->0,
            ) is Transfer
        }),
{
}

/// A store that fails ends the answering without a command.
pub proof fn lemma_store_failure_ends_the_turns(
    status: StatusView,
    progress: ProgressView,
    error: Seq<char>,
)
    ensures
        spec_turn(
            status,
            ProgressView::AwaitingMetadata,
            EventView::Metadata { found: Err(error), backoff: None },
        ).next == NextView::Fail(FailureView::Store(error)),
        progress is AwaitingFirmware ==> spec_turn(
            status,
            progress,
            EventView::Firmware(Err(error)),
        ).next == NextView::Fail(FailureView::Store(error)),
{
}

} // verus!
