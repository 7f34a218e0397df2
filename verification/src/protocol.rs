//! The frames exchanged between a device and the update coordinator.
//!
//! A device reports a [`Status`]; the coordinator answers with one
//! [`Command`]. Versions are opaque byte strings that are only ever compared
//! byte for byte.

use vstd::prelude::*;
use vstd::slice::slice_to_vec;
use vstd::std_specs::convert::FromSpecImpl;

verus! {

/// Number of bytes of a SHA-256 digest.
pub const SHA256_LEN: usize = 32;

/// A SHA-256 digest.
pub type Sha256 = [u8; 32];

/// Mathematical value of an [`UpdateStatus`].
pub struct UpdateStatusView {
    pub version: Seq<u8>,
    pub offset: u32,
}

/// Mathematical value of a [`Status`].
pub struct StatusView {
    pub version: Seq<u8>,
    pub mtu: Option<u32>,
    pub correlation_id: Option<u32>,
    pub update: Option<UpdateStatusView>,
}

/// Mathematical value of a [`Command`].
pub enum CommandView {
    Wait { correlation_id: Option<u32>, poll: Option<u32> },
    Sync { version: Seq<u8>, correlation_id: Option<u32>, poll: Option<u32> },
    Write { version: Seq<u8>, correlation_id: Option<u32>, offset: u32, data: Seq<u8> },
    Swap { version: Seq<u8>, correlation_id: Option<u32>, checksum: Seq<u8> },
}

impl CommandView {
    /// The correlation id carried by the command, whatever its variant.
    pub open spec fn correlation_id(self) -> Option<u32> {
        match self {
            CommandView::Wait { correlation_id, .. } => correlation_id,
            CommandView::Sync { correlation_id, .. } => correlation_id,
            CommandView::Write { correlation_id, .. } => correlation_id,
            CommandView::Swap { correlation_id, .. } => correlation_id,
        }
    }

    /// A command is well formed when its checksum, if it has one, is a full digest.
    pub open spec fn wf(self) -> bool {
        match self {
            CommandView::Swap { checksum, .. } => checksum.len() == 32,
            _ => true,
        }
    }
}

/// The digest that a `Swap` carries for `checksum`: the first 32 bytes of it,
/// followed by zeroes where it is shorter.
pub open spec fn padded_checksum(checksum: Seq<u8>) -> Seq<u8> {
    Seq::new(
        32,
        |i: int|
            if i < checksum.len() {
                checksum[i]
            } else {
                0u8
            },
    )
}

/// Borrowed form of [`UpdateStatus`].
#[derive(Debug)]
pub struct UpdateStatusRef<'a> {
    pub version: &'a [u8],
    pub offset: u32,
}

/// Borrowed form of [`Status`].
#[derive(Debug)]
pub struct StatusRef<'a> {
    pub version: &'a [u8],
    pub mtu: Option<u32>,
    pub correlation_id: Option<u32>,
    pub update: Option<UpdateStatusRef<'a>>,
}

impl<'a> View for UpdateStatusRef<'a> {
    type V = UpdateStatusView;

    open spec fn view(&self) -> UpdateStatusView {
        UpdateStatusView { version: self.version@, offset: self.offset }
    }
}

impl<'a> View for StatusRef<'a> {
    type V = StatusView;

    open spec fn view(&self) -> StatusView {
        StatusView {
            version: self.version@,
            mtu: self.mtu,
            correlation_id: self.correlation_id,
            update: match self.update {
                Some(u) => Some(u@),
                None => None,
            },
        }
    }
}

impl<'a> StatusRef<'a> {
    /// The status of a device that is not in the middle of a transfer.
    pub fn first(version: &'a [u8], mtu: Option<u32>, correlation_id: Option<u32>) -> (s: Self)
        ensures
            s@ == (StatusView { version: version@, mtu, correlation_id, update: None }),
    {
        Self { version, mtu, correlation_id, update: None }
    }

    /// The status of a device that has accepted `offset` bytes of `next_version`.
    pub fn update(
        version: &'a [u8],
        mtu: Option<u32>,
        offset: u32,
        next_version: &'a [u8],
        correlation_id: Option<u32>,
    ) -> (s: Self)
        ensures
            s@ == (StatusView {
                version: version@,
                mtu,
                correlation_id,
                update: Some(UpdateStatusView { version: next_version@, offset }),
            }),
    {
        Self {
            version,
            mtu,
            correlation_id,
            update: Some(UpdateStatusRef { offset, version: next_version }),
        }
    }
}

/// Borrowed form of [`Command`].
#[derive(Debug)]
pub enum CommandRef<'a> {
    Wait { correlation_id: Option<u32>, poll: Option<u32> },
    Sync { version: &'a [u8], correlation_id: Option<u32>, poll: Option<u32> },
    Write { version: &'a [u8], correlation_id: Option<u32>, offset: u32, data: &'a [u8] },
    Swap { version: &'a [u8], correlation_id: Option<u32>, checksum: Sha256 },
}

impl<'a> View for CommandRef<'a> {
    type V = CommandView;

    open spec fn view(&self) -> CommandView {
        match *self {
            CommandRef::Wait { correlation_id, poll } => CommandView::Wait { correlation_id, poll },
            CommandRef::Sync { version, correlation_id, poll } => CommandView::Sync {
                version: version@,
                correlation_id,
                poll,
            },
            CommandRef::Write { version, correlation_id, offset, data } => CommandView::Write {
                version: version@,
                correlation_id,
                offset,
                data: data@,
            },
            CommandRef::Swap { version, correlation_id, checksum } => CommandView::Swap {
                version: version@,
                correlation_id,
                checksum: checksum@,
            },
        }
    }
}

/// What the coordinator tells a device to do next.
#[derive(Debug, Clone, PartialEq, Eq)]
pub enum Command {
    /// Nothing to do yet: report again later.
    Wait { correlation_id: Option<u32>, poll: Option<u32> },
    /// The device runs the wanted version.
    Sync { version: Vec<u8>, correlation_id: Option<u32>, poll: Option<u32> },
    /// A block of the new firmware, to be stored at `offset`.
    Write { version: Vec<u8>, correlation_id: Option<u32>, offset: u32, data: Vec<u8> },
    /// The whole image has been sent: activate it if its digest is `checksum`.
    Swap { version: Vec<u8>, correlation_id: Option<u32>, checksum: Sha256 },
}

impl View for Command {
    type V = CommandView;

    open spec fn view(&self) -> CommandView {
        match *self {
            Command::Wait { correlation_id, poll } => CommandView::Wait { correlation_id, poll },
            Command::Sync { version, correlation_id, poll } => CommandView::Sync {
                version: version@,
                correlation_id,
                poll,
            },
            Command::Write { version, correlation_id, offset, data } => CommandView::Write {
                version: version@,
                correlation_id,
                offset,
                data: data@,
            },
            Command::Swap { version, correlation_id, checksum } => CommandView::Swap {
                version: version@,
                correlation_id,
                checksum: checksum@,
            },
        }
    }
}

impl Command {
    /// A `Wait` that asks the device to report again in `poll` seconds.
    pub fn new_wait(poll: Option<u32>, correlation_id: Option<u32>) -> (c: Self)
        ensures
            c@ == (CommandView::Wait { correlation_id, poll }),
    {
        Command::Wait { correlation_id, poll }
    }

    /// A `Sync` for a device that runs `version`.
    pub fn new_sync(version: &[u8], poll: Option<u32>, correlation_id: Option<u32>) -> (c: Self)
        ensures
            c@ == (CommandView::Sync { version: version@, correlation_id, poll }),
    {
        Command::Sync { version: slice_to_vec(version), correlation_id, poll }
    }

    /// A `Swap` to `version`. The digest is `checksum` cut or zero-filled to 32 bytes.
    pub fn new_swap(version: &[u8], checksum: &[u8], correlation_id: Option<u32>) -> (c: Self)
        ensures
            c@ == (CommandView::Swap {
                version: version@,
                correlation_id,
                checksum: padded_checksum(checksum@),
            }),
            c@.wf(),
    {
        let mut sha256: Sha256 = [0u8;32];
        let to_copy: usize = if checksum.len() < SHA256_LEN {
            checksum.len()
        } else {
            SHA256_LEN
        };
        let mut i: usize = 0;
        while i < to_copy
            invariant
                i <= to_copy <= 32,
                to_copy <= checksum@.len(),
                forall|j: int| 0 <= j < i ==> sha256@[j] == checksum@[j],
                forall|j: int| i <= j < 32 ==> sha256@[j] == 0u8,
            decreases to_copy - i,
        {
            sha256[i] = checksum[i];
            i += 1;
        }
        assert(sha256@ =~= padded_checksum(checksum@));
        Command::Swap { version: slice_to_vec(version), correlation_id, checksum: sha256 }
    }

    /// A `Write` of `data` at `offset` of the image of `version`.
    pub fn new_write(version: &[u8], offset: u32, data: &[u8], correlation_id: Option<u32>) -> (c:
        Self)
        ensures
            c@ == (CommandView::Write { version: version@, correlation_id, offset, data: data@ }),
    {
        Command::Write {
            version: slice_to_vec(version),
            correlation_id,
            offset,
            data: slice_to_vec(data),
        }
    }

    /// The correlation id carried by the command, whatever its variant.
    pub fn correlation_id(&self) -> (id: Option<u32>)
        ensures
            id == self@.correlation_id(),
    {
        match self {
            Command::Wait { correlation_id, .. } => *correlation_id,
            Command::Sync { correlation_id, .. } => *correlation_id,
            Command::Write { correlation_id, .. } => *correlation_id,
            Command::Swap { correlation_id, .. } => *correlation_id,
        }
    }

    /// The name of the variant: `"Wait"`, `"Sync"`, `"Write"` or `"Swap"`.
    pub fn to_string(&self) -> (name: String)
        ensures
            name@ == match self@ {
                CommandView::Wait { .. } => "Wait"@,
                CommandView::Sync { .. } => "Sync"@,
                CommandView::Write { .. } => "Write"@,
                CommandView::Swap { .. } => "Swap"@,
            },
    {
        match self {
            Command::Sync { .. } => "Sync".to_owned(),
            Command::Wait { .. } => "Wait".to_owned(),
            Command::Swap { .. } => "Swap".to_owned(),
            Command::Write { .. } => "Write".to_owned(),
        }
    }
}

impl<'a> FromSpecImpl<CommandRef<'a>> for Command {
    open spec fn obeys_from_spec() -> bool {
        false
    }

    open spec fn from_spec(r: CommandRef<'a>) -> Command {
        arbitrary()
    }
}

impl<'a> From<CommandRef<'a>> for Command {
    /// The owned command with the same value.
    fn from(r: CommandRef<'a>) -> (c: Command)
        ensures
            c@ == r@,
    {
        match r {
            CommandRef::Wait { poll, correlation_id } => Command::Wait { correlation_id, poll },
            CommandRef::Sync { version, poll, correlation_id } => Command::Sync {
                version: slice_to_vec(version),
                correlation_id,
                poll,
            },
            CommandRef::Write { version, offset, data, correlation_id } => Command::Write {
                version: slice_to_vec(version),
                correlation_id,
                offset,
                data: slice_to_vec(data),
            },
            CommandRef::Swap { version, correlation_id, checksum } => Command::Swap {
                version: slice_to_vec(version),
                correlation_id,
                checksum,
            },
        }
    }
}

/// The state of the firmware on a device, as the device reports it.
#[derive(Debug, Clone, PartialEq, Eq)]
pub struct Status {
    /// The version that the device runs.
    pub version: Vec<u8>,
    /// Echoed in the reply, so that a gateway can tell its devices apart.
    pub correlation_id: Option<u32>,
    /// The largest block that the device accepts.
    pub mtu: Option<u32>,
    /// The transfer that the device is in the middle of, if any.
    pub update: Option<UpdateStatus>,
}

/// A transfer in progress: `offset` bytes of `version` have been accepted.
#[derive(Debug, Clone, PartialEq, Eq)]
pub struct UpdateStatus {
    pub version: Vec<u8>,
    pub offset: u32,
}

impl View for UpdateStatus {
    type V = UpdateStatusView;

    open spec fn view(&self) -> UpdateStatusView {
        UpdateStatusView { version: self.version@, offset: self.offset }
    }
}

impl View for Status {
    type V = StatusView;

    open spec fn view(&self) -> StatusView {
        StatusView {
            version: self.version@,
            mtu: self.mtu,
            correlation_id: self.correlation_id,
            update: match self.update {
                Some(u) => Some(u@),
                None => None,
            },
        }
    }
}

impl<'a> FromSpecImpl<StatusRef<'a>> for Status {
    open spec fn obeys_from_spec() -> bool {
        false
    }

    open spec fn from_spec(r: StatusRef<'a>) -> Status {
        arbitrary()
    }
}

impl<'a> From<StatusRef<'a>> for Status {
    /// The owned status with the same value.
    fn from(r: StatusRef<'a>) -> (s: Status)
        ensures
            s@ == r@,
    {
        Status {
            version: slice_to_vec(r.version),
            correlation_id: r.correlation_id,
            mtu: r.mtu,
            update: match r.update {
                Some(u) => Some(UpdateStatus { version: slice_to_vec(u.version), offset: u.offset }),
                None => None,
            },
        }
    }
}

} // verus!
