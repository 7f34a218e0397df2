//! The coordinator: for each status of a device, find out what the device
//! should run, ask the store that holds it, and answer with one command.

use vstd::prelude::*;
use vstd::std_specs::convert::FromSpecImpl;

use crate::conversation::{
    lemma_turns_give_the_reply, spec_turn, step, Event, EventView, Failure, FailureView, Next,
    NextView, Notice, NoticeView, Progress, ProgressView, TurnView,
};
use crate::decision::{spec_reply, ProtocolError};
use crate::file::{Directory, FileClient};
use crate::hawkbit::{HawkbitClient, UpdateServer};
use crate::index::{is_latest_version, is_status_update, DeviceRegistry, Index};
use crate::metadata::{Metadata, MetadataView};
use crate::oci::{ImageRegistry, OciClient};
use crate::protocol::{Command, CommandView, Status, StatusView};
use crate::schema::FirmwareSpec;
use crate::store::FirmwareStore;
use crate::wire::{command_frame, encode_command};

verus! {

/// A command in the form in which it travels.
#[derive(Debug, Clone, PartialEq, Eq)]
pub struct SerializedCommand {
    data: Vec<u8>,
}

impl View for SerializedCommand {
    type V = Seq<u8>;

    closed spec fn view(&self) -> Seq<u8> {
        self.data@
    }
}

impl SerializedCommand {
    /// The bytes of the frame.
    pub fn as_bytes(&self) -> (bytes: &[u8])
        ensures
            bytes@ == self@,
    {
        self.data.as_slice()
    }
}

impl FromSpecImpl<Command> for SerializedCommand {
    open spec fn obeys_from_spec() -> bool {
        false
    }

    open spec fn from_spec(command: Command) -> SerializedCommand {
        arbitrary()
    }
}

impl From<Command> for SerializedCommand {
    /// The frame of `command`.
    fn from(command: Command) -> (frame: SerializedCommand)
        ensures
            frame@ == command_frame(command@),
    {
        SerializedCommand { data: encode_command(&command) }
    }
}

/// The kinds of store.
#[derive(Debug, Clone, Copy, PartialEq, Eq)]
pub enum StoreKind {
    Oci,
    Hawkbit,
    File,
}

/// Why a status got no command.
#[derive(Debug, Clone, PartialEq, Eq)]
pub enum UpdateError {
    /// Neither the device nor its application says what to run.
    NoSpec,
    /// The firmware is in a kind of store that the coordinator was started without.
    NoStore(StoreKind),
    /// The device registry could not be asked.
    Registry(String),
    /// The store failed.
    Store(String),
    /// The status and the image do not fit together.
    Protocol(ProtocolError),
    /// An answer of a store came that was not due.
    OutOfTurn,
}

/// `frame` is the frame of the reply that `status` gets for some answer of a store.
pub open spec fn is_reply_to(status: StatusView, frame: Seq<u8>) -> bool {
    exists|metadata: Option<MetadataView>, backoff: Option<u32>, firmware: Seq<u8>|
        is_reply_given(status, metadata, backoff, firmware, frame)
}

/// `frame` is the frame of the reply that `status` gets where the store
/// offers `metadata` or advises `backoff`, and delivers `firmware`.
pub open spec fn is_reply_given(
    status: StatusView,
    metadata: Option<MetadataView>,
    backoff: Option<u32>,
    firmware: Seq<u8>,
    frame: Seq<u8>,
) -> bool {
    match spec_reply(status, metadata, backoff, firmware) {
        Ok(command) => frame == command_frame(command),
        Err(_) => false,
    }
}

/// `error` is why `status` gets no reply for some answer of a store.
pub open spec fn is_refusal_of(status: StatusView, error: ProtocolError) -> bool {
    exists|metadata: Option<MetadataView>, backoff: Option<u32>, firmware: Seq<u8>|
        is_refusal_given(status, metadata, backoff, firmware, error)
}

/// `error` is why `status` gets no reply where the store offers `metadata`
/// or advises `backoff`, and delivers `firmware`.
pub open spec fn is_refusal_given(
    status: StatusView,
    metadata: Option<MetadataView>,
    backoff: Option<u32>,
    firmware: Seq<u8>,
    error: ProtocolError,
) -> bool {
    spec_reply(status, metadata, backoff, firmware) == Err::<CommandView, ProtocolError>(error)
}

/// What a notice says that the store said, taken by its value.
pub open spec fn notice_data(found: Result<Metadata, String>) -> Result<MetadataView, Seq<char>> {
    match found {
        Ok(metadata) => Ok(metadata@),
        Err(error) => Err(error@),
    }
}

/// Telling `notice` may leave the store `before` as `after`.
///
/// What the store said is for the registry `client`: the firmware status of
/// `device` of `application` is brought up to date with it, and the store
/// stays as it is. That the device is in sync, and how far a transfer has
/// come, is for the store, where there is a `context` to tell it in; what
/// the store answers is not looked at.
pub open spec fn is_told<F: FirmwareStore, C: DeviceRegistry>(
    before: F,
    after: F,
    client: C,
    application: &str,
    device: &str,
    status: StatusView,
    params: F::Params,
    context: Option<F::Context>,
    notice: Notice,
) -> bool {
    match notice {
        Notice::Status(found) => after == before && exists|written: Result<(), String>|
            #[trigger] is_status_update(
                client,
                application,
                device,
                status,
                notice_data(found),
                written,
            ),
        Notice::Synced => match context {
            Some(context) => exists|told: Result<(), String>|
                #[trigger] before.may_mark_synced(after, params, context, true, told),
            None => after == before,
        },
        Notice::Transfer { offset, size } => match context {
            Some(context) => exists|told: Result<(), String>|
                #[trigger] before.may_update_progress(after, params, context, offset, size, told),
            None => after == before,
        },
    }
}

/// `states` are the store before the first of `notices` is told, and after
/// each of them.
pub open spec fn are_told<F: FirmwareStore, C: DeviceRegistry>(
    states: Seq<F>,
    client: C,
    application: &str,
    device: &str,
    status: StatusView,
    params: F::Params,
    context: Option<F::Context>,
    notices: Seq<Notice>,
) -> bool {
    &&& states.len() == notices.len() + 1
    &&& forall|j: int|
        0 <= j < notices.len() ==> is_told(
            states[j],
            states[j + 1],
            client,
            application,
            device,
            status,
            params,
            context,
            #[trigger] notices[j],
        )
}

/// Telling `notices`, one after the other, may leave the store `before` as
/// `after`.
pub open spec fn is_notified<F: FirmwareStore, C: DeviceRegistry>(
    before: F,
    after: F,
    client: C,
    application: &str,
    device: &str,
    status: StatusView,
    params: F::Params,
    context: Option<F::Context>,
    notices: Seq<Notice>,
) -> bool {
    exists|states: Seq<F>|
        {
            &&& #[trigger] are_told(
                states,
                client,
                application,
                device,
                status,
                params,
                context,
                notices,
            )
            &&& states[0] == before
            &&& states.last() == after
        }
}

/// Tells the registry and the store what a turn wants them told, in its
/// order. That either cannot be told stops nothing.
fn notify<F: FirmwareStore, C: DeviceRegistry>(
    store: &mut F,
    index: &Index<C>,
    application: &str,
    device: &str,
    status: &Status,
    params: &F::Params,
    context: &Option<F::Context>,
    notices: &Vec<Notice>,
)
    ensures
        is_notified(
            *old(store),
            *final(store),
            index.client(),
            application,
            device,
            status@,
            *params,
            *context,
            notices@,
        ),
{
    let ghost mut states: Seq<F> = seq![*store];
    let n = notices.len();
    let mut i: usize = 0;
    while i < n
        invariant
            i <= n,
            n == notices@.len(),
            states.len() == i + 1,
            states[0] == *old(store),
            states.last() == *store,
            are_told(
                states,
                index.client(),
                application,
                device,
                status@,
                *params,
                *context,
                notices@.take(i as int),
            ),
        decreases n - i,
    {
        let ghost before = *store;
        match &notices[i] {
            Notice::Status(Ok(metadata)) => {
                let written = index.update_status(application, device, status, Ok(metadata));
                assert(is_status_update(
                    index.client(),
                    application,
                    device,
                    status@,
                    notice_data(Ok(*metadata)),
                    written,
                ));
            },
            Notice::Status(Err(error)) => {
                let written = index.update_status(application, device, status, Err(error.clone()));
                assert(is_status_update(
                    index.client(),
                    application,
                    device,
                    status@,
                    notice_data(Err(*error)),
                    written,
                ));
            },
            Notice::Synced => {
                if let Some(context) = context {
                    let told = store.mark_synced(params, context, true);
                    assert(before.may_mark_synced(*store, *params, *context, true, told));
                }
            },
            Notice::Transfer { offset, size } => {
                if let Some(context) = context {
                    let told = store.update_progress(params, context, *offset, *size);
                    assert(before.may_update_progress(
                        *store,
                        *params,
                        *context,
                        *offset,
                        *size,
                        told,
                    ));
                }
            },
        }
        proof {
            let longer = states.push(*store);
            let told = notices@.take(i + 1);
            assert(is_told(
                before,
                *store,
                index.client(),
                application,
                device,
                status@,
                *params,
                *context,
                notices@[i as int],
            ));
            assert forall|j: int| 0 <= j < told.len() implies is_told(
                longer[j],
                longer[j + 1],
                index.client(),
                application,
                device,
                status@,
                *params,
                *context,
                #[trigger] told[j],
            ) by {
                if j < i {
                    assert(notices@.take(i as int)[j] == told[j]);
                    assert(longer[j] == states[j] && longer[j + 1] == states[j + 1]);
                }
            }
            states = longer;
        }
        i += 1;
    }
    assert(notices@.take(n as int) =~= notices@);
}

/// `outcome` is what becomes of what comes after the last turn: the frame
/// of the command, or why there is none.
pub open spec fn is_outcome(next: NextView, outcome: Result<SerializedCommand, UpdateError>)
    -> bool {
    match next {
        NextView::Reply(command) => outcome matches Ok(frame) && frame@ == command_frame(command),
        NextView::Fail(FailureView::Store(error)) => outcome matches Err(UpdateError::Store(e))
            && e@ == error,
        NextView::Fail(FailureView::Protocol(error)) => outcome == Err::<
            SerializedCommand,
            UpdateError,
        >(UpdateError::Protocol(error)),
        _ => outcome == Err::<SerializedCommand, UpdateError>(UpdateError::OutOfTurn),
    }
}

fn outcome_of(next: Next) -> (outcome: Result<SerializedCommand, UpdateError>)
    ensures
        is_outcome(next@, outcome),
{
    match next {
        Next::Reply(command) => Ok(SerializedCommand::from(command)),
        Next::Fail(Failure::Store(error)) => Err(UpdateError::Store(error)),
        Next::Fail(Failure::Protocol(error)) => Err(UpdateError::Protocol(error)),
        Next::Fail(Failure::OutOfTurn) => Err(UpdateError::OutOfTurn),
        Next::FetchMetadata => Err(UpdateError::OutOfTurn),
        Next::FetchFirmware => Err(UpdateError::OutOfTurn),
    }
}

/// The event that an answer of a store about its metadata is. `backoff` is
/// what the store advises where it has nothing.
pub open spec fn event_of<X>(fetched: Result<(X, Option<Metadata>), String>, backoff: Option<u32>)
    -> EventView {
    match fetched {
        Ok((_, Some(metadata))) => EventView::Metadata {
            found: Ok(Some(metadata@)),
            backoff: None,
        },
        Ok((_, None)) => EventView::Metadata { found: Ok(None), backoff },
        Err(error) => EventView::Metadata { found: Err(error@), backoff: None },
    }
}

/// The context that an answer of a store about its metadata brings, if it
/// is an answer.
pub open spec fn context_of<X>(fetched: Result<(X, Option<Metadata>), String>) -> Option<X> {
    match fetched {
        Ok((context, _)) => Some(context),
        Err(_) => None,
    }
}

/// The event that a delivery of a store is.
pub open spec fn delivery(delivered: Result<Vec<u8>, String>) -> EventView {
    EventView::Firmware(
        match delivered {
            Ok(firmware) => Ok(firmware@),
            Err(error) => Err(error@),
        },
    )
}

/// After the turn `second`, which the metadata led to, the answering of
/// `status` may end with `outcome` and leave the store `before` as `after`:
/// where the turn asks for the image, the store is asked for it, and the
/// outcome is what the turn after its delivery leads to; else the store stays
/// as it is, and the outcome is what the turn leads to.
pub open spec fn is_finished<F: FirmwareStore>(
    before: F,
    after: F,
    status: StatusView,
    params: F::Params,
    context: Option<F::Context>,
    second: TurnView,
    outcome: Result<SerializedCommand, UpdateError>,
) -> bool {
    match (second.next, second.progress, context) {
        (
            NextView::FetchFirmware,
            ProgressView::AwaitingFirmware { metadata: wanted, offset, mtu },
            Some(context),
        ) => exists|metadata: Metadata, delivered: Result<Vec<u8>, String>|
            {
                &&& metadata@ == wanted
                &&& #[trigger] before.may_fetch_firmware(
                    after,
                    params,
                    context,
                    metadata,
                    delivered,
                )
                &&& is_outcome(spec_turn(status, second.progress, delivery(delivered)).next, outcome)
            },
        _ => after == before && is_outcome(second.next, outcome),
    }
}

/// After the store has said `fetched` about its metadata and, where it has
/// nothing, advised `backoff`, the answering of `status` may end with
/// `outcome` and leave the store `before` as `after`: the turn that the
/// answer leads to says what is told, to the registry `client` and to the
/// store, and how the answering ends.
pub open spec fn is_continued<F: FirmwareStore, C: DeviceRegistry>(
    before: F,
    after: F,
    client: C,
    application: &str,
    device: &str,
    status: StatusView,
    params: F::Params,
    fetched: Result<(F::Context, Option<Metadata>), String>,
    backoff: Option<u32>,
    outcome: Result<SerializedCommand, UpdateError>,
) -> bool {
    let second = spec_turn(status, ProgressView::AwaitingMetadata, event_of(fetched, backoff));
    exists|notices: Seq<Notice>, told: F|
        {
            &&& notices.map_values(|n: Notice| n@) == second.notices
            &&& #[trigger] is_notified(
                before,
                told,
                client,
                application,
                device,
                status,
                params,
                context_of(fetched),
                notices,
            )
            &&& is_finished(told, after, status, params, context_of(fetched), second, outcome)
        }
}

/// Answering `status` from what the store has under `params` may end with
/// `outcome` and leave the store `before` as `after`.
///
/// The store is asked for metadata. Where it has nothing, it is asked for
/// the interval that it advises. Then the turns are taken: see
/// [`is_continued`].
pub open spec fn is_processed_update<F: FirmwareStore, C: DeviceRegistry>(
    before: F,
    after: F,
    client: C,
    application: &str,
    device: &str,
    status: StatusView,
    params: F::Params,
    outcome: Result<SerializedCommand, UpdateError>,
) -> bool {
    exists|fetched: Result<(F::Context, Option<Metadata>), String>, asked: F|
        {
            &&& #[trigger] before.may_fetch_metadata(asked, params, fetched)
            &&& match fetched {
                Ok((context, None)) => exists|backoff: Option<u32>|
                    {
                        &&& #[trigger] asked.may_get_backoff(context, backoff)
                        &&& is_continued(
                            asked,
                            after,
                            client,
                            application,
                            device,
                            status,
                            params,
                            fetched,
                            backoff,
                            outcome,
                        )
                    },
                _ => is_continued(
                    asked,
                    after,
                    client,
                    application,
                    device,
                    status,
                    params,
                    fetched,
                    None,
                    outcome,
                ),
            }
        }
}

/// Answers `status` from what `store` has under `params`, and records in the
/// registry what was found.
///
/// The store is asked for metadata first. Without metadata the device is
/// told to wait. A device that runs the wanted version is told so, and the
/// store learns that it is in sync. Any other device gets the next block of
/// the image, for which the store is asked, or, once it holds all of it, the
/// order to activate it. A failure to write to the registry or to report to
/// the store stops nothing; a failure of the store to deliver metadata or
/// firmware ends without a command.
pub fn process_update<F: FirmwareStore, C: DeviceRegistry>(
    store: &mut F,
    index: &Index<C>,
    application: &str,
    device: &str,
    status: &Status,
    params: &F::Params,
) -> (outcome: Result<SerializedCommand, UpdateError>)
    ensures
        match outcome {
            Ok(frame) => is_reply_to(status@, frame@),
            Err(UpdateError::Store(_)) => true,
            Err(UpdateError::Protocol(error)) => is_refusal_of(status@, error),
            Err(_) => false,
        },
        is_processed_update(
            *old(store),
            *final(store),
            index.client(),
            application,
            device,
            status@,
            *params,
            outcome,
        ),
{
    let first = step(status, Progress::Start, Event::Begin);
    let fetched = store.fetch_metadata(params);
    let ghost answer = fetched;
    let ghost store_asked = *store;
    let (context, event) = match fetched {
        Ok((context, Some(metadata))) => (
            Some(context),
            Event::Metadata { found: Ok(Some(metadata)), backoff: None },
        ),
        Ok((context, None)) => {
            let backoff = store.get_backoff(&context);
            (Some(context), Event::Metadata { found: Ok(None), backoff })
        },
        Err(error) => (None, Event::Metadata { found: Err(error), backoff: None }),
    };
    let ghost asked = event@;
    assert(asked is Metadata);
    assert(asked->Metadata_found is Ok ==> context is Some);
    assert(context == context_of(answer));
    assert(asked == event_of(answer, asked->Metadata_backoff));
    assert(*store == store_asked);
    let second = step(status, first.progress, event);
    notify(store, index, application, device, status, params, &context, &second.notices);
    let ghost store_told = *store;
    let ghost turn = second@;
    let ghost told = second.notices@;
    let ghost found = match asked {
        EventView::Metadata { found: Ok(found), .. } => found,
        _ => None,
    };
    let ghost backoff = match asked {
        EventView::Metadata { backoff, .. } => backoff,
        _ => None,
    };
    match (second.next, second.progress, &context) {
        (Next::FetchFirmware, Progress::AwaitingFirmware { metadata, offset, mtu }, Some(context)) => {
            let delivered = store.fetch_firmware(params, context, &metadata);
            assert(store_told.may_fetch_firmware(*store, *params, *context, metadata, delivered));
            let ghost delivered_event = delivery(delivered);
            let event = Event::Firmware(delivered);
            assert(event@ == delivered_event);
            let ghost firmware = match event@ {
                EventView::Firmware(Ok(firmware)) => firmware,
                _ => Seq::<u8>::empty(),
            };
            let last = step(status, Progress::AwaitingFirmware { metadata, offset, mtu }, event);
            let outcome = outcome_of(last.next);
            proof {
                assert(is_finished(
                    store_told,
                    *store,
                    status@,
                    *params,
                    context_of(answer),
                    turn,
                    outcome,
                ));
                assert(is_continued(
                    store_asked,
                    *store,
                    index.client(),
                    application,
                    device,
                    status@,
                    *params,
                    answer,
                    asked->Metadata_backoff,
                    outcome,
                ));
                lemma_turns_give_the_reply(status@, found, backoff, firmware);
                if outcome is Ok {
                    assert(is_reply_given(status@, found, backoff, firmware, outcome->Ok_0@));
                } else if outcome->Err_0 is Protocol {
                    assert(is_refusal_given(
                        status@,
                        found,
                        backoff,
                        firmware,
                        outcome->Err_0->Protocol_0,
                    ));
                }
            }
            outcome
        },
        (next, _, _) => {
            let outcome = outcome_of(next);
            proof {
                lemma_turns_give_the_reply(status@, found, backoff, Seq::<u8>::empty());
                assert(is_finished(
                    store_told,
                    *store,
                    status@,
                    *params,
                    context_of(answer),
                    turn,
                    outcome,
                ));
                assert(is_continued(
                    store_asked,
                    *store,
                    index.client(),
                    application,
                    device,
                    status@,
                    *params,
                    answer,
                    asked->Metadata_backoff,
                    outcome,
                ));
                if outcome is Ok {
                    assert(is_reply_given(
                        status@,
                        found,
                        backoff,
                        Seq::<u8>::empty(),
                        outcome->Ok_0@,
                    ));
                } else if outcome->Err_0 is Protocol {
                    assert(is_refusal_given(
                        status@,
                        found,
                        backoff,
                        Seq::<u8>::empty(),
                        outcome->Err_0->Protocol_0,
                    ));
                }
            }
            outcome
        },
    }
}

/// The coordinator, with the registry and the stores it was started with.
pub struct Updater<C: DeviceRegistry, R: ImageRegistry, S: UpdateServer, D: Directory> {
    index: Index<C>,
    oci: Option<OciClient<R>>,
    hawkbit: Option<HawkbitClient<S>>,
    file: Option<FileClient<D>>,
}

impl<C: DeviceRegistry, R: ImageRegistry, S: UpdateServer, D: Directory> Updater<C, R, S, D> {
    /// Whether the coordinator has a store of the given kind.
    pub closed spec fn has_store(&self, kind: StoreKind) -> bool {
        match kind {
            StoreKind::Oci => self.oci is Some,
            StoreKind::Hawkbit => self.hawkbit is Some,
            StoreKind::File => self.file is Some,
        }
    }

    /// The registry that says what a device should run.
    pub closed spec fn index(&self) -> Index<C> {
        self.index
    }

    /// The store on a container registry, if there is one.
    pub closed spec fn oci(&self) -> Option<OciClient<R>> {
        self.oci
    }

    /// The store on an update server, if there is one.
    pub closed spec fn hawkbit(&self) -> Option<HawkbitClient<S>> {
        self.hawkbit
    }

    /// The store on a directory, if there is one.
    pub closed spec fn file(&self) -> Option<FileClient<D>> {
        self.file
    }

    /// Answering `status` with the store that `spec` names may end with
    /// `outcome` and leave this coordinator as `after`: only that store may
    /// change, and a store that the coordinator does not have ends the
    /// answering.
    pub open spec fn is_processed_with(
        &self,
        after: Self,
        spec: FirmwareSpec,
        application: &str,
        device: &str,
        status: StatusView,
        outcome: Result<SerializedCommand, UpdateError>,
    ) -> bool {
        let client = self.index().client();
        match spec {
            FirmwareSpec::OCI { image, image_pull_policy, build } => match self.oci() {
                Some(store) => {
                    &&& after.oci() is Some
                    &&& after.hawkbit() == self.hawkbit()
                    &&& after.file() == self.file()
                    &&& is_processed_update(
                        store,
                        after.oci()->0,
                        client,
                        application,
                        device,
                        status,
                        (image, image_pull_policy),
                        outcome,
                    )
                },
                None => after == *self && outcome == Err::<SerializedCommand, UpdateError>(
                    UpdateError::NoStore(StoreKind::Oci),
                ),
            },
            FirmwareSpec::HAWKBIT { controller } => match self.hawkbit() {
                Some(store) => {
                    &&& after.hawkbit() is Some
                    &&& after.oci() == self.oci()
                    &&& after.file() == self.file()
                    &&& store.is_registered(controller@)
                    &&& is_processed_update(
                        store,
                        after.hawkbit()->0,
                        client,
                        application,
                        device,
                        status,
                        controller,
                        outcome,
                    )
                },
                None => after == *self && outcome == Err::<SerializedCommand, UpdateError>(
                    UpdateError::NoStore(StoreKind::Hawkbit),
                ),
            },
            FirmwareSpec::FILE { name } => match self.file() {
                Some(store) => {
                    &&& after.file() is Some
                    &&& after.oci() == self.oci()
                    &&& after.hawkbit() == self.hawkbit()
                    &&& is_processed_update(
                        store,
                        after.file()->0,
                        client,
                        application,
                        device,
                        status,
                        name,
                        outcome,
                    )
                },
                None => after == *self && outcome == Err::<SerializedCommand, UpdateError>(
                    UpdateError::NoStore(StoreKind::File),
                ),
            },
        }
    }

    /// Answering the status of `device` of `application` may end with
    /// `outcome` and leave this coordinator as `after`.
    ///
    /// The registry is asked what the device should run. Its failure ends
    /// the answering, and so does its having nothing to say. Else the store
    /// that the specification names is asked: see [`Self::is_processed_with`].
    pub open spec fn is_processed(
        &self,
        after: Self,
        application: &str,
        device: &str,
        status: StatusView,
        outcome: Result<SerializedCommand, UpdateError>,
    ) -> bool {
        &&& after.index() == self.index()
        &&& exists|latest: Result<Option<FirmwareSpec>, String>|
            {
                &&& #[trigger] is_latest_version(
                    self.index().client(),
                    application,
                    device,
                    latest,
                )
                &&& match latest {
                    Ok(Some(spec)) => self.is_processed_with(
                        after,
                        spec,
                        application,
                        device,
                        status,
                        outcome,
                    ),
                    Ok(None) => after == *self && outcome == Err::<
                        SerializedCommand,
                        UpdateError,
                    >(UpdateError::NoSpec),
                    Err(e) => after == *self && outcome == Err::<SerializedCommand, UpdateError>(
                        UpdateError::Registry(e),
                    ),
                }
            }
    }

    /// A coordinator on top of `index`, with the stores that are given.
    pub fn new(
        index: Index<C>,
        oci: Option<OciClient<R>>,
        hawkbit: Option<HawkbitClient<S>>,
        file: Option<FileClient<D>>,
    ) -> (updater: Self)
        ensures
            updater.has_store(StoreKind::Oci) == oci is Some,
            updater.has_store(StoreKind::Hawkbit) == hawkbit is Some,
            updater.has_store(StoreKind::File) == file is Some,
            updater.index() == index,
            updater.oci() == oci,
            updater.hawkbit() == hawkbit,
            updater.file() == file,
    {
        Updater { oci, index, hawkbit, file }
    }

    /// Answers the status of `device` of `application`.
    ///
    /// The registry says what the device should run and thereby which store
    /// to ask. A device without any specification, or with one for a store
    /// that the coordinator does not have, gets no command.
    pub fn process(&mut self, application: &str, device: &str, status: &Status) -> (outcome: Result<
        SerializedCommand,
        UpdateError,
    >)
        ensures
            forall|kind: StoreKind| final(self).has_store(kind) == old(self).has_store(kind),
            match outcome {
                Ok(frame) => is_reply_to(status@, frame@),
                Err(UpdateError::NoStore(kind)) => !old(self).has_store(kind),
                Err(UpdateError::Protocol(error)) => is_refusal_of(status@, error),
                Err(UpdateError::OutOfTurn) => false,
                Err(_) => true,
            },
            old(self).is_processed(*final(self), application, device, status@, outcome),
    {
        let latest = self.index.latest_version(application, device);
        let ghost said = latest;
        assert(is_latest_version(old(self).index().client(), application, device, said));
        assert(*self == *old(self));
        let spec = match latest {
            Ok(Some(spec)) => spec,
            Ok(None) => return Err(UpdateError::NoSpec),
            Err(e) => return Err(UpdateError::Registry(e)),
        };
        let ghost named = spec;
        let outcome = match spec {
            FirmwareSpec::OCI { image, image_pull_policy, build } => match &mut self.oci {
                Some(oci) => process_update(
                    oci,
                    &self.index,
                    application,
                    device,
                    status,
                    &(image, image_pull_policy),
                ),
                None => Err(UpdateError::NoStore(StoreKind::Oci)),
            },
            FirmwareSpec::HAWKBIT { controller } => match &mut self.hawkbit {
                Some(hawkbit) => {
                    let _ = hawkbit.register(controller.as_str());
                    process_update(hawkbit, &self.index, application, device, status, &controller)
                },
                None => Err(UpdateError::NoStore(StoreKind::Hawkbit)),
            },
            FirmwareSpec::FILE { name } => match &mut self.file {
                Some(file) => process_update(
                    file,
                    &self.index,
                    application,
                    device,
                    status,
                    &name,
                ),
                None => Err(UpdateError::NoStore(StoreKind::File)),
            },
        };
        assert(old(self).is_processed_with(*self, named, application, device, status@, outcome));
        outcome
    }
}

} // verus!
