//! The coordinator on the message bus: which events are device statuses,
//! where their payload is, and where the answer goes.

use vstd::prelude::*;
use vstd::string::StringSliceAdditionalSpecFns;
use vstd::utf8::encode_utf8;

use crate::file::Directory;
use crate::hawkbit::UpdateServer;
use crate::index::DeviceRegistry;
use crate::json::{spec_text_at, text_at, Json};
use crate::oci::ImageRegistry;
use crate::protocol::{Status, StatusView};
use crate::readable::{read_status_document, spec_status};
use crate::builds::contains_name;
use crate::text::{comma_separated, split_commas, str_eq};
use crate::updater::{is_reply_to, SerializedCommand, UpdateError, Updater};
use crate::wire::{decode_status, parse_status};

verus! {

/// The sender that marks an event as relayed by the LoRaWAN gateway.
pub open spec fn gateway_sender() -> Seq<char> {
    "ttn-gateway"@
}

/// The subject of the events that carry a device status.
pub open spec fn status_subject() -> Seq<char> {
    "dfu"@
}

/// The subject under which the gateway relays a device status: the number of
/// the port reserved for it.
pub open spec fn gateway_port() -> Seq<char> {
    "223"@
}

/// The attributes of an event that the coordinator looks at. One that the
/// event does not have is empty.
#[derive(Debug, Clone, PartialEq, Eq)]
pub struct Envelope {
    pub application: String,
    pub device: String,
    pub sender: String,
    pub subject: String,
}

/// Mathematical value of an [`Envelope`].
pub struct EnvelopeView {
    pub application: Seq<char>,
    pub device: Seq<char>,
    pub sender: Seq<char>,
    pub subject: Seq<char>,
}

impl View for Envelope {
    type V = EnvelopeView;

    open spec fn view(&self) -> EnvelopeView {
        EnvelopeView {
            application: self.application@,
            device: self.device@,
            sender: self.sender@,
            subject: self.subject@,
        }
    }
}

/// The envelope after the attribute `name` with the text `value` has been read.
pub open spec fn with_attribute(envelope: EnvelopeView, name: Seq<char>, value: Seq<char>)
    -> EnvelopeView {
    if name == "subject"@ {
        EnvelopeView { subject: value, ..envelope }
    } else if name == "device"@ {
        EnvelopeView { device: value, ..envelope }
    } else if name == "application"@ {
        EnvelopeView { application: value, ..envelope }
    } else if name == "sender"@ {
        EnvelopeView { sender: value, ..envelope }
    } else {
        envelope
    }
}

impl Envelope {
    /// An envelope without attributes.
    pub fn new() -> (envelope: Self)
        ensures
            envelope@ == (EnvelopeView {
                application: Seq::<char>::empty(),
                device: Seq::<char>::empty(),
                sender: Seq::<char>::empty(),
                subject: Seq::<char>::empty(),
            }),
    {
        Envelope {
            application: String::new(),
            device: String::new(),
            sender: String::new(),
            subject: String::new(),
        }
    }

    /// Reads one attribute of an event whose value is text. The attributes
    /// `subject`, `device`, `application` and `sender` are kept, the last value
    /// of each; any other is passed over.
    pub fn record(&mut self, name: &str, value: &str)
        ensures
            final(self)@ == with_attribute(old(self)@, name@, value@),
    {
        if str_eq(name, "subject") {
            self.subject = value.to_owned();
        } else if str_eq(name, "device") {
            self.device = value.to_owned();
        } else if str_eq(name, "application") {
            self.application = value.to_owned();
        } else if str_eq(name, "sender") {
            self.sender = value.to_owned();
        }
    }
}

/// The subject under which an event is answered, if the event carries a
/// device status. It does where its subject is `dfu`, whoever sent it, and
/// is then answered under `dfu`; and where the gateway sent it with subject
/// `223`, and is then answered under `port:223`. No other event does.
pub open spec fn spec_reply_subject(sender: Seq<char>, subject: Seq<char>) -> Option<Seq<char>> {
    if subject == status_subject() {
        Some(subject)
    } else if sender == gateway_sender() && subject == gateway_port() {
        Some("port:"@ + subject)
    } else {
        None
    }
}

/// Decides whether an event carries a device status, and under which subject
/// it is answered.
pub fn reply_subject(sender: &str, subject: &str) -> (reply: Option<String>)
    ensures
        match reply {
            Some(s) => spec_reply_subject(sender@, subject@) == Some(s@),
            None => spec_reply_subject(sender@, subject@) is None,
        },
{
    if str_eq(subject, "dfu") {
        Some(subject.to_owned())
    } else if str_eq(sender, "ttn-gateway") && str_eq(subject, "223") {
        let mut reply = "port:".to_owned();
        reply.append(subject);
        Some(reply)
    } else {
        None
    }
}

/// The payload of an event.
#[derive(Debug, PartialEq, Eq)]
pub enum EventData {
    /// Bytes.
    Binary(Vec<u8>),
    /// Text.
    String(String),
    /// A JSON document.
    Json(Json),
}

/// Where an uplink relayed by the gateway holds the payload of the device,
/// as base64 text: `uplink_message.frm_payload`.
pub open spec fn uplink_path() -> Seq<&'static str> {
    seq!["uplink_message", "frm_payload"]
}

/// What the payload of an event turned out to be.
#[derive(Debug, Clone, PartialEq, Eq)]
pub enum Reading {
    /// A status in compact binary form.
    Status(Status),
    /// Text that holds a status in JSON, yet to be decoded.
    Json(String),
    /// Nothing that could be a status.
    Nothing,
}

/// Mathematical value of a [`Reading`].
pub enum ReadingView {
    Status(StatusView),
    Json(Seq<char>),
    Nothing,
}

impl View for Reading {
    type V = ReadingView;

    open spec fn view(&self) -> ReadingView {
        match self {
            Reading::Status(status) => ReadingView::Status(status@),
            Reading::Json(text) => ReadingView::Json(text@),
            Reading::Nothing => ReadingView::Nothing,
        }
    }
}

/// The bytes that base64 text in the standard alphabet stands for, if it is
/// such text.
pub uninterp spec fn base64_decoded(text: Seq<u8>) -> Option<Seq<u8>>;

/// Calls `base64::decode`, which reads the standard alphabet. Its result
/// depends on the text alone; an error of any kind is given as nothing. The
/// text must be short enough for the lengths that the decoder computes from
/// it.
#[verifier::external_body]
pub(crate) fn base64_decode(text: &[u8]) -> (bytes: Option<Vec<u8>>)
    requires
        text@.len() + 8 <= usize::MAX,
    ensures
        match bytes {
            Some(b) => Some(b@),
            None => None,
        } == base64_decoded(text@),
{
    base64::decode(text).ok()
}

/// The status in an uplink relayed by the gateway, given the bytes that its
/// base64 text stands for: a frame of a status, and nothing for any other
/// bytes, `null` included.
pub open spec fn uplink_status(decoded: Option<Seq<u8>>) -> ReadingView {
    match decoded {
        Some(bytes) => match parse_status(bytes) {
            Some(status) => ReadingView::Status(status),
            None => ReadingView::Nothing,
        },
        None => ReadingView::Nothing,
    }
}

/// Reads the status out of the decoded payload of an uplink.
pub fn read_uplink(decoded: Option<Vec<u8>>) -> (reading: Reading)
    ensures
        reading@ == uplink_status(
            match decoded {
                Some(b) => Some(b@),
                None => None,
            },
        ),
{
    match decoded {
        Some(bytes) => match decode_status(bytes.as_slice()) {
            Some(status) => Reading::Status(status),
            None => Reading::Nothing,
        },
        None => Reading::Nothing,
    }
}

/// Whether a payload is read the way the gateway wraps it.
pub open spec fn from_gateway(sender: Seq<char>) -> bool {
    sender == gateway_sender()
}

/// What the payload of an event is read as.
///
/// Bytes are a frame in compact binary form. Text is JSON. A JSON document
/// from the gateway holds base64 text at `uplink_message.frm_payload`, which
/// wraps a frame; from anyone else it is a string that holds JSON.
pub open spec fn spec_read_status(sender: Seq<char>, data: Option<EventData>) -> ReadingView {
    match data {
        Some(EventData::Binary(bytes)) => match parse_status(bytes@) {
            Some(status) => ReadingView::Status(status),
            None => ReadingView::Nothing,
        },
        Some(EventData::String(text)) => ReadingView::Json(text@),
        Some(EventData::Json(document)) => if from_gateway(sender) {
            match spec_text_at(document, uplink_path()) {
                Some(wrapped) => if encode_utf8(wrapped).len() + 8 <= usize::MAX {
                    uplink_status(base64_decoded(encode_utf8(wrapped)))
                } else {
                    ReadingView::Nothing
                },
                None => ReadingView::Nothing,
            }
        } else {
            match document.spec_text() {
                Some(text) => ReadingView::Json(text),
                None => ReadingView::Nothing,
            }
        },
        None => ReadingView::Nothing,
    }
}

/// Reads the payload of an event as a device status.
pub fn read_status(sender: &str, data: Option<&EventData>) -> (reading: Reading)
    ensures
        reading@ == spec_read_status(
            sender@,
            match data {
                Some(d) => Some(*d),
                None => None,
            },
        ),
{
    match data {
        Some(EventData::Binary(bytes)) => match decode_status(bytes.as_slice()) {
            Some(status) => Reading::Status(status),
            None => Reading::Nothing,
        },
        Some(EventData::String(text)) => Reading::Json(text.clone()),
        Some(EventData::Json(document)) => if str_eq(sender, "ttn-gateway") {
            let names: [&str; 2] = ["uplink_message", "frm_payload"];
            assert(names@ =~= uplink_path());
            match text_at(document, names.as_slice()) {
                Some(wrapped) => {
                    let bytes = wrapped.as_str().as_bytes();
                    if bytes.len() <= usize::MAX - 8 {
                        read_uplink(base64_decode(bytes))
                    } else {
                        Reading::Nothing
                    }
                },
                None => Reading::Nothing,
            }
        } else {
            match document.as_str() {
                Some(text) => Reading::Json(text.to_owned()),
                None => Reading::Nothing,
            }
        },
        None => Reading::Nothing,
    }
}

/// The topic on which a command is published:
/// `command/{application}/{device}/{subject}`.
pub open spec fn spec_command_topic(
    application: Seq<char>,
    device: Seq<char>,
    subject: Seq<char>,
) -> Seq<char> {
    "command/"@ + application + "/"@ + device + "/"@ + subject
}

/// The topic on which a command is published.
pub fn command_topic(application: &str, device: &str, subject: &str) -> (topic: String)
    ensures
        topic@ == spec_command_topic(application@, device@, subject@),
{
    let mut topic = "command/".to_owned();
    topic.append(application);
    topic.append("/");
    topic.append(device);
    topic.append("/");
    topic.append(subject);
    topic
}

/// The topic on which the events of an application arrive:
/// `app/{application}`, or `$shared/{group}/app/{application}` for the
/// members of a group that share the work.
pub open spec fn spec_subscription_topic(group_id: Option<Seq<char>>, application: Seq<char>)
    -> Seq<char> {
    match group_id {
        Some(group) => "$shared/"@ + group + "/app/"@ + application,
        None => "app/"@ + application,
    }
}

/// The topic on which the events of an application arrive.
pub fn subscription_topic(group_id: Option<&str>, application: &str) -> (topic: String)
    ensures
        topic@ == spec_subscription_topic(
            match group_id {
                Some(g) => Some(g@),
                None => None,
            },
            application@,
        ),
{
    match group_id {
        Some(group) => {
            let mut topic = "$shared/".to_owned();
            topic.append(group);
            topic.append("/app/");
            topic.append(application);
            topic
        },
        None => {
            let mut topic = "app/".to_owned();
            topic.append(application);
            topic
        },
    }
}

/// Whether `name` is one of `names`.
pub open spec fn among(names: Seq<Seq<char>>, name: Seq<char>) -> bool {
    exists|i: int| 0 <= i < names.len() && #[trigger] names[i] == name
}

/// The first `n` of `names` but for those that are among `excluded`, in
/// their order.
pub open spec fn not_excluded(names: Seq<String>, excluded: Seq<Seq<char>>, n: int) -> Seq<
    Seq<char>,
>
    decreases n,
{
    if n <= 0 {
        Seq::empty()
    } else {
        let before = not_excluded(names, excluded, n - 1);
        if among(excluded, names[n - 1]@) {
            before
        } else {
            before.push(names[n - 1]@)
        }
    }
}

/// The applications whose devices are served: the one that was chosen, if
/// one was; else every application that is accessible and not excluded.
/// `excluded` is a list of names that are separated by commas.
pub open spec fn spec_served(
    chosen: Option<String>,
    accessible: Seq<String>,
    excluded: Option<Seq<char>>,
) -> Seq<Seq<char>> {
    match chosen {
        Some(application) => seq![application@],
        None => not_excluded(
            accessible,
            match excluded {
                Some(list) => comma_separated(list),
                None => Seq::empty(),
            },
            accessible.len() as int,
        ),
    }
}

fn is_among(names: &Vec<String>, name: &str) -> (found: bool)
    ensures
        found == among(names@.map_values(|n: String| n@), name@),
{
    let found = contains_name(names, name);
    proof {
        let mapped = names@.map_values(|n: String| n@);
        if found {
            let i = choose|i: int| 0 <= i < names@.len() && (#[trigger] names@[i])@ == name@;
            assert(mapped[i] == name@);
        } else if among(mapped, name@) {
            let i = choose|i: int| 0 <= i < mapped.len() && #[trigger] mapped[i] == name@;
            assert(names@[i]@ == name@);
        }
    }
    found
}

/// Picks the applications whose devices are served.
pub fn served_applications(
    chosen: Option<String>,
    accessible: Vec<String>,
    excluded: Option<&str>,
) -> (served: Vec<String>)
    ensures
        served@.map_values(|a: String| a@) == spec_served(
            chosen,
            accessible@,
            match excluded {
                Some(list) => Some(list@),
                None => None,
            },
        ),
{
    let mut served: Vec<String> = Vec::new();
    match chosen {
        Some(application) => {
            served.push(application);
            assert(served@.map_values(|a: String| a@) =~= seq![application@]);
        },
        None => {
            let excluded: Vec<String> = match excluded {
                Some(list) => split_commas(list),
                None => Vec::new(),
            };
            let ghost names = excluded@.map_values(|n: String| n@);
            assert(excluded@.len() == 0 ==> names =~= Seq::<Seq<char>>::empty());
            let n = accessible.len();
            let mut i: usize = 0;
            assert(served@.map_values(|a: String| a@) =~= not_excluded(accessible@, names, 0));
            while i < n
                invariant
                    i <= n,
                    n == accessible@.len(),
                    names == excluded@.map_values(|n: String| n@),
                    served@.map_values(|a: String| a@) == not_excluded(
                        accessible@,
                        names,
                        i as int,
                    ),
                decreases n - i,
            {
                if !is_among(&excluded, accessible[i].as_str()) {
                    let name = accessible[i].clone();
                    assert(served@.push(name).map_values(|a: String| a@) =~= served@.map_values(
                        |a: String| a@,
                    ).push(name@));
                    served.push(name);
                }
                i += 1;
            }
        },
    }
    served
}

/// A message to publish, at least once.
#[derive(Debug, Clone, PartialEq, Eq)]
pub struct Publication {
    pub topic: String,
    pub payload: SerializedCommand,
}

/// What the coordinator does about an event.
#[derive(Debug, Clone, PartialEq, Eq)]
pub enum Action {
    /// Publish the command.
    Publish(Publication),
    /// Read the text as JSON, and hand the document to
    /// [`Server::answer_document`] together with `subject`.
    Decode { text: String, subject: String },
    /// Nothing: the event is no status, or none that can be answered.
    Drop,
}

/// The number of events that may wait to be handled.
pub const IN_FLIGHT: usize = 100;

/// The quality of service of subscriptions and publications: at least once.
pub const QOS: i32 = 1;

/// The coordinator on the bus.
pub struct Server<C: DeviceRegistry, R: ImageRegistry, S: UpdateServer, D: Directory> {
    group_id: Option<String>,
    applications: Vec<String>,
    updater: Updater<C, R, S, D>,
}

impl<C: DeviceRegistry, R: ImageRegistry, S: UpdateServer, D: Directory> Server<C, R, S, D> {
    /// The group that shares the work, if any.
    pub closed spec fn group_id(&self) -> Option<Seq<char>> {
        match self.group_id {
            Some(g) => Some(g@),
            None => None,
        }
    }

    /// The applications whose devices are served.
    pub closed spec fn applications(&self) -> Seq<String> {
        self.applications@
    }

    /// A coordinator for the devices of `applications`.
    pub fn new(group_id: Option<String>, applications: Vec<String>, updater: Updater<C, R, S, D>)
        -> (server: Self)
        ensures
            server.updater() == updater,
            server.applications() == applications@,
            server.group_id() == match group_id {
                Some(g) => Some(g@),
                None => None,
            },
    {
        Server { group_id, applications, updater }
    }

    /// The topics to subscribe to, one for each application, in their order.
    pub fn subscriptions(&self) -> (topics: Vec<String>)
        ensures
            topics@.len() == self.applications().len(),
            forall|i: int|
                0 <= i < topics@.len() ==> (#[trigger] topics@[i])@ == spec_subscription_topic(
                    self.group_id(),
                    self.applications()[i]@,
                ),
    {
        let mut topics: Vec<String> = Vec::new();
        let n = self.applications.len();
        let mut i: usize = 0;
        while i < n
            invariant
                i <= n,
                n == self.applications@.len(),
                topics@.len() == i,
                forall|j: int|
                    0 <= j < i ==> (#[trigger] topics@[j])@ == spec_subscription_topic(
                        self.group_id(),
                        self.applications()[j]@,
                    ),
            decreases n - i,
        {
            let group = match &self.group_id {
                Some(g) => Some(g.as_str()),
                None => None,
            };
            topics.push(subscription_topic(group, self.applications[i].as_str()));
            i += 1;
        }
        topics
    }

    /// The coordinator that answers the statuses.
    pub closed spec fn updater(&self) -> Updater<C, R, S, D> {
        self.updater
    }

    /// Answering `status`, which came in an event with the attributes
    /// `envelope` and is answered under `subject`, may lead to `action` and
    /// leave this server as `after`.
    ///
    /// The coordinator answers the status for the application and the device
    /// that the envelope names. What it answers is published on the topic of
    /// the device; where it answers nothing, the event is dropped. Nothing of
    /// the server changes but what the coordinator changes of its stores.
    pub open spec fn is_answered(
        &self,
        after: Self,
        envelope: EnvelopeView,
        subject: Seq<char>,
        status: StatusView,
        action: Action,
    ) -> bool {
        &&& after.applications() == self.applications()
        &&& after.group_id() == self.group_id()
        &&& exists|
            application: &str,
            device: &str,
            outcome: Result<SerializedCommand, UpdateError>,
        |
            {
                &&& application@ == envelope.application
                &&& device@ == envelope.device
                &&& #[trigger] self.updater().is_processed(
                    after.updater(),
                    application,
                    device,
                    status,
                    outcome,
                )
                &&& match outcome {
                    Ok(payload) => action matches Action::Publish(publication)
                        && publication.payload == payload && publication.topic@
                        == spec_command_topic(envelope.application, envelope.device, subject),
                    Err(_) => action is Drop,
                }
            }
    }

    /// Answers a status that came in an event with the attributes
    /// `envelope`, to be answered under `subject`: the command for the device,
    /// addressed to it, or nothing where the status gets none.
    pub fn answer(&mut self, envelope: &Envelope, subject: &str, status: &Status) -> (action:
        Action)
        ensures
            final(self).applications() == old(self).applications(),
            final(self).group_id() == old(self).group_id(),
            match action {
                Action::Publish(publication) => {
                    &&& publication.topic@ == spec_command_topic(
                        envelope@.application,
                        envelope@.device,
                        subject@,
                    )
                    &&& is_reply_to(status@, publication.payload@)
                },
                Action::Decode { .. } => false,
                Action::Drop => true,
            },
            old(self).is_answered(*final(self), envelope@, subject@, status@, action),
    {
        let application = envelope.application.as_str();
        let device = envelope.device.as_str();
        let outcome = self.updater.process(application, device, status);
        assert(old(self).updater().is_processed(
            self.updater(),
            application,
            device,
            status@,
            outcome,
        ));
        match outcome {
            Ok(payload) => Action::Publish(
                Publication { topic: command_topic(application, device, subject), payload },
            ),
            Err(_) => Action::Drop,
        }
    }

    /// Answers a status that came in its human-readable form, in an event
    /// with the attributes `envelope`, to be answered under `subject`. A
    /// document that is no status gets nothing.
    pub fn answer_document(&mut self, envelope: &Envelope, subject: &str, document: &Json) -> (action:
        Action)
        ensures
            final(self).applications() == old(self).applications(),
            final(self).group_id() == old(self).group_id(),
            match action {
                Action::Publish(publication) => {
                    &&& spec_status(*document) is Some
                    &&& publication.topic@ == spec_command_topic(
                        envelope@.application,
                        envelope@.device,
                        subject@,
                    )
                    &&& is_reply_to(spec_status(*document)->0, publication.payload@)
                },
                Action::Decode { .. } => false,
                Action::Drop => true,
            },
            match spec_status(*document) {
                Some(status) => old(self).is_answered(
                    *final(self),
                    envelope@,
                    subject@,
                    status,
                    action,
                ),
                None => action is Drop && *final(self) == *old(self),
            },
    {
        match read_status_document(document) {
            Some(status) => self.answer(envelope, subject, &status),
            None => Action::Drop,
        }
    }

    /// `action` is what handling an event with the attributes `envelope` and
    /// the payload `data` may end with, and `after` the server afterwards.
    ///
    /// An event that carries no device status, or whose payload cannot be
    /// read as one, is dropped and leaves the server as it was. A status in
    /// compact binary form is answered. A status in JSON text is handed out
    /// to be decoded, with the subject to answer it under.
    pub open spec fn is_handled(
        &self,
        after: Self,
        envelope: EnvelopeView,
        data: Option<EventData>,
        action: Action,
    ) -> bool {
        match spec_reply_subject(envelope.sender, envelope.subject) {
            Some(subject) => match spec_read_status(envelope.sender, data) {
                ReadingView::Status(status) => self.is_answered(
                    after,
                    envelope,
                    subject,
                    status,
                    action,
                ),
                ReadingView::Json(text) => after == *self && match action {
                    Action::Decode { text: t, subject: s } => t@ == text && s@ == subject,
                    _ => false,
                },
                ReadingView::Nothing => after == *self && action is Drop,
            },
            None => after == *self && action is Drop,
        }
    }

    /// Handles one event: its attributes and its payload.
    ///
    /// An event that carries no device status is dropped. A status in
    /// compact binary form is answered at once. A status in JSON has to be
    /// decoded first.
    pub fn handle(&mut self, envelope: &Envelope, data: Option<&EventData>) -> (action: Action)
        ensures
            final(self).applications() == old(self).applications(),
            final(self).group_id() == old(self).group_id(),
            ({
                let subject = spec_reply_subject(envelope@.sender, envelope@.subject);
                let reading = spec_read_status(
                    envelope@.sender,
                    match data {
                        Some(d) => Some(*d),
                        None => None,
                    },
                );
                match action {
                    Action::Publish(publication) => {
                        &&& subject is Some
                        &&& reading is Status
                        &&& publication.topic@ == spec_command_topic(
                            envelope@.application,
                            envelope@.device,
                            subject->0,
                        )
                        &&& is_reply_to(reading->Status_0, publication.payload@)
                    },
                    Action::Decode { text, subject: under } => {
                        &&& subject == Some(under@)
                        &&& reading == ReadingView::Json(text@)
                    },
                    Action::Drop => subject is Some ==> !(reading is Json),
                }
            }),
            old(self).is_handled(
                *final(self),
                envelope@,
                match data {
                    Some(d) => Some(*d),
                    None => None,
                },
                action,
            ),
    {
        let subject = match reply_subject(envelope.sender.as_str(), envelope.subject.as_str()) {
            Some(subject) => subject,
            None => return Action::Drop,
        };
        match read_status(envelope.sender.as_str(), data) {
            Reading::Status(status) => self.answer(envelope, subject.as_str(), &status),
            Reading::Json(text) => Action::Decode { text, subject },
            Reading::Nothing => Action::Drop,
        }
    }

    /// Handles one message of the bus: the event that was read out of it, or
    /// nothing where it holds no event that can be read.
    ///
    /// A message that cannot be read is dropped and leaves the server as it
    /// was, ready for the next one. An event is handled as [`Server::handle`]
    /// does.
    pub fn handle_message(&mut self, parsed: Option<(&Envelope, Option<&EventData>)>) -> (action:
        Action)
        ensures
            final(self).applications() == old(self).applications(),
            final(self).group_id() == old(self).group_id(),
            match parsed {
                Some((envelope, data)) => old(self).is_handled(
                    *final(self),
                    envelope@,
                    match data {
                        Some(d) => Some(*d),
                        None => None,
                    },
                    action,
                ),
                None => action is Drop && *final(self) == *old(self),
            },
    {
        match parsed {
            Some((envelope, data)) => self.handle(envelope, data),
            None => Action::Drop,
        }
    }

    /// Answers a status that came as JSON text, given the document that the
    /// text was decoded to, or nothing where it is no JSON.
    ///
    /// Text that cannot be decoded is dropped and leaves the server as it
    /// was. A document is answered as [`Server::answer_document`] does.
    pub fn answer_decoded(&mut self, envelope: &Envelope, subject: &str, decoded: Option<&Json>) -> (action:
        Action)
        ensures
            final(self).applications() == old(self).applications(),
            final(self).group_id() == old(self).group_id(),
            !(action is Decode),
            match decoded {
                Some(document) => match spec_status(*document) {
                    Some(status) => old(self).is_answered(
                        *final(self),
                        envelope@,
                        subject@,
                        status,
                        action,
                    ),
                    None => action is Drop && *final(self) == *old(self),
                },
                None => action is Drop && *final(self) == *old(self),
            },
    {
        match decoded {
            Some(document) => self.answer_document(envelope, subject, document),
            None => Action::Drop,
        }
    }
}

} // verus!
