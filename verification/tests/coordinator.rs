use std::cell::RefCell;
use std::rc::Rc;

use ajour::file::{Directory, FileClient, FileMetadata};
use ajour::hawkbit::{HawkbitClient, UpdateServer};
use ajour::json::{Json, Member, Number};
use ajour::readable::{read_status_document, write_status_document};
use ajour::index::{resolve, DeviceRegistry, Index};
use ajour::metadata::Metadata;
use ajour::oci::{ImageReference, ImageRegistry, Layer, OciClient, RegistryAuth};
use ajour::protocol::{Command, Status, UpdateStatus};
use ajour::schema::{FirmwareSpec, ImagePullPolicy};
use ajour::server::{
    command_topic, read_status, read_uplink, reply_subject, served_applications,
    subscription_topic, Action, Envelope, EventData, Reading, Server, IN_FLIGHT, QOS,
};
use ajour::text::split_commas;
use ajour::status::FirmwareStatus;
use ajour::store::FirmwareStore;
use ajour::updater::{process_update, SerializedCommand, StoreKind, UpdateError, Updater};
use ajour::wire::{decode_command, encode_command, encode_status};

#[derive(Default)]
struct Written {
    statuses: Vec<(String, String, FirmwareStatus)>,
    asked: Vec<String>,
}

struct FakeDevices {
    device: Result<Option<FirmwareSpec>, String>,
    application: Result<Option<FirmwareSpec>, String>,
    known: bool,
    written: Rc<RefCell<Written>>,
}

impl DeviceRegistry for FakeDevices {
    fn device_spec(&self, _: &str, _: &str) -> Result<Option<FirmwareSpec>, String> {
        self.written.borrow_mut().asked.push("device".to_string());
        self.device.clone()
    }

    fn application_spec(&self, _: &str) -> Result<Option<FirmwareSpec>, String> {
        self.written.borrow_mut().asked.push("application".to_string());
        self.application.clone()
    }

    fn device_status(&self, _: &str, _: &str) -> Result<Option<Option<FirmwareStatus>>, String> {
        if self.known {
            Ok(Some(None))
        } else {
            Ok(None)
        }
    }

    fn write_status(&self, application: &str, device: &str, status: FirmwareStatus) -> Result<(), String> {
        self.written.borrow_mut().statuses.push((application.to_string(), device.to_string(), status));
        Err("read only".to_string())
    }
}

fn devices(device: Option<FirmwareSpec>, application: Option<FirmwareSpec>) -> (FakeDevices, Rc<RefCell<Written>>) {
    let written = Rc::new(RefCell::new(Written::default()));
    (FakeDevices { device: Ok(device), application: Ok(application), known: true, written: written.clone() }, written)
}

#[derive(Default)]
struct StoreLog {
    calls: Vec<String>,
}

struct FakeStore {
    metadata: Result<Option<Metadata>, String>,
    firmware: Result<Vec<u8>, String>,
    backoff: Option<u32>,
    log: Rc<RefCell<StoreLog>>,
}

impl FirmwareStore for FakeStore {
    type Params = String;
    type Context = u8;

    fn fetch_metadata(&mut self, params: &String) -> Result<(u8, Option<Metadata>), String> {
        self.log.borrow_mut().calls.push(format!("fetch_metadata {}", params));
        self.metadata.clone().map(|m| (9, m))
    }

    fn get_backoff(&self, context: &u8) -> Option<u32> {
        assert_eq!(*context, 9);
        self.backoff
    }

    fn update_progress(&mut self, _: &String, _: &u8, offset: u32, size: u32) -> Result<(), String> {
        self.log.borrow_mut().calls.push(format!("update_progress {} {}", offset, size));
        Err("ignored".to_string())
    }

    fn mark_synced(&mut self, _: &String, _: &u8, success: bool) -> Result<(), String> {
        self.log.borrow_mut().calls.push(format!("mark_synced {}", success));
        Err("ignored".to_string())
    }

    fn fetch_firmware(&mut self, _: &String, _: &u8, metadata: &Metadata) -> Result<Vec<u8>, String> {
        self.log.borrow_mut().calls.push(format!("fetch_firmware {}", metadata.size));
        self.firmware.clone()
    }
}

fn store(metadata: Result<Option<Metadata>, String>) -> (FakeStore, Rc<RefCell<StoreLog>>) {
    let log = Rc::new(RefCell::new(StoreLog::default()));
    (
        FakeStore { metadata, firmware: Ok(vec![0xab; 200]), backoff: Some(42), log: log.clone() },
        log,
    )
}

fn metadata() -> Metadata {
    Metadata { version: b"1.2.3".to_vec(), checksum: format!("sha256:{}", "0".repeat(64)), size: 200 }
}

fn status(version: &[u8], update: Option<(&[u8], u32)>) -> Status {
    Status {
        version: version.to_vec(),
        correlation_id: Some(7),
        mtu: Some(64),
        update: update.map(|(v, o)| UpdateStatus { version: v.to_vec(), offset: o }),
    }
}

fn command(frame: &SerializedCommand) -> Command {
    decode_command(frame.as_bytes()).unwrap()
}

#[test]
fn serialized_command_is_the_frame() {
    let c = Command::new_write(&[1], 0, &[1, 2, 3, 4], None);
    assert_eq!(SerializedCommand::from(c.clone()).as_bytes(), &encode_command(&c)[..]);
    let c = Command::new_wait(Some(1), None);
    assert_eq!(SerializedCommand::from(c.clone()).as_bytes(), &encode_command(&c)[..]);
}

#[test]
fn device_spec_wins() {
    let d = FirmwareSpec::FILE { name: "device".to_string() };
    let a = FirmwareSpec::FILE { name: "application".to_string() };
    assert_eq!(resolve(Some(d.clone()), Some(a.clone())), Some(d.clone()));
    assert_eq!(resolve(None, Some(a.clone())), Some(a.clone()));
    assert_eq!(resolve(Some(d.clone()), None), Some(d.clone()));
    assert_eq!(resolve(None, None), None);

    let (registry, written) = devices(Some(d.clone()), Some(a.clone()));
    assert_eq!(Index::new(registry).latest_version("app", "dev"), Ok(Some(d)));
    assert_eq!(written.borrow().asked, vec!["device"]);
    let (registry, written) = devices(None, Some(a.clone()));
    assert_eq!(Index::new(registry).latest_version("app", "dev"), Ok(Some(a)));
    assert_eq!(written.borrow().asked, vec!["device", "application"]);
    let (registry, _) = devices(None, None);
    assert_eq!(Index::new(registry).latest_version("app", "dev"), Ok(None));
    let (mut registry, _) = devices(None, None);
    registry.device = Err("down".to_string());
    assert_eq!(Index::new(registry).latest_version("app", "dev"), Err("down".to_string()));
}

#[test]
fn index_writes_the_merged_status() {
    let (registry, written) = devices(None, None);
    let index = Index::new(registry);
    let st = status(b"1.0.0", Some((b"1.2.3", 64)));
    assert_eq!(index.update_status("app", "dev", &st, Ok(&metadata())), Err("read only".to_string()));
    let w = written.borrow();
    assert_eq!(w.statuses.len(), 1);
    assert_eq!(w.statuses[0].0, "app");
    assert_eq!(w.statuses[0].1, "dev");
    assert_eq!(w.statuses[0].2.current, "1.0.0");
    assert_eq!(w.statuses[0].2.target, "1.2.3");
    assert_eq!(w.statuses[0].2.conditions.0.len(), 2);
}

#[test]
fn unknown_device_gets_no_status() {
    let (mut registry, written) = devices(None, None);
    registry.known = false;
    let index = Index::new(registry);
    assert_eq!(index.update_status("app", "dev", &status(b"1", None), Ok(&metadata())), Ok(()));
    assert!(written.borrow().statuses.is_empty());
}

#[test]
fn process_update_without_metadata_waits() {
    let (registry, written) = devices(None, None);
    let index = Index::new(registry);
    let (mut s, log) = store(Ok(None));
    let frame = process_update(&mut s, &index, "app", "dev", &status(b"1.0.0", None), &"p".to_string()).unwrap();
    assert_eq!(command(&frame), Command::Wait { correlation_id: Some(7), poll: Some(42) });
    assert_eq!(log.borrow().calls, vec!["fetch_metadata p"]);
    assert!(written.borrow().statuses.is_empty());
}

#[test]
fn process_update_in_sync() {
    let (registry, written) = devices(None, None);
    let index = Index::new(registry);
    let (mut s, log) = store(Ok(Some(metadata())));
    let frame = process_update(&mut s, &index, "app", "dev", &status(b"1.2.3", None), &"p".to_string()).unwrap();
    assert_eq!(
        command(&frame),
        Command::Sync { version: b"1.2.3".to_vec(), correlation_id: Some(7), poll: None }
    );
    // no byte is fetched
    assert_eq!(log.borrow().calls, vec!["fetch_metadata p", "mark_synced true"]);
    assert_eq!(written.borrow().statuses.len(), 1);
}

#[test]
fn process_update_writes_the_next_block() {
    let (registry, _) = devices(None, None);
    let index = Index::new(registry);
    let (mut s, log) = store(Ok(Some(metadata())));
    let st = status(b"1.0.0", Some((b"1.2.3", 192)));
    let frame = process_update(&mut s, &index, "app", "dev", &st, &"p".to_string()).unwrap();
    assert_eq!(
        command(&frame),
        Command::Write { version: b"1.2.3".to_vec(), correlation_id: Some(7), offset: 192, data: vec![0xab; 8] }
    );
    assert_eq!(log.borrow().calls, vec!["fetch_metadata p", "update_progress 192 200", "fetch_firmware 200"]);
}

#[test]
fn process_update_swaps_at_the_end() {
    let (registry, _) = devices(None, None);
    let index = Index::new(registry);
    let (mut s, log) = store(Ok(Some(metadata())));
    let st = status(b"1.0.0", Some((b"1.2.3", 200)));
    let frame = process_update(&mut s, &index, "app", "dev", &st, &"p".to_string()).unwrap();
    assert_eq!(
        command(&frame),
        Command::Swap { version: b"1.2.3".to_vec(), correlation_id: Some(7), checksum: [0; 32] }
    );
    assert_eq!(log.borrow().calls, vec!["fetch_metadata p", "update_progress 200 200"]);
}

#[test]
fn process_update_reports_store_failures() {
    let (registry, written) = devices(None, None);
    let index = Index::new(registry);
    let (mut s, _) = store(Err("unreachable".to_string()));
    let st = status(b"1.0.0", None);
    assert_eq!(
        process_update(&mut s, &index, "app", "dev", &st, &"p".to_string()),
        Err(UpdateError::Store("unreachable".to_string()))
    );
    let w = written.borrow();
    assert_eq!(w.statuses.len(), 1);
    assert_eq!(w.statuses[0].2.target, "Unknown");
    assert_eq!(w.statuses[0].2.conditions.0[0].status.reason, Some("unreachable".to_string()));
    drop(w);

    let (mut s, _) = store(Ok(Some(metadata())));
    s.firmware = Err("no blob".to_string());
    assert_eq!(
        process_update(&mut s, &index, "app", "dev", &st, &"p".to_string()),
        Err(UpdateError::Store("no blob".to_string()))
    );
    let (mut s, _) = store(Ok(Some(metadata())));
    s.firmware = Ok(vec![1; 10]);
    let st = status(b"1.0.0", Some((b"1.2.3", 100)));
    assert!(matches!(
        process_update(&mut s, &index, "app", "dev", &st, &"p".to_string()),
        Err(UpdateError::Protocol(_))
    ));
    let mut md = metadata();
    md.checksum = "xyz".to_string();
    let (mut s, _) = store(Ok(Some(md)));
    let st = status(b"1.0.0", Some((b"1.2.3", 200)));
    assert!(matches!(
        process_update(&mut s, &index, "app", "dev", &st, &"p".to_string()),
        Err(UpdateError::Protocol(_))
    ));
}

struct NoRegistry;

impl ImageRegistry for NoRegistry {
    fn pull_manifest(&self, _: &ImageReference, _: &RegistryAuth) -> Result<Vec<Layer>, String> {
        Err("none".to_string())
    }

    fn pull_blob(&self, _: &ImageReference, _: &str, _: &RegistryAuth) -> Result<Vec<u8>, String> {
        Err("none".to_string())
    }

    fn now(&self) -> u64 {
        0
    }
}

struct NoServer;

fn object(members: Vec<(&str, Json)>) -> Json {
    Json::Object(
        members.into_iter().map(|(name, value)| Member { name: name.to_string(), value }).collect(),
    )
}

fn number(n: u64) -> Json {
    Json::Number(Number::Unsigned(n))
}

fn string(text: &str) -> Json {
    Json::Text(text.to_string())
}

impl UpdateServer for NoServer {
    fn put(&self, _: &str, _: &str, _: &Json) -> Result<(), String> {
        Ok(())
    }

    fn get(&self, _: &str, _: &str) -> Result<Json, String> {
        Ok(object(vec![("config", object(vec![("polling", object(vec![("sleep", string("0:0:42"))]))]))]))
    }

    fn download(&self, _: &str, _: &str) -> Result<Vec<u8>, String> {
        Err("none".to_string())
    }

    fn post(&self, _: &str, _: &str, _: &Json) -> Result<(), String> {
        Ok(())
    }
}

struct Files;

impl Directory for Files {
    fn read_metadata(&self, _: &str, file: &str) -> Result<FileMetadata, String> {
        assert_eq!(file, "fw.json");
        Ok(FileMetadata { version: "1.2.3".to_string(), checksum: "00".repeat(32), size: 200 })
    }

    fn read(&self, _: &str, file: &str) -> Result<Vec<u8>, String> {
        assert_eq!(file, "fw.bin");
        Ok(vec![0xab; 200])
    }
}

type TestUpdater = Updater<FakeDevices, NoRegistry, NoServer, Files>;

fn updater(spec: Option<FirmwareSpec>, oci: bool, hawkbit: bool, file: bool) -> TestUpdater {
    let (registry, _) = devices(None, spec);
    Updater::new(
        Index::new(registry),
        if oci { Some(OciClient::new(NoRegistry, String::new(), None, None, 2, None)) } else { None },
        if hawkbit { Some(HawkbitClient::new(NoServer, "http://h", "T", "t")) } else { None },
        if file { Some(FileClient::new("/data", Files)) } else { None },
    )
}

#[test]
fn process_needs_a_spec() {
    let mut u = updater(None, true, true, true);
    assert_eq!(u.process("app", "dev", &status(b"1", None)), Err(UpdateError::NoSpec));
    let (mut registry, _) = devices(None, None);
    registry.application = Err("down".to_string());
    let mut u: TestUpdater = Updater::new(Index::new(registry), None, None, None);
    assert_eq!(
        u.process("app", "dev", &status(b"1", None)),
        Err(UpdateError::Registry("down".to_string()))
    );
}

#[test]
fn process_needs_the_store_of_the_spec() {
    let oci = FirmwareSpec::OCI {
        image: "i".to_string(),
        image_pull_policy: ImagePullPolicy::Always,
        build: None,
    };
    let hawkbit = FirmwareSpec::HAWKBIT { controller: "c".to_string() };
    let file = FirmwareSpec::FILE { name: "fw".to_string() };
    let st = status(b"1", None);
    assert_eq!(updater(Some(oci.clone()), false, true, true).process("a", "d", &st), Err(UpdateError::NoStore(StoreKind::Oci)));
    assert_eq!(updater(Some(hawkbit.clone()), true, false, true).process("a", "d", &st), Err(UpdateError::NoStore(StoreKind::Hawkbit)));
    assert_eq!(updater(Some(file.clone()), true, true, false).process("a", "d", &st), Err(UpdateError::NoStore(StoreKind::File)));
    assert_eq!(updater(Some(oci), true, false, false).process("a", "d", &st), Err(UpdateError::Store("none".to_string())));
    let frame = updater(Some(hawkbit), false, true, false).process("a", "d", &st).unwrap();
    assert_eq!(command(&frame), Command::Wait { correlation_id: Some(7), poll: Some(42) });
    let frame = updater(Some(file), false, false, true).process("a", "d", &st).unwrap();
    assert_eq!(
        command(&frame),
        Command::Write { version: b"1.2.3".to_vec(), correlation_id: Some(7), offset: 0, data: vec![0xab; 64] }
    );
}

#[test]
fn only_status_events_are_answered() {
    assert_eq!(reply_subject("device", "dfu"), Some("dfu".to_string()));
    assert_eq!(reply_subject("", "dfu"), Some("dfu".to_string()));
    assert_eq!(reply_subject("device", "DFU"), None);
    assert_eq!(reply_subject("device", "223"), None);
    assert_eq!(reply_subject("device", ""), None);
    assert_eq!(reply_subject("ttn-gateway", "223"), Some("port:223".to_string()));
    assert_eq!(reply_subject("ttn-gateway", "dfu"), Some("dfu".to_string()));
    assert_eq!(reply_subject("ttn-gateway", "port:223"), None);
    assert_eq!(reply_subject("ttn-gateway", "224"), None);
}

#[test]
fn comma_lists() {
    assert_eq!(split_commas("a,b,c"), vec!["a", "b", "c"]);
    assert_eq!(split_commas("a"), vec!["a"]);
    assert_eq!(split_commas(""), vec![""]);
    assert_eq!(split_commas(","), vec!["", ""]);
    assert_eq!(split_commas("a,,b,"), vec!["a", "", "b", ""]);
    assert_eq!(split_commas(" a, b"), vec![" a", " b"]);
    assert_eq!(split_commas("é,ü€"), vec!["é", "ü€"]);
    for text in ["a,b,c", "", ",", ",,x", "no commas", "é,ü€,"] {
        let expected: Vec<String> = text.split(",").map(|s| s.to_string()).collect();
        assert_eq!(split_commas(text), expected);
    }
}

#[test]
fn applications_to_serve() {
    let all = || vec!["a1".to_string(), "a2".to_string(), "a3".to_string(), "a2".to_string()];
    assert_eq!(served_applications(None, all(), None), all());
    assert_eq!(served_applications(None, all(), Some("a2")), vec!["a1", "a3"]);
    assert_eq!(served_applications(None, all(), Some("a3,a1")), vec!["a2", "a2"]);
    assert_eq!(served_applications(None, all(), Some("a1,a2,a3")), Vec::<String>::new());
    assert_eq!(served_applications(None, all(), Some("A1, a2")), all());
    assert_eq!(served_applications(None, vec![], Some("a1")), Vec::<String>::new());
    // one that is chosen is served, whatever else is said
    assert_eq!(served_applications(Some("x".to_string()), all(), Some("x")), vec!["x"]);
    assert_eq!(served_applications(Some("a1".to_string()), vec![], None), vec!["a1"]);
}

#[test]
fn topics() {
    assert_eq!(command_topic("app", "dev", "dfu"), "command/app/dev/dfu");
    assert_eq!(command_topic("a", "b", "port:223"), "command/a/b/port:223");
    assert_eq!(subscription_topic(None, "app"), "app/app");
    assert_eq!(subscription_topic(Some("g1"), "app"), "$shared/g1/app/app");
    assert_eq!(QOS, 1);
    assert_eq!(IN_FLIGHT, 100);
}

#[test]
fn envelope_keeps_four_attributes() {
    let mut e = Envelope::new();
    assert_eq!(
        e,
        Envelope { application: String::new(), device: String::new(), sender: String::new(), subject: String::new() }
    );
    e.record("subject", "dfu");
    e.record("device", "d1");
    e.record("application", "a1");
    e.record("sender", "s1");
    e.record("type", "io.drogue.event.v1");
    e.record("Subject", "other");
    e.record("device", "d2");
    assert_eq!(
        e,
        Envelope {
            application: "a1".to_string(),
            device: "d2".to_string(),
            sender: "s1".to_string(),
            subject: "dfu".to_string()
        }
    );
}

#[test]
fn payloads() {
    let st = status(b"1.0.0", None);
    let frame = encode_status(&st);
    assert_eq!(read_status("dev", Some(&EventData::Binary(frame.clone()))), Reading::Status(st.clone()));
    assert_eq!(read_status("dev", Some(&EventData::Binary(vec![1, 2, 3]))), Reading::Nothing);
    assert_eq!(read_status("dev", None), Reading::Nothing);
    assert_eq!(
        read_status("dev", Some(&EventData::String("{}".to_string()))),
        Reading::Json("{}".to_string())
    );
    assert_eq!(
        read_status("dev", Some(&EventData::Json(string("{}")))),
        Reading::Json("{}".to_string())
    );
    assert_eq!(read_status("dev", Some(&EventData::Json(uplink("AA==")))), Reading::Nothing);
    assert_eq!(read_status("dev", Some(&EventData::Json(Json::Null))), Reading::Nothing);
    // pAD2AfYC9gP2 is a4 00 f6 01 f6 02 f6 03 f6: no status, the version is missing
    assert_eq!(
        read_status("ttn-gateway", Some(&EventData::Json(uplink("pAD2AfYC9gP2")))),
        Reading::Nothing
    );
    // a4 00 41 01 01 04 02 f6 03 f6 in base64
    let st = Status { version: vec![1], correlation_id: None, mtu: Some(4), update: None };
    assert_eq!(encode_status(&st), vec![0xa4, 0x00, 0x41, 0x01, 0x01, 0x04, 0x02, 0xf6, 0x03, 0xf6]);
    assert_eq!(
        read_status("ttn-gateway", Some(&EventData::Json(uplink("pABBAQEEAvYD9g==")))),
        Reading::Status(st.clone())
    );
    // nothing but base64 is accepted
    for bad in ["pABBAQEEAvYD9g== ", "p*BBAQEEAvYD9g==", "pABBAQEEAvYD9", "", "9g=="] {
        assert_eq!(
            read_status("ttn-gateway", Some(&EventData::Json(uplink(bad)))),
            Reading::Nothing
        );
    }
    assert_eq!(read_status("ttn-gateway", Some(&EventData::Json(string("{}")))), Reading::Nothing);
    assert_eq!(
        read_status(
            "ttn-gateway",
            Some(&EventData::Json(object(vec![("uplink_message", object(vec![("frm_payload", number(1))]))])))
        ),
        Reading::Nothing
    );
    assert_eq!(read_uplink(Some(encode_status(&st))), Reading::Status(st));
    assert_eq!(read_uplink(Some(vec![0xf6])), Reading::Nothing);
    assert_eq!(read_uplink(None), Reading::Nothing);
}

fn uplink(payload: &str) -> Json {
    object(vec![
        ("end_device_ids", object(vec![("device_id", string("d1"))])),
        ("uplink_message", object(vec![("f_port", number(223)), ("frm_payload", string(payload))])),
    ])
}

#[test]
fn readable_status() {
    let st = status(b"1.0.0", Some((b"1.2.3", 64)));
    let document = write_status_document(&st);
    assert_eq!(
        document,
        object(vec![
            ("version", Json::Array(b"1.0.0".iter().map(|b| number(*b as u64)).collect())),
            ("mtu", number(64)),
            ("correlation_id", number(7)),
            (
                "update",
                object(vec![
                    ("version", Json::Array(b"1.2.3".iter().map(|b| number(*b as u64)).collect())),
                    ("offset", number(64)),
                ])
            ),
        ])
    );
    assert_eq!(read_status_document(&document), Some(st));
    let plain = Status { version: vec![], correlation_id: None, mtu: None, update: None };
    assert_eq!(read_status_document(&write_status_document(&plain)), Some(plain.clone()));
    // what may be missing may be missing, and what is not known is passed over
    assert_eq!(
        read_status_document(&object(vec![("extra", string("x")), ("version", Json::Array(vec![]))])),
        Some(plain)
    );
    // what is there must be what it should be
    for bad in [
        object(vec![]),
        object(vec![("version", string("1.0"))]),
        object(vec![("version", Json::Array(vec![number(256)]))]),
        object(vec![("version", Json::Array(vec![Json::Number(Number::Negative(-1))]))]),
        object(vec![("version", Json::Array(vec![])), ("mtu", string("64"))]),
        object(vec![("version", Json::Array(vec![])), ("mtu", number(1 << 32))]),
        object(vec![("version", Json::Array(vec![])), ("correlation_id", Json::Bool(true))]),
        object(vec![("version", Json::Array(vec![])), ("update", object(vec![]))]),
        object(vec![("version", Json::Array(vec![])), ("update", object(vec![("version", Json::Array(vec![]))]))]),
        object(vec![("version", Json::Array(vec![])), ("update", object(vec![("offset", number(1))]))]),
        Json::Array(vec![]),
        Json::Null,
    ] {
        assert_eq!(read_status_document(&bad), None);
    }
}

fn server(spec: Option<FirmwareSpec>) -> Server<FakeDevices, NoRegistry, NoServer, Files> {
    Server::new(
        Some("g".to_string()),
        vec!["a1".to_string(), "a2".to_string()],
        updater(spec, false, false, true),
    )
}

fn envelope(sender: &str, subject: &str) -> Envelope {
    let mut e = Envelope::new();
    e.record("application", "a1");
    e.record("device", "d1");
    e.record("sender", sender);
    e.record("subject", subject);
    e
}

#[test]
fn subscriptions_follow_the_applications() {
    assert_eq!(server(None).subscriptions(), vec!["$shared/g/app/a1", "$shared/g/app/a2"]);
    let plain: Server<FakeDevices, NoRegistry, NoServer, Files> =
        Server::new(None, vec!["x".to_string()], updater(None, false, false, false));
    assert_eq!(plain.subscriptions(), vec!["app/x"]);
    let none: Server<FakeDevices, NoRegistry, NoServer, Files> =
        Server::new(None, vec![], updater(None, false, false, false));
    assert!(none.subscriptions().is_empty());
}

#[test]
fn events_are_handled() {
    let file = FirmwareSpec::FILE { name: "fw".to_string() };
    let st = status(b"1.0.0", None);
    let data = EventData::Binary(encode_status(&st));
    let mut s = server(Some(file.clone()));
    match s.handle(&envelope("d1", "dfu"), Some(&data)) {
        Action::Publish(p) => {
            assert_eq!(p.topic, "command/a1/d1/dfu");
            assert_eq!(
                command(&p.payload),
                Command::Write { version: b"1.2.3".to_vec(), correlation_id: Some(7), offset: 0, data: vec![0xab; 64] }
            );
        }
        other => panic!("unexpected action {:?}", other),
    }
    // not a status event
    assert_eq!(s.handle(&envelope("d1", "telemetry"), Some(&data)), Action::Drop);
    // no payload, or none that decodes
    assert_eq!(s.handle(&envelope("d1", "dfu"), None), Action::Drop);
    assert_eq!(s.handle(&envelope("d1", "dfu"), Some(&EventData::Binary(vec![0]))), Action::Drop);
    // JSON is handed back for decoding
    assert_eq!(
        s.handle(&envelope("d1", "dfu"), Some(&EventData::String("{\"version\":[1]}".to_string()))),
        Action::Decode { text: "{\"version\":[1]}".to_string(), subject: "dfu".to_string() }
    );
    // and answered once read
    let stated = write_status_document(&status(b"1.2.3", None));
    assert_eq!(s.answer_document(&envelope("d1", "dfu"), "dfu", &Json::Null), Action::Drop);
    match s.answer_document(&envelope("d1", "dfu"), "dfu", &stated) {
        Action::Publish(p) => {
            assert_eq!(p.topic, "command/a1/d1/dfu");
            assert_eq!(
                command(&p.payload),
                Command::Sync { version: b"1.2.3".to_vec(), correlation_id: Some(7), poll: None }
            );
        }
        other => panic!("unexpected action {:?}", other),
    }
    match s.answer(&envelope("d1", "dfu"), "dfu", &status(b"1.2.3", None)) {
        Action::Publish(p) => {
            assert_eq!(p.topic, "command/a1/d1/dfu");
            assert_eq!(
                command(&p.payload),
                Command::Sync { version: b"1.2.3".to_vec(), correlation_id: Some(7), poll: None }
            );
        }
        other => panic!("unexpected action {:?}", other),
    }
    // through the gateway
    let st = Status { version: vec![1], correlation_id: None, mtu: Some(4), update: None };
    assert_eq!(encode_status(&st)[0], 0xa4);
    let relayed = EventData::Json(uplink("pABBAQEEAvYD9g=="));
    match s.handle(&envelope("ttn-gateway", "223"), Some(&relayed)) {
        Action::Publish(p) => {
            assert_eq!(p.topic, "command/a1/d1/port:223");
            assert_eq!(
                command(&p.payload),
                Command::Write { version: b"1.2.3".to_vec(), correlation_id: None, offset: 0, data: vec![0xab; 4] }
            );
        }
        other => panic!("unexpected action {:?}", other),
    }
    // the subject of a status counts whoever sends it
    match s.handle(&envelope("ttn-gateway", "dfu"), Some(&relayed)) {
        Action::Publish(p) => {
            assert_eq!(p.topic, "command/a1/d1/dfu");
            assert_eq!(
                command(&p.payload),
                Command::Write { version: b"1.2.3".to_vec(), correlation_id: None, offset: 0, data: vec![0xab; 4] }
            );
        }
        other => panic!("unexpected action {:?}", other),
    }
    assert_eq!(s.handle(&envelope("ttn-gateway", "224"), Some(&relayed)), Action::Drop);
    assert_eq!(s.handle(&envelope("d1", "223"), Some(&relayed)), Action::Drop);
    // a status that gets no command
    let mut s = server(None);
    assert_eq!(s.handle(&envelope("d1", "dfu"), Some(&data)), Action::Drop);
}

#[test]
fn a_message_that_cannot_be_read_is_passed_over() {
    let file = FirmwareSpec::FILE { name: "fw".to_string() };
    let data = EventData::Binary(encode_status(&status(b"1.2.3", None)));
    let mut s = server(Some(file));
    assert_eq!(s.handle_message(None), Action::Drop);
    // and the next one is served as ever
    let e = envelope("d1", "dfu");
    match s.handle_message(Some((&e, Some(&data)))) {
        Action::Publish(p) => {
            assert_eq!(p.topic, "command/a1/d1/dfu");
            assert_eq!(
                command(&p.payload),
                Command::Sync { version: b"1.2.3".to_vec(), correlation_id: Some(7), poll: None }
            );
        }
        other => panic!("unexpected action {:?}", other),
    }
    assert_eq!(s.handle_message(Some((&e, None))), Action::Drop);
    assert_eq!(s.handle_message(None), Action::Drop);
    assert_eq!(s.handle_message(Some((&envelope("d1", "telemetry"), Some(&data)))), Action::Drop);
    assert_eq!(
        s.handle_message(Some((&e, Some(&EventData::String("{".to_string()))))),
        Action::Decode { text: "{".to_string(), subject: "dfu".to_string() }
    );
    // text that is no JSON is dropped, a document is answered
    assert_eq!(s.answer_decoded(&e, "dfu", None), Action::Drop);
    assert_eq!(s.answer_decoded(&e, "dfu", Some(&Json::Null)), Action::Drop);
    let stated = write_status_document(&status(b"1.2.3", None));
    match s.answer_decoded(&e, "dfu", Some(&stated)) {
        Action::Publish(p) => {
            assert_eq!(p.topic, "command/a1/d1/dfu");
            assert_eq!(
                command(&p.payload),
                Command::Sync { version: b"1.2.3".to_vec(), correlation_id: Some(7), poll: None }
            );
        }
        other => panic!("unexpected action {:?}", other),
    }
}
