use std::cell::RefCell;
use std::collections::HashMap;
use std::rc::Rc;

use ajour::backoff::{parse_backoff, parse_field};
use ajour::file::{firmware_file_name, metadata_file_name, Directory, FileClient, FileMetadata};
use ajour::hawkbit::{
    backoff, deployment_document, feedback_for, interpret_poll, poll_document, read_metadata,
    registration, Deployment, DeploymentDocument, HawkbitClient, PollChoice, PollDocument,
    PollResult, UpdateServer,
};
use ajour::json::{path, text_at, Json, Member, Number};
use ajour::metadata::Metadata;
use ajour::oci::{
    is_fresh, millis, select_layer, ImageReference, ImageRegistry, Layer, Manifest, OciClient,
    RegistryAuth,
};
use ajour::schema::ImagePullPolicy;
use ajour::store::FirmwareStore;

#[derive(Default)]
struct Calls {
    manifests: Vec<(String, RegistryAuth)>,
    blobs: Vec<(String, String)>,
}

struct FakeRegistry {
    calls: Rc<RefCell<Calls>>,
    images: HashMap<String, Vec<Layer>>,
    blobs: HashMap<String, Vec<u8>>,
    clock: Rc<RefCell<u64>>,
}

fn place(reference: &ImageReference) -> String {
    format!("{}/{}", reference.registry, reference.repository)
}

fn whole(reference: &ImageReference) -> String {
    let mut text = place(reference);
    if let Some(tag) = &reference.tag {
        text.push(':');
        text.push_str(tag);
    }
    if let Some(digest) = &reference.digest {
        text.push('@');
        text.push_str(digest);
    }
    text
}

impl ImageRegistry for FakeRegistry {
    fn pull_manifest(&self, reference: &ImageReference, auth: &RegistryAuth) -> Result<Vec<Layer>, String> {
        self.calls.borrow_mut().manifests.push((whole(reference), auth.clone()));
        self.images.get(&place(reference)).cloned().ok_or_else(|| "no such image".to_string())
    }

    fn pull_blob(&self, reference: &ImageReference, digest: &str, _: &RegistryAuth) -> Result<Vec<u8>, String> {
        self.calls.borrow_mut().blobs.push((whole(reference), digest.to_string()));
        self.blobs.get(digest).cloned().ok_or_else(|| "no such blob".to_string())
    }

    fn now(&self) -> u64 {
        *self.clock.borrow()
    }
}

fn layer(media_type: &str, digest: &str, size: i64) -> Layer {
    Layer { media_type: media_type.to_string(), digest: digest.to_string(), size }
}

fn image(tag: &str, digest: &str, size: i64) -> Manifest {
    Manifest {
        tag: Some(tag.to_string()),
        layers: vec![
            layer("application/vnd.oci.image.config.v1+json", "sha256:c0", 10),
            layer("application/octet-stream", digest, size),
            layer("application/octet-stream", "sha256:ignored", 1),
        ],
    }
}

fn registry(names: &[&str]) -> (FakeRegistry, Rc<RefCell<Calls>>, Rc<RefCell<u64>>) {
    let calls = Rc::new(RefCell::new(Calls::default()));
    let clock = Rc::new(RefCell::new(1000u64));
    let mut images = HashMap::new();
    let mut blobs = HashMap::new();
    for name in names {
        let digest = format!("sha256:{}", name.len());
        images.insert(format!("reg.io/{}", name), image("1.2.3", &digest, 4).layers);
        blobs.insert(digest, name.as_bytes().to_vec());
    }
    (FakeRegistry { calls: calls.clone(), images, blobs, clock: clock.clone() }, calls, clock)
}

#[test]
fn metadata_comes_from_the_firmware_layer() {
    let m = image("1.2.3", "sha256:aa", 200);
    assert_eq!(
        select_layer(&m),
        Some(Metadata { version: b"1.2.3".to_vec(), checksum: "sha256:aa".to_string(), size: 200 })
    );
    let untagged = Manifest { tag: None, layers: vec![layer("application/octet-stream", "d", 1)] };
    assert_eq!(
        select_layer(&untagged),
        Some(Metadata { version: vec![], checksum: "d".to_string(), size: 1 })
    );
    let none = Manifest { tag: None, layers: vec![layer("application/octet-streams", "d", 1)] };
    assert_eq!(select_layer(&none), None);
    assert_eq!(select_layer(&Manifest { tag: None, layers: vec![] }), None);
    // the size is cut to 32 bits
    let big = Manifest { tag: None, layers: vec![layer("application/octet-stream", "d", (1i64 << 32) + 5)] };
    assert_eq!(select_layer(&big).unwrap().size, 5);
}

#[test]
fn seconds_in_milliseconds() {
    assert_eq!(millis(0), 0);
    assert_eq!(millis(60), 60_000);
    assert_eq!(millis(u64::MAX / 1000), u64::MAX / 1000 * 1000);
    assert_eq!(millis(u64::MAX / 1000 + 1), u64::MAX);
    assert_eq!(millis(u64::MAX), u64::MAX);
}

#[test]
fn freshness() {
    assert!(is_fresh(100, None, u64::MAX));
    assert!(is_fresh(100, Some(50), 149));
    assert!(!is_fresh(100, Some(50), 150));
    assert!(!is_fresh(100, Some(0), 100));
    assert!(is_fresh(100, Some(1), 100));
    assert!(is_fresh(u64::MAX, Some(u64::MAX), u64::MAX));
}

#[test]
fn cached_metadata_is_used_while_fresh() {
    let (reg, calls, _) = registry(&["a"]);
    let mut oci = OciClient::new(reg, "reg.io/".to_string(), None, None, 10, Some(60));
    let first = oci.fetch_metadata("a:1.2.3", ImagePullPolicy::IfNotPresent, 1000).unwrap().unwrap();
    assert_eq!(first.version, b"1.2.3".to_vec());
    assert_eq!(calls.borrow().manifests.len(), 1);
    assert_eq!(calls.borrow().manifests[0], ("reg.io/a:1.2.3".to_string(), RegistryAuth::Anonymous));
    // within the time to live: from the cache
    let again = oci.fetch_metadata("a:1.2.3", ImagePullPolicy::IfNotPresent, 1059).unwrap().unwrap();
    assert_eq!(again, first);
    assert_eq!(calls.borrow().manifests.len(), 1);
    // past it: asked again, and stored again
    oci.fetch_metadata("a:1.2.3", ImagePullPolicy::IfNotPresent, 1060).unwrap().unwrap();
    assert_eq!(calls.borrow().manifests.len(), 2);
    oci.fetch_metadata("a:1.2.3", ImagePullPolicy::IfNotPresent, 1100).unwrap().unwrap();
    assert_eq!(calls.borrow().manifests.len(), 2);
    assert_eq!(oci.lookup_metadata("a:1.2.3", 1119), Some(first));
    assert_eq!(oci.lookup_metadata("a:1.2.3", 1120), None);
    // the cache goes by the name as it was given
    assert_eq!(oci.lookup_metadata("a", 1100), None);
}

#[test]
fn always_bypasses_the_cache() {
    let (reg, calls, _) = registry(&["a"]);
    let mut oci = OciClient::new(reg, "reg.io/".to_string(), None, None, 10, None);
    oci.fetch_metadata("a", ImagePullPolicy::Always, 0).unwrap();
    oci.fetch_metadata("a", ImagePullPolicy::Always, 0).unwrap();
    assert_eq!(calls.borrow().manifests.len(), 2);
    // but what it fetched is there for the others
    oci.fetch_metadata("a", ImagePullPolicy::IfNotPresent, u64::MAX).unwrap();
    assert_eq!(calls.borrow().manifests.len(), 2);
}

#[test]
fn cache_evicts_the_least_recently_used() {
    let (reg, calls, _) = registry(&["a", "bb", "ccc"]);
    let mut oci = OciClient::new(reg, "reg.io/".to_string(), None, None, 2, None);
    let p = ImagePullPolicy::IfNotPresent;
    oci.fetch_metadata("a", p, 0).unwrap();
    oci.fetch_metadata("bb", p, 0).unwrap();
    // use "a", so that "bb" is the least recently used
    oci.fetch_metadata("a", p, 0).unwrap();
    assert_eq!(calls.borrow().manifests.len(), 2);
    oci.fetch_metadata("ccc", p, 0).unwrap();
    assert_eq!(calls.borrow().manifests.len(), 3);
    // "a" is still there, "bb" is gone
    oci.fetch_metadata("a", p, 0).unwrap();
    assert_eq!(calls.borrow().manifests.len(), 3);
    oci.fetch_metadata("bb", p, 0).unwrap();
    assert_eq!(calls.borrow().manifests.len(), 4);
}

#[test]
fn cache_of_no_entries_stores_nothing() {
    let (reg, calls, _) = registry(&["a"]);
    let mut oci = OciClient::new(reg, "reg.io/".to_string(), None, None, 0, None);
    oci.fetch_metadata("a", ImagePullPolicy::IfNotPresent, 0).unwrap();
    oci.fetch_metadata("a", ImagePullPolicy::IfNotPresent, 0).unwrap();
    assert_eq!(calls.borrow().manifests.len(), 2);
}

#[test]
fn firmware_is_cached_by_checksum() {
    let (reg, calls, _) = registry(&["a"]);
    let mut oci = OciClient::new(reg, "reg.io/".to_string(), None, None, 10, None);
    let md = oci.fetch_metadata("a", ImagePullPolicy::IfNotPresent, 0).unwrap().unwrap();
    assert_eq!(oci.lookup_firmware(&md.checksum), None);
    let fw = oci.fetch_firmware("a", &md, ImagePullPolicy::IfNotPresent).unwrap();
    assert_eq!(fw, b"a".to_vec());
    assert_eq!(calls.borrow().blobs, vec![("reg.io/a:latest".to_string(), "sha256:1".to_string())]);
    assert_eq!(oci.fetch_firmware("a", &md, ImagePullPolicy::IfNotPresent).unwrap(), fw);
    assert_eq!(calls.borrow().blobs.len(), 1);
    assert_eq!(oci.lookup_firmware(&md.checksum), Some(fw.clone()));
    assert_eq!(oci.fetch_firmware("a", &md, ImagePullPolicy::Always).unwrap(), fw);
    assert_eq!(calls.borrow().blobs.len(), 2);
}

#[test]
fn registry_failures_are_errors() {
    let (reg, _, _) = registry(&["a"]);
    let mut oci = OciClient::new(reg, "reg.io/".to_string(), None, None, 10, None);
    assert_eq!(
        oci.fetch_metadata("missing", ImagePullPolicy::IfNotPresent, 0),
        Err("no such image".to_string())
    );
    let md = Metadata { version: vec![], checksum: "sha256:none".to_string(), size: 0 };
    assert_eq!(
        oci.fetch_firmware("a", &md, ImagePullPolicy::IfNotPresent),
        Err("no such blob".to_string())
    );
}

#[test]
fn image_without_firmware_is_an_error() {
    let (mut reg, _, _) = registry(&[]);
    reg.images.insert("reg.io/empty".to_string(), vec![layer("text/plain", "d", 1)]);
    let mut oci = OciClient::new(reg, "reg.io/".to_string(), None, None, 10, None);
    assert_eq!(
        oci.fetch_metadata("empty", ImagePullPolicy::Always, 0),
        Err("Unable to locate metadata in image config".to_string())
    );
}

#[test]
fn version_is_the_tag_of_the_reference() {
    let hex = "0123456789abcdef".repeat(4);
    let (mut reg, calls, _) = registry(&["a"]);
    reg.images.insert("docker.io/library/fw".to_string(), image("", "sha256:bb", 9).layers);
    reg.images.insert("localhost:5000/team/fw".to_string(), image("", "sha256:cc", 9).layers);
    let mut oci = OciClient::new(reg, String::new(), None, None, 10, None);
    let p = ImagePullPolicy::Always;
    // a name without a tag or a digest means the tag `latest`
    assert_eq!(oci.fetch_metadata("reg.io/a", p, 0).unwrap().unwrap().version, b"latest".to_vec());
    assert_eq!(oci.fetch_metadata("reg.io/a:1.2.3", p, 0).unwrap().unwrap().version, b"1.2.3".to_vec());
    assert_eq!(oci.fetch_metadata("reg.io/a:v2_x-y", p, 0).unwrap().unwrap().version, b"v2_x-y".to_vec());
    // a digest alone leaves the version empty
    let by_digest = format!("reg.io/a@sha256:{}", hex);
    assert_eq!(oci.fetch_metadata(&by_digest, p, 0).unwrap().unwrap().version, Vec::<u8>::new());
    let both = format!("reg.io/a:7@sha256:{}", hex);
    assert_eq!(oci.fetch_metadata(&both, p, 0).unwrap().unwrap().version, b"7".to_vec());
    // a name without a registry belongs to the default one
    assert_eq!(oci.fetch_metadata("fw:3", p, 0).unwrap().unwrap().checksum, "sha256:bb");
    assert_eq!(oci.fetch_metadata("localhost:5000/team/fw:3", p, 0).unwrap().unwrap().checksum, "sha256:cc");
    let asked: Vec<String> = calls.borrow().manifests.iter().map(|c| c.0.clone()).collect();
    assert_eq!(
        asked,
        vec![
            "reg.io/a:latest".to_string(),
            "reg.io/a:1.2.3".to_string(),
            "reg.io/a:v2_x-y".to_string(),
            format!("reg.io/a@sha256:{}", hex),
            format!("reg.io/a:7@sha256:{}", hex),
            "docker.io/library/fw:3".to_string(),
            "localhost:5000/team/fw:3".to_string(),
        ]
    );
}

#[test]
fn a_name_that_is_no_reference_is_an_error() {
    let (reg, calls, _) = registry(&["a"]);
    let mut oci = OciClient::new(reg, String::new(), None, None, 10, None);
    let p = ImagePullPolicy::IfNotPresent;
    assert_eq!(
        oci.fetch_metadata("", p, 0),
        Err("repository name must have at least one component".to_string())
    );
    assert_eq!(oci.fetch_metadata("reg.io/A B", p, 0), Err("invalid reference format".to_string()));
    assert_eq!(oci.fetch_metadata("reg.io/a:", p, 0), Err("invalid reference format".to_string()));
    assert_eq!(
        oci.fetch_metadata("reg.io/a@sha256:0123", p, 0),
        Err("invalid reference format".to_string())
    );
    assert_eq!(
        oci.fetch_metadata(&format!("reg.io/a@sha256:{}", "0".repeat(63)), p, 0),
        Err("invalid checksum digest length".to_string())
    );
    let md = Metadata { version: vec![], checksum: "sha256:1".to_string(), size: 1 };
    assert_eq!(oci.fetch_firmware("reg.io/A B", &md, p), Err("invalid reference format".to_string()));
    // the registry was not asked
    assert!(calls.borrow().manifests.is_empty());
    assert!(calls.borrow().blobs.is_empty());
    // what is in the cache is found under any name
    let md = oci.fetch_metadata("reg.io/a", p, 0).unwrap().unwrap();
    oci.fetch_firmware("reg.io/a", &md, p).unwrap();
    assert_eq!(oci.fetch_firmware("reg.io/A B", &md, p), Ok(b"a".to_vec()));
}

#[test]
fn the_registry_is_asked_at_the_reference() {
    let (mut reg, calls, _) = registry(&["a"]);
    reg.images.insert("reg.io/bare".to_string(), vec![layer("text/plain", "d", 1)]);
    let oci = OciClient::new(reg, "ignored/".to_string(), None, None, 10, None);
    let at = |repository: &str, tag: Option<&str>| ImageReference {
        registry: "reg.io".to_string(),
        repository: repository.to_string(),
        tag: tag.map(|t| t.to_string()),
        digest: None,
    };
    assert_eq!(
        oci.pull_metadata(Ok(at("a", Some("9.9")))),
        Ok(Some(Metadata { version: b"9.9".to_vec(), checksum: "sha256:1".to_string(), size: 4 }))
    );
    assert_eq!(
        oci.pull_metadata(Ok(at("a", None))),
        Ok(Some(Metadata { version: vec![], checksum: "sha256:1".to_string(), size: 4 }))
    );
    assert_eq!(
        oci.pull_metadata(Ok(at("bare", Some("1")))),
        Err("Unable to locate metadata in image config".to_string())
    );
    assert_eq!(oci.pull_metadata(Ok(at("none", Some("1")))), Err("no such image".to_string()));
    assert_eq!(oci.pull_metadata(Err("no reference".to_string())), Err("no reference".to_string()));
    assert_eq!(oci.pull_firmware(Ok(at("a", Some("9.9"))), "sha256:1"), Ok(b"a".to_vec()));
    assert_eq!(oci.pull_firmware(Ok(at("a", Some("9.9"))), "sha256:2"), Err("no such blob".to_string()));
    assert_eq!(oci.pull_firmware(Err("no reference".to_string()), "sha256:1"), Err("no reference".to_string()));
    let asked: Vec<String> = calls.borrow().manifests.iter().map(|c| c.0.clone()).collect();
    assert_eq!(asked, vec!["reg.io/a:9.9", "reg.io/a", "reg.io/bare:1", "reg.io/none:1"]);
    assert_eq!(
        calls.borrow().blobs,
        vec![
            ("reg.io/a:9.9".to_string(), "sha256:1".to_string()),
            ("reg.io/a:9.9".to_string(), "sha256:2".to_string()),
        ]
    );
}

#[test]
fn token_makes_basic_auth() {
    let (reg, calls, _) = registry(&["a"]);
    let mut oci = OciClient::new(reg, "reg.io/".to_string(), Some("me".to_string()), Some("t".to_string()), 1, None);
    oci.fetch_metadata("a", ImagePullPolicy::Always, 0).unwrap();
    assert_eq!(calls.borrow().manifests[0].1, RegistryAuth::Basic("me".to_string(), "t".to_string()));
    let (reg, calls, _) = registry(&["a"]);
    let mut oci = OciClient::new(reg, "reg.io/".to_string(), None, Some("t".to_string()), 1, None);
    oci.fetch_metadata("a", ImagePullPolicy::Always, 0).unwrap();
    assert_eq!(calls.borrow().manifests[0].1, RegistryAuth::Basic(String::new(), "t".to_string()));
    let (reg, calls, _) = registry(&["a"]);
    let mut oci = OciClient::new(reg, "reg.io/".to_string(), Some("me".to_string()), None, 1, None);
    oci.fetch_metadata("a", ImagePullPolicy::Always, 0).unwrap();
    assert_eq!(calls.borrow().manifests[0].1, RegistryAuth::Anonymous);
}

#[test]
fn oci_store_uses_the_clock_of_its_registry() {
    let (reg, calls, clock) = registry(&["a"]);
    let mut oci = OciClient::new(reg, "reg.io/".to_string(), None, None, 10, Some(10));
    let params = ("a".to_string(), ImagePullPolicy::IfNotPresent);
    let (_, md) = FirmwareStore::fetch_metadata(&mut oci, &params).unwrap();
    assert!(md.is_some());
    *clock.borrow_mut() = 1009;
    FirmwareStore::fetch_metadata(&mut oci, &params).unwrap();
    assert_eq!(calls.borrow().manifests.len(), 1);
    *clock.borrow_mut() = 1010;
    FirmwareStore::fetch_metadata(&mut oci, &params).unwrap();
    assert_eq!(calls.borrow().manifests.len(), 2);
    assert_eq!(oci.get_backoff(&()), None);
    assert_eq!(oci.update_progress(&params, &(), 1, 2), Ok(()));
    assert_eq!(oci.mark_synced(&params, &(), true), Ok(()));
    assert_eq!(
        FirmwareStore::fetch_firmware(&mut oci, &params, &(), &md.unwrap()),
        Ok(b"a".to_vec())
    );
}

#[test]
fn backoff_fields() {
    assert_eq!(parse_field(b"0"), Some(0));
    assert_eq!(parse_field(b"00012"), Some(12));
    assert_eq!(parse_field(b"+7"), Some(7));
    assert_eq!(parse_field(b"-7"), Some(-7));
    assert_eq!(parse_field(b"9223372036854775807"), Some(i64::MAX));
    assert_eq!(parse_field(b"-9223372036854775808"), Some(i64::MIN));
    assert_eq!(parse_field(b"9223372036854775808"), None);
    assert_eq!(parse_field(b"-9223372036854775809"), None);
    assert_eq!(parse_field(b"99999999999999999999999999999999999999999999"), None);
    assert_eq!(parse_field(b""), None);
    assert_eq!(parse_field(b"+"), None);
    assert_eq!(parse_field(b"-"), None);
    assert_eq!(parse_field(b" 1"), None);
    assert_eq!(parse_field(b"1 "), None);
    assert_eq!(parse_field(b"1a"), None);
    assert_eq!(parse_field(b"--1"), None);
    for text in ["0", "00012", "+7", "-7", "", "+", "1a", " 1", "9223372036854775808"] {
        assert_eq!(parse_field(text.as_bytes()), text.parse::<i64>().ok());
    }
}

#[test]
fn backoff_is_days_hours_seconds() {
    assert_eq!(parse_backoff("00:00:42"), Some(42));
    assert_eq!(parse_backoff("0:0:0"), Some(0));
    assert_eq!(parse_backoff("1:2:3"), Some(86400 + 7200 + 3));
    assert_eq!(parse_backoff("00:05:00"), Some(5 * 3600));
    assert_eq!(parse_backoff("2"), Some(2 * 86400));
    assert_eq!(parse_backoff("2:3"), Some(2 * 86400 + 3 * 3600));
    assert_eq!(parse_backoff("1:-1:0"), Some(86400 - 3600));
    assert_eq!(parse_backoff("0:0:-1"), None);
    assert_eq!(parse_backoff("-1:0:0"), None);
    assert_eq!(parse_backoff("1:2:3:4"), None);
    assert_eq!(parse_backoff(""), None);
    assert_eq!(parse_backoff(":"), None);
    assert_eq!(parse_backoff("1::3"), None);
    assert_eq!(parse_backoff("1:2:"), None);
    assert_eq!(parse_backoff("a:b:c"), None);
    assert_eq!(parse_backoff("00:00:30 "), None);
    assert_eq!(parse_backoff("213503982334601:7:15"), Some(213503982334601 * 86400 + 7 * 3600 + 15));
    assert_eq!(parse_backoff("213503982334602:0:0"), None);
}

#[test]
fn poll_without_deployment_waits() {
    let doc = PollDocument { deployment_base: None, sleep: Some("00:00:42".to_string()) };
    assert!(matches!(interpret_poll(doc), PollChoice::Wait(42)));
    let doc = PollDocument { deployment_base: None, sleep: None };
    assert!(matches!(interpret_poll(doc), PollChoice::Unusable));
    let doc = PollDocument { deployment_base: None, sleep: Some("soon".to_string()) };
    assert!(matches!(interpret_poll(doc), PollChoice::Unusable));
    let doc = PollDocument { deployment_base: Some("http://h/d/1".to_string()), sleep: Some("0:0:1".to_string()) };
    match interpret_poll(doc) {
        PollChoice::Deployment(address) => assert_eq!(address, "http://h/d/1"),
        _ => panic!("no deployment"),
    }
    assert_eq!(backoff(&PollResult::Wait(42)), Some(42));
    assert_eq!(backoff(&PollResult::Wait((1 << 32) + 3)), Some(3));
    assert_eq!(
        backoff(&PollResult::Deployment(Deployment { id: "1".to_string(), path: "p".to_string() })),
        None
    );
}

#[test]
fn deployment_descriptor() {
    let full = DeploymentDocument {
        id: Some("17".to_string()),
        version: Some("1.2.3".to_string()),
        size: Some(200),
        download: Some("http://h/f".to_string()),
    };
    assert_eq!(
        read_metadata(full.clone()),
        Some((
            Metadata { version: b"1.2.3".to_vec(), checksum: String::new(), size: 200 },
            Deployment { id: "17".to_string(), path: "http://h/f".to_string() },
        ))
    );
    assert_eq!(read_metadata(DeploymentDocument { id: None, ..full.clone() }), None);
    assert_eq!(read_metadata(DeploymentDocument { version: None, ..full.clone() }), None);
    assert_eq!(read_metadata(DeploymentDocument { size: None, ..full.clone() }), None);
    assert_eq!(read_metadata(DeploymentDocument { download: None, ..full }), None);
}

fn json(value: &serde_json::Value) -> Json {
    match value {
        serde_json::Value::Null => Json::Null,
        serde_json::Value::Bool(b) => Json::Bool(*b),
        serde_json::Value::Number(n) => Json::Number(match (n.as_u64(), n.as_i64()) {
            (Some(u), _) => Number::Unsigned(u),
            (None, Some(i)) => Number::Negative(i),
            _ => Number::Other(n.to_string()),
        }),
        serde_json::Value::String(s) => Json::Text(s.clone()),
        serde_json::Value::Array(a) => Json::Array(a.iter().map(json).collect()),
        serde_json::Value::Object(o) => Json::Object(
            o.iter().map(|(k, v)| Member { name: k.clone(), value: json(v) }).collect(),
        ),
    }
}

fn parse(text: &str) -> Json {
    json(&serde_json::from_str(text).unwrap())
}

fn value(document: &Json) -> serde_json::Value {
    match document {
        Json::Null => serde_json::Value::Null,
        Json::Bool(b) => serde_json::Value::Bool(*b),
        Json::Number(Number::Unsigned(u)) => serde_json::Value::Number((*u).into()),
        Json::Number(Number::Negative(i)) => serde_json::Value::Number((*i).into()),
        Json::Number(Number::Other(t)) => serde_json::from_str(t).unwrap(),
        Json::Text(s) => serde_json::Value::String(s.clone()),
        Json::Array(a) => serde_json::Value::Array(a.iter().map(value).collect()),
        Json::Object(o) => serde_json::Value::Object(
            o.iter().map(|m| (m.name.clone(), value(&m.value))).collect(),
        ),
    }
}

#[test]
fn json_documents() {
    let d = parse(r#"{"a": {"b": [1, "x", null, true, -2, 1.5]}, "a2": "t", "n": 18446744073709551615}"#);
    assert_eq!(d.member("a2").and_then(|v| v.as_str()), Some("t"));
    assert_eq!(d.member("missing"), None);
    assert_eq!(path(&d, &[]), Some(&d));
    assert_eq!(path(&d, &["a", "b"]).and_then(|b| b.element(1)), Some(&Json::Text("x".to_string())));
    assert_eq!(path(&d, &["a", "b", "c"]), None);
    assert_eq!(path(&d, &["a2", "b"]), None);
    assert_eq!(text_at(&d, &["a2"]), Some("t".to_string()));
    assert_eq!(text_at(&d, &["a"]), None);
    let list = path(&d, &["a", "b"]).unwrap();
    assert_eq!(list.element(0).and_then(|v| v.as_i64()), Some(1));
    assert_eq!(list.element(4).and_then(|v| v.as_i64()), Some(-2));
    assert_eq!(list.element(5).and_then(|v| v.as_i64()), None);
    assert_eq!(list.element(1).and_then(|v| v.as_i64()), None);
    assert_eq!(list.element(6), None);
    assert_eq!(list.member("a"), None);
    assert_eq!(d.element(0), None);
    assert_eq!(d.member("n").and_then(|v| v.as_i64()), None);
    assert_eq!(d.as_str(), None);
    // of two members of one name the first counts
    let twice = Json::Object(vec![
        Member { name: "k".to_string(), value: Json::Bool(true) },
        Member { name: "k".to_string(), value: Json::Bool(false) },
    ]);
    assert_eq!(twice.member("k"), Some(&Json::Bool(true)));
}

#[test]
fn poll_answers() {
    let waiting = parse(r#"{"config": {"polling": {"sleep": "00:00:42"}}, "_links": {"configData": {"href": "x"}}}"#);
    assert_eq!(
        poll_document(&waiting),
        PollDocument { deployment_base: None, sleep: Some("00:00:42".to_string()) }
    );
    let pending = parse(
        r#"{"config": {"polling": {"sleep": "00:01:00"}}, "_links": {"deploymentBase": {"href": "http://h/base/17"}}}"#,
    );
    assert_eq!(
        poll_document(&pending),
        PollDocument {
            deployment_base: Some("http://h/base/17".to_string()),
            sleep: Some("00:01:00".to_string())
        }
    );
    assert_eq!(
        poll_document(&parse(r#"{"config": {"polling": {"sleep": 42}}, "_links": {"deploymentBase": {"href": null}}}"#)),
        PollDocument { deployment_base: None, sleep: None }
    );
    assert_eq!(poll_document(&parse("[]")), PollDocument { deployment_base: None, sleep: None });
}

#[test]
fn deployment_descriptors() {
    let full = parse(
        r#"{"id": "17", "deployment": {"download": "forced", "chunks": [
            {"part": "os", "version": "1.2.3", "name": "fw", "artifacts": [
                {"filename": "fw.bin", "size": 200, "_links": {"download-http": {"href": "http://h/f"}, "download": {"href": "https://h/f"}}},
                {"filename": "other", "size": 1}
            ]},
            {"part": "app", "version": "9", "artifacts": []}
        ]}}"#,
    );
    assert_eq!(
        deployment_document(&full),
        DeploymentDocument {
            id: Some("17".to_string()),
            version: Some("1.2.3".to_string()),
            size: Some(200),
            download: Some("http://h/f".to_string()),
        }
    );
    assert_eq!(
        deployment_document(&parse(r#"{"id": 17, "deployment": {"chunks": [{"version": "1", "artifacts": []}]}}"#)),
        DeploymentDocument { id: None, version: Some("1".to_string()), size: None, download: None }
    );
    assert_eq!(
        deployment_document(&parse(r#"{"id": "1", "deployment": {"chunks": []}}"#)),
        DeploymentDocument { id: Some("1".to_string()), version: None, size: None, download: None }
    );
    assert_eq!(
        deployment_document(&parse("null")),
        DeploymentDocument { id: None, version: None, size: None, download: None }
    );
}

#[test]
fn feedback_document() {
    assert_eq!(
        value(&feedback_for("17", true)),
        serde_json::from_str::<serde_json::Value>(
            r#"{"id":"17","status":{"result":{"finished":"success"},"execution":"closed","details":["Update was successfully installed."]}}"#
        )
        .unwrap()
    );
    assert_eq!(
        text_at(&feedback_for("17", false), &["status", "result", "finished"]),
        Some("failed".to_string())
    );
    assert_eq!(
        value(&registration()),
        serde_json::from_str::<serde_json::Value>(
            r#"{"mode":"merge","data":{"VIN":"JH4TB2H26CC000001","hwRevision":"1"},"status":{"result":{"finished":"success"},"execution":"closed","details":[]}}"#
        )
        .unwrap()
    );
}

#[derive(Default)]
struct Requests {
    log: Vec<String>,
    sent: Vec<serde_json::Value>,
}

struct FakeServer {
    requests: Rc<RefCell<Requests>>,
    poll: Result<String, String>,
    deployment: Result<String, String>,
}

impl UpdateServer for FakeServer {
    fn put(&self, url: &str, authorization: &str, document: &Json) -> Result<(), String> {
        self.requests.borrow_mut().log.push(format!("PUT {} {}", url, authorization));
        self.requests.borrow_mut().sent.push(value(document));
        Err("refused".to_string())
    }

    fn get(&self, url: &str, authorization: &str) -> Result<Json, String> {
        self.requests.borrow_mut().log.push(format!("GET {} {}", url, authorization));
        if url.contains("/controller/v1/") {
            self.poll.clone().map(|t| parse(&t))
        } else {
            self.deployment.clone().map(|t| parse(&t))
        }
    }

    fn download(&self, url: &str, authorization: &str) -> Result<Vec<u8>, String> {
        self.requests.borrow_mut().log.push(format!("GET {} {}", url, authorization));
        Ok(vec![1, 2, 3])
    }

    fn post(&self, url: &str, authorization: &str, document: &Json) -> Result<(), String> {
        self.requests.borrow_mut().log.push(format!("POST {} {}", url, authorization));
        self.requests.borrow_mut().sent.push(value(document));
        Ok(())
    }
}

const DEPLOYMENT: &str = r#"{"id": "17", "deployment": {"chunks": [{"version": "1.2.3", "artifacts": [
    {"size": 3, "_links": {"download-http": {"href": "http://h/download"}}}]}]}}"#;

fn hawkbit(poll: &str) -> (HawkbitClient<FakeServer>, Rc<RefCell<Requests>>) {
    let requests = Rc::new(RefCell::new(Requests::default()));
    let server = FakeServer {
        requests: requests.clone(),
        poll: Ok(poll.to_string()),
        deployment: Ok(DEPLOYMENT.to_string()),
    };
    (HawkbitClient::new(server, "http://h", "T", "secret"), requests)
}

#[test]
fn hawkbit_addresses() {
    let (hb, _) = hawkbit("{}");
    assert_eq!(hb.controller_url("c1"), "http://h/T/controller/v1/c1");
    assert_eq!(hb.feedback_url("c1", "17"), "http://h/T/controller/v1/c1/deploymentBase/17/feedback");
    assert_eq!(hb.authorization(), "GatewayToken secret");
}

#[test]
fn hawkbit_with_deployment() {
    let (mut hb, requests) = hawkbit(
        r#"{"config": {"polling": {"sleep": "00:00:10"}}, "_links": {"deploymentBase": {"href": "http://h/base/17"}}}"#,
    );
    assert_eq!(hb.register("c1"), Ok(()));
    let params = "c1".to_string();
    let (context, md) = FirmwareStore::fetch_metadata(&mut hb, &params).unwrap();
    let md = md.unwrap();
    assert_eq!(md, Metadata { version: b"1.2.3".to_vec(), checksum: String::new(), size: 3 });
    assert_eq!(
        context,
        PollResult::Deployment(Deployment { id: "17".to_string(), path: "http://h/download".to_string() })
    );
    assert_eq!(hb.get_backoff(&context), None);
    assert_eq!(FirmwareStore::fetch_firmware(&mut hb, &params, &context, &md), Ok(vec![1, 2, 3]));
    assert_eq!(hb.mark_synced(&params, &context, true), Ok(()));
    assert_eq!(hb.update_progress(&params, &context, 1, 3), Ok(()));
    assert_eq!(
        requests.borrow().log,
        vec![
            "PUT http://h/T/controller/v1/c1 GatewayToken secret",
            "GET http://h/T/controller/v1/c1 GatewayToken secret",
            "GET http://h/base/17 GatewayToken secret",
            "GET http://h/download GatewayToken secret",
            "POST http://h/T/controller/v1/c1/deploymentBase/17/feedback GatewayToken secret",
        ]
    );
    assert_eq!(requests.borrow().sent, vec![value(&registration()), value(&feedback_for("17", true))]);
}

#[test]
fn hawkbit_without_deployment() {
    let (mut hb, requests) = hawkbit(r#"{"config": {"polling": {"sleep": "00:00:42"}}}"#);
    let params = "c1".to_string();
    let (context, md) = FirmwareStore::fetch_metadata(&mut hb, &params).unwrap();
    assert_eq!(md, None);
    assert_eq!(context, PollResult::Wait(42));
    assert_eq!(hb.get_backoff(&context), Some(42));
    assert_eq!(hb.mark_synced(&params, &context, true), Ok(()));
    let md = Metadata { version: vec![], checksum: String::new(), size: 0 };
    assert_eq!(
        FirmwareStore::fetch_firmware(&mut hb, &params, &context, &md),
        Err("Unexpected PollResult".to_string())
    );
    assert_eq!(requests.borrow().log.len(), 1);
}

#[test]
fn hawkbit_with_unusable_answers() {
    let (mut hb, _) = hawkbit(r#"{"config": {"polling": {"sleep": "-1:0:0"}}}"#);
    assert!(hb.fetch_metadata("c1").is_err());
    let (mut hb, _) = hawkbit("{}");
    assert!(hb.fetch_metadata("c1").is_err());
    let requests = Rc::new(RefCell::new(Requests::default()));
    let server = FakeServer {
        requests: requests.clone(),
        poll: Ok(r#"{"_links": {"deploymentBase": {"href": "http://h/base"}}}"#.to_string()),
        deployment: Ok("{}".to_string()),
    };
    let mut hb = HawkbitClient::new(server, "http://h", "T", "secret");
    assert!(hb.fetch_metadata("c1").is_err());
    let server = FakeServer {
        requests,
        poll: Err("down".to_string()),
        deployment: Err("down".to_string()),
    };
    let mut hb = HawkbitClient::new(server, "http://h", "T", "secret");
    assert_eq!(hb.fetch_metadata("c1"), Err("down".to_string()));
}

struct FakeDirectory {
    reads: Rc<RefCell<Vec<String>>>,
}

impl Directory for FakeDirectory {
    fn read_metadata(&self, dir: &str, file: &str) -> Result<FileMetadata, String> {
        self.reads.borrow_mut().push(format!("{}|{}", dir, file));
        if file == "fw.json" {
            Ok(FileMetadata { version: "1.2.3".to_string(), checksum: "00".to_string(), size: 3 })
        } else {
            Err("not found".to_string())
        }
    }

    fn read(&self, dir: &str, file: &str) -> Result<Vec<u8>, String> {
        self.reads.borrow_mut().push(format!("{}|{}", dir, file));
        Ok(vec![1, 2, 3])
    }
}

#[test]
fn file_store() {
    assert_eq!(metadata_file_name("fw"), "fw.json");
    assert_eq!(firmware_file_name("fw"), "fw.bin");
    let reads = Rc::new(RefCell::new(Vec::new()));
    let mut files = FileClient::new("/data", FakeDirectory { reads: reads.clone() });
    let params = "fw".to_string();
    let (context, md) = files.fetch_metadata(&params).unwrap();
    let md = md.unwrap();
    assert_eq!(md, Metadata { version: b"1.2.3".to_vec(), checksum: "00".to_string(), size: 3 });
    assert_eq!(files.fetch_firmware(&params, &context, &md), Ok(vec![1, 2, 3]));
    assert_eq!(files.get_backoff(&context), None);
    assert_eq!(files.update_progress(&params, &context, 0, 3), Ok(()));
    assert_eq!(files.mark_synced(&params, &context, false), Ok(()));
    assert_eq!(*reads.borrow(), vec!["/data|fw.json".to_string(), "/data|fw.bin".to_string()]);
    assert!(files.fetch_metadata(&"other".to_string()).is_err());
}

#[test]
fn file_metadata_becomes_metadata() {
    let file = FileMetadata { version: "é1".to_string(), checksum: "sha256:ab".to_string(), size: 9 };
    assert_eq!(
        Metadata::from(file),
        Metadata { version: vec![0xc3, 0xa9, b'1'], checksum: "sha256:ab".to_string(), size: 9 }
    );
}
