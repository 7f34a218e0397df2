//! The polling endpoint: a device asks over HTTP what it should run, and
//! fetches it.

use vstd::prelude::*;

use crate::json::{spec_text_at, text_at, Json};
use crate::views::opt_text;

verus! {

/// The description of an image as the endpoint reports it.
#[derive(Debug, Clone, PartialEq, Eq)]
pub struct Metadata {
    pub version: String,
    pub size: String,
}

/// The answer to a poll.
#[derive(Debug, Clone, PartialEq, Eq)]
pub struct PollResponse {
    /// The version that is wanted at present.
    pub current: Option<Metadata>,
    /// The number of seconds after which to poll again.
    pub interval: Option<i64>,
}

/// The answer to a fetch.
#[derive(Debug, Clone, PartialEq, Eq)]
pub struct FirmwareResponse {
    pub metadata: Metadata,
    pub payload: Vec<u8>,
}

/// The name of an image.
#[derive(Debug, Clone, PartialEq, Eq)]
pub struct Image(pub String);

/// A version of an image.
#[derive(Debug, Clone, PartialEq, Eq)]
pub struct Version(pub String);

/// The number of seconds after which a device polls again.
pub const POLL_INTERVAL: i64 = 30;

/// The reference of a version of an image: `{image}:{version}`.
pub open spec fn spec_image_reference(image: Seq<char>, version: Seq<char>) -> Seq<char> {
    image + ":"@ + version
}

/// The reference of a version of an image.
pub fn image_reference(image: &Image, version: &Version) -> (reference: String)
    ensures
        reference@ == spec_image_reference(image.0@, version.0@),
{
    let mut reference = image.0.clone();
    reference.append(":");
    reference.append(version.0.as_str());
    reference
}

/// The answer to a poll: what is wanted, as far as it could be found out,
/// and the interval after which to ask again.
pub fn poll_response(current: Option<Metadata>) -> (response: PollResponse)
    ensures
        response.current == current,
        response.interval == Some(POLL_INTERVAL),
{
    PollResponse { current, interval: Some(POLL_INTERVAL) }
}

/// The answer to a fetch, where both the description and the image could be had.
pub fn firmware_response(
    metadata: Result<Metadata, String>,
    payload: Result<Vec<u8>, String>,
) -> (response: Option<FirmwareResponse>)
    ensures
        match (metadata, payload) {
            (Ok(m), Ok(p)) => response == Some(FirmwareResponse { metadata: m, payload: p }),
            _ => response is None,
        },
{
    match (metadata, payload) {
        (Ok(metadata), Ok(payload)) => Some(FirmwareResponse { metadata, payload }),
        _ => None,
    }
}

/// Where the configuration of an image holds the description of the
/// firmware, as JSON text: the label `io.drogue.metadata`.
pub open spec fn label_path() -> Seq<&'static str> {
    seq!["config", "Labels", "io.drogue.metadata"]
}

/// The description of the firmware in the configuration of an image, as
/// the text of its label.
pub fn metadata_label(config: &Json) -> (label: Option<String>)
    ensures
        opt_text(label) == spec_text_at(*config, label_path()),
{
    let names: [&str; 3] = ["config", "Labels", "io.drogue.metadata"];
    assert(names@ =~= label_path());
    text_at(config, names.as_slice())
}

/// The description that a label holds, if it holds the texts `version` and
/// `size`.
pub fn label_metadata(label: &Json) -> (metadata: Option<Metadata>)
    ensures
        match metadata {
            Some(m) => {
                &&& spec_text_at(*label, seq!["version"]) == Some(m.version@)
                &&& spec_text_at(*label, seq!["size"]) == Some(m.size@)
            },
            None => spec_text_at(*label, seq!["version"]) is None || spec_text_at(
                *label,
                seq!["size"],
            ) is None,
        },
{
    let version_path: [&str; 1] = ["version"];
    let size_path: [&str; 1] = ["size"];
    assert(version_path@ =~= seq!["version"]);
    assert(size_path@ =~= seq!["size"]);
    match (text_at(label, version_path.as_slice()), text_at(label, size_path.as_slice())) {
        (Some(version), Some(size)) => Some(Metadata { version, size }),
        _ => None,
    }
}

/// The directory that says which version of each image is the latest.
#[derive(Debug, Clone, PartialEq, Eq)]
pub struct Index {
    dir: String,
}

/// The file that names the latest version of an image: `{dir}/{image}/latest`.
pub open spec fn spec_latest_file(dir: Seq<char>, image: Seq<char>) -> Seq<char> {
    dir + "/"@ + image + "/latest"@
}

impl Index {
    /// The directory of the index.
    pub closed spec fn dir(&self) -> Seq<char> {
        self.dir@
    }

    /// The index in the directory `dir`.
    pub fn new(dir: String) -> (index: Self)
        ensures
            index.dir() == dir@,
    {
        Index { dir }
    }

    /// The file that names the latest version of `image`.
    pub fn latest_file(&self, image: &str) -> (file: String)
        ensures
            file@ == spec_latest_file(self.dir(), image@),
    {
        let mut file = self.dir.clone();
        file.append("/");
        file.append(image);
        file.append("/latest");
        file
    }

    /// The latest version of an image, given what reading its file gave:
    /// the content of the file, or nothing where it could not be read.
    pub fn latest_version(&self, content: Result<String, String>) -> (version: Option<String>)
        ensures
            match content {
                Ok(text) => version == Some(text),
                Err(_) => version is None,
            },
    {
        match content {
            Ok(text) => Some(text),
            Err(_) => None,
        }
    }
}

} // verus!
