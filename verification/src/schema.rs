//! The declarative description of the firmware that an application or a
//! device should run, and of how to build it.

use vstd::prelude::*;

use crate::json::{member, text, Json, Member};

verus! {

/// When a container image must be looked up again.
#[derive(Debug, Clone, Copy, PartialEq, Eq)]
pub enum ImagePullPolicy {
    /// Ask the registry every time.
    Always,
    /// Use what is cached, as long as it is fresh.
    IfNotPresent,
}

impl Default for ImagePullPolicy {
    fn default() -> (policy: Self)
        ensures
            policy == ImagePullPolicy::IfNotPresent,
    {
        ImagePullPolicy::IfNotPresent
    }
}

/// Where the sources of a firmware come from.
#[derive(Debug, Clone, PartialEq, Eq)]
pub enum FirmwareBuildSource {
    /// A revision of a git repository, and the directory of the project in it.
    GIT { uri: String, project: String, rev: String },
}

/// Where a build leaves the firmware.
#[derive(Debug, Clone, PartialEq, Eq)]
pub struct FirmwareBuildArtifact {
    /// Path to the firmware, relative to the project directory.
    pub path: String,
}

/// The value of a build variable: one text or a list of them.
#[derive(Debug, Clone, PartialEq, Eq)]
pub enum BuildEnvArgValue {
    String(String),
    Array(Vec<String>),
}

/// A build variable.
#[derive(Debug, Clone, PartialEq, Eq)]
pub struct FirmwareBuildEnv {
    pub name: String,
    pub value: BuildEnvArgValue,
}

/// Whether `items` are the texts `texts` as JSON strings, in their order.
pub open spec fn is_text_list(texts: Seq<String>, items: Seq<Json>) -> bool {
    &&& items.len() == texts.len()
    &&& forall|i: int|
        0 <= i < texts.len() ==> (#[trigger] items[i]).spec_text() == Some(texts[i]@)
}

/// Whether `document` is the JSON form of the value of a build variable: a
/// string for one text, an array of strings for a list.
pub open spec fn is_env_value(value: BuildEnvArgValue, document: Json) -> bool {
    match value {
        BuildEnvArgValue::String(s) => document.spec_text() == Some(s@),
        BuildEnvArgValue::Array(a) => match document {
            Json::Array(items) => is_text_list(a@, items@),
            _ => false,
        },
    }
}

/// Whether `document` is the JSON form of a build variable: an object with
/// the members `name` and `value`, in this order.
pub open spec fn is_env_document(env: FirmwareBuildEnv, document: Json) -> bool {
    match document {
        Json::Object(members) => {
            &&& members@.len() == 2
            &&& members@[0].name@ == "name"@
            &&& members@[0].value.spec_text() == Some(env.name@)
            &&& members@[1].name@ == "value"@
            &&& is_env_value(env.value, members@[1].value)
        },
        _ => false,
    }
}

/// Whether `document` is the JSON form of a list of build variables: the
/// array of their forms, in their order.
pub open spec fn is_env_list(envs: Seq<FirmwareBuildEnv>, document: Json) -> bool {
    match document {
        Json::Array(items) => {
            &&& items@.len() == envs.len()
            &&& forall|i: int|
                0 <= i < envs.len() ==> is_env_document(envs[i], #[trigger] items@[i])
        },
        _ => false,
    }
}

impl BuildEnvArgValue {
    /// The JSON form of the value.
    pub fn document(&self) -> (document: Json)
        ensures
            is_env_value(*self, document),
    {
        match self {
            BuildEnvArgValue::String(s) => text(s.as_str()),
            BuildEnvArgValue::Array(a) => {
                let mut items: Vec<Json> = Vec::new();
                let mut i: usize = 0;
                while i < a.len()
                    invariant
                        i <= a@.len(),
                        is_text_list(a@.subrange(0, i as int), items@),
                    decreases a@.len() - i,
                {
                    items.push(text(a[i].as_str()));
                    i += 1;
                }
                assert(a@.subrange(0, i as int) =~= a@);
                Json::Array(items)
            },
        }
    }
}

impl FirmwareBuildEnv {
    /// The JSON form of the variable.
    pub fn document(&self) -> (document: Json)
        ensures
            is_env_document(*self, document),
    {
        let mut members: Vec<Member> = Vec::new();
        members.push(member("name", text(self.name.as_str())));
        members.push(member("value", self.value.document()));
        Json::Object(members)
    }
}

/// The JSON form of a list of build variables.
pub fn env_list_document(envs: &Vec<FirmwareBuildEnv>) -> (document: Json)
    ensures
        is_env_list(envs@, document),
{
    let mut items: Vec<Json> = Vec::new();
    let mut i: usize = 0;
    while i < envs.len()
        invariant
            i <= envs@.len(),
            items@.len() == i,
            forall|j: int| 0 <= j < i ==> is_env_document(envs@[j], #[trigger] items@[j]),
        decreases envs@.len() - i,
    {
        items.push(envs[i].document());
        i += 1;
    }
    Json::Array(items)
}

/// How the firmware of an application or a device is built.
#[derive(Debug, Clone, PartialEq, Eq)]
pub struct FirmwareBuildSpec {
    /// The sources.
    pub source: FirmwareBuildSource,
    /// The image of the builder, where the default one will not do.
    pub image: Option<String>,
    /// Variables of the pipeline.
    pub env: Option<Vec<FirmwareBuildEnv>>,
    /// Arguments of the build command.
    pub args: Option<Vec<String>>,
    /// What the build leaves behind.
    pub artifact: FirmwareBuildArtifact,
    /// How long the build may take.
    pub timeout: Option<String>,
}

/// The firmware that an application or a device should run, by the store
/// that holds it.
#[derive(Debug, Clone, PartialEq, Eq)]
pub enum FirmwareSpec {
    /// An image in a container registry.
    OCI { image: String, image_pull_policy: ImagePullPolicy, build: Option<FirmwareBuildSpec> },
    /// A controller of a Hawkbit update server.
    HAWKBIT { controller: String },
    /// A pair of files in a directory.
    FILE { name: String },
}

impl FirmwareSpec {
    /// Whether the specification says how to build the firmware. Only a
    /// container image can.
    pub open spec fn buildable(&self) -> bool {
        match self {
            FirmwareSpec::OCI { build, .. } => build is Some,
            _ => false,
        }
    }
}

/// One build, as the build service lists it. Times are RFC 3339 text, as the
/// orchestrator reports them.
#[derive(Debug, Clone, PartialEq, Eq)]
pub struct BuildInfo {
    pub app: String,
    pub device: Option<String>,
    pub started: Option<String>,
    pub completed: Option<String>,
    pub status: Option<String>,
}

} // verus!
