//! Builds of firmware: who may trigger one, what the pipeline run looks
//! like, and how the runs of the orchestrator are listed.

use vstd::prelude::*;

use crate::json::{
    lemma_member_found, lemma_text_inside, lemma_text_of_member, member, path, spec_path,
    spec_text_at, text, text_at, Json, Member,
};
use crate::schema::{BuildInfo, FirmwareBuildSource, FirmwareBuildSpec, FirmwareSpec};
use crate::views::{opt_str, opt_text};
use crate::text::{concat2, str_eq};

verus! {

/// The settings of the build service.
#[derive(Debug, Clone, PartialEq, Eq)]
pub struct ApiConfig {
    /// The applications for which builds may be triggered.
    pub apps: Vec<String>,
    /// The namespace in which pipeline runs are made.
    pub namespace: String,
    /// The pipeline that builds firmware.
    pub pipeline: String,
    /// The size of the workspace of a build.
    pub volume_size: String,
    /// The account under which a build runs.
    pub service_account: String,
}

/// Whether `name` is one of `names`.
pub open spec fn listed(names: Seq<String>, name: Seq<char>) -> bool {
    exists|i: int| 0 <= i < names.len() && (#[trigger] names[i])@ == name
}

/// Whether `name` is one of `names`.
pub fn contains_name(names: &Vec<String>, name: &str) -> (found: bool)
    ensures
        found == listed(names@, name@),
{
    let n = names.len();
    let mut i: usize = 0;
    while i < n
        invariant
            i <= n,
            n == names@.len(),
            forall|j: int| 0 <= j < i ==> (#[trigger] names@[j])@ != name@,
        decreases n - i,
    {
        if str_eq(names[i].as_str(), name) {
            return true;
        }
        i += 1;
    }
    false
}

impl ApiConfig {
    /// The settings of a service that builds in `namespace` for the
    /// applications of the list `allowed`, whose names are separated by commas,
    /// and for none where there is no list. The pipeline is `oci-firmware`, it
    /// runs under the account `pipeline`, and its workspace is of 10 Gi.
    pub fn with_defaults(namespace: &str, allowed: Option<&str>) -> (config: Self)
        ensures
            config.apps@.map_values(|a: String| a@) == match allowed {
                Some(list) => crate::text::comma_separated(list@),
                None => Seq::<Seq<char>>::empty(),
            },
            config.namespace@ == namespace@,
            config.pipeline@ == "oci-firmware"@,
            config.volume_size@ == "10Gi"@,
            config.service_account@ == "pipeline"@,
    {
        let apps: Vec<String> = match allowed {
            Some(list) => crate::text::split_commas(list),
            None => Vec::new(),
        };
        assert(apps@.len() == 0 ==> apps@.map_values(|a: String| a@) =~= Seq::<
            Seq<char>,
        >::empty());
        ApiConfig {
            apps,
            namespace: namespace.to_owned(),
            pipeline: "oci-firmware".to_owned(),
            volume_size: "10Gi".to_owned(),
            service_account: "pipeline".to_owned(),
        }
    }

    /// Whether builds may be triggered for the application `app`.
    pub fn is_allowed(&self, app: &str) -> (allowed: bool)
        ensures
            allowed == listed(self.apps@, app@),
    {
        contains_name(&self.apps, app)
    }
}

/// The name of the pipeline run that builds for an application or for one
/// of its devices: `app-{app}` or `dev-{app}-{dev}`. The same target always
/// gets the same name.
pub open spec fn spec_build_name(app: Seq<char>, dev: Option<Seq<char>>) -> Seq<char> {
    match dev {
        Some(dev) => "dev-"@ + app + "-"@ + dev,
        None => "app-"@ + app,
    }
}

/// The name of the pipeline run that builds for `app`, or for its device `dev`.
pub fn build_name(app: &str, dev: Option<&str>) -> (name: String)
    ensures
        name@ == spec_build_name(app@, opt_str(dev)),
{
    match dev {
        Some(dev) => {
            let mut name = "dev-".to_owned();
            name.append(app);
            name.append("-");
            name.append(dev);
            name
        },
        None => concat2("app-", app),
    }
}

/// Whether the firmware section of an application or a device, as far as it
/// could be read, says how to build the firmware.
pub open spec fn spec_has_build_spec(spec: Option<Result<FirmwareSpec, String>>) -> bool {
    match spec {
        Some(Ok(spec)) => spec.buildable(),
        _ => false,
    }
}

/// Whether a firmware section says how to build the firmware.
pub fn has_build_spec(spec: &Option<Result<FirmwareSpec, String>>) -> (buildable: bool)
    ensures
        buildable == spec_has_build_spec(*spec),
{
    if let Some(Ok(FirmwareSpec::OCI { image: _, image_pull_policy: _, build })) = spec {
        return build.is_some();
    }
    false
}

/// How a request ended, as the status of the HTTP response.
#[derive(Debug, Clone, Copy, PartialEq, Eq)]
pub enum HttpStatus {
    /// 200
    Done,
    /// 400
    BadRequest,
    /// 403
    Forbidden,
    /// 404
    NotFound,
    /// 500
    InternalServerError,
    /// 501
    NotImplemented,
}

impl HttpStatus {
    /// The number of the status.
    pub fn code(&self) -> (code: u16)
        ensures
            code == match self {
                HttpStatus::Done => 200u16,
                HttpStatus::BadRequest => 400u16,
                HttpStatus::Forbidden => 403u16,
                HttpStatus::NotFound => 404u16,
                HttpStatus::InternalServerError => 500u16,
                HttpStatus::NotImplemented => 501u16,
            },
    {
        match self {
            HttpStatus::Done => 200,
            HttpStatus::BadRequest => 400,
            HttpStatus::Forbidden => 403,
            HttpStatus::NotFound => 404,
            HttpStatus::InternalServerError => 500,
            HttpStatus::NotImplemented => 501,
        }
    }
}

/// A parameter of a pipeline run.
#[derive(Debug, Clone, PartialEq, Eq)]
pub struct Param {
    pub name: String,
    pub value: String,
}

/// A pipeline run, ready to be submitted to the orchestrator.
#[derive(Debug, Clone, PartialEq, Eq)]
pub struct PipelineRun {
    pub name: String,
    pub namespace: String,
    /// The label `application`.
    pub application: String,
    /// The label `device`, for the build of a device.
    pub device: Option<String>,
    pub params: Vec<Param>,
    pub pipeline: String,
    pub service_account: String,
    pub timeout: String,
    /// The size of the volume claimed for the workspace `build`.
    pub volume_size: String,
}

/// The texts of `parts`, with `separator` between one and the next.
pub open spec fn joined(parts: Seq<String>, separator: Seq<char>) -> Seq<char>
    decreases parts.len(),
{
    if parts.len() == 0 {
        Seq::<char>::empty()
    } else if parts.len() == 1 {
        parts[0]@
    } else {
        joined(parts.drop_last(), separator) + separator + parts.last()@
    }
}

/// Joins `parts` with `separator`.
pub fn join(parts: &Vec<String>, separator: &str) -> (text: String)
    ensures
        text@ == joined(parts@, separator@),
{
    let mut text = String::new();
    let n = parts.len();
    let mut i: usize = 0;
    while i < n
        invariant
            i <= n,
            n == parts@.len(),
            text@ == joined(parts@.take(i as int), separator@),
        decreases n - i,
    {
        let ghost longer = parts@.take(i + 1);
        proof {
            assert(longer.drop_last() =~= parts@.take(i as int));
            assert(longer.last() == parts@[i as int]);
        }
        if i > 0 {
            text.append(separator);
        }
        text.append(parts[i].as_str());
        proof {
            if i == 0 {
                assert(text@ =~= parts@[0]@);
            }
        }
        i += 1;
    }
    assert(parts@.take(n as int) =~= parts@);
    text
}

/// The timeout of a build that does not state one.
pub open spec fn default_timeout() -> Seq<char> {
    "1h0m0s"@
}

/// A parameter, taken by its texts.
pub open spec fn param_view(param: Param) -> (Seq<char>, Seq<char>) {
    (param.name@, param.value@)
}

/// The parameters of the run that builds `image` as `spec` says: the
/// repository, the revision, the path of the project and the image, then the
/// build arguments joined by a blank, if there are any, then the image of the
/// builder, if one is named.
pub open spec fn spec_params(image: Seq<char>, spec: FirmwareBuildSpec) -> Seq<
    (Seq<char>, Seq<char>),
> {
    let (uri, rev, project) = match spec.source {
        FirmwareBuildSource::GIT { uri, rev, project } => (uri, rev, project),
    };
    let fixed = seq![
        ("GIT_REPO"@, uri@),
        ("GIT_REVISION"@, rev@),
        ("PROJECT_PATH"@, project@),
        ("IMAGE"@, image),
    ];
    let with_args = match spec.args {
        Some(args) => fixed.push(("CARGO_BUILD_ARGS"@, joined(args@, " "@))),
        None => fixed,
    };
    match spec.image {
        Some(builder) => with_args.push(("BUILDER_IMAGE"@, builder@)),
        None => with_args,
    }
}

fn param(name: &str, value: &str) -> (p: Param)
    ensures
        param_view(p) == (name@, value@),
{
    Param { name: name.to_owned(), value: value.to_owned() }
}

/// Composes the pipeline run that builds `image` for `app`, or for its
/// device `dev`, as `spec` says.
pub fn pipeline_run(
    config: &ApiConfig,
    app: &str,
    dev: Option<&str>,
    image: &str,
    spec: &FirmwareBuildSpec,
) -> (run: PipelineRun)
    ensures
        run.name@ == spec_build_name(app@, opt_str(dev)),
        run.namespace@ == config.namespace@,
        run.application@ == app@,
        opt_text(run.device) == opt_str(dev),
        run.params@.map_values(|p: Param| param_view(p)) == spec_params(image@, *spec),
        run.pipeline@ == config.pipeline@,
        run.service_account@ == config.service_account@,
        run.timeout@ == match spec.timeout {
            Some(t) => t@,
            None => default_timeout(),
        },
        run.volume_size@ == config.volume_size@,
{
    let mut params: Vec<Param> = Vec::new();
    match &spec.source {
        FirmwareBuildSource::GIT { uri, rev, project } => {
            params.push(param("GIT_REPO", uri.as_str()));
            params.push(param("GIT_REVISION", rev.as_str()));
            params.push(param("PROJECT_PATH", project.as_str()));
        },
    }
    params.push(param("IMAGE", image));
    if let Some(args) = &spec.args {
        let value = join(args, " ");
        params.push(param("CARGO_BUILD_ARGS", value.as_str()));
    }
    if let Some(builder) = &spec.image {
        params.push(param("BUILDER_IMAGE", builder.as_str()));
    }
    assert(params@.map_values(|p: Param| param_view(p)) =~= spec_params(image@, *spec));
    PipelineRun {
        name: build_name(app, dev),
        namespace: config.namespace.clone(),
        application: app.to_owned(),
        device: match dev {
            Some(dev) => Some(dev.to_owned()),
            None => None,
        },
        params,
        pipeline: config.pipeline.clone(),
        service_account: config.service_account.clone(),
        timeout: match &spec.timeout {
            Some(t) => t.clone(),
            None => "1h0m0s".to_owned(),
        },
        volume_size: config.volume_size.clone(),
    }
}

/// The labels of a pipeline run: `application`, and `device` for the build
/// of a device.
pub fn run_labels(run: &PipelineRun) -> (labels: Vec<Label>)
    ensures
        labels@.len() == if run.device is Some {
            2int
        } else {
            1int
        },
        labels@[0].name@ == "application"@,
        labels@[0].value@ == run.application@,
        run.device is Some ==> labels@[1].name@ == "device"@ && labels@[1].value@
            == run.device->0@,
{
    let mut labels: Vec<Label> = Vec::new();
    labels.push(Label { name: "application".to_owned(), value: run.application.clone() });
    if let Some(device) = &run.device {
        labels.push(Label { name: "device".to_owned(), value: device.clone() });
    }
    labels
}

/// The member `name` of `document` is an array, and `texts` tells of each
/// of its elements the texts of its members `name` and `value`.
pub open spec fn is_list_of_pairs(
    document: Json,
    name: Seq<char>,
    texts: Seq<(Seq<char>, Seq<char>)>,
) -> bool {
    match document.spec_member(name) {
        Some(Json::Array(elements)) => {
            &&& elements@.len() == texts.len()
            &&& forall|i: int|
                0 <= i < texts.len() ==> {
                    &&& spec_text_at(#[trigger] elements@[i], seq!["name"]) == Some(texts[i].0)
                    &&& spec_text_at(elements@[i], seq!["value"]) == Some(texts[i].1)
                }
        },
        _ => false,
    }
}

fn pair_document(param: &Param) -> (document: Json)
    ensures
        spec_text_at(document, seq!["name"]) == Some(param.name@),
        spec_text_at(document, seq!["value"]) == Some(param.value@),
{
    let mut members: Vec<Member> = Vec::new();
    members.push(member("name", text(param.name.as_str())));
    members.push(member("value", text(param.value.as_str())));
    let document = Json::Object(members);
    proof {
        reveal_strlit("name");
        reveal_strlit("value");
        assert("name"@.len() != "value"@.len());
        lemma_member_found(members, 0);
        lemma_member_found(members, 1);
        lemma_text_of_member(document, "name", members@[0].value);
        lemma_text_of_member(document, "value", members@[1].value);
    }
    document
}

fn pairs_document(params: &Vec<Param>) -> (elements: Vec<Json>)
    ensures
        elements@.len() == params@.len(),
        forall|i: int|
            0 <= i < params@.len() ==> {
                &&& spec_text_at(#[trigger] elements@[i], seq!["name"]) == Some(params@[i].name@)
                &&& spec_text_at(elements@[i], seq!["value"]) == Some(params@[i].value@)
            },
{
    let mut elements: Vec<Json> = Vec::new();
    let n = params.len();
    let mut i: usize = 0;
    while i < n
        invariant
            i <= n,
            n == params@.len(),
            elements@.len() == i,
            forall|j: int|
                0 <= j < i ==> {
                    &&& spec_text_at(#[trigger] elements@[j], seq!["name"]) == Some(
                        params@[j].name@,
                    )
                    &&& spec_text_at(elements@[j], seq!["value"]) == Some(params@[j].value@)
                },
        decreases n - i,
    {
        elements.push(pair_document(&params[i]));
        i += 1;
    }
    elements
}

/// Where the specification of a pipeline run names its pipeline:
/// `pipelineRef.name`.
pub open spec fn pipeline_path() -> Seq<&'static str> {
    seq!["pipelineRef", "name"]
}

/// Where a workspace of a pipeline run says how much storage it claims:
/// `volumeClaimTemplate.spec.resources.requests.storage`.
pub open spec fn storage_path() -> Seq<&'static str> {
    seq!["volumeClaimTemplate", "spec", "resources", "requests", "storage"]
}

fn wrap(name: &str, inner: Json) -> (outer: Json)
    ensures
        outer.spec_member(name@) == Some(inner),
{
    let mut members: Vec<Member> = Vec::new();
    members.push(member(name, inner));
    proof {
        lemma_member_found(members, 0);
    }
    Json::Object(members)
}

fn workspace_document(volume_size: &str) -> (workspace: Json)
    ensures
        spec_text_at(workspace, seq!["name"]) == Some("build"@),
        spec_text_at(workspace, storage_path()) == Some(volume_size@),
{
    let mut modes: Vec<Json> = Vec::new();
    modes.push(text("ReadWriteOnce"));
    let storage = text(volume_size);
    let requests = wrap("storage", storage);
    let resources = wrap("requests", requests);
    let mut claim: Vec<Member> = Vec::new();
    claim.push(member("accessModes", Json::Array(modes)));
    claim.push(member("resources", resources));
    let claim_document = Json::Object(claim);
    let template = wrap("spec", claim_document);
    let mut members: Vec<Member> = Vec::new();
    members.push(member("name", text("build")));
    members.push(member("volumeClaimTemplate", template));
    let document = Json::Object(members);
    proof {
        reveal_strlit("accessModes");
        reveal_strlit("resources");
        reveal_strlit("name");
        reveal_strlit("volumeClaimTemplate");
        assert("accessModes"@.len() != "resources"@.len());
        assert("name"@.len() != "volumeClaimTemplate"@.len());
        lemma_member_found(claim, 0);
        lemma_member_found(claim, 1);
        lemma_member_found(members, 0);
        lemma_member_found(members, 1);
        lemma_text_of_member(document, "name", members@[0].value);
        lemma_text_of_member(requests, "storage", storage);
        lemma_text_inside(resources, "requests", requests, seq!["storage"]);
        assert(seq!["requests"] + seq!["storage"] =~= seq!["requests", "storage"]);
        lemma_text_inside(claim_document, "resources", resources, seq!["requests", "storage"]);
        assert(seq!["resources"] + seq!["requests", "storage"] =~= seq![
            "resources",
            "requests",
            "storage",
        ]);
        lemma_text_inside(template, "spec", claim_document, seq!["resources", "requests", "storage"]);
        assert(seq!["spec"] + seq!["resources", "requests", "storage"] =~= seq![
            "spec",
            "resources",
            "requests",
            "storage",
        ]);
        lemma_text_inside(
            document,
            "volumeClaimTemplate",
            template,
            seq!["spec", "resources", "requests", "storage"],
        );
        assert(seq!["volumeClaimTemplate"] + seq!["spec", "resources", "requests", "storage"]
            =~= storage_path());
    }
    document
}

/// `document` is the specification of `run`: its parameters, its pipeline,
/// its account, its timeout, and one workspace, `build`, that claims a volume
/// of the wanted size.
pub open spec fn is_run_spec(document: Json, run: PipelineRun) -> bool {
    &&& is_list_of_pairs(document, "params"@, run.params@.map_values(|p: Param| param_view(p)))
    &&& spec_text_at(document, pipeline_path()) == Some(run.pipeline@)
    &&& spec_text_at(document, seq!["serviceAccountName"]) == Some(run.service_account@)
    &&& spec_text_at(document, seq!["timeout"]) == Some(run.timeout@)
    &&& match document.spec_member("workspaces"@) {
        Some(Json::Array(workspaces)) => {
            &&& workspaces@.len() == 1
            &&& spec_text_at(workspaces@[0], seq!["name"]) == Some("build"@)
            &&& spec_text_at(workspaces@[0], storage_path()) == Some(run.volume_size@)
        },
        _ => false,
    }
}

/// Writes the specification of a pipeline run.
pub fn run_spec(run: &PipelineRun) -> (document: Json)
    ensures
        is_run_spec(document, *run),
{
    let params = pairs_document(&run.params);
    let pipeline_name = text(run.pipeline.as_str());
    let pipeline = wrap("name", pipeline_name);
    let mut workspaces: Vec<Json> = Vec::new();
    workspaces.push(workspace_document(run.volume_size.as_str()));
    let mut members: Vec<Member> = Vec::new();
    members.push(member("params", Json::Array(params)));
    members.push(member("pipelineRef", pipeline));
    members.push(member("serviceAccountName", text(run.service_account.as_str())));
    members.push(member("timeout", text(run.timeout.as_str())));
    members.push(member("workspaces", Json::Array(workspaces)));
    let document = Json::Object(members);
    proof {
        reveal_strlit("params");
        reveal_strlit("pipelineRef");
        reveal_strlit("serviceAccountName");
        reveal_strlit("timeout");
        reveal_strlit("workspaces");
        assert("params"@.len() == 6 && "pipelineRef"@.len() == 11 && "serviceAccountName"@.len()
            == 18 && "timeout"@.len() == 7 && "workspaces"@.len() == 10);
        lemma_member_found(members, 0);
        lemma_member_found(members, 1);
        lemma_member_found(members, 2);
        lemma_member_found(members, 3);
        lemma_member_found(members, 4);
        lemma_text_of_member(pipeline, "name", pipeline_name);
        lemma_text_inside(document, "pipelineRef", pipeline, seq!["name"]);
        assert(seq!["pipelineRef"] + seq!["name"] =~= pipeline_path());
        lemma_text_of_member(document, "serviceAccountName", members@[2].value);
        lemma_text_of_member(document, "timeout", members@[3].value);
        assert(run.params@.map_values(|p: Param| param_view(p)).len() == run.params@.len());
    }
    document
}

/// What a trigger leads to: a build to run, or the status that refuses it.
pub enum Trigger {
    Run { image: String, build: FirmwareBuildSpec },
    Refused(HttpStatus),
}

/// What triggering a build for an application leads to, given whether the
/// application is allowed and its firmware section `spec`: an application
/// that is not allowed is refused (403), whatever its section says; only a
/// container image can be built (501 for any other store); and the section
/// must say how to build (404).
pub open spec fn spec_trigger(allowed: bool, spec: FirmwareSpec) -> Trigger {
    if !allowed {
        Trigger::Refused(HttpStatus::Forbidden)
    } else {
        match spec {
            FirmwareSpec::OCI { image, image_pull_policy, build } => match build {
                Some(build) => Trigger::Run { image, build },
                None => Trigger::Refused(HttpStatus::NotFound),
            },
            _ => Trigger::Refused(HttpStatus::NotImplemented),
        }
    }
}

/// Decides what triggering a build for `app` leads to.
pub fn trigger_build(config: &ApiConfig, app: &str, spec: FirmwareSpec) -> (trigger: Trigger)
    ensures
        trigger == spec_trigger(listed(config.apps@, app@), spec),
{
    if !config.is_allowed(app) {
        return Trigger::Refused(HttpStatus::Forbidden);
    }
    match spec {
        FirmwareSpec::OCI { image, image_pull_policy, build } => match build {
            Some(build) => Trigger::Run { image, build },
            None => Trigger::Refused(HttpStatus::NotFound),
        },
        _ => Trigger::Refused(HttpStatus::NotImplemented),
    }
}

/// A label of a pipeline run.
#[derive(Debug, Clone, PartialEq, Eq)]
pub struct Label {
    pub name: String,
    pub value: String,
}

/// A condition of a pipeline run.
#[derive(Debug, Clone, PartialEq, Eq)]
pub struct RunCondition {
    pub kind: String,
    pub reason: Option<String>,
    pub last_transition_time: String,
}

/// A pipeline run as the orchestrator lists it. The conditions are an error
/// where the run has some that cannot be read.
#[derive(Debug, Clone, PartialEq, Eq)]
pub struct Run {
    pub labels: Option<Vec<Label>>,
    pub created: Option<String>,
    pub conditions: Option<Result<Vec<RunCondition>, String>>,
}

/// A pipeline run as the orchestrator holds it: its labels, the time of its
/// creation, and everything else as a document.
#[derive(Debug, PartialEq, Eq)]
pub struct RunObject {
    pub labels: Option<Vec<Label>>,
    pub created: Option<String>,
    pub data: Json,
}

/// What a document says about a condition, where it is one: the text of
/// `type`, the text of `reason`, which may be missing or `null`, and the text
/// of `lastTransitionTime`.
pub open spec fn spec_condition(element: Json) -> Option<(Seq<char>, Option<Seq<char>>, Seq<char>)> {
    match (
        spec_text_at(element, seq!["type"]),
        element.spec_member("reason"@),
        spec_text_at(element, seq!["lastTransitionTime"]),
    ) {
        (Some(kind), None, Some(time)) => Some((kind, None, time)),
        (Some(kind), Some(Json::Null), Some(time)) => Some((kind, None, time)),
        (Some(kind), Some(Json::Text(reason)), Some(time)) => Some((kind, Some(reason@), time)),
        _ => None,
    }
}

/// A condition, taken by its texts.
pub open spec fn condition_view(condition: RunCondition) -> (
    Seq<char>,
    Option<Seq<char>>,
    Seq<char>,
) {
    (condition.kind@, opt_text(condition.reason), condition.last_transition_time@)
}

/// Reads a condition.
pub fn read_condition(element: &Json) -> (condition: Option<RunCondition>)
    ensures
        match condition {
            Some(c) => spec_condition(*element) == Some(condition_view(c)),
            None => spec_condition(*element) is None,
        },
{
    let kind_path: [&str; 1] = ["type"];
    let time_path: [&str; 1] = ["lastTransitionTime"];
    assert(kind_path@ =~= seq!["type"]);
    assert(time_path@ =~= seq!["lastTransitionTime"]);
    let kind = match text_at(element, kind_path.as_slice()) {
        Some(kind) => kind,
        None => return None,
    };
    let last_transition_time = match text_at(element, time_path.as_slice()) {
        Some(time) => time,
        None => return None,
    };
    let reason = match element.member("reason") {
        None => None,
        Some(Json::Null) => None,
        Some(Json::Text(reason)) => Some(reason.clone()),
        Some(_) => return None,
    };
    Some(RunCondition { kind, reason, last_transition_time })
}

/// Where a pipeline run holds its conditions: `status.conditions`.
pub open spec fn conditions_path() -> Seq<&'static str> {
    seq!["status", "conditions"]
}

/// `found` is what `data` says about the conditions of a run: nothing where
/// it has none; an error where what it has is no list of conditions; else the
/// conditions, in their order.
pub open spec fn is_reading_of_conditions(
    data: Json,
    found: Option<Result<Vec<RunCondition>, String>>,
) -> bool {
    match spec_path(data, conditions_path(), 2) {
        None => found is None,
        Some(Json::Array(elements)) => match found {
            Some(Ok(conditions)) => {
                &&& conditions@.len() == elements@.len()
                &&& forall|i: int|
                    0 <= i < elements@.len() ==> spec_condition(#[trigger] elements@[i]) == Some(
                        condition_view(conditions@[i]),
                    )
            },
            Some(Err(_)) => exists|i: int|
                0 <= i < elements@.len() && spec_condition(#[trigger] elements@[i]) is None,
            None => false,
        },
        Some(_) => found matches Some(Err(_)),
    }
}

fn read_condition_list(elements: &Vec<Json>) -> (found: Result<Vec<RunCondition>, String>)
    ensures
        match found {
            Ok(conditions) => {
                &&& conditions@.len() == elements@.len()
                &&& forall|i: int|
                    0 <= i < elements@.len() ==> spec_condition(#[trigger] elements@[i]) == Some(
                        condition_view(conditions@[i]),
                    )
            },
            Err(_) => exists|i: int|
                0 <= i < elements@.len() && spec_condition(#[trigger] elements@[i]) is None,
        },
{
    let mut conditions: Vec<RunCondition> = Vec::new();
    let n = elements.len();
    let mut i: usize = 0;
    while i < n
        invariant
            i <= n,
            n == elements@.len(),
            conditions@.len() == i,
            forall|j: int|
                0 <= j < i ==> spec_condition(#[trigger] elements@[j]) == Some(
                    condition_view(conditions@[j]),
                ),
        decreases n - i,
    {
        match read_condition(&elements[i]) {
            Some(condition) => conditions.push(condition),
            None => {
                assert(spec_condition(elements@[i as int]) is None);
                return Err("invalid condition".to_owned());
            },
        }
        i += 1;
    }
    Ok(conditions)
}

/// Reads the conditions of a pipeline run.
pub fn read_conditions(data: &Json) -> (found: Option<Result<Vec<RunCondition>, String>>)
    ensures
        is_reading_of_conditions(*data, found),
{
    let names: [&str; 2] = ["status", "conditions"];
    assert(names@ =~= conditions_path());
    match path(data, names.as_slice()) {
        None => None,
        Some(Json::Array(elements)) => Some(read_condition_list(elements)),
        Some(_) => Some(Err("invalid type: expected a sequence".to_owned())),
    }
}

/// Reads a pipeline run off what the orchestrator holds.
pub fn run_of(object: RunObject) -> (run: Run)
    ensures
        run.labels == object.labels,
        run.created == object.created,
        is_reading_of_conditions(object.data, run.conditions),
{
    let conditions = read_conditions(&object.data);
    Run { labels: object.labels, created: object.created, conditions }
}

/// Mathematical value of a [`BuildInfo`].
pub struct BuildInfoView {
    pub app: Seq<char>,
    pub device: Option<Seq<char>>,
    pub started: Option<Seq<char>>,
    pub completed: Option<Seq<char>>,
    pub status: Option<Seq<char>>,
}

/// The value of a [`BuildInfo`].
pub open spec fn info_view(info: BuildInfo) -> BuildInfoView {
    BuildInfoView {
        app: info.app@,
        device: opt_text(info.device),
        started: opt_text(info.started),
        completed: opt_text(info.completed),
        status: opt_text(info.status),
    }
}

/// The place of the first label named `name` among the first `n` labels, or
/// `n` where there is none.
pub open spec fn label_place(labels: Seq<Label>, name: Seq<char>, n: int) -> int
    decreases n,
{
    if n <= 0 {
        0
    } else {
        let before = label_place(labels, name, n - 1);
        if before < n - 1 {
            before
        } else if labels[n - 1].name@ == name {
            n - 1
        } else {
            n
        }
    }
}

/// What a run is a build of: nothing that can be told where it has no
/// labels, else an application where it has no label `device`, else the
/// device that this label names.
pub open spec fn run_target(run: Run) -> Option<Option<Seq<char>>> {
    match run.labels {
        Some(labels) => {
            let at = label_place(labels@, "device"@, labels@.len() as int);
            if at < labels@.len() {
                Some(Some(labels@[at].value@))
            } else {
                Some(None)
            }
        },
        None => None,
    }
}

/// The place of the first condition of kind `Succeeded` among the first `n`
/// conditions, or `n` where there is none.
pub open spec fn succeeded_place(conditions: Seq<RunCondition>, n: int) -> int
    decreases n,
{
    if n <= 0 {
        0
    } else {
        let before = succeeded_place(conditions, n - 1);
        if before < n - 1 {
            before
        } else if conditions[n - 1].kind@ == "Succeeded"@ {
            n - 1
        } else {
            n
        }
    }
}

/// What is known of a build once `run` has been looked at: it started when
/// the run was created; its status is the reason of the condition
/// `Succeeded` of the run, and it completed when that condition last changed.
/// Conditions that cannot be read make the whole an error.
pub open spec fn with_run(info: BuildInfoView, run: Run) -> Option<BuildInfoView> {
    let started = BuildInfoView { started: opt_text(run.created), ..info };
    match run.conditions {
        Some(Ok(conditions)) => {
            let at = succeeded_place(conditions@, conditions@.len() as int);
            if at < conditions@.len() {
                Some(
                    BuildInfoView {
                        status: opt_text(conditions@[at].reason),
                        completed: Some(conditions@[at].last_transition_time@),
                        ..started
                    },
                )
            } else {
                Some(started)
            }
        },
        Some(Err(_)) => None,
        None => Some(started),
    }
}

proof fn lemma_succeeded_stops(conditions: Seq<RunCondition>, i: int, n: int)
    requires
        0 <= i <= n <= conditions.len(),
        succeeded_place(conditions, i) == i,
        i < n ==> conditions[i].kind@ == "Succeeded"@,
    ensures
        succeeded_place(conditions, n) == i,
    decreases n - i,
{
    if i < n {
        if i + 1 < n {
            lemma_succeeded_stops(conditions, i, n - 1);
        }
    }
}

proof fn lemma_label_stops(labels: Seq<Label>, name: Seq<char>, i: int, n: int)
    requires
        0 <= i <= n <= labels.len(),
        label_place(labels, name, i) == i,
        i < n ==> labels[i].name@ == name,
    ensures
        label_place(labels, name, n) == i,
    decreases n - i,
{
    if i < n {
        if i + 1 < n {
            lemma_label_stops(labels, name, i, n - 1);
        }
    }
}

fn copy_text(text: &Option<String>) -> (copy: Option<String>)
    ensures
        opt_text(copy) == opt_text(*text),
{
    match text {
        Some(t) => Some(t.clone()),
        None => None,
    }
}

fn find_succeeded(conditions: &Vec<RunCondition>) -> (at: usize)
    ensures
        at == succeeded_place(conditions@, conditions@.len() as int),
        at <= conditions@.len(),
{
    let n = conditions.len();
    let mut i: usize = 0;
    while i < n
        invariant
            i <= n,
            n == conditions@.len(),
            succeeded_place(conditions@, i as int) == i,
        decreases n - i,
    {
        if str_eq(conditions[i].kind.as_str(), "Succeeded") {
            proof {
                lemma_succeeded_stops(conditions@, i as int, n as int);
            }
            return i;
        }
        i += 1;
    }
    i
}

fn find_label(labels: &Vec<Label>, name: &str) -> (at: usize)
    ensures
        at == label_place(labels@, name@, labels@.len() as int),
        at <= labels@.len(),
{
    let n = labels.len();
    let mut i: usize = 0;
    while i < n
        invariant
            i <= n,
            n == labels@.len(),
            label_place(labels@, name@, i as int) == i,
        decreases n - i,
    {
        if str_eq(labels[i].name.as_str(), name) {
            proof {
                lemma_label_stops(labels@, name@, i as int, n as int);
            }
            return i;
        }
        i += 1;
    }
    i
}

/// Records in `info` what `run` says about the build.
pub fn update_build_status(info: &mut BuildInfo, run: &Run) -> (done: Result<(), String>)
    ensures
        match done {
            Ok(()) => with_run(info_view(*old(info)), *run) == Some(info_view(*final(info))),
            Err(_) => with_run(info_view(*old(info)), *run) is None,
        },
        info_view(*final(info)).app == info_view(*old(info)).app,
        info_view(*final(info)).device == info_view(*old(info)).device,
{
    info.started = copy_text(&run.created);
    match &run.conditions {
        Some(Ok(conditions)) => {
            let at = find_succeeded(conditions);
            if at < conditions.len() {
                info.status = copy_text(&conditions[at].reason);
                info.completed = Some(conditions[at].last_transition_time.clone());
            }
            Ok(())
        },
        Some(Err(e)) => Err(e.clone()),
        None => Ok(()),
    }
}

/// Tells what a run is a build of.
pub fn target_of(run: &Run) -> (target: Option<Option<String>>)
    ensures
        match target {
            Some(device) => run_target(*run) == Some(opt_text(device)),
            None => run_target(*run) is None,
        },
{
    match &run.labels {
        Some(labels) => {
            let at = find_label(labels, "device");
            if at < labels.len() {
                Some(Some(labels[at].value.clone()))
            } else {
                Some(None)
            }
        },
        None => None,
    }
}

/// What is known of the build of `info` once the first `n` of `runs` have
/// been looked at: each run that is a build of the same target adds to it.
pub open spec fn followed(info: BuildInfoView, runs: Seq<Run>, n: int) -> Option<BuildInfoView>
    decreases n,
{
    if n <= 0 {
        Some(info)
    } else {
        match followed(info, runs, n - 1) {
            Some(so_far) => if run_target(runs[n - 1]) == Some(info.device) {
                with_run(so_far, runs[n - 1])
            } else {
                Some(so_far)
            },
            None => None,
        }
    }
}

/// A build of which nothing is known yet.
pub open spec fn unknown_build(app: Seq<char>, device: Option<Seq<char>>) -> BuildInfoView {
    BuildInfoView { app, device, started: None, completed: None, status: None }
}

/// Follows the build for `app`, or for its device `device`, through `runs`.
pub fn track(app: &str, device: Option<&str>, runs: &Vec<Run>) -> (found: Result<BuildInfo, String>)
    ensures
        match found {
            Ok(info) => followed(unknown_build(app@, opt_str(device)), runs@, runs@.len() as int)
                == Some(info_view(info)),
            Err(_) => followed(unknown_build(app@, opt_str(device)), runs@, runs@.len() as int)
                is None,
        },
{
    let mut info = BuildInfo {
        app: app.to_owned(),
        device: match device {
            Some(d) => Some(d.to_owned()),
            None => None,
        },
        started: None,
        status: None,
        completed: None,
    };
    let ghost start = unknown_build(app@, opt_str(device));
    let n = runs.len();
    let mut i: usize = 0;
    while i < n
        invariant
            i <= n,
            n == runs@.len(),
            start == unknown_build(app@, opt_str(device)),
            info_view(info).device == start.device,
            followed(start, runs@, i as int) == Some(info_view(info)),
        decreases n - i,
    {
        let same = match target_of(&runs[i]) {
            Some(Some(name)) => match device {
                Some(d) => str_eq(name.as_str(), d),
                None => false,
            },
            Some(None) => device.is_none(),
            None => false,
        };
        if same {
            match update_build_status(&mut info, &runs[i]) {
                Ok(()) => {},
                Err(e) => {
                    proof {
                        lemma_followed_fails(start, runs@, i + 1, n as int);
                    }
                    return Err(e);
                },
            }
        }
        i += 1;
    }
    Ok(info)
}

proof fn lemma_followed_fails(info: BuildInfoView, runs: Seq<Run>, i: int, n: int)
    requires
        0 <= i <= n <= runs.len(),
        followed(info, runs, i) is None,
    ensures
        followed(info, runs, n) is None,
    decreases n - i,
{
    if i < n {
        lemma_followed_fails(info, runs, i, n - 1);
    }
}

/// An application or a device as the registry lists it: its name and its
/// firmware section, which is an error where it cannot be read.
#[derive(Debug, Clone, PartialEq, Eq)]
pub struct Entry {
    pub name: String,
    pub spec: Option<Result<FirmwareSpec, String>>,
}

/// The builds of an application: its own where `app_buildable`, then those
/// of the first `n` of `devices` that say how to build, in their order. A
/// build is named by its device, and by nothing for the application itself.
pub open spec fn targets(app_buildable: bool, devices: Seq<Entry>, n: int) -> Seq<
    Option<Seq<char>>,
>
    decreases n,
{
    if n <= 0 {
        if app_buildable {
            seq![None]
        } else {
            Seq::empty()
        }
    } else {
        let before = targets(app_buildable, devices, n - 1);
        if spec_has_build_spec(devices[n - 1].spec) {
            before.push(Some(devices[n - 1].name@))
        } else {
            before
        }
    }
}

/// `infos` tell what `runs` say about each of `targets`, in their order.
pub open spec fn follows_all(
    app: Seq<char>,
    targets: Seq<Option<Seq<char>>>,
    runs: Seq<Run>,
    infos: Seq<BuildInfo>,
) -> bool {
    &&& infos.len() == targets.len()
    &&& forall|i: int|
        0 <= i < targets.len() ==> followed(
            unknown_build(app, #[trigger] targets[i]),
            runs,
            runs.len() as int,
        ) == Some(info_view(infos[i]))
}

/// Some of `targets` has a run whose conditions cannot be read.
pub open spec fn fails_some(app: Seq<char>, targets: Seq<Option<Seq<char>>>, runs: Seq<Run>)
    -> bool {
    exists|i: int|
        0 <= i < targets.len() && followed(
            unknown_build(app, #[trigger] targets[i]),
            runs,
            runs.len() as int,
        ) is None
}

/// Lists the builds of the application `app`, whose own firmware section
/// says how to build where `app_buildable`, and of its `devices`, with what
/// `runs` say about each.
pub fn app_builds(app: &str, app_buildable: bool, devices: &Vec<Entry>, runs: &Vec<Run>) -> (found:
    Result<Vec<BuildInfo>, String>)
    ensures
        match found {
            Ok(infos) => follows_all(
                app@,
                targets(app_buildable, devices@, devices@.len() as int),
                runs@,
                infos@,
            ),
            Err(_) => fails_some(
                app@,
                targets(app_buildable, devices@, devices@.len() as int),
                runs@,
            ),
        },
{
    let mut infos: Vec<BuildInfo> = Vec::new();
    if app_buildable {
        match track(app, None, runs) {
            Ok(info) => infos.push(info),
            Err(e) => {
                proof {
                    lemma_targets_grow(app_buildable, devices@, 0, devices@.len() as int);
                    assert(targets(app_buildable, devices@, 0)[0] == None::<Seq<char>>);
                }
                return Err(e);
            },
        }
    }
    let n = devices.len();
    let mut i: usize = 0;
    while i < n
        invariant
            i <= n,
            n == devices@.len(),
            follows_all(app@, targets(app_buildable, devices@, i as int), runs@, infos@),
        decreases n - i,
    {
        if has_build_spec(&devices[i].spec) {
            match track(app, Some(devices[i].name.as_str()), runs) {
                Ok(info) => infos.push(info),
                Err(e) => {
                    proof {
                        let now = targets(app_buildable, devices@, i + 1);
                        lemma_targets_grow(app_buildable, devices@, i + 1, n as int);
                        assert(now[now.len() - 1] == Some(devices@[i as int].name@));
                    }
                    return Err(e);
                },
            }
        }
        i += 1;
    }
    Ok(infos)
}

proof fn lemma_targets_grow(app_buildable: bool, devices: Seq<Entry>, i: int, n: int)
    requires
        0 <= i <= n <= devices.len(),
    ensures
        targets(app_buildable, devices, i).len() <= targets(app_buildable, devices, n).len(),
        forall|j: int|
            0 <= j < targets(app_buildable, devices, i).len() ==> targets(
                app_buildable,
                devices,
                n,
            )[j] == #[trigger] targets(app_buildable, devices, i)[j],
    decreases n - i,
{
    if i < n {
        lemma_targets_grow(app_buildable, devices, i, n - 1);
    }
}

/// The registry of applications and devices, as the holder of a token sees
/// it. Nothing is promised of what an implementation answers.
pub trait Tenant {
    /// The applications, or nothing where the registry has no answer.
    fn list_apps(&self, token: &str) -> Result<Option<Vec<Entry>>, String>;

    /// The devices of an application, or nothing where the registry has no answer.
    fn list_devices(&self, token: &str, app: &str) -> Result<Option<Vec<Entry>>, String>;

    /// An application, if there is one of that name.
    fn get_app(&self, token: &str, app: &str) -> Result<Option<Entry>, String>;

    /// A device, if there is one of that name.
    fn get_device(&self, token: &str, app: &str, device: &str) -> Result<Option<Entry>, String>;
}

/// The orchestrator that runs the builds. Nothing is promised of what an
/// implementation answers.
pub trait Orchestrator {
    /// Removes the pipeline run of that name.
    fn delete(&self, name: &str) -> Result<(), String>;

    /// Submits a pipeline run with the given name, labels and specification.
    fn create(&self, name: &str, namespace: &str, labels: &Vec<Label>, spec: &Json) -> Result<
        (),
        String,
    >;

    /// The pipeline runs that `selector` picks by their labels.
    fn list(&self, selector: &str) -> Result<Vec<RunObject>, String>;
}

/// The selector that picks the runs of an application: `application={app}`.
pub open spec fn spec_selector(app: Seq<char>) -> Seq<char> {
    "application="@ + app
}

/// The selector that picks the runs of the application `app`.
pub fn selector(app: &str) -> (text: String)
    ensures
        text@ == spec_selector(app@),
{
    concat2("application=", app)
}

/// The build service.
pub struct State<T: Tenant, O: Orchestrator> {
    config: ApiConfig,
    registry: T,
    kube: O,
}

/// The status that answers a trigger for an application or a device that the
/// registry was asked about: 500 where the registry failed, 404 where it
/// knows no such thing or its firmware section is missing or unreadable.
pub open spec fn lookup_status(lookup: Result<Option<Entry>, String>) -> Option<HttpStatus> {
    match lookup {
        Ok(Some(entry)) => match entry.spec {
            Some(Ok(_)) => None,
            _ => Some(HttpStatus::NotFound),
        },
        Ok(None) => Some(HttpStatus::NotFound),
        Err(_) => Some(HttpStatus::InternalServerError),
    }
}

/// Reads the firmware section out of what the registry answered, or tells
/// the status that ends the request.
pub fn section_of(lookup: Result<Option<Entry>, String>) -> (found: Result<FirmwareSpec, HttpStatus>)
    ensures
        match found {
            Ok(spec) => lookup_status(lookup) is None && lookup->Ok_0->0.spec == Some(
                Ok::<FirmwareSpec, String>(spec),
            ),
            Err(status) => lookup_status(lookup) == Some(status),
        },
{
    match lookup {
        Ok(Some(entry)) => match entry.spec {
            Some(Ok(spec)) => Ok(spec),
            _ => Err(HttpStatus::NotFound),
        },
        Ok(None) => Err(HttpStatus::NotFound),
        Err(_) => Err(HttpStatus::InternalServerError),
    }
}

/// `run` is the pipeline run that builds `image` for `app`, or for its
/// device `dev`, as `spec` says, under the settings `config`.
pub open spec fn is_pipeline_run(
    config: ApiConfig,
    app: Seq<char>,
    dev: Option<Seq<char>>,
    image: Seq<char>,
    spec: FirmwareBuildSpec,
    run: PipelineRun,
) -> bool {
    &&& run.name@ == spec_build_name(app, dev)
    &&& run.namespace@ == config.namespace@
    &&& run.application@ == app
    &&& opt_text(run.device) == dev
    &&& run.params@.map_values(|p: Param| param_view(p)) == spec_params(image, spec)
    &&& run.pipeline@ == config.pipeline@
    &&& run.service_account@ == config.service_account@
    &&& run.timeout@ == match spec.timeout {
        Some(t) => t@,
        None => default_timeout(),
    }
    &&& run.volume_size@ == config.volume_size@
}

/// `labels` are the labels of `run`: `application`, and `device` for the
/// build of a device.
pub open spec fn are_run_labels(run: PipelineRun, labels: Seq<Label>) -> bool {
    &&& labels.len() == if run.device is Some {
        2int
    } else {
        1int
    }
    &&& labels[0].name@ == "application"@
    &&& labels[0].value@ == run.application@
    &&& run.device is Some ==> labels[1].name@ == "device"@ && labels[1].value@
        == run.device->0@
}

/// `runs` are the pipeline runs that `objects` are read as, in their order.
pub open spec fn are_runs_of(objects: Seq<RunObject>, runs: Seq<Run>) -> bool {
    &&& runs.len() == objects.len()
    &&& forall|i: int|
        0 <= i < objects.len() ==> {
            &&& (#[trigger] runs[i]).labels == objects[i].labels
            &&& runs[i].created == objects[i].created
            &&& is_reading_of_conditions(objects[i].data, runs[i].conditions)
        }
}

/// The builds of the first `n` of `parts`, one part after the other.
pub open spec fn builds_of(parts: Seq<Result<Vec<BuildInfo>, String>>, n: int) -> Seq<BuildInfo>
    decreases n,
{
    if n <= 0 {
        Seq::empty()
    } else {
        builds_of(parts, n - 1) + match parts[n - 1] {
            Ok(builds) => builds@,
            Err(_) => Seq::empty(),
        }
    }
}

proof fn lemma_builds_of_prefix(
    parts: Seq<Result<Vec<BuildInfo>, String>>,
    longer: Seq<Result<Vec<BuildInfo>, String>>,
    n: int,
)
    requires
        0 <= n <= parts.len() <= longer.len(),
        forall|j: int| 0 <= j < parts.len() ==> longer[j] == parts[j],
    ensures
        builds_of(longer, n) == builds_of(parts, n),
    decreases n,
{
    if n > 0 {
        lemma_builds_of_prefix(parts, longer, n - 1);
    }
}

/// Whether any of `devices` says how to build its firmware.
pub open spec fn some_buildable(devices: Seq<Entry>) -> bool {
    exists|i: int| 0 <= i < devices.len() && spec_has_build_spec((#[trigger] devices[i]).spec)
}

impl<T: Tenant, O: Orchestrator> State<T, O> {
    /// The settings of the service.
    pub closed spec fn config(&self) -> ApiConfig {
        self.config
    }

    /// The registry that is asked.
    pub closed spec fn registry(&self) -> T {
        self.registry
    }

    /// The orchestrator that runs the builds.
    pub closed spec fn orchestrator(&self) -> O {
        self.kube
    }

    /// `outcome` is what submitting the pipeline run for `app`, or for its
    /// device `dev`, may give: the orchestrator is asked to remove the run of
    /// that name, whatever it answers to that; then the run that builds
    /// `image` as `spec` says goes to it with its name, its namespace, its
    /// labels and its specification.
    pub open spec fn is_triggered(
        &self,
        app: Seq<char>,
        dev: Option<Seq<char>>,
        image: Seq<char>,
        spec: FirmwareBuildSpec,
        outcome: Result<(), String>,
    ) -> bool {
        exists|
            run: PipelineRun,
            name: &str,
            namespace: &str,
            labels: Vec<Label>,
            document: Json,
            removed: Result<(), String>,
        |
            {
                &&& #[trigger] is_pipeline_run(self.config(), app, dev, image, spec, run)
                &&& name@ == run.name@
                &&& namespace@ == run.namespace@
                &&& are_run_labels(run, labels@)
                &&& is_run_spec(document, run)
                &&& #[trigger] call_ensures(O::delete, (&self.orchestrator(), name), removed)
                &&& #[trigger] call_ensures(
                    O::create,
                    (&self.orchestrator(), name, namespace, &labels, &document),
                    outcome,
                )
            }
    }

    /// `found` is what listing the builds of the application `app` may
    /// give, as the holder of `token` sees it.
    ///
    /// The registry is asked for the devices of the application; without an
    /// answer there are none. Where neither the application nor any device
    /// says how to build, there are no builds, and the orchestrator is not
    /// asked. Else it is asked for the runs with the label of the
    /// application, and the builds are those of the application and of its
    /// devices, with what the runs say about each. A failure of the registry
    /// or of the orchestrator is the outcome, and so is a run whose
    /// conditions cannot be read.
    pub open spec fn is_app_listing(
        &self,
        token: &str,
        app: Entry,
        found: Result<Vec<BuildInfo>, String>,
    ) -> bool {
        exists|name: &str, answered: Result<Option<Vec<Entry>>, String>|
            {
                &&& name@ == app.name@
                &&& #[trigger] call_ensures(
                    T::list_devices,
                    (&self.registry(), token, name),
                    answered,
                )
                &&& match answered {
                    Ok(devices) => {
                        let devices = match devices {
                            Some(d) => d@,
                            None => Seq::<Entry>::empty(),
                        };
                        if !spec_has_build_spec(app.spec) && !some_buildable(devices) {
                            found matches Ok(builds) && builds@.len() == 0
                        } else {
                            self.is_listing_of_runs(app, devices, found)
                        }
                    },
                    Err(e) => found == Err::<Vec<BuildInfo>, String>(e),
                }
            }
    }

    /// `found` is what asking the orchestrator for the runs of the
    /// application `app` may lead to: the builds of the application and of
    /// its `devices`, with what the runs say about each.
    pub open spec fn is_listing_of_runs(
        &self,
        app: Entry,
        devices: Seq<Entry>,
        found: Result<Vec<BuildInfo>, String>,
    ) -> bool {
        exists|picked: &str, listed: Result<Vec<RunObject>, String>|
            {
                &&& picked@ == spec_selector(app.name@)
                &&& #[trigger] call_ensures(O::list, (&self.orchestrator(), picked), listed)
                &&& match listed {
                    Ok(objects) => exists|runs: Seq<Run>|
                        {
                            &&& #[trigger] are_runs_of(objects@, runs)
                            &&& match found {
                                Ok(infos) => follows_all(
                                    app.name@,
                                    targets(
                                        spec_has_build_spec(app.spec),
                                        devices,
                                        devices.len() as int,
                                    ),
                                    runs,
                                    infos@,
                                ),
                                Err(_) => fails_some(
                                    app.name@,
                                    targets(
                                        spec_has_build_spec(app.spec),
                                        devices,
                                        devices.len() as int,
                                    ),
                                    runs,
                                ),
                            }
                        },
                    Err(e) => found == Err::<Vec<BuildInfo>, String>(e),
                }
            }
    }

    /// `parts` are what listing the builds of the first of `apps` may give,
    /// application by application: each but the last is a success.
    pub open spec fn are_app_listings(
        &self,
        token: &str,
        apps: Seq<Entry>,
        parts: Seq<Result<Vec<BuildInfo>, String>>,
    ) -> bool {
        &&& parts.len() <= apps.len()
        &&& forall|j: int|
            0 <= j < parts.len() ==> self.is_app_listing(token, apps[j], #[trigger] parts[j])
        &&& forall|j: int| 0 <= j < parts.len() - 1 ==> (#[trigger] parts[j]) is Ok
    }

    /// `outcome` is what listing the builds of `apps` may give: the builds
    /// of each, one application after the other, or the first failure, after
    /// which no further application is looked at.
    pub open spec fn is_listing(
        &self,
        token: &str,
        apps: Seq<Entry>,
        outcome: Result<Vec<BuildInfo>, String>,
    ) -> bool {
        exists|parts: Seq<Result<Vec<BuildInfo>, String>>|
            {
                &&& #[trigger] self.are_app_listings(token, apps, parts)
                &&& match outcome {
                    Ok(all) => {
                        &&& parts.len() == apps.len()
                        &&& parts.len() > 0 ==> parts.last() is Ok
                        &&& all@ == builds_of(parts, parts.len() as int)
                    },
                    Err(e) => parts.len() > 0 && parts.last() == outcome,
                }
            }
    }

    /// `outcome` is what listing the builds that the holder of `token` can
    /// see may give: the registry is asked for the applications; its failure
    /// is the outcome, and so is its having no answer; else the builds of each
    /// application are listed.
    pub open spec fn is_list_of_builds(
        &self,
        token: &str,
        outcome: Result<Vec<BuildInfo>, String>,
    ) -> bool {
        exists|answered: Result<Option<Vec<Entry>>, String>|
            {
                &&& #[trigger] call_ensures(T::list_apps, (&self.registry(), token), answered)
                &&& match answered {
                    Ok(Some(apps)) => self.is_listing(token, apps@, outcome),
                    Ok(None) => outcome is Err,
                    Err(e) => outcome == Err::<Vec<BuildInfo>, String>(e),
                }
            }
    }

    /// `status` is what triggering the build that the firmware section `spec`
    /// describes may end with: the status that refuses it, where it may not or
    /// cannot be built; else 200 once the run is submitted, or 500 where the
    /// orchestrator refuses it.
    pub open spec fn is_build_triggered(
        &self,
        app: Seq<char>,
        dev: Option<Seq<char>>,
        spec: FirmwareSpec,
        status: HttpStatus,
    ) -> bool {
        match spec_trigger(listed(self.config().apps@, app), spec) {
            Trigger::Run { image, build } => exists|outcome: Result<(), String>|
                {
                    &&& #[trigger] self.is_triggered(app, dev, image@, build, outcome)
                    &&& status == if outcome is Ok {
                        HttpStatus::Done
                    } else {
                        HttpStatus::InternalServerError
                    }
                },
            Trigger::Refused(refusal) => status == refusal,
        }
    }

    /// `status` is what the answer `looked` of the registry, about the
    /// application `app` or its device `dev`, leads to: the status that ends
    /// the request, where the registry failed or has no firmware section that
    /// can be read; else what triggering the build of that section ends with.
    pub open spec fn is_trigger_answer(
        &self,
        app: Seq<char>,
        dev: Option<Seq<char>>,
        looked: Result<Option<Entry>, String>,
        status: HttpStatus,
    ) -> bool {
        match lookup_status(looked) {
            Some(ended) => status == ended,
            None => self.is_build_triggered(app, dev, looked->Ok_0->0.spec->0->Ok_0, status),
        }
    }

    /// Lists the builds of one application.
    fn list_app(&self, token: &str, app: &Entry) -> (found: Result<Vec<BuildInfo>, String>)
        ensures
            self.is_app_listing(token, *app, found),
    {
        let name = app.name.as_str();
        let answered = self.registry.list_devices(token, name);
        assert(call_ensures(T::list_devices, (&self.registry(), token, name), answered));
        let devices = match answered {
            Ok(Some(devices)) => devices,
            Ok(None) => Vec::new(),
            Err(e) => return Err(e),
        };
        let app_buildable = has_build_spec(&app.spec);
        if !app_buildable && !any_buildable(&devices) {
            return Ok(Vec::new());
        }
        let selected = selector(name);
        let picked = selected.as_str();
        let listed = self.kube.list(picked);
        assert(call_ensures(O::list, (&self.orchestrator(), picked), listed));
        let found = match listed {
            Ok(objects) => {
                let ghost held = objects@;
                let runs = runs_of(objects);
                assert(are_runs_of(held, runs@));
                app_builds(name, app_buildable, &devices, &runs)
            },
            Err(e) => Err(e),
        };
        assert(self.is_listing_of_runs(*app, devices@, found));
        found
    }

    /// A build service with the settings `config`.
    pub fn new(config: ApiConfig, registry: T, kube: O) -> (state: Self)
        ensures
            state.config() == config,
            state.registry() == registry,
            state.orchestrator() == kube,
    {
        State { config, registry, kube }
    }

    /// Whether builds may be triggered for the application `app`.
    pub fn is_allowed(&self, app: &str) -> (allowed: bool)
        ensures
            allowed == listed(self.config().apps@, app@),
    {
        self.config.is_allowed(app)
    }

    /// Lists the builds that the holder of `token` can see: for each
    /// application, its own build and those of its devices, as far as they say
    /// how to build, with what the runs of the orchestrator say about them.
    /// An application without any build is passed over without asking the
    /// orchestrator.
    pub fn get_builds(&self, token: &str) -> (outcome: Result<Vec<BuildInfo>, String>)
        ensures
            self.is_list_of_builds(token, outcome),
    {
        let answered = self.registry.list_apps(token);
        let ghost asked = answered;
        let apps = match answered {
            Ok(Some(apps)) => apps,
            Ok(None) => return Err("Unable to find any apps".to_owned()),
            Err(e) => return Err(e),
        };
        let mut all_builds: Vec<BuildInfo> = Vec::new();
        let ghost mut parts: Seq<Result<Vec<BuildInfo>, String>> = Seq::empty();
        let n = apps.len();
        let mut i: usize = 0;
        while i < n
            invariant
                i <= n,
                n == apps@.len(),
                parts.len() == i,
                call_ensures(T::list_apps, (&self.registry(), token), asked),
                asked == Ok::<Option<Vec<Entry>>, String>(Some(apps)),
                self.are_app_listings(token, apps@, parts),
                forall|j: int| 0 <= j < parts.len() ==> (#[trigger] parts[j]) is Ok,
                all_builds@ == builds_of(parts, i as int),
            decreases n - i,
        {
            let here = self.list_app(token, &apps[i]);
            proof {
                let longer = parts.push(here);
                lemma_builds_of_prefix(parts, longer, i as int);
                assert(self.are_app_listings(token, apps@, longer));
                parts = longer;
            }
            i += 1;
            match here {
                Ok(builds) => {
                    let mut builds = builds;
                    all_builds.append(&mut builds);
                },
                Err(e) => {
                    let outcome: Result<Vec<BuildInfo>, String> = Err(e);
                    assert(self.is_listing(token, apps@, outcome));
                    return outcome;
                },
            }
        }
        assert(self.is_listing(token, apps@, Ok(all_builds)));
        Ok(all_builds)
    }

    /// Answers a request for the list of builds: 400 without a token, else
    /// 200, with the list where it could be made.
    pub fn list_builds(&self, token: Option<&str>) -> (answer: (HttpStatus, Option<Vec<BuildInfo>>))
        ensures
            token is None ==> answer.0 == HttpStatus::BadRequest && answer.1 is None,
            token is Some ==> answer.0 == HttpStatus::Done,
            token is Some ==> exists|found: Result<Vec<BuildInfo>, String>|
                {
                    &&& #[trigger] self.is_list_of_builds(token->0, found)
                    &&& answer.1 == match found {
                        Ok(builds) => Some(builds),
                        Err(_) => None,
                    }
                },
    {
        match token {
            Some(token) => {
                let found = self.get_builds(token);
                let ghost listed = found;
                let answer = match found {
                    Ok(builds) => (HttpStatus::Done, Some(builds)),
                    Err(_) => (HttpStatus::Done, None),
                };
                assert(self.is_list_of_builds(token, listed));
                answer
            },
            None => (HttpStatus::BadRequest, None),
        }
    }

    /// Replaces the pipeline run for `app`, or for its device `dev`, by one
    /// that builds `image` as `spec` says. A run of the same name that is in
    /// the way is removed first.
    pub fn trigger(&self, app: &str, dev: Option<&str>, image: &str, spec: &FirmwareBuildSpec)
        -> (outcome: Result<(), String>)
        ensures
            self.is_triggered(app@, opt_str(dev), image@, *spec, outcome),
    {
        let run = pipeline_run(&self.config, app, dev, image, spec);
        let name = run.name.as_str();
        let namespace = run.namespace.as_str();
        let removed = self.kube.delete(name);
        assert(call_ensures(O::delete, (&self.orchestrator(), name), removed));
        let labels = run_labels(&run);
        let document = run_spec(&run);
        let outcome = self.kube.create(name, namespace, &labels, &document);
        assert(is_pipeline_run(self.config(), app@, opt_str(dev), image@, *spec, run));
        assert(are_run_labels(run, labels@));
        assert(call_ensures(
            O::create,
            (&self.orchestrator(), name, namespace, &labels, &document),
            outcome,
        ));
        outcome
    }

    /// Triggers the build that the firmware section `spec` describes, if it
    /// may and can be built: 200 once the run is submitted, 500 where the
    /// orchestrator refuses it, else the status that [`spec_trigger`] names.
    pub fn trigger_build(&self, app: &str, dev: Option<&str>, spec: FirmwareSpec) -> (status:
        HttpStatus)
        ensures
            match spec_trigger(listed(self.config().apps@, app@), spec) {
                Trigger::Run { .. } => status == HttpStatus::Done || status
                    == HttpStatus::InternalServerError,
                Trigger::Refused(refusal) => status == refusal,
            },
            self.is_build_triggered(app@, opt_str(dev), spec, status),
    {
        match trigger_build(&self.config, app, spec) {
            Trigger::Run { image, build } => {
                let outcome = self.trigger(app, dev, image.as_str(), &build);
                assert(self.is_triggered(app@, opt_str(dev), image@, build, outcome));
                match outcome {
                    Ok(()) => HttpStatus::Done,
                    Err(_) => HttpStatus::InternalServerError,
                }
            },
            Trigger::Refused(status) => status,
        }
    }

    /// Answers a request to build the firmware of the application `app_id`:
    /// 400 without a token, 403 for an application that is not allowed; else
    /// the registry is asked for the application.
    pub fn trigger_app_build(&self, token: Option<&str>, app_id: &str) -> (status: HttpStatus)
        ensures
            token is None ==> status == HttpStatus::BadRequest,
            token is Some && !listed(self.config().apps@, app_id@) ==> status
                == HttpStatus::Forbidden,
            token is Some ==> status != HttpStatus::BadRequest,
            token is Some && listed(self.config().apps@, app_id@) ==> exists|
                looked: Result<Option<Entry>, String>,
            |
                {
                    &&& #[trigger] call_ensures(
                        T::get_app,
                        (&self.registry(), token->0, app_id),
                        looked,
                    )
                    &&& self.is_trigger_answer(app_id@, None, looked, status)
                },
    {
        match token {
            Some(token) => if self.is_allowed(app_id) {
                let looked = self.registry.get_app(token, app_id);
                let ghost answered = looked;
                let status = match section_of(looked) {
                    Ok(spec) => self.trigger_build(app_id, None, spec),
                    Err(status) => status,
                };
                assert(self.is_trigger_answer(app_id@, None, answered, status));
                status
            } else {
                HttpStatus::Forbidden
            },
            None => HttpStatus::BadRequest,
        }
    }

    /// Answers a request to build the firmware of the device `dev` of the
    /// application `app`: 400 without a token, 403 for an application that is
    /// not allowed; else the registry is asked for the device.
    pub fn trigger_device_build(&self, token: Option<&str>, app: &str, dev: &str) -> (status:
        HttpStatus)
        ensures
            token is None ==> status == HttpStatus::BadRequest,
            token is Some && !listed(self.config().apps@, app@) ==> status
                == HttpStatus::Forbidden,
            token is Some ==> status != HttpStatus::BadRequest,
            token is Some && listed(self.config().apps@, app@) ==> exists|
                looked: Result<Option<Entry>, String>,
            |
                {
                    &&& #[trigger] call_ensures(
                        T::get_device,
                        (&self.registry(), token->0, app, dev),
                        looked,
                    )
                    &&& self.is_trigger_answer(app@, Some(dev@), looked, status)
                },
    {
        match token {
            Some(token) => if self.is_allowed(app) {
                let looked = self.registry.get_device(token, app, dev);
                let ghost answered = looked;
                let status = match section_of(looked) {
                    Ok(spec) => self.trigger_build(app, Some(dev), spec),
                    Err(status) => status,
                };
                assert(self.is_trigger_answer(app@, Some(dev@), answered, status));
                status
            } else {
                HttpStatus::Forbidden
            },
            None => HttpStatus::BadRequest,
        }
    }
}

/// Reads the pipeline runs off what the orchestrator holds, in their order.
pub fn runs_of(objects: Vec<RunObject>) -> (runs: Vec<Run>)
    ensures
        runs@.len() == objects@.len(),
        forall|i: int|
            0 <= i < objects@.len() ==> {
                &&& (#[trigger] runs@[i]).labels == objects@[i].labels
                &&& runs@[i].created == objects@[i].created
                &&& is_reading_of_conditions(objects@[i].data, runs@[i].conditions)
            },
{
    let mut objects = objects;
    let ghost all = objects@;
    let mut reversed: Vec<Run> = Vec::new();
    while objects.len() > 0
        invariant
            objects@.len() <= all.len(),
            objects@ == all.take(objects@.len() as int),
            reversed@.len() == all.len() - objects@.len(),
            forall|i: int|
                0 <= i < reversed@.len() ==> {
                    let k = all.len() - 1 - i;
                    &&& (#[trigger] reversed@[i]).labels == all[k].labels
                    &&& reversed@[i].created == all[k].created
                    &&& is_reading_of_conditions(all[k].data, reversed@[i].conditions)
                },
        decreases objects@.len(),
    {
        let ghost before = objects@;
        match objects.pop() {
            Some(object) => {
                assert(object == all[before.len() - 1]);
                assert(objects@ =~= all.take(objects@.len() as int));
                reversed.push(run_of(object));
            },
            None => {},
        }
    }
    let mut runs: Vec<Run> = Vec::new();
    while reversed.len() > 0
        invariant
            reversed@.len() + runs@.len() == all.len(),
            forall|i: int|
                0 <= i < reversed@.len() ==> {
                    let k = all.len() - 1 - i;
                    &&& (#[trigger] reversed@[i]).labels == all[k].labels
                    &&& reversed@[i].created == all[k].created
                    &&& is_reading_of_conditions(all[k].data, reversed@[i].conditions)
                },
            forall|i: int|
                0 <= i < runs@.len() ==> {
                    &&& (#[trigger] runs@[i]).labels == all[i].labels
                    &&& runs@[i].created == all[i].created
                    &&& is_reading_of_conditions(all[i].data, runs@[i].conditions)
                },
        decreases reversed@.len(),
    {
        match reversed.pop() {
            Some(run) => runs.push(run),
            None => {},
        }
    }
    runs
}

/// Whether any of `devices` says how to build its firmware.
pub fn any_buildable(devices: &Vec<Entry>) -> (any: bool)
    ensures
        any == exists|i: int|
            0 <= i < devices@.len() && spec_has_build_spec((#[trigger] devices@[i]).spec),
{
    let n = devices.len();
    let mut i: usize = 0;
    while i < n
        invariant
            i <= n,
            n == devices@.len(),
            forall|j: int| 0 <= j < i ==> !spec_has_build_spec((#[trigger] devices@[j]).spec),
        decreases n - i,
    {
        if has_build_spec(&devices[i].spec) {
            return true;
        }
        i += 1;
    }
    false
}

} // verus!
