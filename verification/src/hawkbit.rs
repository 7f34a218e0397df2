//! Firmware offered by a Hawkbit update server.
//!
//! The server is polled for a controller. Where it has a deployment for it,
//! the descriptor of the deployment names the version, the size and where to
//! download the artifact; otherwise the server says how long to wait.

use vstd::prelude::*;
use vstd::slice::slice_to_vec;
use vstd::utf8::encode_utf8;

use crate::backoff::{backoff_seconds, parse_backoff};
use crate::json::{
    lemma_member_found, lemma_text_inside, lemma_text_of_member, member, path, spec_path,
    spec_text_at, text, text_at, Json, Member,
};
use crate::views::opt_text;
use crate::metadata::{Metadata, MetadataView};
use crate::store::FirmwareStore;
use crate::text::concat2;

verus! {

/// A deployment that the server has for a controller.
#[derive(Debug, Clone, PartialEq, Eq)]
pub struct Deployment {
    pub id: String,
    pub path: String,
}

/// What polling the server gave.
#[derive(Debug, Clone, PartialEq, Eq)]
pub enum PollResult {
    /// Nothing to install: ask again after this many seconds.
    Wait(u64),
    /// Something to install.
    Deployment(Deployment),
}

/// What the answer to a poll holds: the link to the deployment, if there is
/// one, and the advised polling interval.
#[derive(Debug, Clone, PartialEq, Eq)]
pub struct PollDocument {
    pub deployment_base: Option<String>,
    pub sleep: Option<String>,
}

/// What the descriptor of a deployment holds.
#[derive(Debug, Clone, PartialEq, Eq)]
pub struct DeploymentDocument {
    pub id: Option<String>,
    pub version: Option<String>,
    pub size: Option<i64>,
    pub download: Option<String>,
}

/// Access to an update server over HTTP. `authorization` is the value of the
/// header of that name; documents are JSON. Nothing is promised of what an
/// implementation answers.
pub trait UpdateServer {
    /// Puts `document` at `url`.
    fn put(&self, url: &str, authorization: &str, document: &Json) -> Result<(), String>;

    /// Gets the document at `url`.
    fn get(&self, url: &str, authorization: &str) -> Result<Json, String>;

    /// Gets the bytes at `url`.
    fn download(&self, url: &str, authorization: &str) -> Result<Vec<u8>, String>;

    /// Posts `document` to `url`.
    fn post(&self, url: &str, authorization: &str, document: &Json) -> Result<(), String>;
}

/// Where the answer to a poll holds the link to a deployment:
/// `_links.deploymentBase.href`.
pub open spec fn deployment_base_path() -> Seq<&'static str> {
    seq!["_links", "deploymentBase", "href"]
}

/// Where the answer to a poll holds the polling interval:
/// `config.polling.sleep`.
pub open spec fn sleep_path() -> Seq<&'static str> {
    seq!["config", "polling", "sleep"]
}

/// Reads the answer to a poll.
pub fn poll_document(document: &Json) -> (poll: PollDocument)
    ensures
        opt_text(poll.deployment_base) == spec_text_at(*document, deployment_base_path()),
        opt_text(poll.sleep) == spec_text_at(*document, sleep_path()),
{
    let base: [&str; 3] = ["_links", "deploymentBase", "href"];
    let sleep: [&str; 3] = ["config", "polling", "sleep"];
    assert(base@ =~= deployment_base_path());
    assert(sleep@ =~= sleep_path());
    PollDocument {
        deployment_base: text_at(document, base.as_slice()),
        sleep: text_at(document, sleep.as_slice()),
    }
}

/// The first chunk of a deployment: `deployment.chunks[0]`.
pub open spec fn first_chunk(document: Json) -> Option<Json> {
    match spec_path(document, seq!["deployment", "chunks"], 2) {
        Some(chunks) => chunks.spec_element(0),
        None => None,
    }
}

/// The first artifact of the first chunk of a deployment:
/// `deployment.chunks[0].artifacts[0]`.
pub open spec fn first_artifact(document: Json) -> Option<Json> {
    match first_chunk(document) {
        Some(chunk) => match chunk.spec_member("artifacts"@) {
            Some(artifacts) => artifacts.spec_element(0),
            None => None,
        },
        None => None,
    }
}

/// Where an artifact holds its download link: `_links.download-http.href`.
pub open spec fn download_path() -> Seq<&'static str> {
    seq!["_links", "download-http", "href"]
}

/// The text of a document that may be missing.
pub open spec fn text_of_found(document: Option<Json>) -> Option<Seq<char>> {
    match document {
        Some(d) => d.spec_text(),
        None => None,
    }
}

/// `found` is what the descriptor `document` of a deployment holds: its
/// `id`, the `version` of its first chunk, and the `size` and the download
/// link of the first artifact of that chunk, each as far as it is there.
pub open spec fn is_deployment_document(document: Json, found: DeploymentDocument) -> bool {
    &&& opt_text(found.id) == text_of_found(document.spec_member("id"@))
    &&& opt_text(found.version) == match first_chunk(document) {
        Some(chunk) => text_of_found(chunk.spec_member("version"@)),
        None => None,
    }
    &&& found.size == match first_artifact(document) {
        Some(artifact) => match artifact.spec_member("size"@) {
            Some(size) => size.spec_i64(),
            None => None,
        },
        None => None,
    }
    &&& opt_text(found.download) == match first_artifact(document) {
        Some(artifact) => spec_text_at(artifact, download_path()),
        None => None,
    }
}

fn chunk_of(document: &Json) -> (chunk: Option<&Json>)
    ensures
        chunk == match first_chunk(*document) {
            Some(c) => Some(&c),
            None => None,
        },
{
    let names: [&str; 2] = ["deployment", "chunks"];
    assert(names@ =~= seq!["deployment", "chunks"]);
    match path(document, names.as_slice()) {
        Some(chunks) => chunks.element(0),
        None => None,
    }
}

fn artifact_of(document: &Json) -> (artifact: Option<&Json>)
    ensures
        artifact == match first_artifact(*document) {
            Some(a) => Some(&a),
            None => None,
        },
{
    match chunk_of(document) {
        Some(chunk) => match chunk.member("artifacts") {
            Some(artifacts) => artifacts.element(0),
            None => None,
        },
        None => None,
    }
}

fn text_of(document: Option<&Json>) -> (text: Option<String>)
    ensures
        opt_text(text) == text_of_found(
            match document {
                Some(d) => Some(*d),
                None => None,
            },
        ),
{
    match document {
        Some(d) => match d.as_str() {
            Some(t) => Some(t.to_owned()),
            None => None,
        },
        None => None,
    }
}

/// Reads the descriptor of a deployment.
pub fn deployment_document(document: &Json) -> (found: DeploymentDocument)
    ensures
        is_deployment_document(*document, found),
{
    let href: [&str; 3] = ["_links", "download-http", "href"];
    assert(href@ =~= download_path());
    let chunk = chunk_of(document);
    let artifact = artifact_of(document);
    DeploymentDocument {
        id: text_of(document.member("id")),
        version: match chunk {
            Some(chunk) => text_of(chunk.member("version")),
            None => None,
        },
        size: match artifact {
            Some(artifact) => match artifact.member("size") {
                Some(size) => size.as_i64(),
                None => None,
            },
            None => None,
        },
        download: match artifact {
            Some(artifact) => text_at(artifact, href.as_slice()),
            None => None,
        },
    }
}

/// A firmware store on top of an update server.
pub struct HawkbitClient<S: UpdateServer> {
    client: S,
    url: String,
    tenant: String,
    token: String,
}

/// The address of a controller: `{url}/{tenant}/controller/v1/{controller}`.
pub open spec fn controller_address(url: Seq<char>, tenant: Seq<char>, controller: Seq<char>)
    -> Seq<char> {
    url + "/"@ + tenant + "/controller/v1/"@ + controller
}

/// The address that takes the feedback on a deployment of a controller:
/// `{url}/{tenant}/controller/v1/{controller}/deploymentBase/{id}/feedback`.
pub open spec fn feedback_address(
    url: Seq<char>,
    tenant: Seq<char>,
    controller: Seq<char>,
    id: Seq<char>,
) -> Seq<char> {
    controller_address(url, tenant, controller) + "/deploymentBase/"@ + id + "/feedback"@
}

/// The value of the authorization header for `token`: `GatewayToken {token}`.
pub open spec fn gateway_authorization(token: Seq<char>) -> Seq<char> {
    "GatewayToken "@ + token
}

/// The word that reports how an installation ended.
pub open spec fn finished_word(success: bool) -> Seq<char> {
    if success {
        "success"@
    } else {
        "failed"@
    }
}

/// What the descriptor of a deployment says, where it says everything that
/// is needed: the id, the version, the size and the download link. The
/// digest is not part of it and stays empty; the size is cut to 32 bits.
pub open spec fn deployment_metadata(document: DeploymentDocument) -> Option<
    (MetadataView, Deployment),
> {
    match (document.id, document.version, document.size, document.download) {
        (Some(id), Some(version), Some(size), Some(download)) => Some(
            (
                MetadataView {
                    version: encode_utf8(version@),
                    checksum: Seq::<char>::empty(),
                    size: size as u32,
                },
                Deployment { id, path: download },
            ),
        ),
        _ => None,
    }
}

/// Reads the metadata and the deployment off the descriptor of a deployment.
pub fn read_metadata(document: DeploymentDocument) -> (found: Option<(Metadata, Deployment)>)
    ensures
        match found {
            Some((metadata, deployment)) => deployment_metadata(document) == Some(
                (metadata@, deployment),
            ),
            None => deployment_metadata(document) is None,
        },
{
    match (document.id, document.version, document.size, document.download) {
        (Some(id), Some(version), Some(size), Some(download)) => Some(
            (
                Metadata {
                    version: slice_to_vec(version.as_str().as_bytes()),
                    checksum: String::new(),
                    size: size as u32,
                },
                Deployment { id, path: download },
            ),
        ),
        _ => None,
    }
}

/// What to do after a poll.
pub enum PollChoice {
    /// Read the descriptor of the deployment at this address.
    Deployment(String),
    /// Nothing to install: ask again after this many seconds.
    Wait(u64),
    /// The answer names no deployment and no interval that can be read.
    Unusable,
}

/// What to do after a poll: a link to a deployment is followed; without
/// one, the advised interval is read.
pub open spec fn poll_choice(document: PollDocument) -> PollChoice {
    match document.deployment_base {
        Some(address) => PollChoice::Deployment(address),
        None => match document.sleep {
            Some(sleep) => match backoff_seconds(encode_utf8(sleep@)) {
                Some(seconds) => PollChoice::Wait(seconds),
                None => PollChoice::Unusable,
            },
            None => PollChoice::Unusable,
        },
    }
}

/// Decides what to do after a poll.
pub fn interpret_poll(document: PollDocument) -> (choice: PollChoice)
    ensures
        choice == poll_choice(document),
{
    match document.deployment_base {
        Some(address) => PollChoice::Deployment(address),
        None => match document.sleep {
            Some(sleep) => match parse_backoff(sleep.as_str()) {
                Some(seconds) => PollChoice::Wait(seconds),
                None => PollChoice::Unusable,
            },
            None => PollChoice::Unusable,
        },
    }
}

/// The interval that a device is told to wait after `context`: the advised
/// number of seconds, cut to 32 bits, where the poll found no deployment.
pub open spec fn spec_backoff(context: PollResult) -> Option<u32> {
    match context {
        PollResult::Wait(seconds) => Some(seconds as u32),
        PollResult::Deployment(_) => None,
    }
}

/// The interval that a device is told to wait after `context`.
pub fn backoff(context: &PollResult) -> (seconds: Option<u32>)
    ensures
        seconds == spec_backoff(*context),
{
    match context {
        PollResult::Wait(seconds) => Some(*seconds as u32),
        PollResult::Deployment(_) => None,
    }
}

/// Where a feedback says how the installation ended: `status.result.finished`.
pub open spec fn finished_path() -> Seq<&'static str> {
    seq!["status", "result", "finished"]
}

/// Where a feedback says that the deployment is done with: `status.execution`.
pub open spec fn execution_path() -> Seq<&'static str> {
    seq!["status", "execution"]
}

fn status_document(finished: &str, details: Vec<Json>) -> (status: Json)
    ensures
        spec_text_at(status, seq!["result", "finished"]) == Some(finished@),
        spec_text_at(status, seq!["execution"]) == Some("closed"@),
{
    let mut result: Vec<Member> = Vec::new();
    result.push(member("finished", text(finished)));
    let result_document = Json::Object(result);
    let mut status: Vec<Member> = Vec::new();
    status.push(member("result", result_document));
    status.push(member("execution", text("closed")));
    status.push(member("details", Json::Array(details)));
    let document = Json::Object(status);
    proof {
        reveal_strlit("result");
        reveal_strlit("execution");
        assert("result"@.len() != "execution"@.len());
        lemma_member_found(result, 0);
        lemma_member_found(status, 0);
        lemma_member_found(status, 1);
        lemma_text_of_member(result_document, "finished", result@[0].value);
        lemma_text_inside(document, "result", result_document, seq!["finished"]);
        assert(seq!["result", "finished"] =~= seq!["result"] + seq!["finished"]);
        lemma_text_of_member(document, "execution", status@[1].value);
    }
    document
}

/// The feedback on the deployment `id`: closed, and finished with success or
/// with failure.
pub fn feedback_for(id: &str, success: bool) -> (feedback: Json)
    ensures
        spec_text_at(feedback, seq!["id"]) == Some(id@),
        spec_text_at(feedback, finished_path()) == Some(finished_word(success)),
        spec_text_at(feedback, execution_path()) == Some("closed"@),
{
    let mut details: Vec<Json> = Vec::new();
    details.push(text("Update was successfully installed."));
    let status = status_document(
        if success {
            "success"
        } else {
            "failed"
        },
        details,
    );
    let mut members: Vec<Member> = Vec::new();
    members.push(member("id", text(id)));
    members.push(member("status", status));
    let document = Json::Object(members);
    proof {
        reveal_strlit("id");
        reveal_strlit("status");
        assert("id"@.len() != "status"@.len());
        lemma_member_found(members, 0);
        lemma_member_found(members, 1);
        lemma_text_of_member(document, "id", members@[0].value);
        lemma_text_inside(document, "status", status, seq!["result", "finished"]);
        lemma_text_inside(document, "status", status, seq!["execution"]);
        assert(finished_path() =~= seq!["status"] + seq!["result", "finished"]);
        assert(execution_path() =~= seq!["status"] + seq!["execution"]);
    }
    document
}

/// The attributes with which a controller is announced: to be merged, and
/// with no installation pending.
pub fn registration() -> (attributes: Json)
    ensures
        spec_text_at(attributes, seq!["mode"]) == Some("merge"@),
        spec_text_at(attributes, seq!["data", "VIN"]) == Some("JH4TB2H26CC000001"@),
        spec_text_at(attributes, seq!["data", "hwRevision"]) == Some("1"@),
        spec_text_at(attributes, finished_path()) == Some("success"@),
        spec_text_at(attributes, execution_path()) == Some("closed"@),
{
    let mut data: Vec<Member> = Vec::new();
    data.push(member("VIN", text("JH4TB2H26CC000001")));
    data.push(member("hwRevision", text("1")));
    let data_document = Json::Object(data);
    let status = status_document("success", Vec::new());
    let mut members: Vec<Member> = Vec::new();
    members.push(member("mode", text("merge")));
    members.push(member("data", data_document));
    members.push(member("status", status));
    let document = Json::Object(members);
    proof {
        reveal_strlit("mode");
        reveal_strlit("data");
        reveal_strlit("status");
        reveal_strlit("VIN");
        reveal_strlit("hwRevision");
        assert("VIN"@.len() != "hwRevision"@.len());
        assert("mode"@[0] != "data"@[0]);
        assert("mode"@.len() != "status"@.len());
        assert("data"@.len() != "status"@.len());
        lemma_member_found(data, 0);
        lemma_member_found(data, 1);
        lemma_member_found(members, 0);
        lemma_member_found(members, 1);
        lemma_member_found(members, 2);
        lemma_text_of_member(document, "mode", members@[0].value);
        lemma_text_of_member(data_document, "VIN", data@[0].value);
        lemma_text_of_member(data_document, "hwRevision", data@[1].value);
        lemma_text_inside(document, "data", data_document, seq!["VIN"]);
        lemma_text_inside(document, "data", data_document, seq!["hwRevision"]);
        lemma_text_inside(document, "status", status, seq!["result", "finished"]);
        lemma_text_inside(document, "status", status, seq!["execution"]);
        assert(finished_path() =~= seq!["status"] + seq!["result", "finished"]);
        assert(execution_path() =~= seq!["status"] + seq!["execution"]);
        assert(seq!["data", "VIN"] =~= seq!["data"] + seq!["VIN"]);
        assert(seq!["data", "hwRevision"] =~= seq!["data"] + seq!["hwRevision"]);
    }
    document
}

/// Mathematical value of a [`PollChoice`].
pub enum PollChoiceView {
    Deployment(Seq<char>),
    Wait(u64),
    Unusable,
}

impl View for PollChoice {
    type V = PollChoiceView;

    open spec fn view(&self) -> PollChoiceView {
        match self {
            PollChoice::Deployment(address) => PollChoiceView::Deployment(address@),
            PollChoice::Wait(seconds) => PollChoiceView::Wait(*seconds),
            PollChoice::Unusable => PollChoiceView::Unusable,
        }
    }
}

/// What to do after the answer `document` to a poll: the link at
/// `_links.deploymentBase.href` is followed; without one, the interval at
/// `config.polling.sleep` is read.
pub open spec fn document_choice(document: Json) -> PollChoiceView {
    match spec_text_at(document, deployment_base_path()) {
        Some(address) => PollChoiceView::Deployment(address),
        None => match spec_text_at(document, sleep_path()) {
            Some(sleep) => match backoff_seconds(encode_utf8(sleep)) {
                Some(seconds) => PollChoiceView::Wait(seconds),
                None => PollChoiceView::Unusable,
            },
            None => PollChoiceView::Unusable,
        },
    }
}

/// `outcome` is what the descriptor `descriptor` of a deployment leads to:
/// the deployment and its metadata, where the descriptor says everything
/// that is needed; else an error.
pub open spec fn is_descriptor_outcome(
    descriptor: Json,
    outcome: Result<(PollResult, Option<Metadata>), String>,
) -> bool {
    exists|found: DeploymentDocument|
        {
            &&& #[trigger] is_deployment_document(descriptor, found)
            &&& match deployment_metadata(found) {
                Some((wanted, deployment)) => outcome matches Ok(
                    (PollResult::Deployment(d), Some(metadata)),
                ) && d == deployment && metadata@ == wanted,
                None => outcome is Err,
            }
        }
}

/// `document` is the feedback on the deployment `id`: closed, and finished
/// with success or with failure.
pub open spec fn is_feedback(document: Json, id: Seq<char>, success: bool) -> bool {
    &&& spec_text_at(document, seq!["id"]) == Some(id)
    &&& spec_text_at(document, finished_path()) == Some(finished_word(success))
    &&& spec_text_at(document, execution_path()) == Some("closed"@)
}

/// `document` holds the attributes with which a controller is announced:
/// to be merged, and with no installation pending.
pub open spec fn is_registration(document: Json) -> bool {
    &&& spec_text_at(document, seq!["mode"]) == Some("merge"@)
    &&& spec_text_at(document, seq!["data", "VIN"]) == Some("JH4TB2H26CC000001"@)
    &&& spec_text_at(document, seq!["data", "hwRevision"]) == Some("1"@)
    &&& spec_text_at(document, finished_path()) == Some("success"@)
    &&& spec_text_at(document, execution_path()) == Some("closed"@)
}

impl<S: UpdateServer> HawkbitClient<S> {
    /// The attributes of `controller` are put at its address, whatever the
    /// server answers to that.
    pub open spec fn is_registered(&self, controller: Seq<char>) -> bool {
        exists|url: &str, authorization: &str, attributes: Json, answered: Result<(), String>|
            {
                &&& url@ == controller_address(self.url(), self.tenant(), controller)
                &&& authorization@ == gateway_authorization(self.token())
                &&& is_registration(attributes)
                &&& #[trigger] call_ensures(
                    S::put,
                    (&self.server(), url, authorization, &attributes),
                    answered,
                )
            }
    }

    /// The server that is asked.
    pub closed spec fn server(&self) -> S {
        self.client
    }

    /// `outcome` is what polling the server for `controller` may give.
    ///
    /// The server is asked at the address of the controller. Its failure is
    /// the outcome. With a link to a deployment in its answer, the descriptor
    /// at that link is asked for, and the outcome is what the descriptor
    /// leads to, or the failure to get it. Without one, the outcome is the
    /// interval to wait and no metadata, or an error where the answer names
    /// no interval that can be read.
    pub open spec fn is_metadata_poll(
        &self,
        controller: Seq<char>,
        outcome: Result<(PollResult, Option<Metadata>), String>,
    ) -> bool {
        exists|url: &str, authorization: &str, polled: Result<Json, String>|
            {
                &&& url@ == controller_address(self.url(), self.tenant(), controller)
                &&& authorization@ == gateway_authorization(self.token())
                &&& #[trigger] call_ensures(S::get, (&self.server(), url, authorization), polled)
                &&& match polled {
                    Ok(document) => match document_choice(document) {
                        PollChoiceView::Deployment(address) => self.is_deployment_fetch(
                            address,
                            outcome,
                        ),
                        PollChoiceView::Wait(seconds) => outcome == Ok::<
                            (PollResult, Option<Metadata>),
                            String,
                        >((PollResult::Wait(seconds), None)),
                        PollChoiceView::Unusable => outcome is Err,
                    },
                    Err(e) => outcome == Err::<(PollResult, Option<Metadata>), String>(e),
                }
            }
    }

    /// `outcome` is what asking the server for the descriptor at `address`
    /// may lead to.
    pub open spec fn is_deployment_fetch(
        &self,
        address: Seq<char>,
        outcome: Result<(PollResult, Option<Metadata>), String>,
    ) -> bool {
        exists|link: &str, authorization: &str, fetched: Result<Json, String>|
            {
                &&& link@ == address
                &&& authorization@ == gateway_authorization(self.token())
                &&& #[trigger] call_ensures(S::get, (&self.server(), link, authorization), fetched)
                &&& match fetched {
                    Ok(descriptor) => is_descriptor_outcome(descriptor, outcome),
                    Err(e) => outcome == Err::<(PollResult, Option<Metadata>), String>(e),
                }
            }
    }

    /// `outcome` is what posting the feedback on the deployment `id` of
    /// `controller` to its address may give.
    pub open spec fn is_feedback_post(
        &self,
        controller: Seq<char>,
        id: Seq<char>,
        success: bool,
        outcome: Result<(), String>,
    ) -> bool {
        exists|url: &str, authorization: &str, document: Json|
            {
                &&& url@ == feedback_address(self.url(), self.tenant(), controller, id)
                &&& authorization@ == gateway_authorization(self.token())
                &&& is_feedback(document, id, success)
                &&& #[trigger] call_ensures(
                    S::post,
                    (&self.server(), url, authorization, &document),
                    outcome,
                )
            }
    }

    /// `outcome` is what downloading from `path` may give.
    pub open spec fn is_download(&self, path: Seq<char>, outcome: Result<Vec<u8>, String>) -> bool {
        exists|url: &str, authorization: &str|
            {
                &&& url@ == path
                &&& authorization@ == gateway_authorization(self.token())
                &&& #[trigger] call_ensures(
                    S::download,
                    (&self.server(), url, authorization),
                    outcome,
                )
            }
    }

    /// The address of the server.
    pub closed spec fn url(&self) -> Seq<char> {
        self.url@
    }

    /// The tenant whose controllers are served.
    pub closed spec fn tenant(&self) -> Seq<char> {
        self.tenant@
    }

    /// The token that opens the server.
    pub closed spec fn token(&self) -> Seq<char> {
        self.token@
    }

    /// A store on the server at `url`, for the controllers of `tenant`.
    pub fn new(client: S, url: &str, tenant: &str, token: &str) -> (hawkbit: Self)
        ensures
            hawkbit.url() == url@,
            hawkbit.tenant() == tenant@,
            hawkbit.token() == token@,
            hawkbit.server() == client,
    {
        HawkbitClient {
            client,
            url: url.to_owned(),
            tenant: tenant.to_owned(),
            token: token.to_owned(),
        }
    }

    /// The address of `controller` on the server.
    pub fn controller_url(&self, controller: &str) -> (address: String)
        ensures
            address@ == controller_address(self.url(), self.tenant(), controller@),
    {
        let mut address = self.url.clone();
        address.append("/");
        address.append(self.tenant.as_str());
        address.append("/controller/v1/");
        address.append(controller);
        address
    }

    /// The address that takes the feedback on the deployment `id` of `controller`.
    pub fn feedback_url(&self, controller: &str, id: &str) -> (address: String)
        ensures
            address@ == feedback_address(self.url(), self.tenant(), controller@, id@),
    {
        let mut address = self.controller_url(controller);
        address.append("/deploymentBase/");
        address.append(id);
        address.append("/feedback");
        address
    }

    /// The value of the authorization header.
    pub fn authorization(&self) -> (value: String)
        ensures
            value@ == gateway_authorization(self.token()),
    {
        concat2("GatewayToken ", self.token.as_str())
    }

    /// Announces `controller` to the server. A server that does not take the
    /// announcement is no obstacle.
    pub fn register(&mut self, controller: &str) -> (done: Result<(), String>)
        ensures
            done is Ok,
            final(self).url() == old(self).url(),
            final(self).tenant() == old(self).tenant(),
            final(self).token() == old(self).token(),
            *final(self) == *old(self),
            old(self).is_registered(controller@),
    {
        let address = self.controller_url(controller);
        let authorization = self.authorization();
        let attributes = registration();
        let url = address.as_str();
        let auth = authorization.as_str();
        let answered = self.client.put(url, auth, &attributes);
        assert(call_ensures(S::put, (&old(self).server(), url, auth, &attributes), answered));
        Ok(())
    }

    /// Polls the server for `controller`. With a deployment, the outcome is
    /// the deployment and its metadata; without one, the interval to wait and
    /// no metadata. An answer that cannot be used is an error.
    pub fn fetch_metadata(&mut self, controller: &str) -> (outcome: Result<
        (PollResult, Option<Metadata>),
        String,
    >)
        ensures
            final(self).url() == old(self).url(),
            final(self).tenant() == old(self).tenant(),
            final(self).token() == old(self).token(),
            match outcome {
                Ok((PollResult::Wait(_), metadata)) => metadata is None,
                Ok((PollResult::Deployment(_), metadata)) => metadata is Some,
                Err(_) => true,
            },
            *final(self) == *old(self),
            old(self).is_metadata_poll(controller@, outcome),
    {
        let address = self.controller_url(controller);
        let authorization = self.authorization();
        let url = address.as_str();
        let auth = authorization.as_str();
        let polled = self.client.get(url, auth);
        assert(call_ensures(S::get, (&old(self).server(), url, auth), polled));
        let document = match polled {
            Ok(document) => document,
            Err(e) => return Err(e),
        };
        let choice = interpret_poll(poll_document(&document));
        assert(choice@ == document_choice(document));
        match choice {
            PollChoice::Deployment(target) => {
                let link = target.as_str();
                let fetched = self.client.get(link, auth);
                assert(call_ensures(S::get, (&old(self).server(), link, auth), fetched));
                let outcome = match fetched {
                    Ok(descriptor) => {
                        let found = deployment_document(&descriptor);
                        let outcome = match read_metadata(found) {
                            Some((metadata, deployment)) => Ok(
                                (PollResult::Deployment(deployment), Some(metadata)),
                            ),
                            None => Err("Incomplete deployment descriptor".to_owned()),
                        };
                        assert(is_descriptor_outcome(descriptor, outcome));
                        outcome
                    },
                    Err(e) => Err(e),
                };
                assert(old(self).is_deployment_fetch(target@, outcome));
                outcome
            },
            PollChoice::Wait(seconds) => Ok((PollResult::Wait(seconds), None)),
            PollChoice::Unusable => Err("Unusable polling interval".to_owned()),
        }
    }

    /// Tells the server how the installation of `deployment` ended.
    pub fn provide_feedback(&mut self, controller: &str, deployment: &Deployment, success: bool)
        -> (done: Result<(), String>)
        ensures
            final(self).url() == old(self).url(),
            final(self).tenant() == old(self).tenant(),
            final(self).token() == old(self).token(),
            *final(self) == *old(self),
            old(self).is_feedback_post(controller@, deployment.id@, success, done),
    {
        let address = self.feedback_url(controller, deployment.id.as_str());
        let authorization = self.authorization();
        let feedback = feedback_for(deployment.id.as_str(), success);
        let url = address.as_str();
        let auth = authorization.as_str();
        let done = self.client.post(url, auth, &feedback);
        assert(call_ensures(S::post, (&old(self).server(), url, auth, &feedback), done));
        done
    }

    /// Downloads the artifact of `deployment`.
    pub fn fetch_firmware(&mut self, deployment: &Deployment) -> (outcome: Result<Vec<u8>, String>)
        ensures
            final(self).url() == old(self).url(),
            final(self).tenant() == old(self).tenant(),
            final(self).token() == old(self).token(),
            *final(self) == *old(self),
            old(self).is_download(deployment.path@, outcome),
    {
        let authorization = self.authorization();
        let url = deployment.path.as_str();
        let auth = authorization.as_str();
        let outcome = self.client.download(url, auth);
        assert(call_ensures(S::download, (&old(self).server(), url, auth), outcome));
        outcome
    }
}

impl<S: UpdateServer> FirmwareStore for HawkbitClient<S> {
    type Params = String;

    type Context = PollResult;

    /// What polling the server for the controller `params` may give. The
    /// store stays as it is.
    open spec fn may_fetch_metadata(
        &self,
        after: Self,
        params: String,
        outcome: Result<(PollResult, Option<Metadata>), String>,
    ) -> bool {
        after == *self && self.is_metadata_poll(params@, outcome)
    }

    /// The advised interval, cut to 32 bits, where the poll found no
    /// deployment.
    open spec fn may_get_backoff(&self, context: PollResult, backoff: Option<u32>) -> bool {
        backoff == spec_backoff(context)
    }

    /// An update server is not told of progress: nothing happens.
    open spec fn may_update_progress(
        &self,
        after: Self,
        params: String,
        context: PollResult,
        offset: u32,
        size: u32,
        outcome: Result<(), String>,
    ) -> bool {
        after == *self && outcome is Ok
    }

    /// What posting the feedback on the deployment of `context` may give;
    /// without a deployment there is nothing to tell. The store stays as it
    /// is.
    open spec fn may_mark_synced(
        &self,
        after: Self,
        params: String,
        context: PollResult,
        success: bool,
        outcome: Result<(), String>,
    ) -> bool {
        &&& after == *self
        &&& match context {
            PollResult::Deployment(deployment) => self.is_feedback_post(
                params@,
                deployment.id@,
                success,
                outcome,
            ),
            PollResult::Wait(_) => outcome is Ok,
        }
    }

    /// What downloading the artifact of the deployment of `context` may
    /// give; without a deployment there is nothing to download, which is an
    /// error. The store stays as it is.
    open spec fn may_fetch_firmware(
        &self,
        after: Self,
        params: String,
        context: PollResult,
        metadata: Metadata,
        outcome: Result<Vec<u8>, String>,
    ) -> bool {
        &&& after == *self
        &&& match context {
            PollResult::Deployment(deployment) => self.is_download(deployment.path@, outcome),
            PollResult::Wait(_) => outcome is Err,
        }
    }

    fn fetch_metadata(&mut self, params: &Self::Params) -> (outcome: Result<
        (Self::Context, Option<Metadata>),
        String,
    >) {
        HawkbitClient::fetch_metadata(self, params.as_str())
    }

    fn get_backoff(&self, context: &Self::Context) -> (seconds: Option<u32>) {
        backoff(context)
    }

    fn update_progress(
        &mut self,
        params: &Self::Params,
        context: &Self::Context,
        offset: u32,
        size: u32,
    ) -> (outcome: Result<(), String>) {
        Ok(())
    }

    fn mark_synced(&mut self, params: &Self::Params, context: &Self::Context, success: bool)
        -> (outcome: Result<(), String>) {
        match context {
            PollResult::Deployment(deployment) => self.provide_feedback(
                params.as_str(),
                deployment,
                success,
            ),
            PollResult::Wait(_) => Ok(()),
        }
    }

    fn fetch_firmware(
        &mut self,
        params: &Self::Params,
        context: &Self::Context,
        metadata: &Metadata,
    ) -> (outcome: Result<Vec<u8>, String>) {
        match context {
            PollResult::Deployment(deployment) => HawkbitClient::fetch_firmware(self, deployment),
            PollResult::Wait(_) => Err("Unexpected PollResult".to_owned()),
        }
    }
}

} // verus!
