//! The calls of a run: one request for each stage, as values.
//!
//! A request says what is to be sent. Whoever drives the run sends it and
//! hands the reply back to the pipeline.

use crate::config::{Config, ConfigView, Endpoint, EndpointView};
use crate::json::{json_string_literal, quote};
use vstd::prelude::*;

verus! {

/// The stages of a run, in the order in which they are carried out.
#[derive(Clone, Copy, Debug, PartialEq, Eq, Structural)]
pub enum Stage {
    /// See whether the network is reachable.
    Preflight,
    /// Look up the commit at the tip of the branch.
    ResolveHead,
    /// Store the new file content.
    CreateBlob,
    /// Build the tree that holds the new content at the file's path.
    CreateTree,
    /// Build the commit on top of the branch tip.
    CreateCommit,
    /// Point the branch reference at the new commit.
    UpdateRef,
    /// Tell the branch endpoint about the new commit as well.
    ConfirmBranch,
}

impl Stage {
    /// The place of a stage in a run, from zero.
    pub open spec fn position(self) -> nat {
        match self {
            Stage::Preflight => 0,
            Stage::ResolveHead => 1,
            Stage::CreateBlob => 2,
            Stage::CreateTree => 3,
            Stage::CreateCommit => 4,
            Stage::UpdateRef => 5,
            Stage::ConfirmBranch => 6,
        }
    }

    /// The line that announces each stage.
    pub open spec fn announcement_text(self) -> Seq<char> {
        match self {
            Stage::Preflight => "Checking internet connection..."@,
            Stage::ResolveHead => "Getting last commit SHA..."@,
            Stage::CreateBlob => "Creating blob..."@,
            Stage::CreateTree => "Creating tree..."@,
            Stage::CreateCommit => "Creating commit..."@,
            Stage::UpdateRef => "Updating ref..."@,
            Stage::ConfirmBranch => "Patching..."@,
        }
    }

    /// The line to show when the stage begins.
    pub fn announcement(&self) -> (line: &'static str)
        ensures
            line@ == self.announcement_text(),
    {
        match self {
            Stage::Preflight => "Checking internet connection...",
            Stage::ResolveHead => "Getting last commit SHA...",
            Stage::CreateBlob => "Creating blob...",
            Stage::CreateTree => "Creating tree...",
            Stage::CreateCommit => "Creating commit...",
            Stage::UpdateRef => "Updating ref...",
            Stage::ConfirmBranch => "Patching...",
        }
    }
}

/// The HTTP method of a request.
#[derive(Clone, Copy, Debug, PartialEq, Eq, Structural)]
pub enum Method {
    Get,
    Post,
    Patch,
}

/// The JSON body of a request, before it is written out.
#[derive(Debug, PartialEq, Eq)]
pub enum Body {
    /// New file content, sent as UTF-8 text.
    Blob { content: String },
    /// One regular file at `path` holding the blob `sha`, laid over the tree
    /// of `base_tree`. Everything else in the base tree stays as it is.
    Tree { base_tree: String, path: String, sha: String },
    /// A commit of `tree` with the single parent `parent`.
    Commit { message: String, tree: String, parent: String },
    /// The commit that a branch is to point at.
    Reference { sha: String },
}

/// A body as contracts see it.
pub enum BodyView {
    Blob { content: Seq<char> },
    Tree { base_tree: Seq<char>, path: Seq<char>, sha: Seq<char> },
    Commit { message: Seq<char>, tree: Seq<char>, parent: Seq<char> },
    Reference { sha: Seq<char> },
}

impl View for Body {
    type V = BodyView;

    open spec fn view(&self) -> BodyView {
        match self {
            Body::Blob { content } => BodyView::Blob { content: content@ },
            Body::Tree { base_tree, path, sha } => BodyView::Tree {
                base_tree: base_tree@,
                path: path@,
                sha: sha@,
            },
            Body::Commit { message, tree, parent } => BodyView::Commit {
                message: message@,
                tree: tree@,
                parent: parent@,
            },
            Body::Reference { sha } => BodyView::Reference { sha: sha@ },
        }
    }
}

/// The text of a blob body around the literal of its content.
pub open spec fn blob_text(content: Seq<char>) -> Seq<char> {
    "{\"content\":"@ + content + ",\"encoding\":\"utf-8\"}"@
}

/// The text of a tree body around the literals of its three strings. The one
/// entry is a blob with the mode of a regular file.
pub open spec fn tree_text(base_tree: Seq<char>, path: Seq<char>, sha: Seq<char>) -> Seq<char> {
    "{\"base_tree\":"@ + base_tree + ",\"tree\":[{\"path\":"@ + path
        + ",\"mode\":\"100644\",\"type\":\"blob\",\"sha\":"@ + sha + "}]}"@
}

/// The text of a commit body around the literals of its three strings.
pub open spec fn commit_text(message: Seq<char>, tree: Seq<char>, parent: Seq<char>) -> Seq<char> {
    "{\"message\":"@ + message + ",\"tree\":"@ + tree + ",\"parents\":["@ + parent + "]}"@
}

/// The text of a reference body around the literal of its commit.
pub open spec fn reference_text(sha: Seq<char>) -> Seq<char> {
    "{\"sha\":"@ + sha + "}"@
}

impl BodyView {
    /// The JSON text of a body. Every string is written as the literal that
    /// `serde_json` makes of it, so no character of a content, a path, a
    /// message or an identifier can break the document.
    pub open spec fn json(self) -> Seq<char> {
        match self {
            BodyView::Blob { content } => blob_text(json_string_literal(content)),
            BodyView::Tree { base_tree, path, sha } => tree_text(
                json_string_literal(base_tree),
                json_string_literal(path),
                json_string_literal(sha),
            ),
            BodyView::Commit { message, tree, parent } => commit_text(
                json_string_literal(message),
                json_string_literal(tree),
                json_string_literal(parent),
            ),
            BodyView::Reference { sha } => reference_text(json_string_literal(sha)),
        }
    }
}

/// Writes a blob body around `content`, which is a JSON literal already.
pub fn blob_json(content: &str) -> (text: String)
    ensures
        text@ == blob_text(content@),
{
    let mut text = String::from_str("{\"content\":");
    text.append(content);
    text.append(",\"encoding\":\"utf-8\"}");
    text
}

/// Writes a tree body around three strings that are JSON literals already.
pub fn tree_json(base_tree: &str, path: &str, sha: &str) -> (text: String)
    ensures
        text@ == tree_text(base_tree@, path@, sha@),
{
    let mut text = String::from_str("{\"base_tree\":");
    text.append(base_tree);
    text.append(",\"tree\":[{\"path\":");
    text.append(path);
    text.append(",\"mode\":\"100644\",\"type\":\"blob\",\"sha\":");
    text.append(sha);
    text.append("}]}");
    text
}

/// Writes a commit body around three strings that are JSON literals already.
pub fn commit_json(message: &str, tree: &str, parent: &str) -> (text: String)
    ensures
        text@ == commit_text(message@, tree@, parent@),
{
    let mut text = String::from_str("{\"message\":");
    text.append(message);
    text.append(",\"tree\":");
    text.append(tree);
    text.append(",\"parents\":[");
    text.append(parent);
    text.append("]}");
    text
}

/// Writes a reference body around `sha`, which is a JSON literal already.
pub fn reference_json(sha: &str) -> (text: String)
    ensures
        text@ == reference_text(sha@),
{
    let mut text = String::from_str("{\"sha\":");
    text.append(sha);
    text.append("}");
    text
}

impl Body {
    /// The body as JSON text, ready to be sent.
    pub fn to_json(&self) -> (text: String)
        ensures
            text@ == self@.json(),
    {
        match self {
            Body::Blob { content } => {
                let content = quote(content.as_str());
                blob_json(content.as_str())
            },
            Body::Tree { base_tree, path, sha } => {
                let base_tree = quote(base_tree.as_str());
                let path = quote(path.as_str());
                let sha = quote(sha.as_str());
                tree_json(base_tree.as_str(), path.as_str(), sha.as_str())
            },
            Body::Commit { message, tree, parent } => {
                let message = quote(message.as_str());
                let tree = quote(tree.as_str());
                let parent = quote(parent.as_str());
                commit_json(message.as_str(), tree.as_str(), parent.as_str())
            },
            Body::Reference { sha } => {
                let sha = quote(sha.as_str());
                reference_json(sha.as_str())
            },
        }
    }
}

/// One call to be made.
#[derive(Debug, PartialEq, Eq)]
pub struct Request {
    /// The stage that the call belongs to.
    pub stage: Stage,
    pub method: Method,
    pub url: String,
    /// The `User-Agent` header, where the call carries one.
    pub user_agent: Option<String>,
    /// The `Authorization` header, where the call is authenticated.
    pub authorization: Option<String>,
    /// The body, where the call has one.
    pub body: Option<Body>,
}

/// A request as contracts see it.
pub struct RequestView {
    pub stage: Stage,
    pub method: Method,
    pub url: Seq<char>,
    pub user_agent: Option<Seq<char>>,
    pub authorization: Option<Seq<char>>,
    pub body: Option<BodyView>,
}

impl View for Request {
    type V = RequestView;

    open spec fn view(&self) -> RequestView {
        RequestView {
            stage: self.stage,
            method: self.method,
            url: self.url@,
            user_agent: self.user_agent.deep_view(),
            authorization: self.authorization.deep_view(),
            body: match self.body {
                Some(body) => Some(body@),
                None => None,
            },
        }
    }
}

/// The address of the repository on the service.
pub open spec fn repo_url(endpoint: EndpointView, config: ConfigView) -> Seq<char> {
    endpoint.api_base + "/repos/"@ + config.github_username + "/"@ + config.github_repo_name
}

/// The value of the `Authorization` header: the word `token` and the
/// credential.
pub open spec fn token_header(config: ConfigView) -> Seq<char> {
    "token "@ + config.github_token
}

/// The probe: a plain fetch of the probe address, with no header of ours.
pub open spec fn probe_request(endpoint: EndpointView) -> RequestView {
    RequestView {
        stage: Stage::Preflight,
        method: Method::Get,
        url: endpoint.probe_url,
        user_agent: None,
        authorization: None,
        body: None,
    }
}

/// The lookup of the branch tip. It is the one call to the service that
/// carries no credential.
pub open spec fn branch_head_request(endpoint: EndpointView, config: ConfigView) -> RequestView {
    RequestView {
        stage: Stage::ResolveHead,
        method: Method::Get,
        url: repo_url(endpoint, config) + "/branches/"@ + config.github_branch,
        user_agent: Some(endpoint.user_agent),
        authorization: None,
        body: None,
    }
}

/// The creation of a blob with the given content.
pub open spec fn blob_request(
    endpoint: EndpointView,
    config: ConfigView,
    content: Seq<char>,
) -> RequestView {
    RequestView {
        stage: Stage::CreateBlob,
        method: Method::Post,
        url: repo_url(endpoint, config) + "/git/blobs"@,
        user_agent: Some(endpoint.user_agent),
        authorization: Some(token_header(config)),
        body: Some(BodyView::Blob { content }),
    }
}

/// The creation of a tree: the configured file path, holding `blob`, laid
/// over the tree of `parent`.
pub open spec fn tree_request(
    endpoint: EndpointView,
    config: ConfigView,
    parent: Seq<char>,
    blob: Seq<char>,
) -> RequestView {
    RequestView {
        stage: Stage::CreateTree,
        method: Method::Post,
        url: repo_url(endpoint, config) + "/git/trees"@,
        user_agent: Some(endpoint.user_agent),
        authorization: Some(token_header(config)),
        body: Some(
            BodyView::Tree { base_tree: parent, path: config.github_file_path, sha: blob },
        ),
    }
}

/// The creation of a commit of `tree` with the configured message and the
/// single parent `parent`.
pub open spec fn commit_request(
    endpoint: EndpointView,
    config: ConfigView,
    parent: Seq<char>,
    tree: Seq<char>,
) -> RequestView {
    RequestView {
        stage: Stage::CreateCommit,
        method: Method::Post,
        url: repo_url(endpoint, config) + "/git/commits"@,
        user_agent: Some(endpoint.user_agent),
        authorization: Some(token_header(config)),
        body: Some(
            BodyView::Commit { message: config.github_commit_message, tree, parent },
        ),
    }
}

/// The update of the branch reference, `refs/heads/` and the branch name, to
/// `commit`.
pub open spec fn ref_request(
    endpoint: EndpointView,
    config: ConfigView,
    commit: Seq<char>,
) -> RequestView {
    RequestView {
        stage: Stage::UpdateRef,
        method: Method::Patch,
        url: repo_url(endpoint, config) + "/git/refs/heads/"@ + config.github_branch,
        user_agent: Some(endpoint.user_agent),
        authorization: Some(token_header(config)),
        body: Some(BodyView::Reference { sha: commit }),
    }
}

/// The confirmation: the same commit, sent to the branch endpoint.
pub open spec fn branch_request(
    endpoint: EndpointView,
    config: ConfigView,
    commit: Seq<char>,
) -> RequestView {
    RequestView {
        stage: Stage::ConfirmBranch,
        method: Method::Patch,
        url: repo_url(endpoint, config) + "/branches/"@ + config.github_branch,
        user_agent: Some(endpoint.user_agent),
        authorization: Some(token_header(config)),
        body: Some(BodyView::Reference { sha: commit }),
    }
}

/// The repository's address with `tail` behind it.
fn repo_address(endpoint: &Endpoint, config: &Config, tail: &str) -> (url: String)
    ensures
        url@ == repo_url(endpoint@, config@) + tail@,
{
    let mut url = endpoint.api_base.clone();
    url.append("/repos/");
    url.append(config.github_username.as_str());
    url.append("/");
    url.append(config.github_repo_name.as_str());
    url.append(tail);
    url
}

/// The repository's address with `tail` and the branch name behind it.
fn branch_address(endpoint: &Endpoint, config: &Config, tail: &str) -> (url: String)
    ensures
        url@ == repo_url(endpoint@, config@) + tail@ + config@.github_branch,
{
    let mut url = repo_address(endpoint, config, tail);
    url.append(config.github_branch.as_str());
    url
}

/// The `Authorization` header for a configuration.
fn authorization(config: &Config) -> (header: String)
    ensures
        header@ == token_header(config@),
{
    let mut header = String::from_str("token ");
    header.append(config.github_token.as_str());
    header
}

/// The request that probes the network.
pub fn check_internet_connection(endpoint: &Endpoint) -> (request: Request)
    ensures
        request@ == probe_request(endpoint@),
{
    Request {
        stage: Stage::Preflight,
        method: Method::Get,
        url: endpoint.probe_url.clone(),
        user_agent: None,
        authorization: None,
        body: None,
    }
}

/// The request that looks up the tip of the configured branch.
pub fn resolve_branch_head(endpoint: &Endpoint, config: &Config) -> (request: Request)
    ensures
        request@ == branch_head_request(endpoint@, config@),
{
    Request {
        stage: Stage::ResolveHead,
        method: Method::Get,
        url: branch_address(endpoint, config, "/branches/"),
        user_agent: Some(endpoint.user_agent.clone()),
        authorization: None,
        body: None,
    }
}

/// The request that stores `content` as a new blob.
pub fn create_blob(endpoint: &Endpoint, config: &Config, content: &str) -> (request: Request)
    ensures
        request@ == blob_request(endpoint@, config@, content@),
{
    Request {
        stage: Stage::CreateBlob,
        method: Method::Post,
        url: repo_address(endpoint, config, "/git/blobs"),
        user_agent: Some(endpoint.user_agent.clone()),
        authorization: Some(authorization(config)),
        body: Some(Body::Blob { content: content.to_owned() }),
    }
}

/// The request that builds the new tree. `parent` is the identifier that the
/// branch lookup gave and `blob` the one that the blob creation gave; both
/// are passed on as they are.
pub fn create_tree(endpoint: &Endpoint, config: &Config, parent: &str, blob: &str) -> (request:
    Request)
    ensures
        request@ == tree_request(endpoint@, config@, parent@, blob@),
{
    Request {
        stage: Stage::CreateTree,
        method: Method::Post,
        url: repo_address(endpoint, config, "/git/trees"),
        user_agent: Some(endpoint.user_agent.clone()),
        authorization: Some(authorization(config)),
        body: Some(
            Body::Tree {
                base_tree: parent.to_owned(),
                path: config.github_file_path.clone(),
                sha: blob.to_owned(),
            },
        ),
    }
}

/// The request that builds the new commit on top of `parent`.
pub fn create_commit(endpoint: &Endpoint, config: &Config, parent: &str, tree: &str) -> (request:
    Request)
    ensures
        request@ == commit_request(endpoint@, config@, parent@, tree@),
{
    Request {
        stage: Stage::CreateCommit,
        method: Method::Post,
        url: repo_address(endpoint, config, "/git/commits"),
        user_agent: Some(endpoint.user_agent.clone()),
        authorization: Some(authorization(config)),
        body: Some(
            Body::Commit {
                message: config.github_commit_message.clone(),
                tree: tree.to_owned(),
                parent: parent.to_owned(),
            },
        ),
    }
}

/// The request that points the branch reference at `commit`. Only after this
/// call has succeeded is the new commit part of the branch.
pub fn update_ref(endpoint: &Endpoint, config: &Config, commit: &str) -> (request: Request)
    ensures
        request@ == ref_request(endpoint@, config@, commit@),
{
    Request {
        stage: Stage::UpdateRef,
        method: Method::Patch,
        url: branch_address(endpoint, config, "/git/refs/heads/"),
        user_agent: Some(endpoint.user_agent.clone()),
        authorization: Some(authorization(config)),
        body: Some(Body::Reference { sha: commit.to_owned() }),
    }
}

/// The request that confirms `commit` at the branch endpoint.
pub fn patch(endpoint: &Endpoint, config: &Config, commit: &str) -> (request: Request)
    ensures
        request@ == branch_request(endpoint@, config@, commit@),
{
    Request {
        stage: Stage::ConfirmBranch,
        method: Method::Patch,
        url: branch_address(endpoint, config, "/branches/"),
        user_agent: Some(endpoint.user_agent.clone()),
        authorization: Some(authorization(config)),
        body: Some(Body::Reference { sha: commit.to_owned() }),
    }
}

} // verus!
