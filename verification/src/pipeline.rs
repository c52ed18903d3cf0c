//! The run itself: which call comes next, and what each reply leads to.
//!
//! A [`Pipeline`] never sends anything. It names the call that is due
//! ([`Pipeline::action`]) and takes what came back ([`Pipeline::advance`]).
//! The stages follow one another in a fixed order, each using the identifier
//! that the one before it produced, and the first failure ends the run.

use crate::config::{Config, ConfigFields, ConfigView, Endpoint, EndpointView};
use crate::error::CommitError;
use crate::json::{look_up, lookup_at, path_keys, Lookup, LookupView};
use crate::request::{
    branch_head_request, branch_request, blob_request, check_internet_connection,
    commit_request, create_blob, create_commit, create_tree, patch, probe_request, ref_request,
    resolve_branch_head, tree_request, update_ref, Request, RequestView, Stage,
};
use crate::text::{blob_content, marker_text};
use vstd::prelude::*;

verus! {

/// Whether a status code reports success: the codes from 200 to 299.
pub open spec fn accepted(status: u16) -> bool {
    200 <= status < 300
}

/// Whether a status code reports success.
pub fn is_success(status: u16) -> (ok: bool)
    ensures
        ok == accepted(status),
{
    200 <= status && status < 300
}

/// The error that a failure at each stage is reported as.
pub open spec fn failure_of(stage: Stage) -> CommitError {
    match stage {
        Stage::Preflight => CommitError::ConnectivityError,
        Stage::ResolveHead => CommitError::RemoteLookupError,
        _ => CommitError::RemoteWriteError,
    }
}

/// The error that a failure at `stage` is reported as.
pub fn stage_error(stage: Stage) -> (error: CommitError)
    ensures
        error == failure_of(stage),
{
    match stage {
        Stage::Preflight => CommitError::ConnectivityError,
        Stage::ResolveHead => CommitError::RemoteLookupError,
        _ => CommitError::RemoteWriteError,
    }
}

/// What came back for the call that was due.
#[derive(Debug, PartialEq, Eq)]
pub enum Event {
    /// The service answered. `found` is what reading the body came to: the
    /// identifier where the stage looks for one and the body holds it.
    Reply { status: u16, found: Lookup },
    /// No answer arrived.
    TransportFailure,
}

/// An event as contracts see it.
pub enum EventView {
    Reply { status: u16, found: LookupView },
    TransportFailure,
}

impl View for Event {
    type V = EventView;

    open spec fn view(&self) -> EventView {
        match self {
            Event::Reply { status, found } => EventView::Reply { status: *status, found: found@ },
            Event::TransportFailure => EventView::TransportFailure,
        }
    }
}

impl EventView {
    /// The service answered with a status of success.
    pub open spec fn succeeded(self) -> bool {
        self matches EventView::Reply { status, .. } && accepted(status)
    }

    /// The service answered with a body that could be read.
    pub open spec fn readable(self) -> bool {
        self matches EventView::Reply { found, .. } && found !is Malformed
    }

    /// The identifier that the reply carried, if it carried one.
    pub open spec fn sha(self) -> Option<Seq<char>> {
        match self {
            EventView::Reply { found: LookupView::Found(sha), .. } => Some(sha),
            _ => None,
        }
    }
}

/// The event lets the stage that is due go through. The probe needs a status
/// of success and nothing else. The branch lookup and the three creations
/// need an identifier in the reply as well. The reference update and the
/// confirmation need a reply that can be read, with or without an identifier.
pub open spec fn passes(stage: Stage, event: EventView) -> bool {
    &&& event.succeeded()
    &&& match stage {
        Stage::Preflight => true,
        Stage::ResolveHead | Stage::CreateBlob | Stage::CreateTree | Stage::CreateCommit => {
            event.sha() is Some
        },
        Stage::UpdateRef | Stage::ConfirmBranch => event.readable(),
    }
}

/// Where a run stands. A state that waits for a reply holds the identifiers
/// that the stages before it produced and the stages after it will use.
#[derive(Debug, PartialEq, Eq)]
pub enum State {
    Preflight,
    ResolveHead,
    CreateBlob { parent: String },
    CreateTree { parent: String, blob: String },
    CreateCommit { parent: String, tree: String },
    UpdateRef { commit: String },
    ConfirmBranch { commit: String },
    /// Every call succeeded. `commit` is the new tip of the branch and
    /// `confirmed` what the branch endpoint reported, kept for the log.
    Done { commit: String, confirmed: Option<String> },
    /// The call of `stage` failed and nothing was sent after it.
    Failed { stage: Stage, error: CommitError },
}

/// A state as contracts see it.
pub enum StateView {
    Preflight,
    ResolveHead,
    CreateBlob { parent: Seq<char> },
    CreateTree { parent: Seq<char>, blob: Seq<char> },
    CreateCommit { parent: Seq<char>, tree: Seq<char> },
    UpdateRef { commit: Seq<char> },
    ConfirmBranch { commit: Seq<char> },
    Done { commit: Seq<char>, confirmed: Option<Seq<char>> },
    Failed { stage: Stage, error: CommitError },
}

impl View for State {
    type V = StateView;

    open spec fn view(&self) -> StateView {
        match self {
            State::Preflight => StateView::Preflight,
            State::ResolveHead => StateView::ResolveHead,
            State::CreateBlob { parent } => StateView::CreateBlob { parent: parent@ },
            State::CreateTree { parent, blob } => StateView::CreateTree {
                parent: parent@,
                blob: blob@,
            },
            State::CreateCommit { parent, tree } => StateView::CreateCommit {
                parent: parent@,
                tree: tree@,
            },
            State::UpdateRef { commit } => StateView::UpdateRef { commit: commit@ },
            State::ConfirmBranch { commit } => StateView::ConfirmBranch { commit: commit@ },
            State::Done { commit, confirmed } => StateView::Done {
                commit: commit@,
                confirmed: confirmed.deep_view(),
            },
            State::Failed { stage, error } => StateView::Failed { stage: *stage, error: *error },
        }
    }
}

impl StateView {
    /// The stage whose reply the run is waiting for; `None` once the run has
    /// ended.
    pub open spec fn stage(self) -> Option<Stage> {
        match self {
            StateView::Preflight => Some(Stage::Preflight),
            StateView::ResolveHead => Some(Stage::ResolveHead),
            StateView::CreateBlob { .. } => Some(Stage::CreateBlob),
            StateView::CreateTree { .. } => Some(Stage::CreateTree),
            StateView::CreateCommit { .. } => Some(Stage::CreateCommit),
            StateView::UpdateRef { .. } => Some(Stage::UpdateRef),
            StateView::ConfirmBranch { .. } => Some(Stage::ConfirmBranch),
            StateView::Done { .. } => None,
            StateView::Failed { .. } => None,
        }
    }

    /// The identifier that the last reply brought: the branch tip, the blob,
    /// the tree, the commit, and at the end what the branch endpoint
    /// reported.
    pub open spec fn produced(self) -> Option<Seq<char>> {
        match self {
            StateView::CreateBlob { parent } => Some(parent),
            StateView::CreateTree { blob, .. } => Some(blob),
            StateView::CreateCommit { tree, .. } => Some(tree),
            StateView::UpdateRef { commit } => Some(commit),
            StateView::Done { confirmed, .. } => confirmed,
            _ => None,
        }
    }

    /// The state that follows when the stage that was due has gone through
    /// and its reply carried `sha`: the next stage, holding the new
    /// identifier beside those that later stages still need.
    pub open spec fn proceed(self, sha: Option<Seq<char>>) -> StateView
        recommends
            self is ResolveHead || self is CreateBlob || self is CreateTree || self is CreateCommit
                ==> sha is Some,
    {
        match self {
            StateView::Preflight => StateView::ResolveHead,
            StateView::ResolveHead => StateView::CreateBlob { parent: sha->0 },
            StateView::CreateBlob { parent } => StateView::CreateTree { parent, blob: sha->0 },
            StateView::CreateTree { parent, .. } => StateView::CreateCommit {
                parent,
                tree: sha->0,
            },
            StateView::CreateCommit { .. } => StateView::UpdateRef { commit: sha->0 },
            StateView::UpdateRef { commit } => StateView::ConfirmBranch { commit },
            StateView::ConfirmBranch { commit } => StateView::Done { commit, confirmed: sha },
            StateView::Done { .. } => self,
            StateView::Failed { .. } => self,
        }
    }

    /// The state after `event`: the next stage where the event lets the
    /// stage that was due go through, failure at that stage where it does
    /// not. A run that has ended stays as it is.
    pub open spec fn after(self, event: EventView) -> StateView {
        match self.stage() {
            Some(stage) => if passes(stage, event) {
                self.proceed(event.sha())
            } else {
                StateView::Failed { stage, error: failure_of(stage) }
            },
            None => self,
        }
    }
}

impl State {
    /// The stage whose reply the run is waiting for; `None` once the run has
    /// ended.
    pub fn stage(&self) -> (stage: Option<Stage>)
        ensures
            stage == self@.stage(),
    {
        match self {
            State::Preflight => Some(Stage::Preflight),
            State::ResolveHead => Some(Stage::ResolveHead),
            State::CreateBlob { .. } => Some(Stage::CreateBlob),
            State::CreateTree { .. } => Some(Stage::CreateTree),
            State::CreateCommit { .. } => Some(Stage::CreateCommit),
            State::UpdateRef { .. } => Some(Stage::UpdateRef),
            State::ConfirmBranch { .. } => Some(Stage::ConfirmBranch),
            State::Done { .. } => None,
            State::Failed { .. } => None,
        }
    }

    /// The identifier that the last reply brought, for the log: the branch
    /// tip, the blob, the tree, the commit, and at the end what the branch
    /// endpoint reported. `None` where the last reply brought none.
    pub fn produced(&self) -> (sha: Option<&String>)
        ensures
            sha.deep_view() == self@.produced(),
    {
        match self {
            State::CreateBlob { parent } => Some(parent),
            State::CreateTree { blob, .. } => Some(blob),
            State::CreateCommit { tree, .. } => Some(tree),
            State::UpdateRef { commit } => Some(commit),
            State::Done { confirmed, .. } => confirmed.as_ref(),
            _ => None,
        }
    }

    /// The state after the call that was due has failed.
    fn fail(self) -> (next: State)
        ensures
            next@ == match self@.stage() {
                Some(stage) => StateView::Failed { stage, error: failure_of(stage) },
                None => self@,
            },
    {
        match self.stage() {
            Some(stage) => State::Failed { stage, error: stage_error(stage) },
            None => self,
        }
    }

    /// The state after `event`.
    pub fn after(self, event: Event) -> (next: State)
        ensures
            next@ == self@.after(event@),
    {
        let found = match event {
            Event::Reply { status, found } => {
                if is_success(status) {
                    found
                } else {
                    return self.fail();
                }
            },
            Event::TransportFailure => {
                return self.fail();
            },
        };
        match (self, found) {
            (State::Preflight, _) => State::ResolveHead,
            (State::ResolveHead, Lookup::Found(parent)) => State::CreateBlob { parent },
            (State::CreateBlob { parent }, Lookup::Found(blob)) => State::CreateTree {
                parent,
                blob,
            },
            (State::CreateTree { parent, .. }, Lookup::Found(tree)) => State::CreateCommit {
                parent,
                tree,
            },
            (State::CreateCommit { .. }, Lookup::Found(commit)) => State::UpdateRef { commit },
            (State::UpdateRef { commit }, Lookup::Found(_)) => State::ConfirmBranch { commit },
            (State::UpdateRef { commit }, Lookup::Absent) => State::ConfirmBranch { commit },
            (State::ConfirmBranch { commit }, Lookup::Found(confirmed)) => State::Done {
                commit,
                confirmed: Some(confirmed),
            },
            (State::ConfirmBranch { commit }, Lookup::Absent) => State::Done {
                commit,
                confirmed: None,
            },
            (State::Done { commit, confirmed }, _) => State::Done { commit, confirmed },
            (State::Failed { stage, error }, _) => State::Failed { stage, error },
            (waiting, _) => waiting.fail(),
        }
    }
}

/// What the driver of a run has to do next.
#[derive(Debug, PartialEq, Eq)]
pub enum Action {
    /// Send this request and hand back what came of it.
    Send(Request),
    /// Nothing: the branch points at the new commit.
    Finish,
    /// Nothing: the run has failed with this error.
    Abort(CommitError),
}

/// An action as contracts see it.
pub enum ActionView {
    Send(RequestView),
    Finish,
    Abort(CommitError),
}

impl View for Action {
    type V = ActionView;

    open spec fn view(&self) -> ActionView {
        match self {
            Action::Send(request) => ActionView::Send(request@),
            Action::Finish => ActionView::Finish,
            Action::Abort(error) => ActionView::Abort(*error),
        }
    }
}

/// One run: the configuration it was started with, the second it was started
/// at, and where it stands. A run is made by [`Pipeline::new`] or
/// [`Pipeline::start`] and changed by its replies only, so the state it is in
/// is one that its replies have led to.
#[derive(Debug, PartialEq, Eq)]
pub struct Pipeline {
    endpoint: Endpoint,
    config: Config,
    now_secs: u64,
    state: State,
}

/// A run as contracts see it.
pub struct PipelineView {
    pub endpoint: EndpointView,
    pub config: ConfigView,
    /// Seconds since the Unix epoch when the run began; the file content is
    /// made from it.
    pub now_secs: u64,
    pub state: StateView,
}

impl View for Pipeline {
    type V = PipelineView;

    closed spec fn view(&self) -> PipelineView {
        PipelineView {
            endpoint: self.endpoint@,
            config: self.config@,
            now_secs: self.now_secs,
            state: self.state@,
        }
    }
}

impl PipelineView {
    /// A run that has not sent anything yet.
    pub open spec fn fresh(endpoint: EndpointView, config: ConfigView, now_secs: u64) -> PipelineView {
        PipelineView { endpoint, config, now_secs, state: StateView::Preflight }
    }

    /// What is due in this state: the request of the stage that the run is
    /// waiting at, built from the configuration and from the identifiers that
    /// earlier replies carried, or the end of the run.
    pub open spec fn pending(self) -> ActionView {
        match self.state {
            StateView::Preflight => ActionView::Send(probe_request(self.endpoint)),
            StateView::ResolveHead => ActionView::Send(
                branch_head_request(self.endpoint, self.config),
            ),
            StateView::CreateBlob { .. } => ActionView::Send(
                blob_request(self.endpoint, self.config, marker_text(self.now_secs as nat)),
            ),
            StateView::CreateTree { parent, blob } => ActionView::Send(
                tree_request(self.endpoint, self.config, parent, blob),
            ),
            StateView::CreateCommit { parent, tree } => ActionView::Send(
                commit_request(self.endpoint, self.config, parent, tree),
            ),
            StateView::UpdateRef { commit } => ActionView::Send(
                ref_request(self.endpoint, self.config, commit),
            ),
            StateView::ConfirmBranch { commit } => ActionView::Send(
                branch_request(self.endpoint, self.config, commit),
            ),
            StateView::Done { .. } => ActionView::Finish,
            StateView::Failed { error, .. } => ActionView::Abort(error),
        }
    }

    /// The run after `event`: the same configuration, the next state.
    pub open spec fn step(self, event: EventView) -> PipelineView {
        PipelineView { state: self.state.after(event), ..self }
    }

    /// What starting from the fields of a configuration file gives: a fresh
    /// run where the record is complete, and otherwise no run at all.
    pub open spec fn launch(endpoint: EndpointView, fields: ConfigFields, now_secs: u64) -> Result<
        PipelineView,
        CommitError,
    > {
        if fields.complete() {
            Ok(PipelineView::fresh(endpoint, fields.settled(), now_secs))
        } else {
            Err(CommitError::ConfigError)
        }
    }
}

/// What reading the body of a reply comes to at each stage. The branch
/// lookup looks under `commit` and then `sha`; the three creations and the
/// confirmation look under `sha`. The reference update looks for nothing and
/// only wants the body to be JSON. The probe does not read the body.
pub open spec fn reply_reading(stage: Stage, body: Seq<char>) -> LookupView {
    match stage {
        Stage::Preflight => LookupView::Absent,
        Stage::ResolveHead => lookup_at(body, seq!["commit"@, "sha"@]),
        Stage::CreateBlob | Stage::CreateTree | Stage::CreateCommit | Stage::ConfirmBranch => {
            lookup_at(body, seq!["sha"@])
        },
        Stage::UpdateRef => match lookup_at(body, Seq::empty()) {
            LookupView::Malformed => LookupView::Malformed,
            _ => LookupView::Absent,
        },
    }
}

/// Reads the body of a reply as `stage` reads it.
pub fn read_reply(stage: Stage, body: &str) -> (found: Lookup)
    ensures
        found@ == reply_reading(stage, body@),
{
    let mut path: Vec<&str> = Vec::new();
    match stage {
        Stage::Preflight => Lookup::Absent,
        Stage::ResolveHead => {
            path.push("commit");
            path.push("sha");
            assert(path_keys(path@) =~= seq!["commit"@, "sha"@]);
            look_up(body, &path)
        },
        Stage::CreateBlob | Stage::CreateTree | Stage::CreateCommit | Stage::ConfirmBranch => {
            path.push("sha");
            assert(path_keys(path@) =~= seq!["sha"@]);
            look_up(body, &path)
        },
        Stage::UpdateRef => {
            match look_up(body, &path) {
                Lookup::Malformed => Lookup::Malformed,
                _ => Lookup::Absent,
            }
        },
    }
}

impl Pipeline {
    /// Begins a run with a complete configuration. Nothing has been sent; the
    /// probe is due.
    pub fn new(endpoint: Endpoint, config: Config, now_secs: u64) -> (run: Pipeline)
        ensures
            run@ == PipelineView::fresh(endpoint@, config@, now_secs),
    {
        Pipeline { endpoint, config, now_secs, state: State::Preflight }
    }

    /// Begins a run from the fields of a configuration file. Where a field is
    /// missing there is no run, and so no call: the answer is
    /// [`CommitError::ConfigError`].
    pub fn start(endpoint: Endpoint, fields: ConfigFields, now_secs: u64) -> (outcome: Result<
        Pipeline,
        CommitError,
    >)
        ensures
            match outcome {
                Ok(run) => PipelineView::launch(endpoint@, fields, now_secs) == Ok::<
                    PipelineView,
                    CommitError,
                >(run@),
                Err(error) => PipelineView::launch(endpoint@, fields, now_secs) == Err::<
                    PipelineView,
                    CommitError,
                >(error),
            },
    {
        match Config::from_fields(fields) {
            Ok(config) => Ok(Pipeline::new(endpoint, config, now_secs)),
            Err(error) => Err(error),
        }
    }

    /// Where the run stands.
    pub fn state(&self) -> (state: &State)
        ensures
            state@ == self@.state,
    {
        &self.state
    }

    /// The configuration of the run.
    pub fn config(&self) -> (config: &Config)
        ensures
            config@ == self@.config,
    {
        &self.config
    }

    /// The service that the run talks to.
    pub fn endpoint(&self) -> (endpoint: &Endpoint)
        ensures
            endpoint@ == self@.endpoint,
    {
        &self.endpoint
    }

    /// The second at which the run began.
    pub fn now_secs(&self) -> (now_secs: u64)
        ensures
            now_secs == self@.now_secs,
    {
        self.now_secs
    }

    /// What the driver has to do now.
    pub fn action(&self) -> (action: Action)
        ensures
            action@ == self@.pending(),
    {
        match &self.state {
            State::Preflight => Action::Send(check_internet_connection(&self.endpoint)),
            State::ResolveHead => Action::Send(resolve_branch_head(&self.endpoint, &self.config)),
            State::CreateBlob { .. } => {
                let content = blob_content(self.now_secs);
                Action::Send(create_blob(&self.endpoint, &self.config, content.as_str()))
            },
            State::CreateTree { parent, blob } => Action::Send(
                create_tree(&self.endpoint, &self.config, parent.as_str(), blob.as_str()),
            ),
            State::CreateCommit { parent, tree } => Action::Send(
                create_commit(&self.endpoint, &self.config, parent.as_str(), tree.as_str()),
            ),
            State::UpdateRef { commit } => Action::Send(
                update_ref(&self.endpoint, &self.config, commit.as_str()),
            ),
            State::ConfirmBranch { commit } => Action::Send(
                patch(&self.endpoint, &self.config, commit.as_str()),
            ),
            State::Done { .. } => Action::Finish,
            State::Failed { error, .. } => Action::Abort(*error),
        }
    }

    /// Takes what came back for the call that was due and moves on: to the
    /// next stage where the event lets the stage go through, to failure
    /// otherwise. A run that has ended is returned unchanged.
    pub fn advance(self, event: Event) -> (next: Pipeline)
        ensures
            next@ == self@.step(event@),
    {
        let Pipeline { endpoint, config, now_secs, state } = self;
        Pipeline { endpoint, config, now_secs, state: state.after(event) }
    }

    /// Takes the status and the body of a reply: reads the body as the stage
    /// that was due reads it, then moves on as [`Pipeline::advance`] does.
    pub fn on_reply(self, status: u16, body: &str) -> (next: Pipeline)
        ensures
            next@ == match self@.state.stage() {
                Some(stage) => self@.step(
                    EventView::Reply { status, found: reply_reading(stage, body@) },
                ),
                None => self@,
            },
    {
        match self.state.stage() {
            Some(stage) => {
                let found = read_reply(stage, body);
                self.advance(Event::Reply { status, found })
            },
            None => self,
        }
    }

    /// Takes the news that no reply arrived: the run fails at the stage that
    /// was due.
    pub fn on_transport_failure(self) -> (next: Pipeline)
        ensures
            next@ == self@.step(EventView::TransportFailure),
    {
        self.advance(Event::TransportFailure)
    }
}

} // verus!
