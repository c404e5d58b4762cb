//! The self-update control flow, as a state machine.
//!
//! The machine decides; the host acts. The host hands each event to
//! [`UpdateState::step`], performs the action that comes back (a pull, a
//! network call, a write to disk, a cache reload, a response) and reports how
//! it went as the next event. The machine itself touches nothing outside.
//!
//! When a new binary has been put in place, the response that ends the request
//! asks for a restart: the host is to exit once the response has been flushed,
//! and relies on its supervisor to start the service again.

use crate::signature::SignatureError;
use vstd::prelude::*;

verus! {

/// One build output that a CI run offers for download.
#[derive(Debug, Clone, PartialEq, Eq)]
pub struct Artifact {
    pub archive_download_url: String,
}

/// The build outputs of one CI run, in the order in which they were listed.
#[derive(Debug, Clone, PartialEq, Eq)]
pub struct Artifacts {
    pub artifacts: Vec<Artifact>,
}

/// A completed CI run: where to ask for its build outputs.
#[derive(Debug, Clone, PartialEq, Eq)]
pub struct WorkflowRun {
    pub artifacts_url: String,
}

/// What the webhook delivers. Without a run only the content is refreshed;
/// with one, a new binary is fetched and put in place.
#[derive(Debug, Clone, PartialEq, Eq)]
pub struct UpdatePayload {
    pub workflow_run: Option<WorkflowRun>,
}

impl View for Artifacts {
    type V = Seq<Seq<char>>;

    /// The download addresses, in order.
    open spec fn view(&self) -> Seq<Seq<char>> {
        self.artifacts@.map_values(|a: Artifact| a.archive_download_url@)
    }
}

impl View for UpdatePayload {
    type V = Option<Seq<char>>;

    /// The address of the run's artifact list, if a run is named.
    open spec fn view(&self) -> Option<Seq<char>> {
        match self.workflow_run {
            None => None,
            Some(run) => Some(run.artifacts_url@),
        }
    }
}

/// The step of an update that went wrong.
#[derive(Clone, Copy, Debug, PartialEq, Eq, Structural)]
pub enum Stage {
    /// Refreshing the source tree from version control.
    Pull,
    /// Obtaining the bearer token for the CI provider.
    Token,
    /// Listing the artifacts of the run.
    List,
    /// Choosing an artifact: the run offers none.
    Select,
    /// Downloading the archive.
    Download,
    /// Writing the archive to disk.
    Store,
    /// Unpacking the archive.
    Extract,
    /// Marking the new binary as executable.
    Permission,
    /// Reloading the templates.
    Templates,
    /// Reloading the blog entries.
    Blog,
}

/// The kinds of failure that a response can report.
#[derive(Clone, Copy, Debug, PartialEq, Eq, Structural)]
pub enum FailureClass {
    /// The sender could not be authenticated.
    Authentication,
    /// Version control or the CI provider let us down.
    Upstream,
    /// The local disk or a local tool let us down.
    LocalIo,
    /// The caches could not be rebuilt; the stale ones stay in use.
    CacheReload,
}

impl Stage {
    /// The kind of failure that a failed step counts as.
    pub open spec fn class_of(self) -> FailureClass {
        match self {
            Stage::Pull | Stage::Token | Stage::List | Stage::Select | Stage::Download =>
                FailureClass::Upstream,
            Stage::Store | Stage::Extract | Stage::Permission => FailureClass::LocalIo,
            Stage::Templates | Stage::Blog => FailureClass::CacheReload,
        }
    }

    /// What the response says of a failed step.
    pub open spec fn notice(self) -> Seq<char> {
        match self {
            Stage::Pull => "Update failed: could not pull the sources"@,
            Stage::Token => "Update failed: no token for the artifact provider"@,
            Stage::List => "Update failed: could not list the artifacts"@,
            Stage::Select => "Update failed: the run has no artifacts"@,
            Stage::Download => "Update failed: could not download the archive"@,
            Stage::Store => "Update failed: could not write the archive"@,
            Stage::Extract => "Update failed: could not extract the archive"@,
            Stage::Permission => "Update failed: could not mark the binary executable"@,
            Stage::Templates => "Update failed: could not reload the templates"@,
            Stage::Blog => "Update failed: could not reload the blog entries"@,
        }
    }

    /// What the response says of a step that took too long.
    pub open spec fn timeout_notice(self) -> Seq<char> {
        match self {
            Stage::Pull => "Update timed out: pulling the sources"@,
            Stage::Token => "Update timed out: reading the token"@,
            Stage::List => "Update timed out: listing the artifacts"@,
            Stage::Select => "Update timed out: choosing the artifact"@,
            Stage::Download => "Update timed out: downloading the archive"@,
            Stage::Store => "Update timed out: writing the archive"@,
            Stage::Extract => "Update timed out: extracting the archive"@,
            Stage::Permission => "Update timed out: marking the binary executable"@,
            Stage::Templates => "Update timed out: reloading the templates"@,
            Stage::Blog => "Update timed out: reloading the blog entries"@,
        }
    }

    /// The kind of failure that this step counts as.
    pub fn class(&self) -> (c: FailureClass)
        ensures
            c == self.class_of(),
    {
        match self {
            Stage::Pull | Stage::Token | Stage::List | Stage::Select | Stage::Download =>
                FailureClass::Upstream,
            Stage::Store | Stage::Extract | Stage::Permission => FailureClass::LocalIo,
            Stage::Templates | Stage::Blog => FailureClass::CacheReload,
        }
    }

    /// A sentence that names the step that failed.
    pub fn message(&self) -> (text: String)
        ensures
            text@ == self.notice(),
    {
        match self {
            Stage::Pull => String::from_str("Update failed: could not pull the sources"),
            Stage::Token => String::from_str("Update failed: no token for the artifact provider"),
            Stage::List => String::from_str("Update failed: could not list the artifacts"),
            Stage::Select => String::from_str("Update failed: the run has no artifacts"),
            Stage::Download => String::from_str("Update failed: could not download the archive"),
            Stage::Store => String::from_str("Update failed: could not write the archive"),
            Stage::Extract => String::from_str("Update failed: could not extract the archive"),
            Stage::Permission => String::from_str(
                "Update failed: could not mark the binary executable",
            ),
            Stage::Templates => String::from_str("Update failed: could not reload the templates"),
            Stage::Blog => String::from_str("Update failed: could not reload the blog entries"),
        }
    }

    /// A sentence that names the step that took too long.
    pub fn timeout_message(&self) -> (text: String)
        ensures
            text@ == self.timeout_notice(),
    {
        match self {
            Stage::Pull => String::from_str("Update timed out: pulling the sources"),
            Stage::Token => String::from_str("Update timed out: reading the token"),
            Stage::List => String::from_str("Update timed out: listing the artifacts"),
            Stage::Select => String::from_str("Update timed out: choosing the artifact"),
            Stage::Download => String::from_str("Update timed out: downloading the archive"),
            Stage::Store => String::from_str("Update timed out: writing the archive"),
            Stage::Extract => String::from_str("Update timed out: extracting the archive"),
            Stage::Permission => String::from_str(
                "Update timed out: marking the binary executable",
            ),
            Stage::Templates => String::from_str("Update timed out: reloading the templates"),
            Stage::Blog => String::from_str("Update timed out: reloading the blog entries"),
        }
    }
}

/// How a request ended: what the response says, and whether the host is to
/// restart the process afterwards.
#[derive(Clone, Copy, Debug, PartialEq, Eq, Structural)]
pub enum Outcome {
    /// A new binary is in place; the process must exit to be restarted.
    Restarting,
    /// Templates and blog entries were read again; the process goes on.
    Reloaded,
    /// The request did not pass the signature check.
    Rejected(SignatureError),
    /// A step of the update failed.
    Failed(Stage),
    /// A step of the update was given up because it took too long.
    TimedOut(Stage),
}

impl Outcome {
    /// The status of the response.
    pub open spec fn status(self) -> int {
        match self {
            Outcome::Restarting | Outcome::Reloaded => 200,
            Outcome::Rejected(reason) => reason.status(),
            Outcome::Failed(_) => 500,
            Outcome::TimedOut(_) => 504,
        }
    }

    /// The body of the response.
    pub open spec fn notice(self) -> Seq<char> {
        match self {
            Outcome::Restarting => "Update done! Restarting now!"@,
            Outcome::Reloaded => "Update done! Reloading files now!"@,
            Outcome::Rejected(reason) => reason.notice(),
            Outcome::Failed(stage) => stage.notice(),
            Outcome::TimedOut(stage) => stage.timeout_notice(),
        }
    }

    /// Whether the host is to exit after the response.
    pub open spec fn restarts(self) -> bool {
        self == Outcome::Restarting
    }

    /// The kind of failure reported, if the request failed.
    pub open spec fn failure_of(self) -> Option<FailureClass> {
        match self {
            Outcome::Restarting | Outcome::Reloaded => None,
            Outcome::Rejected(_) => Some(FailureClass::Authentication),
            Outcome::Failed(stage) | Outcome::TimedOut(stage) => Some(stage.class_of()),
        }
    }

    /// 200 when the update went through, the verifier's status for a request
    /// that was turned away, 500 when a step failed, 504 when it timed out.
    pub fn status_code(&self) -> (code: u16)
        ensures
            code == self.status(),
    {
        match self {
            Outcome::Restarting => 200,
            Outcome::Reloaded => 200,
            Outcome::Rejected(reason) => reason.status_code(),
            Outcome::Failed(_) => 500,
            Outcome::TimedOut(_) => 504,
        }
    }

    /// The body of the response: it tells a restart from a reload, and names
    /// the step that failed.
    pub fn message(&self) -> (text: String)
        ensures
            text@ == self.notice(),
    {
        match self {
            Outcome::Restarting => String::from_str("Update done! Restarting now!"),
            Outcome::Reloaded => String::from_str("Update done! Reloading files now!"),
            Outcome::Rejected(reason) => reason.message(),
            Outcome::Failed(stage) => stage.message(),
            Outcome::TimedOut(stage) => stage.timeout_message(),
        }
    }

    /// Whether the host is to exit once the response has been flushed, so that
    /// its supervisor starts the new binary.
    pub fn requests_restart(&self) -> (r: bool)
        ensures
            r == self.restarts(),
    {
        match self {
            Outcome::Restarting => true,
            _ => false,
        }
    }

    /// The kind of failure reported, if the request failed.
    pub fn failure(&self) -> (f: Option<FailureClass>)
        ensures
            f == self.failure_of(),
    {
        match self {
            Outcome::Restarting => None,
            Outcome::Reloaded => None,
            Outcome::Rejected(_) => Some(FailureClass::Authentication),
            Outcome::Failed(stage) => Some(stage.class()),
            Outcome::TimedOut(stage) => Some(stage.class()),
        }
    }
}

/// Where the machine stands in the handling of one request.
pub enum StateModel {
    Idle,
    Verifying,
    Rejected,
    Pulling { run: Option<Seq<char>> },
    Authenticating { url: Seq<char> },
    Listing { authorization: Seq<char> },
    Downloading,
    Storing,
    Extracting,
    Marking,
    ReloadingTemplates,
    ReloadingBlog,
}

/// What the host reports to the machine.
pub enum EventModel {
    Arrived,
    Verified { run: Option<Seq<char>> },
    Refused { reason: SignatureError },
    Done,
    Failed,
    TimedOut,
    Token { token: Seq<char> },
    Listed { urls: Seq<Seq<char>> },
    Downloaded { archive: Seq<u8> },
}

/// What the machine asks of the host.
pub enum ActionModel {
    Wait,
    Verify,
    PullSources,
    ReadToken,
    ListArtifacts { url: Seq<char>, authorization: Seq<char>, user_agent: Seq<char> },
    DownloadArchive { url: Seq<char>, authorization: Seq<char>, user_agent: Seq<char> },
    StoreArchive { path: Seq<char>, archive: Seq<u8> },
    ExtractArchive { path: Seq<char> },
    MarkExecutable { path: Seq<char> },
    ReloadTemplates,
    ReloadBlogEntries,
    Respond { outcome: Outcome },
}

/// The name under which the service presents itself to the CI provider,
/// which answers no request without one.
pub open spec fn user_agent() -> Seq<char> {
    "balls"@
}

/// Where the downloaded archive is written, in the working directory.
pub open spec fn archive_path() -> Seq<char> {
    "build.zip"@
}

/// The binary of the service, which the archive holds.
pub open spec fn binary_path() -> Seq<char> {
    "lajp_fi-rs"@
}

/// The value of the `Authorization` header that carries `token`.
pub open spec fn authorization_for(token: Seq<char>) -> Seq<char> {
    "token "@ + token
}

/// The step that is under way in a state, if the state awaits the result of
/// one.
pub open spec fn stage_of(state: StateModel) -> Option<Stage> {
    match state {
        StateModel::Idle | StateModel::Verifying | StateModel::Rejected => None,
        StateModel::Pulling { .. } => Some(Stage::Pull),
        StateModel::Authenticating { .. } => Some(Stage::Token),
        StateModel::Listing { .. } => Some(Stage::List),
        StateModel::Downloading => Some(Stage::Download),
        StateModel::Storing => Some(Stage::Store),
        StateModel::Extracting => Some(Stage::Extract),
        StateModel::Marking => Some(Stage::Permission),
        StateModel::ReloadingTemplates => Some(Stage::Templates),
        StateModel::ReloadingBlog => Some(Stage::Blog),
    }
}

/// Where a state leads when the step under way succeeds with the given
/// event, if that event is a success of that step.
pub open spec fn advance(state: StateModel, event: EventModel) -> Option<
    (StateModel, ActionModel),
> {
    match (state, event) {
        (StateModel::Pulling { run: None }, EventModel::Done) => Some(
            (StateModel::ReloadingTemplates, ActionModel::ReloadTemplates),
        ),
        (StateModel::Pulling { run: Some(url) }, EventModel::Done) => Some(
            (StateModel::Authenticating { url }, ActionModel::ReadToken),
        ),
        (StateModel::Authenticating { url }, EventModel::Token { token }) => Some(
            (
                StateModel::Listing { authorization: authorization_for(token) },
                ActionModel::ListArtifacts {
                    url,
                    authorization: authorization_for(token),
                    user_agent: user_agent(),
                },
            ),
        ),
        (StateModel::Listing { authorization }, EventModel::Listed { urls }) => if urls.len()
            > 0 {
            Some(
                (
                    StateModel::Downloading,
                    ActionModel::DownloadArchive {
                        url: urls[0],
                        authorization,
                        user_agent: user_agent(),
                    },
                ),
            )
        } else {
            Some((StateModel::Idle, ActionModel::Respond { outcome: Outcome::Failed(Stage::Select) }))
        },
        (StateModel::Downloading, EventModel::Downloaded { archive }) => Some(
            (StateModel::Storing, ActionModel::StoreArchive { path: archive_path(), archive }),
        ),
        (StateModel::Storing, EventModel::Done) => Some(
            (StateModel::Extracting, ActionModel::ExtractArchive { path: archive_path() }),
        ),
        (StateModel::Extracting, EventModel::Done) => Some(
            (StateModel::Marking, ActionModel::MarkExecutable { path: binary_path() }),
        ),
        (StateModel::Marking, EventModel::Done) => Some(
            (StateModel::Idle, ActionModel::Respond { outcome: Outcome::Restarting }),
        ),
        (StateModel::ReloadingTemplates, EventModel::Done) => Some(
            (StateModel::ReloadingBlog, ActionModel::ReloadBlogEntries),
        ),
        (StateModel::ReloadingBlog, EventModel::Done) => Some(
            (StateModel::Idle, ActionModel::Respond { outcome: Outcome::Reloaded }),
        ),
        _ => None,
    }
}

/// The transition of the machine: the state that follows and the action asked
/// of the host.
///
/// An idle machine waits for a request to arrive and has it verified. A
/// request that is refused is answered and ends in `Rejected`, where nothing
/// more is ever asked. A verified one is taken through the steps of the
/// update, each begun when the one before it has succeeded. A step that is
/// reported to have timed out ends the request with that report; any other
/// event while a step is under way counts as that step's failure. Either way
/// the request is answered with the step and the machine is idle again.
pub open spec fn next(state: StateModel, event: EventModel) -> (StateModel, ActionModel) {
    match state {
        StateModel::Idle => match event {
            EventModel::Arrived => (StateModel::Verifying, ActionModel::Verify),
            _ => (StateModel::Idle, ActionModel::Wait),
        },
        StateModel::Verifying => match event {
            EventModel::Verified { run } => (StateModel::Pulling { run }, ActionModel::PullSources),
            EventModel::Refused { reason } => (
                StateModel::Rejected,
                ActionModel::Respond { outcome: Outcome::Rejected(reason) },
            ),
            _ => (StateModel::Verifying, ActionModel::Wait),
        },
        StateModel::Rejected => (StateModel::Rejected, ActionModel::Wait),
        _ => match advance(state, event) {
            Some(step) => step,
            None => (
                StateModel::Idle,
                ActionModel::Respond {
                    outcome: if event is TimedOut {
                        Outcome::TimedOut(stage_of(state).unwrap())
                    } else {
                        Outcome::Failed(stage_of(state).unwrap())
                    },
                },
            ),
        },
    }
}

/// Where the machine stands in the handling of one request.
#[derive(Debug, PartialEq, Eq)]
pub enum UpdateState {
    /// No request is being handled.
    Idle,
    /// A request has arrived and its signature is being checked.
    Verifying,
    /// The request was turned away. Nothing follows.
    Rejected,
    /// The source tree is being refreshed.
    Pulling { run: Option<WorkflowRun> },
    /// The bearer token is being obtained.
    Authenticating { url: String },
    /// The artifacts of the run are being listed.
    Listing { authorization: String },
    /// The archive is being downloaded.
    Downloading,
    /// The archive is being written to disk.
    Storing,
    /// The archive is being unpacked.
    Extracting,
    /// The new binary is being marked as executable.
    Marking,
    /// The templates are being read again.
    ReloadingTemplates,
    /// The blog entries are being read again.
    ReloadingBlog,
}

/// What the host reports to the machine.
#[derive(Debug, PartialEq, Eq)]
pub enum UpdateEvent {
    /// A request has arrived.
    Arrived,
    /// The request passed the signature check and carries this payload.
    Verified { payload: UpdatePayload },
    /// The request failed the signature check.
    Refused { reason: SignatureError },
    /// The action asked for was carried out.
    Done,
    /// The action asked for could not be carried out.
    Failed,
    /// The action asked for was given up because it took too long.
    TimedOut,
    /// The bearer token was found.
    Token { token: String },
    /// The CI provider listed these artifacts.
    Listed { artifacts: Artifacts },
    /// The archive was downloaded.
    Downloaded { archive: Vec<u8> },
}

/// What the machine asks of the host.
#[derive(Debug, PartialEq, Eq)]
pub enum UpdateAction {
    /// Nothing.
    Wait,
    /// Check the signature of the request and report `Verified` or `Refused`.
    Verify,
    /// Refresh the source tree from version control.
    PullSources,
    /// Obtain the bearer token for the CI provider and report it.
    ReadToken,
    /// Ask the CI provider for the artifacts of the run.
    ListArtifacts { url: String, authorization: String, user_agent: String },
    /// Download the archive at `url`.
    DownloadArchive { url: String, authorization: String, user_agent: String },
    /// Write the archive to the file `path`.
    StoreArchive { path: String, archive: Vec<u8> },
    /// Unpack the archive at `path` over the running installation.
    ExtractArchive { path: String },
    /// Mark the new binary at `path` as executable.
    MarkExecutable { path: String },
    /// Read the templates again.
    ReloadTemplates,
    /// Read the blog entries again.
    ReloadBlogEntries,
    /// Answer the request; if the outcome asks for it, exit afterwards.
    Respond { outcome: Outcome },
}

impl View for UpdateState {
    type V = StateModel;

    open spec fn view(&self) -> StateModel {
        match *self {
            UpdateState::Idle => StateModel::Idle,
            UpdateState::Verifying => StateModel::Verifying,
            UpdateState::Rejected => StateModel::Rejected,
            UpdateState::Pulling { run: None } => StateModel::Pulling { run: None },
            UpdateState::Pulling { run: Some(r) } => StateModel::Pulling {
                run: Some(r.artifacts_url@),
            },
            UpdateState::Authenticating { url } => StateModel::Authenticating { url: url@ },
            UpdateState::Listing { authorization } => StateModel::Listing {
                authorization: authorization@,
            },
            UpdateState::Downloading => StateModel::Downloading,
            UpdateState::Storing => StateModel::Storing,
            UpdateState::Extracting => StateModel::Extracting,
            UpdateState::Marking => StateModel::Marking,
            UpdateState::ReloadingTemplates => StateModel::ReloadingTemplates,
            UpdateState::ReloadingBlog => StateModel::ReloadingBlog,
        }
    }
}

impl View for UpdateEvent {
    type V = EventModel;

    open spec fn view(&self) -> EventModel {
        match *self {
            UpdateEvent::Arrived => EventModel::Arrived,
            UpdateEvent::Verified { payload } => EventModel::Verified { run: payload@ },
            UpdateEvent::Refused { reason } => EventModel::Refused { reason },
            UpdateEvent::Done => EventModel::Done,
            UpdateEvent::Failed => EventModel::Failed,
            UpdateEvent::TimedOut => EventModel::TimedOut,
            UpdateEvent::Token { token } => EventModel::Token { token: token@ },
            UpdateEvent::Listed { artifacts } => EventModel::Listed { urls: artifacts@ },
            UpdateEvent::Downloaded { archive } => EventModel::Downloaded { archive: archive@ },
        }
    }
}

impl View for UpdateAction {
    type V = ActionModel;

    open spec fn view(&self) -> ActionModel {
        match *self {
            UpdateAction::Wait => ActionModel::Wait,
            UpdateAction::Verify => ActionModel::Verify,
            UpdateAction::PullSources => ActionModel::PullSources,
            UpdateAction::ReadToken => ActionModel::ReadToken,
            UpdateAction::ListArtifacts {
                url,
                authorization,
                user_agent,
            } => ActionModel::ListArtifacts {
                url: url@,
                authorization: authorization@,
                user_agent: user_agent@,
            },
            UpdateAction::DownloadArchive {
                url,
                authorization,
                user_agent,
            } => ActionModel::DownloadArchive {
                url: url@,
                authorization: authorization@,
                user_agent: user_agent@,
            },
            UpdateAction::StoreArchive { path, archive } => ActionModel::StoreArchive {
                path: path@,
                archive: archive@,
            },
            UpdateAction::ExtractArchive { path } => ActionModel::ExtractArchive { path: path@ },
            UpdateAction::MarkExecutable { path } => ActionModel::MarkExecutable { path: path@ },
            UpdateAction::ReloadTemplates => ActionModel::ReloadTemplates,
            UpdateAction::ReloadBlogEntries => ActionModel::ReloadBlogEntries,
            UpdateAction::Respond { outcome } => ActionModel::Respond { outcome },
        }
    }
}

/// The answer to a step that did not succeed, given the event that was
/// reported in place of its success.
fn fail(stage: Stage, event: &UpdateEvent) -> (r: (UpdateState, UpdateAction))
    ensures
        r.0@ == StateModel::Idle,
        r.1@ == (ActionModel::Respond {
            outcome: if event@ is TimedOut {
                Outcome::TimedOut(stage)
            } else {
                Outcome::Failed(stage)
            },
        }),
{
    let outcome = match event {
        UpdateEvent::TimedOut => Outcome::TimedOut(stage),
        _ => Outcome::Failed(stage),
    };
    (UpdateState::Idle, UpdateAction::Respond { outcome })
}

impl UpdateState {
    /// A machine that handles no request yet.
    pub fn new() -> (s: Self)
        ensures
            s@ == StateModel::Idle,
    {
        UpdateState::Idle
    }

    /// Whether the machine asks nothing more until a new request arrives.
    pub fn is_at_rest(&self) -> (r: bool)
        ensures
            r == (self@ == StateModel::Idle || self@ == StateModel::Rejected),
    {
        match self {
            UpdateState::Idle => true,
            UpdateState::Rejected => true,
            _ => false,
        }
    }

    /// Takes one event and gives the state that follows and the action that
    /// the host is to perform, as [`next`] lays down.
    pub fn step(self, event: UpdateEvent) -> (r: (UpdateState, UpdateAction))
        ensures
            (r.0@, r.1@) == next(self@, event@),
    {
        match self {
            UpdateState::Idle => match event {
                UpdateEvent::Arrived => (UpdateState::Verifying, UpdateAction::Verify),
                _ => (UpdateState::Idle, UpdateAction::Wait),
            },
            UpdateState::Verifying => match event {
                UpdateEvent::Verified { payload } => (
                    UpdateState::Pulling { run: payload.workflow_run },
                    UpdateAction::PullSources,
                ),
                UpdateEvent::Refused { reason } => (
                    UpdateState::Rejected,
                    UpdateAction::Respond { outcome: Outcome::Rejected(reason) },
                ),
                _ => (UpdateState::Verifying, UpdateAction::Wait),
            },
            UpdateState::Rejected => (UpdateState::Rejected, UpdateAction::Wait),
            UpdateState::Pulling { run } => match event {
                UpdateEvent::Done => match run {
                    None => (UpdateState::ReloadingTemplates, UpdateAction::ReloadTemplates),
                    Some(r) => (
                        UpdateState::Authenticating { url: r.artifacts_url },
                        UpdateAction::ReadToken,
                    ),
                },
                other => fail(Stage::Pull, &other),
            },
            UpdateState::Authenticating { url } => match event {
                UpdateEvent::Token { token } => {
                    let authorization = String::from_str("token ").concat(token.as_str());
                    let kept = authorization.clone();
                    (
                        UpdateState::Listing { authorization: kept },
                        UpdateAction::ListArtifacts {
                            url,
                            authorization,
                            user_agent: String::from_str("balls"),
                        },
                    )
                },
                other => fail(Stage::Token, &other),
            },
            UpdateState::Listing { authorization } => match event {
                UpdateEvent::Listed { artifacts } => {
                    let mut list = artifacts.artifacts;
                    if list.len() > 0 {
                        let first = list.remove(0);
                        (
                            UpdateState::Downloading,
                            UpdateAction::DownloadArchive {
                                url: first.archive_download_url,
                                authorization,
                                user_agent: String::from_str("balls"),
                            },
                        )
                    } else {
                        (
                            UpdateState::Idle,
                            UpdateAction::Respond { outcome: Outcome::Failed(Stage::Select) },
                        )
                    }
                },
                other => fail(Stage::List, &other),
            },
            UpdateState::Downloading => match event {
                UpdateEvent::Downloaded { archive } => (
                    UpdateState::Storing,
                    UpdateAction::StoreArchive { path: String::from_str("build.zip"), archive },
                ),
                other => fail(Stage::Download, &other),
            },
            UpdateState::Storing => match event {
                UpdateEvent::Done => (
                    UpdateState::Extracting,
                    UpdateAction::ExtractArchive { path: String::from_str("build.zip") },
                ),
                other => fail(Stage::Store, &other),
            },
            UpdateState::Extracting => match event {
                UpdateEvent::Done => (
                    UpdateState::Marking,
                    UpdateAction::MarkExecutable { path: String::from_str("lajp_fi-rs") },
                ),
                other => fail(Stage::Extract, &other),
            },
            UpdateState::Marking => match event {
                UpdateEvent::Done => (
                    UpdateState::Idle,
                    UpdateAction::Respond { outcome: Outcome::Restarting },
                ),
                other => fail(Stage::Permission, &other),
            },
            UpdateState::ReloadingTemplates => match event {
                UpdateEvent::Done => (UpdateState::ReloadingBlog, UpdateAction::ReloadBlogEntries),
                other => fail(Stage::Templates, &other),
            },
            UpdateState::ReloadingBlog => match event {
                UpdateEvent::Done => (
                    UpdateState::Idle,
                    UpdateAction::Respond { outcome: Outcome::Reloaded },
                ),
                other => fail(Stage::Blog, &other),
            },
        }
    }
}

/// The state that the machine is in after it has taken `events` in order.
pub open spec fn state_after(state: StateModel, events: Seq<EventModel>) -> StateModel
    decreases events.len(),
{
    if events.len() == 0 {
        state
    } else {
        next(state_after(state, events.drop_last()), events.last()).0
    }
}

/// The actions that the machine asks for, one for each of `events`.
pub open spec fn actions(state: StateModel, events: Seq<EventModel>) -> Seq<ActionModel> {
    Seq::new(events.len(), |i: int| next(state_after(state, events.take(i)), events[i]).1)
}

/// Whether all of `events` belong to the request under way: no new request
/// arrives among them.
pub open spec fn within_one_request(events: Seq<EventModel>) -> bool {
    forall|i: int| 0 <= i < events.len() ==> !(#[trigger] events[i] is Arrived)
}

/// Whether an action reaches out to the CI provider.
pub open spec fn contacts_provider(action: ActionModel) -> bool {
    action is ReadToken || action is ListArtifacts || action is DownloadArchive
}

/// Whether an action touches the installed binary.
pub open spec fn changes_binary(action: ActionModel) -> bool {
    action is StoreArchive || action is ExtractArchive || action is MarkExecutable
}

/// Whether an action has the host exit.
pub open spec fn asks_restart(action: ActionModel) -> bool {
    action matches ActionModel::Respond { outcome } && outcome.restarts()
}

/// Whether an action is a cache reload, a response that leaves the process
/// running, or nothing at all.
pub open spec fn reloads_only(action: ActionModel) -> bool {
    ||| action is Wait
    ||| action is ReloadTemplates
    ||| action is ReloadBlogEntries
    ||| action matches ActionModel::Respond { outcome } && !outcome.restarts()
}

/// Whether a state lies on the way of a request that names no run.
spec fn on_content_path(state: StateModel) -> bool {
    state == (StateModel::Pulling { run: None }) || state is ReloadingTemplates
        || state is ReloadingBlog || state is Idle
}

/// Whether a state lies behind the choice of the artifact.
spec fn past_selection(state: StateModel) -> bool {
    state is Downloading || state is Storing || state is Extracting || state is Marking
        || state is Idle
}

proof fn lemma_content_path_kept(state: StateModel, events: Seq<EventModel>)
    requires
        on_content_path(state),
        within_one_request(events),
    ensures
        on_content_path(state_after(state, events)),
    decreases events.len(),
{
    if events.len() > 0 {
        let front = events.drop_last();
        assert forall|i: int| 0 <= i < front.len() implies !(#[trigger] front[i] is Arrived) by {
            assert(front[i] == events[i]);
        }
        lemma_content_path_kept(state, front);
        assert(!(events[events.len() - 1] is Arrived));
    }
}

proof fn lemma_past_selection_kept(state: StateModel, events: Seq<EventModel>)
    requires
        past_selection(state),
        within_one_request(events),
    ensures
        past_selection(state_after(state, events)),
    decreases events.len(),
{
    if events.len() > 0 {
        let front = events.drop_last();
        assert forall|i: int| 0 <= i < front.len() implies !(#[trigger] front[i] is Arrived) by {
            assert(front[i] == events[i]);
        }
        lemma_past_selection_kept(state, front);
        assert(!(events[events.len() - 1] is Arrived));
    }
}

proof fn lemma_rejected_kept(events: Seq<EventModel>)
    ensures
        state_after(StateModel::Rejected, events) is Rejected,
    decreases events.len(),
{
    if events.len() > 0 {
        lemma_rejected_kept(events.drop_last());
    }
}

/// A request that names no run is served from local content alone: after the
/// pull, whatever the host reports while that request is under way, the
/// machine asks for nothing but the two reloads and a response that leaves
/// the process running. It never asks for the token, for a listing or for a
/// download, never has the binary touched and never asks for a restart.
pub proof fn law_content_update_stays_local(events: Seq<EventModel>)
    requires
        within_one_request(events),
    ensures
        next(StateModel::Verifying, EventModel::Verified { run: None }) == (
            StateModel::Pulling { run: None },
            ActionModel::PullSources,
        ),
        forall|i: int|
            #![trigger actions(StateModel::Pulling { run: None }, events)[i]]
            0 <= i < events.len() ==> {
                let action = actions(StateModel::Pulling { run: None }, events)[i];
                &&& reloads_only(action)
                &&& !contacts_provider(action)
                &&& !changes_binary(action)
                &&& !asks_restart(action)
            },
{
    let start = StateModel::Pulling { run: None };
    assert forall|i: int| 0 <= i < events.len() implies {
        let action = #[trigger] actions(start, events)[i];
        &&& reloads_only(action)
        &&& !contacts_provider(action)
        &&& !changes_binary(action)
        &&& !asks_restart(action)
    } by {
        let front = events.take(i);
        assert forall|j: int| 0 <= j < front.len() implies !(#[trigger] front[j] is Arrived) by {
            assert(front[j] == events[j]);
        }
        lemma_content_path_kept(start, front);
        assert(!(events[i] is Arrived));
    }
}

/// When the provider lists at least one artifact, the machine asks for the
/// download of the first one, with the authorization that the listing was
/// made with; when it lists none, the request is answered with an error. In
/// both cases no other download is asked for while that request is under way.
pub proof fn law_first_artifact_only(
    authorization: Seq<char>,
    urls: Seq<Seq<char>>,
    events: Seq<EventModel>,
)
    requires
        within_one_request(events),
    ensures
        ({
            let step = next(StateModel::Listing { authorization }, EventModel::Listed { urls });
            &&& urls.len() > 0 ==> step == (
                StateModel::Downloading,
                ActionModel::DownloadArchive { url: urls[0], authorization, user_agent: user_agent() },
            )
            &&& urls.len() == 0 ==> step == (
                StateModel::Idle,
                ActionModel::Respond { outcome: Outcome::Failed(Stage::Select) },
            )
            &&& forall|i: int|
                0 <= i < events.len() ==> !(#[trigger] actions(step.0, events)[i]
                    is DownloadArchive)
        }),
{
    let step = next(StateModel::Listing { authorization }, EventModel::Listed { urls });
    assert forall|i: int| 0 <= i < events.len() implies !(#[trigger] actions(step.0, events)[i]
        is DownloadArchive) by {
        let front = events.take(i);
        assert forall|j: int| 0 <= j < front.len() implies !(#[trigger] front[j] is Arrived) by {
            assert(front[j] == events[j]);
        }
        lemma_past_selection_kept(step.0, front);
        assert(!(events[i] is Arrived));
    }
}

/// A request that fails the signature check is answered with the verifier's
/// reason and goes no further: whatever is reported afterwards, the machine
/// asks for nothing, so nothing is pulled, fetched or reloaded.
pub proof fn law_refused_request_goes_no_further(reason: SignatureError, events: Seq<EventModel>)
    ensures
        next(StateModel::Verifying, EventModel::Refused { reason }) == (
            StateModel::Rejected,
            ActionModel::Respond { outcome: Outcome::Rejected(reason) },
        ),
        forall|i: int|
            0 <= i < events.len() ==> #[trigger] actions(StateModel::Rejected, events)[i]
                is Wait,
{
    assert forall|i: int| 0 <= i < events.len() implies #[trigger] actions(
        StateModel::Rejected,
        events,
    )[i] is Wait by {
        lemma_rejected_kept(events.take(i));
    }
}

/// A step that fails never goes unanswered: the request gets a response with
/// a server-error status that names the step, and the machine is idle again.
/// A step that timed out is told from one that failed otherwise.
pub proof fn law_failure_is_reported(state: StateModel)
    requires
        stage_of(state) is Some,
    ensures
        next(state, EventModel::Failed) == (
            StateModel::Idle,
            ActionModel::Respond { outcome: Outcome::Failed(stage_of(state)->0) },
        ),
        next(state, EventModel::TimedOut) == (
            StateModel::Idle,
            ActionModel::Respond { outcome: Outcome::TimedOut(stage_of(state)->0) },
        ),
        Outcome::Failed(stage_of(state)->0).status() == 500,
        Outcome::TimedOut(stage_of(state)->0).status() == 504,
        !Outcome::Failed(stage_of(state)->0).restarts(),
        !Outcome::TimedOut(stage_of(state)->0).restarts(),
{
}

/// Every request to the CI provider carries the bearer token in its
/// authorization and presents a name that is not empty.
pub proof fn law_provider_requests_are_identified(state: StateModel, event: EventModel)
    ensures
        match next(state, event).1 {
            ActionModel::ListArtifacts { url, authorization, user_agent } => {
                &&& user_agent.len() > 0
                &&& event matches EventModel::Token { token } && authorization
                    == authorization_for(token)
            },
            ActionModel::DownloadArchive { url, authorization, user_agent } => {
                &&& user_agent.len() > 0
                &&& state == (StateModel::Listing { authorization })
            },
            _ => true,
        },
{
    reveal_strlit("balls");
}

/// A restart is asked for in one place only: when the new binary has been
/// marked as executable, which is the last step of putting it in place.
pub proof fn law_restart_only_after_deploy(state: StateModel, event: EventModel)
    requires
        asks_restart(next(state, event).1),
    ensures
        state is Marking,
        event is Done,
        next(state, event).0 is Idle,
{
}

/// The state after one more event is the successor of the state before it.
proof fn lemma_state_after_step(start: StateModel, events: Seq<EventModel>, k: int)
    requires
        0 <= k < events.len(),
    ensures
        state_after(start, events.take(k + 1)) == next(
            state_after(start, events.take(k)),
            events[k],
        ).0,
{
    let front = events.take(k + 1);
    assert(front.drop_last() =~= events.take(k));
    assert(front.last() == events[k]);
}

/// The process is restarted only after a deployment. Whatever the host
/// reports to a machine that starts idle, a response that asks for a restart
/// comes directly after the machine has asked, in this order, for the
/// download of an archive, for its writing, for its extraction and for the
/// marking of the binary, and the host has reported each of them done.
pub proof fn law_restart_follows_deploy(events: Seq<EventModel>, i: int)
    requires
        0 <= i < events.len(),
        asks_restart(actions(StateModel::Idle, events)[i]),
    ensures
        i >= 4,
        actions(StateModel::Idle, events)[i - 4] is DownloadArchive,
        actions(StateModel::Idle, events)[i - 3] is StoreArchive,
        actions(StateModel::Idle, events)[i - 2] is ExtractArchive,
        actions(StateModel::Idle, events)[i - 1] is MarkExecutable,
        events[i - 3] is Downloaded,
        events[i - 2] is Done,
        events[i - 1] is Done,
        events[i] is Done,
{
    let start = StateModel::Idle;
    let at = |k: int| state_after(start, events.take(k));
    assert(events.take(0) =~= Seq::<EventModel>::empty());
    assert(at(0) is Idle);
    assert(at(i) is Marking);
    lemma_state_after_step(start, events, i - 1);
    assert(at(i - 1) is Extracting);
    lemma_state_after_step(start, events, i - 2);
    assert(at(i - 2) is Storing);
    lemma_state_after_step(start, events, i - 3);
    assert(at(i - 3) is Downloading);
    lemma_state_after_step(start, events, i - 4);
    assert(at(i - 4) is Listing);
}

} // verus!
