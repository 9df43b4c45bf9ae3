//! The reuse-or-launch protocol, one call at a time.
//!
//! A call is a `Session`. At every moment a session has exactly one request
//! outstanding; the host carries it out and reports back with the matching
//! `Event`, upon which the session moves on. The host never decides
//! anything: which effect comes next, and what the call returns, follows
//! from the events alone.

use vstd::prelude::*;
use crate::config::Config;
use crate::error::{failure_view, SidecarError, SidecarErrorView};
use crate::health::{classify_probe, health_of, health_url, health_url_text, HealthStatus,
    HEALTH_TIMEOUT_MILLIS};
use crate::launch::{plan_of, spawn_failure_of, LaunchPlan, LaunchPlanView, SETTLE_MILLIS};
use crate::port::{chosen_port, port_or_fallback};
use crate::resolver::{base_directory, base_of, bundled_interpreter_path, bundled_interpreter_text,
    python_command_text, resolve, script_path, script_path_text, BaseDirectory, Resolution,
    ResolutionView};

verus! {

/// What the host is asked to do next.
#[derive(Debug, PartialEq, Eq)]
pub enum Action {
    /// Take the lock, read the handle's port, release the lock.
    ReadCache,
    /// Send one GET to `url`, giving up after `timeout_millis`.
    Probe { port: u16, url: String, timeout_millis: u64 },
    /// Find out where this directory is.
    Locate(BaseDirectory),
    /// Find out whether a file exists at this path.
    CheckExists(String),
    /// Scan the port window for a port that can be bound.
    AllocatePort,
    /// Start the process this plan describes, detached, with its output
    /// discarded, and do not wait for it.
    Spawn(LaunchPlan),
    /// Wait this long.
    Sleep { millis: u64 },
    /// Take the lock, store this port in the handle, release the lock.
    WriteCache(u16),
    /// Nothing: the call is over and its outcome can be read.
    Done,
}

/// An `Action` with its texts as character sequences.
pub enum ActionView {
    ReadCache,
    Probe { port: u16, url: Seq<char>, timeout_millis: u64 },
    Locate(BaseDirectory),
    CheckExists(Seq<char>),
    AllocatePort,
    Spawn(LaunchPlanView),
    Sleep { millis: u64 },
    WriteCache(u16),
    Done,
}

impl View for Action {
    type V = ActionView;

    open spec fn view(&self) -> ActionView {
        match *self {
            Action::ReadCache => ActionView::ReadCache,
            Action::Probe { port, url, timeout_millis } => ActionView::Probe {
                port,
                url: url@,
                timeout_millis,
            },
            Action::Locate(directory) => ActionView::Locate(directory),
            Action::CheckExists(path) => ActionView::CheckExists(path@),
            Action::AllocatePort => ActionView::AllocatePort,
            Action::Spawn(plan) => ActionView::Spawn(plan@),
            Action::Sleep { millis } => ActionView::Sleep { millis },
            Action::WriteCache(port) => ActionView::WriteCache(port),
            Action::Done => ActionView::Done,
        }
    }
}

/// What the host reports after carrying out a request.
#[derive(Debug, PartialEq, Eq)]
pub enum Event {
    /// After `ReadCache`: the port the handle held.
    Cache(Option<u16>),
    /// After `Probe`: the status code of the response, or `None` when the
    /// connection failed or the probe timed out.
    ProbeAnswered(Option<u16>),
    /// After `Locate`: the directory, or the reason it could not be found.
    Base(Result<String, String>),
    /// After `CheckExists`: whether a file is there.
    Exists(bool),
    /// After `AllocatePort`: what the scan reported.
    PortScanned(Result<u16, SidecarError>),
    /// After `Spawn`: nothing if the process was created, else the operating
    /// system's reason.
    Spawned(Result<(), String>),
    /// After `Sleep`.
    Settled,
    /// After `WriteCache`.
    Stored,
}

/// An `Event` with its texts as character sequences.
pub enum EventView {
    Cache(Option<u16>),
    ProbeAnswered(Option<u16>),
    Base(Result<Seq<char>, Seq<char>>),
    Exists(bool),
    PortScanned(Result<u16, SidecarErrorView>),
    Spawned(Result<(), Seq<char>>),
    Settled,
    Stored,
}

impl View for Event {
    type V = EventView;

    open spec fn view(&self) -> EventView {
        match *self {
            Event::Cache(port) => EventView::Cache(port),
            Event::ProbeAnswered(response) => EventView::ProbeAnswered(response),
            Event::Base(Ok(directory)) => EventView::Base(Ok(directory@)),
            Event::Base(Err(detail)) => EventView::Base(Err(detail@)),
            Event::Exists(exists) => EventView::Exists(exists),
            Event::PortScanned(scan) => EventView::PortScanned(failure_view(scan)),
            Event::Spawned(Ok(_)) => EventView::Spawned(Ok(())),
            Event::Spawned(Err(reason)) => EventView::Spawned(Err(reason@)),
            Event::Settled => EventView::Settled,
            Event::Stored => EventView::Stored,
        }
    }
}

/// How far a call has come. Each stage but the last waits for the answer to
/// one request.
pub enum StageView {
    /// Waiting to learn the cached port.
    ReadingCache,
    /// Waiting for the probe of the cached port.
    ProbingCached { port: u16 },
    /// Waiting to learn the directory the sidecar's files live under.
    LocatingBase,
    /// Waiting to learn whether the script exists.
    CheckingScript { base: Seq<char> },
    /// Waiting to learn whether a bundled interpreter exists.
    CheckingInterpreter { base: Seq<char> },
    /// Waiting for the port scan.
    Allocating { resolution: ResolutionView },
    /// Waiting for the process to be created.
    Spawning { plan: LaunchPlanView },
    /// Waiting for the settle interval to pass.
    Settling { port: u16 },
    /// Waiting for the probe of the new sidecar.
    ProbingFresh { port: u16 },
    /// Waiting for the new port to be stored.
    Storing { port: u16 },
    /// Over, with this outcome.
    Finished { outcome: Result<u16, SidecarErrorView> },
}

/// A call in progress, as its contracts see it.
pub struct SessionView {
    pub config: Config,
    pub stage: StageView,
}

/// A call that has just begun.
pub open spec fn initial_session(config: Config) -> SessionView {
    SessionView { config, stage: StageView::ReadingCache }
}

/// The request to probe the sidecar on `port`: one GET to its readiness
/// endpoint, with the time a probe is allowed.
pub open spec fn probe_of(port: u16) -> ActionView {
    ActionView::Probe { port, url: health_url_text(port), timeout_millis: HEALTH_TIMEOUT_MILLIS }
}

/// The request a session has outstanding.
pub open spec fn request_of(session: SessionView) -> ActionView {
    match session.stage {
        StageView::ReadingCache => ActionView::ReadCache,
        StageView::ProbingCached { port } => probe_of(port),
        StageView::LocatingBase => ActionView::Locate(base_of(session.config.mode)),
        StageView::CheckingScript { base } => ActionView::CheckExists(
            script_path_text(base, session.config.platform),
        ),
        StageView::CheckingInterpreter { base } => ActionView::CheckExists(
            bundled_interpreter_text(base, session.config.platform),
        ),
        StageView::Allocating { resolution } => ActionView::AllocatePort,
        StageView::Spawning { plan } => ActionView::Spawn(plan),
        StageView::Settling { port } => ActionView::Sleep { millis: SETTLE_MILLIS },
        StageView::ProbingFresh { port } => probe_of(port),
        StageView::Storing { port } => ActionView::WriteCache(port),
        StageView::Finished { outcome } => ActionView::Done,
    }
}

/// What a call returned, once it is over.
pub open spec fn outcome_of(session: SessionView) -> Option<Result<u16, SidecarErrorView>> {
    match session.stage {
        StageView::Finished { outcome } => Some(outcome),
        _ => None,
    }
}

/// Whether `event` is the kind of report that answers the outstanding
/// request of `session`.
pub open spec fn answers(session: SessionView, event: EventView) -> bool {
    match session.stage {
        StageView::ReadingCache => event is Cache,
        StageView::ProbingCached { port } => event is ProbeAnswered,
        StageView::LocatingBase => event is Base,
        StageView::CheckingScript { base } => event is Exists,
        StageView::CheckingInterpreter { base } => event is Exists,
        StageView::Allocating { resolution } => event is PortScanned,
        StageView::Spawning { plan } => event is Spawned,
        StageView::Settling { port } => event is Settled,
        StageView::ProbingFresh { port } => event is ProbeAnswered,
        StageView::Storing { port } => event is Stored,
        StageView::Finished { outcome } => false,
    }
}

/// The stage that follows `session.stage` when `event` answers its request.
pub open spec fn stage_after(session: SessionView, event: EventView) -> StageView {
    let platform = session.config.platform;
    match (session.stage, event) {
        (StageView::ReadingCache, EventView::Cache(Some(port))) => StageView::ProbingCached {
            port,
        },
        (StageView::ReadingCache, EventView::Cache(None)) => StageView::LocatingBase,
        (StageView::ProbingCached { port }, EventView::ProbeAnswered(response)) => {
            if health_of(response) == HealthStatus::Healthy {
                StageView::Finished { outcome: Ok(port) }
            } else {
                StageView::LocatingBase
            }
        },
        (StageView::LocatingBase, EventView::Base(Ok(base))) => StageView::CheckingScript {
            base,
        },
        (StageView::LocatingBase, EventView::Base(Err(detail))) => StageView::Finished {
            outcome: Err(SidecarErrorView::BaseUnavailable { mode: session.config.mode, detail }),
        },
        (StageView::CheckingScript { base }, EventView::Exists(true)) => {
            StageView::CheckingInterpreter { base }
        },
        (StageView::CheckingScript { base }, EventView::Exists(false)) => StageView::Finished {
            outcome: Err(SidecarErrorView::ScriptNotFound(script_path_text(base, platform))),
        },
        (StageView::CheckingInterpreter { base }, EventView::Exists(bundled)) => {
            StageView::Allocating {
                resolution: ResolutionView {
                    script_path: script_path_text(base, platform),
                    work_dir: base,
                    interpreter: python_command_text(base, platform, bundled),
                },
            }
        },
        (StageView::Allocating { resolution }, EventView::PortScanned(scan)) => {
            StageView::Spawning { plan: plan_of(resolution, chosen_port(scan)) }
        },
        (StageView::Spawning { plan }, EventView::Spawned(Ok(_))) => StageView::Settling {
            port: plan.port,
        },
        (StageView::Spawning { plan }, EventView::Spawned(Err(reason))) => StageView::Finished {
            outcome: Err(spawn_failure_of(plan, reason)),
        },
        (StageView::Settling { port }, EventView::Settled) => StageView::ProbingFresh { port },
        (StageView::ProbingFresh { port }, EventView::ProbeAnswered(response)) => {
            if health_of(response) == HealthStatus::Healthy {
                StageView::Storing { port }
            } else {
                StageView::Finished {
                    outcome: Err(SidecarErrorView::SidecarUnavailable(health_of(response))),
                }
            }
        },
        (StageView::Storing { port }, EventView::Stored) => StageView::Finished {
            outcome: Ok(port),
        },
        (stage, _) => stage,
    }
}

/// The session that `event` turns `session` into. A report that does not
/// answer the outstanding request changes nothing.
pub open spec fn next_session(session: SessionView, event: EventView) -> SessionView {
    SessionView { config: session.config, stage: stage_after(session, event) }
}

/// A report that does not answer the outstanding request changes nothing.
pub proof fn law_only_the_answer_moves_a_call(session: SessionView, event: EventView)
    requires
        !answers(session, event),
    ensures
        next_session(session, event) == session,
{
}

/// A call is over exactly when it has an outcome. From then on no report
/// answers it, so it stays as it is.
pub proof fn law_done_means_an_outcome(session: SessionView)
    ensures
        request_of(session) is Done <==> outcome_of(session) is Some,
        request_of(session) is Done ==> forall|event: EventView|
            !#[trigger] answers(session, event) && next_session(session, event) == session,
{
}

#[derive(Debug)]
enum Stage {
    ReadingCache,
    ProbingCached { port: u16 },
    LocatingBase,
    CheckingScript { base: String },
    CheckingInterpreter { base: String },
    Allocating { resolution: Resolution },
    Spawning { plan: LaunchPlan },
    Settling { port: u16 },
    ProbingFresh { port: u16 },
    Storing { port: u16 },
    Finished { outcome: Result<u16, SidecarError> },
}

impl View for Stage {
    type V = StageView;

    closed spec fn view(&self) -> StageView {
        match *self {
            Stage::ReadingCache => StageView::ReadingCache,
            Stage::ProbingCached { port } => StageView::ProbingCached { port },
            Stage::LocatingBase => StageView::LocatingBase,
            Stage::CheckingScript { base } => StageView::CheckingScript { base: base@ },
            Stage::CheckingInterpreter { base } => StageView::CheckingInterpreter { base: base@ },
            Stage::Allocating { resolution } => StageView::Allocating { resolution: resolution@ },
            Stage::Spawning { plan } => StageView::Spawning { plan: plan@ },
            Stage::Settling { port } => StageView::Settling { port },
            Stage::ProbingFresh { port } => StageView::ProbingFresh { port },
            Stage::Storing { port } => StageView::Storing { port },
            Stage::Finished { outcome } => StageView::Finished { outcome: failure_view(outcome) },
        }
    }
}

/// One call of the protocol, in progress or over.
#[derive(Debug)]
pub struct Session {
    config: Config,
    stage: Stage,
}

impl View for Session {
    type V = SessionView;

    closed spec fn view(&self) -> SessionView {
        SessionView { config: self.config, stage: self.stage@ }
    }
}

/// An outcome with its failure, if it is one, taken by its view.
pub open spec fn outcome_view(outcome: Option<Result<u16, SidecarError>>) -> Option<
    Result<u16, SidecarErrorView>,
> {
    match outcome {
        Some(result) => Some(failure_view(result)),
        None => None,
    }
}

fn probe(port: u16) -> (action: Action)
    ensures
        action@ == probe_of(port),
{
    Action::Probe { port, url: health_url(port), timeout_millis: HEALTH_TIMEOUT_MILLIS }
}

impl Session {
    /// Begins a call. Its first request is to read the cached port.
    pub fn new(config: Config) -> (session: Session)
        ensures
            session@ == initial_session(config),
    {
        Session { config, stage: Stage::ReadingCache }
    }

    /// The request that is outstanding.
    pub fn request(&self) -> (action: Action)
        ensures
            action@ == request_of(self@),
    {
        match &self.stage {
            Stage::ReadingCache => Action::ReadCache,
            Stage::ProbingCached { port } => probe(*port),
            Stage::LocatingBase => Action::Locate(base_directory(self.config.mode)),
            Stage::CheckingScript { base } => Action::CheckExists(
                script_path(base.as_str(), self.config.platform),
            ),
            Stage::CheckingInterpreter { base } => Action::CheckExists(
                bundled_interpreter_path(base.as_str(), self.config.platform),
            ),
            Stage::Allocating { resolution } => Action::AllocatePort,
            Stage::Spawning { plan } => Action::Spawn(plan.clone()),
            Stage::Settling { port } => Action::Sleep { millis: SETTLE_MILLIS },
            Stage::ProbingFresh { port } => probe(*port),
            Stage::Storing { port } => Action::WriteCache(*port),
            Stage::Finished { outcome } => Action::Done,
        }
    }

    /// What the call returned: `None` while it is still in progress.
    pub fn outcome(&self) -> (outcome: Option<Result<u16, SidecarError>>)
        ensures
            outcome_view(outcome) == outcome_of(self@),
    {
        match &self.stage {
            Stage::Finished { outcome: Ok(port) } => Some(Ok(*port)),
            Stage::Finished { outcome: Err(error) } => Some(Err(error.clone())),
            _ => None,
        }
    }
}

/// Moves a call on by one report from the host, and says what the host is to
/// do next.
///
/// The call begins by reading the cached port. A cached port that answers
/// its probe with success is returned at once. Otherwise a sidecar is
/// started: the script is looked for first and the call fails if it is
/// missing; then the interpreter is chosen, a port is picked, the process is
/// created and left alone for the settle interval. The new sidecar is probed
/// once. If that probe succeeds the port is stored and returned; if not, the
/// call fails, and nothing is stored or retried.
pub fn start_python_sidecar(session: Session, event: Event) -> (next: (Session, Action))
    ensures
        next.0@ == next_session(session@, event@),
        next.1@ == request_of(next.0@),
{
    let config = session.config;
    let stage = match (session.stage, event) {
        (Stage::ReadingCache, Event::Cache(Some(port))) => Stage::ProbingCached { port },
        (Stage::ReadingCache, Event::Cache(None)) => Stage::LocatingBase,
        (Stage::ProbingCached { port }, Event::ProbeAnswered(response)) => {
            match classify_probe(response) {
                HealthStatus::Healthy => Stage::Finished { outcome: Ok(port) },
                _ => Stage::LocatingBase,
            }
        },
        (Stage::LocatingBase, Event::Base(Ok(base))) => Stage::CheckingScript { base },
        (Stage::LocatingBase, Event::Base(Err(detail))) => Stage::Finished {
            outcome: Err(SidecarError::BaseUnavailable { mode: config.mode, detail }),
        },
        (Stage::CheckingScript { base }, Event::Exists(true)) => Stage::CheckingInterpreter {
            base,
        },
        (Stage::CheckingScript { base }, Event::Exists(false)) => Stage::Finished {
            outcome: Err(SidecarError::ScriptNotFound(script_path(base.as_str(), config.platform))),
        },
        (Stage::CheckingInterpreter { base }, Event::Exists(bundled)) => {
            match resolve(base.as_str(), config.platform, true, bundled) {
                Ok(resolution) => Stage::Allocating { resolution },
                Err(error) => Stage::Finished { outcome: Err(error) },
            }
        },
        (Stage::Allocating { resolution }, Event::PortScanned(scan)) => Stage::Spawning {
            plan: LaunchPlan::new(resolution, port_or_fallback(&scan)),
        },
        (Stage::Spawning { plan }, Event::Spawned(Ok(_))) => Stage::Settling { port: plan.port },
        (Stage::Spawning { plan }, Event::Spawned(Err(reason))) => Stage::Finished {
            outcome: Err(plan.spawn_failure(reason)),
        },
        (Stage::Settling { port }, Event::Settled) => Stage::ProbingFresh { port },
        (Stage::ProbingFresh { port }, Event::ProbeAnswered(response)) => {
            match classify_probe(response) {
                HealthStatus::Healthy => Stage::Storing { port },
                status => Stage::Finished { outcome: Err(SidecarError::SidecarUnavailable(status)) },
            }
        },
        (Stage::Storing { port }, Event::Stored) => Stage::Finished { outcome: Ok(port) },
        (stage, _) => stage,
    };
    let moved = Session { config, stage };
    let action = moved.request();
    (moved, action)
}

} // verus!
