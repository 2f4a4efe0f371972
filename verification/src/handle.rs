//! Handle object to start, stop and control the service.
//!
//! A handle decides which stage of startup or shutdown comes next. The stages themselves are
//! performed by its owner, who reports back how each of them went:
//!
//! 1. `PreListen` of every participant (registration order)
//! 2. `Listen` of every server
//! 3. `PostListen` of every participant (registration order)
//! 4. … service runs until shutdown is requested …
//! 5. `PreDrain` of every participant (reverse registration order)
//! 6. graceful drain of servers
//! 7. `PostDrain` of every participant (reverse registration order)

use std::time::Duration;

use tokio_util::sync::CancellationToken;
use vstd::prelude::*;

use crate::config::AppConfig;
#[allow(unused_imports)]
use crate::lifecycle::ContextView;
use crate::lifecycle::{LifecycleContext, LifecycleError};
#[allow(unused_imports)]
use crate::util::str::opt_text;
use crate::util::str::{copied, joined};

pub mod laws;

verus! {

/// Error type returned by uxum handle.
#[derive(Debug)]
#[non_exhaustive]
pub enum HandleError {
    /// Error while setting up logging.
    Logging(String),
    /// Error while setting up trace collection and propagation.
    Tracing(String),
    /// Error while setting up metrics collection and propagation.
    Metrics(String),
    /// Error while building HTTP server.
    ServerBuilder(String),
    /// Error running HTTP server.
    Server(String),
    /// Error initializing crypto provider.
    InitTls,
    /// Error running HTTPS server.
    TlsServer(String),
    /// Error running SPIFFE HTTPS server.
    SpiffeServer(String),
    /// Server task error.
    ServerTask(String),
    /// No server is currently running.
    NotRunning,
    /// Signal handler error.
    SignalHandler(String),
    /// Custom error from application initialization.
    Custom(String),
    /// Error from a lifecycle participant.
    Lifecycle(LifecycleError),
}

impl HandleError {
    /// Text of the error.
    pub open spec fn text(self) -> Seq<char> {
        match self {
            HandleError::Logging(err) => err@,
            HandleError::Tracing(err) => err@,
            HandleError::Metrics(err) => err@,
            HandleError::ServerBuilder(err) => err@,
            HandleError::Server(err) => "HTTP server error: "@ + err@,
            HandleError::InitTls => "Error initializing crypto provider"@,
            HandleError::TlsServer(err) => "HTTPS server error: "@ + err@,
            HandleError::SpiffeServer(err) => "SPIFFE HTTPS server error: "@ + err@,
            HandleError::ServerTask(err) => "Server task error: "@ + err@,
            HandleError::NotRunning => "No server is currently running"@,
            HandleError::SignalHandler(err) => err@,
            HandleError::Custom(err) => "Custom error: "@ + err@,
            HandleError::Lifecycle(err) => err.text(),
        }
    }

    /// Wrap custom application initialization error.
    #[must_use]
    pub fn custom(err: String) -> (res: Self)
        ensures
            res == HandleError::Custom(err),
    {
        HandleError::Custom(err)
    }

    /// Format the error for display.
    pub fn message(&self) -> (res: String)
        ensures
            res@ == self.text(),
    {
        match self {
            HandleError::Logging(err) => err.clone(),
            HandleError::Tracing(err) => err.clone(),
            HandleError::Metrics(err) => err.clone(),
            HandleError::ServerBuilder(err) => err.clone(),
            HandleError::Server(err) => joined("HTTP server error: ", err),
            HandleError::InitTls => "Error initializing crypto provider".to_owned(),
            HandleError::TlsServer(err) => joined("HTTPS server error: ", err),
            HandleError::SpiffeServer(err) => joined("SPIFFE HTTPS server error: ", err),
            HandleError::ServerTask(err) => joined("Server task error: ", err),
            HandleError::NotRunning => "No server is currently running".to_owned(),
            HandleError::SignalHandler(err) => err.clone(),
            HandleError::Custom(err) => joined("Custom error: ", err),
            HandleError::Lifecycle(err) => err.message(),
        }
    }
}

/// Kind of a server to start.
#[derive(Clone, Copy, Debug, PartialEq, Eq, Structural)]
pub enum ServerKind {
    /// Plain HTTP.
    Plain,
    /// HTTP over TLS.
    Tls,
    /// HTTP over mTLS, using SPIFFE certificate distribution and verification.
    Spiffe,
}

impl ServerKind {
    /// Whether a crypto provider has to be in place before a server of this kind is built.
    pub fn needs_crypto_provider(&self) -> (res: bool)
        ensures
            res == !(*self is Plain),
    {
        match self {
            ServerKind::Plain => false,
            ServerKind::Tls | ServerKind::Spiffe => true,
        }
    }

    /// Error of a server that could not be built, of any kind.
    pub fn build_error(&self, err: String) -> (res: HandleError)
        ensures
            res == HandleError::ServerBuilder(err),
    {
        HandleError::ServerBuilder(err)
    }

    /// Error of a running server task.
    pub fn task_error(&self, err: String) -> (res: HandleError)
        ensures
            res == match *self {
                ServerKind::Plain => HandleError::Server(err),
                ServerKind::Tls => HandleError::TlsServer(err),
                ServerKind::Spiffe => HandleError::SpiffeServer(err),
            },
    {
        match self {
            ServerKind::Plain => HandleError::Server(err),
            ServerKind::Tls => HandleError::TlsServer(err),
            ServerKind::Spiffe => HandleError::SpiffeServer(err),
        }
    }
}

/// What the signal handler task was woken up by.
pub enum SignalEvent {
    /// Shutdown was already requested by something else.
    ShutdownRequested,
    /// A signal was received.
    Received {
        /// The signal asks the service to shut down.
        is_shutdown: bool,
    },
    /// Waiting for a signal has failed.
    Failed,
}

/// What the signal handler task has to do next.
#[derive(Clone, Copy, Debug, PartialEq, Eq, Structural)]
pub enum SignalAction {
    /// Wait for the next signal.
    Wait,
    /// Request shutdown, and stop waiting for signals.
    RequestShutdown,
    /// Stop waiting for signals.
    Stop,
}

/// Error of a signal handler that could not be registered.
pub fn signal_error(err: String) -> (res: HandleError)
    ensures
        res == HandleError::SignalHandler(err),
{
    HandleError::SignalHandler(err)
}

/// Decide what to do about a signal.
pub fn on_signal(event: SignalEvent) -> (action: SignalAction)
    ensures
        action is Stop <==> event is ShutdownRequested,
        action is RequestShutdown <==> event == (SignalEvent::Received { is_shutdown: true }),
{
    match event {
        SignalEvent::ShutdownRequested => SignalAction::Stop,
        SignalEvent::Received { is_shutdown: true } => SignalAction::RequestShutdown,
        SignalEvent::Received { is_shutdown: false } => SignalAction::Wait,
        SignalEvent::Failed => SignalAction::Wait,
    }
}

/// One step of startup or shutdown. Participants and servers are referred to by their index.
#[derive(Clone, Copy, Debug, PartialEq, Eq)]
pub enum Stage {
    /// Spawn a task converting shutdown signals into a shutdown request.
    SpawnSignalHandler,
    /// Spawn service supervisor notification task.
    SpawnWatchdog,
    /// Call a participant before servers start listening.
    PreListen(usize),
    /// Make sure that a crypto provider is in place.
    EnsureCryptoProvider,
    /// Start a server.
    Listen(usize),
    /// Call a participant after servers are accepting connections.
    PostListen(usize),
    /// Notify service supervisor that the service is ready.
    AnnounceReady,
    /// Notify service supervisor of the error.
    ReportFailure,
    /// Wait until shutdown is requested, or a server task exits.
    AwaitShutdown,
    /// Cancel the token that requests shutdown.
    CancelTrigger,
    /// Notify service supervisor that the service is shutting down.
    AnnounceShutdown,
    /// Call a participant before servers drain.
    PreDrain(usize),
    /// Let servers finish requests in progress, for no longer than the given time.
    DrainServers(Option<Duration>),
    /// Make servers close all connections.
    CloseServers,
    /// Abort all server tasks.
    AbortServers,
    /// Wait for any server task to exit, out of those that have not exited yet.
    CollectServer,
    /// Wait for a server task to exit, by the order in which they were started.
    JoinServer(usize),
    /// Call a participant after servers have drained.
    PostDrain(usize),
}

/// How a stage went.
pub enum Outcome {
    /// The stage is done. Of a stage that waits for a server task: the task has exited.
    Done,
    /// The stage has failed. Of a stage that waits for a server task: the task has exited with
    /// an error.
    Failed(HandleError),
    /// Shutdown was requested before a server task exited.
    ShutdownRequested,
}

impl Outcome {
    /// Error of the stage, if it has failed.
    pub open spec fn error(self) -> Option<HandleError> {
        match self {
            Outcome::Failed(err) => Some(err),
            _ => None,
        }
    }
}

/// How a server task has exited.
pub enum ServerExit {
    /// The server has stopped.
    Stopped,
    /// The server has failed.
    Failed(HandleError),
    /// The task was aborted, or has panicked.
    Lost(String),
}

impl ServerExit {
    /// Outcome of a stage that has waited for the task.
    pub fn outcome(self) -> (outcome: Outcome)
        ensures
            outcome == match self {
                ServerExit::Stopped => Outcome::Done,
                ServerExit::Failed(err) => Outcome::Failed(err),
                ServerExit::Lost(err) => Outcome::Failed(HandleError::ServerTask(err)),
            },
    {
        match self {
            ServerExit::Stopped => Outcome::Done,
            ServerExit::Failed(err) => Outcome::Failed(err),
            ServerExit::Lost(err) => Outcome::Failed(HandleError::ServerTask(err)),
        }
    }
}

/// Participants called before servers start listening, in registration order.
pub open spec fn pre_listen(count: nat) -> Seq<Stage> {
    Seq::new(count, |i: int| Stage::PreListen(i as usize))
}

/// Servers started one by one, each of them after a crypto provider if it needs one.
pub open spec fn listen(servers: Seq<ServerKind>) -> Seq<Stage>
    decreases servers.len(),
{
    if servers.len() == 0 {
        Seq::empty()
    } else {
        listen(servers.drop_last()) + only_if(
            !(servers.last() is Plain),
            Stage::EnsureCryptoProvider,
        ) + seq![Stage::Listen((servers.len() - 1) as usize)]
    }
}

/// Participants called after servers started listening, in registration order.
pub open spec fn post_listen(count: nat) -> Seq<Stage> {
    Seq::new(count, |i: int| Stage::PostListen(i as usize))
}

/// Participants called before servers drain, in reverse registration order.
pub open spec fn pre_drain(count: nat) -> Seq<Stage> {
    Seq::new(count, |i: int| Stage::PreDrain((count - 1 - i) as usize))
}

/// Participants called after servers have drained, in reverse registration order.
pub open spec fn post_drain(count: nat) -> Seq<Stage> {
    Seq::new(count, |i: int| Stage::PostDrain((count - 1 - i) as usize))
}

/// Server tasks waited for one by one: in the order in which they were started if connections
/// were closed, and in the order in which they exit otherwise.
pub open spec fn collect(point: Stage, count: nat) -> Seq<Stage> {
    Seq::new(
        count,
        |i: int|
            if point is CloseServers {
                Stage::JoinServer(i as usize)
            } else {
                Stage::CollectServer
            },
    )
}

/// A stage that is only performed under a condition.
pub open spec fn only_if(condition: bool, stage: Stage) -> Seq<Stage> {
    if condition {
        seq![stage]
    } else {
        Seq::empty()
    }
}

/// Background service tasks that are not running yet.
pub open spec fn prepare(signal_handler: bool, service_watchdog: bool) -> Seq<Stage> {
    only_if(!signal_handler, Stage::SpawnSignalHandler) + only_if(
        !service_watchdog,
        Stage::SpawnWatchdog,
    )
}

/// Both shutdown stages of the participants that came first in registration order.
pub open spec fn unwind(count: nat) -> Seq<Stage> {
    pre_drain(count) + post_drain(count)
}

/// What is done when a stage of startup fails, out of `count` participants.
pub open spec fn recovery(stage: Stage, count: nat) -> Option<Seq<Stage>> {
    match stage {
        Stage::SpawnSignalHandler => Some(seq![Stage::ReportFailure]),
        Stage::PreListen(started) => Some(unwind(started as nat)),
        Stage::Listen(_) => Some(seq![Stage::ReportFailure] + unwind(count)),
        Stage::PostListen(_) => Some(
            seq![Stage::AnnounceShutdown, Stage::AbortServers] + unwind(count),
        ),
        _ => None,
    }
}

/// Shutdown around a point where servers stop, with `tasks` server tasks to wait for.
pub open spec fn stop_around(point: Stage, count: nat, tasks: nat) -> Seq<Stage> {
    seq![Stage::AnnounceShutdown] + pre_drain(count) + seq![point] + collect(point, tasks) + post_drain(
        count,
    )
}

/// Mathematical model of [`Handle`].
#[verifier::ext_equal]
pub struct HandleState<P> {
    /// Cancellation token for auxillary tasks.
    pub token: CancellationToken,
    /// Token used to request orchestrated graceful shutdown.
    pub shutdown_trigger: CancellationToken,
    /// Registered lifecycle participants.
    pub participants: Seq<P>,
    /// Application name.
    pub app_name: Option<Seq<char>>,
    /// Application version.
    pub app_version: Option<Seq<char>>,
    /// Signal handler task is running.
    pub signal_handler: bool,
    /// Service supervisor notification task is running.
    pub service_watchdog: bool,
    /// Servers of the current startup.
    pub servers: Seq<ServerKind>,
    /// Server tasks that were started, and were not waited for yet.
    pub server_tasks: Seq<ServerKind>,
    /// Server tasks were already waited for, or aborted.
    pub consumed: bool,
    /// Number of server tasks taken over by the current run.
    pub awaited: nat,
    /// Time that servers have to finish requests in progress.
    pub graceful: Option<Duration>,
    /// Stages of the current run.
    pub script: Seq<Stage>,
    /// Index of the current stage.
    pub position: nat,
    /// Wait for shutdown once the current run is through.
    pub wait_next: bool,
    /// Error of the current run, if there was one so far.
    pub error: Option<HandleError>,
}

impl<P> HandleState<P> {
    /// State of a new handle, without participants or running tasks.
    pub open spec fn initial(
        token: CancellationToken,
        shutdown_trigger: CancellationToken,
        app_name: Option<Seq<char>>,
        app_version: Option<Seq<char>>,
    ) -> Self {
        HandleState {
            token,
            shutdown_trigger,
            participants: Seq::empty(),
            app_name,
            app_version,
            signal_handler: false,
            service_watchdog: false,
            servers: Seq::empty(),
            server_tasks: Seq::empty(),
            consumed: false,
            awaited: 0,
            graceful: None,
            script: Seq::empty(),
            position: 0,
            wait_next: false,
            error: None,
        }
    }

    /// The current stage is within the script, and stages refer to what exists.
    pub open spec fn wf(self) -> bool {
        &&& self.position <= self.script.len()
        &&& self.consumed ==> self.server_tasks.len() == 0
        &&& self.participants.len() <= usize::MAX
        &&& self.servers.len() <= usize::MAX
        &&& self.fits(self.script)
    }

    /// Stages refer to what exists.
    pub open spec fn fits(self, script: Seq<Stage>) -> bool {
        forall|i: int|
            0 <= i < script.len() ==> match #[trigger] script[i] {
                Stage::Listen(server) => server < self.servers.len(),
                Stage::AwaitShutdown => self.awaited > 0,
                _ => true,
            }
    }

    /// Nothing is left to perform.
    pub open spec fn cleared(self) -> Self {
        HandleState { script: Seq::empty(), position: 0, ..self }
    }

    /// Stage to perform, unless the run is through.
    pub open spec fn current(self) -> Option<Stage> {
        if self.position < self.script.len() {
            Some(self.script[self.position as int])
        } else {
            None
        }
    }

    /// Stages of a startup.
    pub open spec fn start_script(self, servers: Seq<ServerKind>) -> Seq<Stage> {
        prepare(self.signal_handler, self.service_watchdog) + pre_listen(self.participants.len())
            + listen(servers) + post_listen(self.participants.len()) + seq![Stage::AnnounceReady]
    }

    /// A run of these stages is about to begin.
    pub open spec fn beginning(self, script: Seq<Stage>, error: Option<HandleError>) -> Self {
        HandleState { script, position: 0, wait_next: false, error, ..self }
    }

    /// Startup is about to begin.
    pub open spec fn starting(self, servers: Seq<ServerKind>) -> Self {
        HandleState {
            servers,
            consumed: false,
            ..self.beginning(self.start_script(servers), None)
        }
    }

    /// Startup, to be followed by waiting for shutdown, is about to begin.
    pub open spec fn running(self, servers: Seq<ServerKind>, graceful: Option<Duration>) -> Self {
        HandleState { wait_next: true, graceful, ..self.starting(servers) }
    }

    /// Server tasks, if there are any, are taken over by the current run.
    pub open spec fn taking_tasks(self) -> Self {
        HandleState {
            server_tasks: Seq::empty(),
            consumed: self.consumed || self.server_tasks.len() > 0,
            awaited: self.server_tasks.len(),
            ..self
        }
    }

    /// Waiting for shutdown, after some other stages, is about to begin.
    pub open spec fn waiting(self, first: Seq<Stage>) -> Self {
        if self.server_tasks.len() == 0 {
            self.beginning(first, Some(HandleError::NotRunning))
        } else {
            self.taking_tasks().beginning(first + seq![Stage::AwaitShutdown], None)
        }
    }

    /// Immediate shutdown is about to begin.
    pub open spec fn shutting_down(self) -> Self {
        if self.consumed {
            self.beginning(Seq::empty(), None)
        } else {
            self.taking_tasks().beginning(
                seq![Stage::CancelTrigger] + stop_around(
                    Stage::CloseServers,
                    self.participants.len(),
                    self.server_tasks.len(),
                ),
                None,
            )
        }
    }

    /// Abort of server tasks is about to begin.
    pub open spec fn aborting(self) -> Self {
        self.taking_tasks().beginning(seq![Stage::AnnounceShutdown, Stage::AbortServers], None)
    }

    /// The current stage is over, and the next one follows.
    pub open spec fn stepped(self) -> Self {
        HandleState { position: self.position + 1, ..self }
    }

    /// Stages that are left once shutdown was requested, or a server task has exited.
    pub open spec fn drain_script(self, exited: bool) -> Seq<Stage> {
        let tasks = if exited {
            (self.awaited - 1) as nat
        } else {
            self.awaited
        };
        only_if(exited, Stage::CancelTrigger) + stop_around(
            Stage::DrainServers(self.graceful),
            self.participants.len(),
            tasks,
        )
    }

    /// The current stage is over, before it is looked at what comes after the run.
    pub open spec fn advanced(self, outcome: Outcome) -> Self
        recommends
            self.current() is Some,
    {
        let stage = self.script[self.position as int];
        match (stage, outcome) {
            (Stage::AwaitShutdown, _) => self.beginning(
                self.drain_script(!(outcome is ShutdownRequested)),
                outcome.error(),
            ),
            (Stage::CollectServer, _) | (Stage::JoinServer(_), _) => HandleState {
                error: if self.error is None {
                    outcome.error()
                } else {
                    self.error
                },
                ..self.stepped()
            },
            (_, Outcome::Failed(err)) => match recovery(stage, self.participants.len()) {
                Some(script) => {
                    let left = if stage is PostListen {
                        self.taking_tasks()
                    } else {
                        self
                    };
                    left.beginning(script, Some(err))
                },
                None => self.stepped(),
            },
            (Stage::SpawnSignalHandler, _) => HandleState {
                signal_handler: true,
                ..self.stepped()
            },
            (Stage::SpawnWatchdog, _) => HandleState { service_watchdog: true, ..self.stepped() },
            (Stage::Listen(server), _) => HandleState {
                server_tasks: self.server_tasks.push(self.servers[server as int]),
                consumed: false,
                ..self.stepped()
            },
            _ => self.stepped(),
        }
    }

    /// When the run is through, go on to waiting for shutdown if that was asked for.
    pub open spec fn settled(self) -> Self {
        if self.current() is None && self.wait_next && self.error is None {
            self.waiting(Seq::empty())
        } else {
            self
        }
    }

    /// State after the current stage went this way.
    pub open spec fn after(self, outcome: Outcome) -> Self {
        if self.current() is Some {
            self.advanced(outcome).settled()
        } else {
            self
        }
    }
}

/// Handle for starting and controlling the server.
///
/// Participants are of any type by which the owner of the handle finds them again.
#[non_exhaustive]
pub struct Handle<P> {
    /// Cancellation token for auxillary tasks.
    token: CancellationToken,
    /// Token used to request orchestrated graceful shutdown.
    shutdown_trigger: CancellationToken,
    /// Registered lifecycle participants.
    participants: Vec<P>,
    /// Application name, passed to lifecycle participants.
    app_name: Option<String>,
    /// Application version, passed to lifecycle participants.
    app_version: Option<String>,
    /// Signal handler task is running.
    signal_handler: bool,
    /// Service supervisor notification task is running.
    service_watchdog: bool,
    /// Servers of the current startup.
    servers: Vec<ServerKind>,
    /// Started server tasks.
    server_tasks: Vec<ServerKind>,
    /// Server tasks were already waited for, or aborted.
    consumed: bool,
    /// Number of server tasks taken over by the current run.
    awaited: usize,
    /// Time that servers have to finish requests in progress.
    graceful: Option<Duration>,
    /// Stages of the current run.
    script: Vec<Stage>,
    /// Index of the current stage.
    position: usize,
    /// Wait for shutdown once the current run is through.
    wait_next: bool,
    /// Error of the current run, if there was one so far.
    error: Option<HandleError>,
}

impl<P> View for Handle<P> {
    type V = HandleState<P>;

    closed spec fn view(&self) -> HandleState<P> {
        HandleState {
            token: self.token,
            shutdown_trigger: self.shutdown_trigger,
            participants: self.participants@,
            app_name: opt_text(self.app_name),
            app_version: opt_text(self.app_version),
            signal_handler: self.signal_handler,
            service_watchdog: self.service_watchdog,
            servers: self.servers@,
            server_tasks: self.server_tasks@,
            consumed: self.consumed,
            awaited: self.awaited as nat,
            graceful: self.graceful,
            script: self.script@,
            position: self.position as nat,
            wait_next: self.wait_next,
            error: self.error,
        }
    }
}

/// Append a stage that is only performed under a condition.
fn push_if(script: &mut Vec<Stage>, condition: bool, stage: Stage)
    ensures
        final(script)@ == old(script)@ + only_if(condition, stage),
{
    if condition {
        script.push(stage);
    }
}

/// Append pre-listen stages of participants.
fn push_pre_listen(script: &mut Vec<Stage>, count: usize)
    ensures
        final(script)@ == old(script)@ + pre_listen(count as nat),
{
    for i in 0..count
        invariant
            script@ == old(script)@ + pre_listen(i as nat),
    {
        script.push(Stage::PreListen(i));
    }
}

/// Append listen stages of servers.
fn push_listen(script: &mut Vec<Stage>, servers: &Vec<ServerKind>)
    ensures
        final(script)@ == old(script)@ + listen(servers@),
{
    for i in 0..servers.len()
        invariant
            script@ == old(script)@ + listen(servers@.take(i as int)),
    {
        proof {
            let done = servers@.take(i as int + 1);
            assert(done.drop_last() == servers@.take(i as int));
            assert(done.last() == servers@[i as int]);
        }
        push_if(script, servers[i].needs_crypto_provider(), Stage::EnsureCryptoProvider);
        script.push(Stage::Listen(i));
    }
    proof {
        assert(servers@.take(servers@.len() as int) == servers@);
    }
}

/// Append post-listen stages of participants.
fn push_post_listen(script: &mut Vec<Stage>, count: usize)
    ensures
        final(script)@ == old(script)@ + post_listen(count as nat),
{
    for i in 0..count
        invariant
            script@ == old(script)@ + post_listen(i as nat),
    {
        script.push(Stage::PostListen(i));
    }
}

/// Append pre-drain stages of participants.
fn push_pre_drain(script: &mut Vec<Stage>, count: usize)
    ensures
        final(script)@ == old(script)@ + pre_drain(count as nat),
{
    for i in 0..count
        invariant
            script@ == old(script)@ + pre_drain(count as nat).take(i as int),
    {
        script.push(Stage::PreDrain(count - 1 - i));
    }
}

/// Append post-drain stages of participants.
fn push_post_drain(script: &mut Vec<Stage>, count: usize)
    ensures
        final(script)@ == old(script)@ + post_drain(count as nat),
{
    for i in 0..count
        invariant
            script@ == old(script)@ + post_drain(count as nat).take(i as int),
    {
        script.push(Stage::PostDrain(count - 1 - i));
    }
}

/// Append stages that wait for server tasks.
fn push_collect(script: &mut Vec<Stage>, point: Stage, count: usize)
    ensures
        final(script)@ == old(script)@ + collect(point, count as nat),
{
    for i in 0..count
        invariant
            script@ == old(script)@ + collect(point, i as nat),
    {
        script.push(
            match point {
                Stage::CloseServers => Stage::JoinServer(i),
                _ => Stage::CollectServer,
            },
        );
    }
}

/// Append shutdown around a point where servers stop.
fn push_stop_around(script: &mut Vec<Stage>, point: Stage, count: usize, tasks: usize)
    ensures
        final(script)@ == old(script)@ + stop_around(point, count as nat, tasks as nat),
{
    script.push(Stage::AnnounceShutdown);
    push_pre_drain(script, count);
    script.push(point);
    push_collect(script, point, tasks);
    push_post_drain(script, count);
}

/// Stages to perform when a stage of startup fails.
fn recovery_script(stage: Stage, count: usize) -> (script: Option<Vec<Stage>>)
    ensures
        script is Some <==> recovery(stage, count as nat) is Some,
        script is Some ==> script->0@ == recovery(stage, count as nat)->0,
{
    let mut script: Vec<Stage> = Vec::new();
    let started: usize = match stage {
        Stage::SpawnSignalHandler => {
            script.push(Stage::ReportFailure);
            return Some(script);
        },
        Stage::PreListen(started) => started,
        Stage::Listen(_) => {
            script.push(Stage::ReportFailure);
            count
        },
        Stage::PostListen(_) => {
            script.push(Stage::AnnounceShutdown);
            script.push(Stage::AbortServers);
            count
        },
        _ => return None,
    };
    push_pre_drain(&mut script, started);
    push_post_drain(&mut script, started);
    Some(script)
}

impl<P> Handle<P> {
    /// The current stage is within the script, and stages refer to what exists.
    #[verifier::type_invariant]
    spec fn inv(self) -> bool {
        self@.wf()
    }

    /// Create a handle, without participants or running tasks.
    #[must_use]
    pub fn new(
        token: CancellationToken,
        shutdown_trigger: CancellationToken,
        app_name: Option<String>,
        app_version: Option<String>,
    ) -> (handle: Self)
        ensures
            handle@ == HandleState::<P>::initial(
                token,
                shutdown_trigger,
                opt_text(app_name),
                opt_text(app_version),
            ),
            handle@.wf(),
    {
        Handle {
            token,
            shutdown_trigger,
            participants: Vec::new(),
            app_name,
            app_version,
            signal_handler: false,
            service_watchdog: false,
            servers: Vec::new(),
            server_tasks: Vec::new(),
            consumed: false,
            awaited: 0,
            graceful: None,
            script: Vec::new(),
            position: 0,
            wait_next: false,
            error: None,
        }
    }

    /// Register a lifecycle participant.
    ///
    /// Must be called before [`Self::start`] or [`Self::run`]. Participants start
    /// in registration order and shut down in reverse registration order.
    pub fn register(&mut self, participant: P) -> (res: &mut Self)
        ensures
            res@ == (HandleState {
                participants: old(self)@.participants.push(participant),
                ..old(self)@
            }),
            res@.wf(),
            *final(self) == *final(res),
    {
        proof {
            use_type_invariant(&*self);
        }
        let mut participants: Vec<P> = Vec::new();
        std::mem::swap(&mut participants, &mut self.participants);
        participants.push(participant);
        assert(participants@.len() == participants.len());
        self.participants = participants;
        self
    }

    /// Registered participant, by its index.
    #[must_use]
    pub fn participant(&self, index: usize) -> (res: Option<&P>)
        ensures
            index < self@.participants.len() ==> res == Some(&self@.participants[index as int]),
            index >= self@.participants.len() ==> res is None,
    {
        if index < self.participants.len() {
            Some(&self.participants[index])
        } else {
            None
        }
    }

    /// Cancellation token for auxillary tasks.
    #[must_use]
    pub fn token(&self) -> (token: CancellationToken)
        ensures
            token == self@.token,
    {
        self.token.clone()
    }

    /// Token that, when cancelled, initiates orchestrated graceful shutdown.
    #[must_use]
    pub fn shutdown_trigger(&self) -> (token: CancellationToken)
        ensures
            token == self@.shutdown_trigger,
    {
        self.shutdown_trigger.clone()
    }

    /// Create the context passed to lifecycle participants.
    #[must_use]
    pub fn lifecycle_context(&self) -> (ctx: LifecycleContext)
        ensures
            ctx@ == (ContextView {
                root_token: self@.token,
                shutdown_trigger: self@.shutdown_trigger,
                app_name: self@.app_name,
                app_version: self@.app_version,
            }),
    {
        let mut ctx = LifecycleContext::new(self.token.clone(), self.shutdown_trigger.clone());
        if let Some(name) = &self.app_name {
            ctx = ctx.with_app_name(name);
        }
        if let Some(version) = &self.app_version {
            ctx = ctx.with_app_version(version);
        }
        ctx
    }

    /// Stage to perform, unless the run is through.
    #[must_use]
    pub fn current(&self) -> (stage: Option<Stage>)
        ensures
            stage == self@.current(),
            self@.wf(),
    {
        proof {
            use_type_invariant(self);
        }
        if self.position < self.script.len() {
            Some(self.script[self.position])
        } else {
            None
        }
    }

    /// Text of the error that the current run has ended up with, if any.
    #[must_use]
    pub fn failure(&self) -> (status: Option<String>)
        ensures
            opt_text(status) == match self@.error {
                None => None,
                Some(err) => Some(err.text()),
            },
    {
        match &self.error {
            None => None,
            Some(err) => Some(err.message()),
        }
    }

    /// Drop stages that are left.
    fn clear(&mut self)
        ensures
            final(self)@ == old(self)@.cleared(),
    {
        proof {
            use_type_invariant(&*self);
        }
        self.position = 0;
        self.script = Vec::new();
    }

    /// Begin a run of stages.
    fn begin(&mut self, script: Vec<Stage>, error: Option<HandleError>)
        requires
            old(self)@.fits(script@),
        ensures
            final(self)@ == old(self)@.beginning(script@, error),
    {
        proof {
            use_type_invariant(&*self);
        }
        self.position = 0;
        self.script = script;
        self.wait_next = false;
        self.error = error;
    }

    /// Take over server tasks, once there are no stages left.
    fn take_tasks(&mut self)
        requires
            old(self)@.script.len() == 0,
        ensures
            final(self)@ == old(self)@.taking_tasks(),
    {
        proof {
            use_type_invariant(&*self);
        }
        self.awaited = self.server_tasks.len();
        if self.awaited > 0 {
            self.server_tasks = Vec::new();
            self.consumed = true;
        }
    }

    /// Begin to wait for shutdown, after some other stages.
    fn begin_wait(&mut self, first: Vec<Stage>)
        requires
            old(self)@.fits(first@),
            forall|i: int| 0 <= i < first@.len() ==> !(#[trigger] first@[i] is AwaitShutdown),
        ensures
            final(self)@ == old(self)@.waiting(first@),
    {
        if self.server_tasks.len() == 0 {
            self.begin(first, Some(HandleError::NotRunning));
        } else {
            let mut script = first;
            script.push(Stage::AwaitShutdown);
            self.clear();
            self.take_tasks();
            self.begin(script, None);
        }
    }

    /// Start the server in the background, running lifecycle participants around the listen point.
    ///
    /// Participants are started in registration order before the server begins listening
    /// ([`Stage::PreListen`]), and again after it is accepting connections
    /// ([`Stage::PostListen`]). On failure, already-started participants are unwound via both
    /// shutdown stages.
    ///
    /// The stages are performed by the caller, starting from the returned one, and reported to
    /// [`Self::advance`].
    pub fn start(&mut self, servers: Vec<ServerKind>) -> (stage: Option<Stage>)
        ensures
            final(self)@ == old(self)@.starting(servers@),
            final(self)@.wf(),
            stage == final(self)@.current(),
    {
        proof {
            use_type_invariant(&*self);
        }
        let count: usize = self.participants.len();
        let mut script: Vec<Stage> = Vec::new();
        push_if(&mut script, !self.signal_handler, Stage::SpawnSignalHandler);
        push_if(&mut script, !self.service_watchdog, Stage::SpawnWatchdog);
        push_pre_listen(&mut script, count);
        push_listen(&mut script, &servers);
        push_post_listen(&mut script, count);
        script.push(Stage::AnnounceReady);
        proof {
            assert(script@ == self@.start_script(servers@));
            assert(servers@.len() == servers.len());
            lemma_starting_wf(self@, servers@);
        }
        self.clear();
        self.servers = servers;
        self.consumed = false;
        self.begin(script, None);
        self.current()
    }

    /// Start the server and wait until one of the server tasks exits or shutdown is
    /// requested. Runs all lifecycle shutdown stages around the HTTP server drain.
    ///
    /// The stages are performed by the caller, starting from the returned one, and reported to
    /// [`Self::advance`].
    pub fn run(&mut self, servers: Vec<ServerKind>, graceful: Option<Duration>) -> (stage: Option<
        Stage,
    >)
        ensures
            final(self)@ == old(self)@.running(servers@, graceful),
            final(self)@.wf(),
            stage == final(self)@.current(),
    {
        let stage = self.start(servers);
        proof {
            use_type_invariant(&*self);
        }
        self.wait_next = true;
        self.graceful = graceful;
        stage
    }

    /// Wait until shutdown is requested or a server task exits, then run the
    /// orchestrated shutdown sequence (pre-drain hooks → HTTP drain → post-drain hooks).
    ///
    /// The stages are performed by the caller, starting from the returned one, and reported to
    /// [`Self::advance`].
    pub fn wait(&mut self, graceful: Option<Duration>) -> (stage: Option<Stage>)
        ensures
            final(self)@ == (HandleState { graceful, ..old(self)@ }).waiting(Seq::empty()),
            final(self)@.wf(),
            stage == final(self)@.current(),
    {
        proof {
            use_type_invariant(&*self);
        }
        self.graceful = graceful;
        self.begin_wait(Vec::new());
        self.current()
    }

    /// Gracefully shutdown the server, waiting for in-progress requests to finish.
    ///
    /// Triggers orchestrated shutdown: pre-drain lifecycle hooks run, then the HTTP
    /// server drains, then post-drain lifecycle hooks run.
    ///
    /// The stages are performed by the caller, starting from the returned one, and reported to
    /// [`Self::advance`].
    pub fn graceful_shutdown(&mut self, graceful: Option<Duration>) -> (stage: Option<Stage>)
        ensures
            final(self)@ == (HandleState { graceful, ..old(self)@ }).waiting(
                seq![Stage::CancelTrigger],
            ),
            final(self)@.wf(),
            stage == final(self)@.current(),
    {
        proof {
            use_type_invariant(&*self);
        }
        self.graceful = graceful;
        let mut first: Vec<Stage> = Vec::new();
        first.push(Stage::CancelTrigger);
        self.begin_wait(first);
        self.current()
    }

    /// Immediately shutdown the server.
    ///
    /// Calling this after the server tasks have already been consumed (e.g. after [`Self::wait`]
    /// is through) is a no-op.
    ///
    /// The stages are performed by the caller, starting from the returned one, and reported to
    /// [`Self::advance`].
    pub fn shutdown(&mut self) -> (stage: Option<Stage>)
        ensures
            final(self)@ == old(self)@.shutting_down(),
            final(self)@.wf(),
            stage == final(self)@.current(),
    {
        let mut script: Vec<Stage> = Vec::new();
        if !self.consumed {
            script.push(Stage::CancelTrigger);
            push_stop_around(
                &mut script,
                Stage::CloseServers,
                self.participants.len(),
                self.server_tasks.len(),
            );
            self.clear();
            self.take_tasks();
        }
        self.begin(script, None);
        self.current()
    }

    /// Immediately abort execution of the server.
    ///
    /// Unlike [`Self::graceful_shutdown`] and [`Self::wait`], this does **not**
    /// run lifecycle participant shutdown stages. Use it only when orderly
    /// cleanup is impossible or undesirable.
    pub fn abort(&mut self) -> (stage: Option<Stage>)
        ensures
            final(self)@ == old(self)@.aborting(),
            final(self)@.wf(),
            stage == final(self)@.current(),
    {
        let mut script: Vec<Stage> = Vec::new();
        script.push(Stage::AnnounceShutdown);
        script.push(Stage::AbortServers);
        self.clear();
        self.take_tasks();
        self.begin(script, None);
        self.current()
    }

    /// Move on past a stage that has failed.
    fn fail(&mut self, stage: Stage, err: HandleError)
        requires
            old(self)@.current() == Some(stage),
            !(stage is AwaitShutdown),
            !(stage is CollectServer),
            !(stage is JoinServer),
        ensures
            final(self)@ == old(self)@.advanced(Outcome::Failed(err)),
    {
        proof {
            use_type_invariant(&*self);
            assert(self.script@.len() == self.script.len());
        }
        match recovery_script(stage, self.participants.len()) {
            Some(script) => {
                if let Stage::PostListen(_) = stage {
                    self.clear();
                    self.take_tasks();
                }
                self.begin(script, Some(err));
            },
            None => {
                self.position = self.position + 1;
            },
        }
    }

    /// Move on from waiting for shutdown.
    fn drain(&mut self, exited: bool, error: Option<HandleError>)
        requires
            old(self)@.awaited > 0,
        ensures
            final(self)@ == old(self)@.beginning(old(self)@.drain_script(exited), error),
    {
        let tasks: usize = if exited {
            self.awaited - 1
        } else {
            self.awaited
        };
        let mut script: Vec<Stage> = Vec::new();
        push_if(&mut script, exited, Stage::CancelTrigger);
        push_stop_around(
            &mut script,
            Stage::DrainServers(self.graceful),
            self.participants.len(),
            tasks,
        );
        self.begin(script, error);
    }

    /// Move on past a stage that is done.
    fn pass(&mut self, stage: Stage)
        requires
            old(self)@.current() == Some(stage),
            !(stage is AwaitShutdown),
            !(stage is CollectServer),
            !(stage is JoinServer),
        ensures
            final(self)@ == old(self)@.advanced(Outcome::Done),
    {
        proof {
            use_type_invariant(&*self);
            assert(self.script@.len() == self.script.len());
        }
        match stage {
            Stage::SpawnSignalHandler => {
                self.signal_handler = true;
            },
            Stage::SpawnWatchdog => {
                self.service_watchdog = true;
            },
            Stage::Listen(server) => {
                let kind = self.servers[server];
                let mut server_tasks: Vec<ServerKind> = Vec::new();
                std::mem::swap(&mut server_tasks, &mut self.server_tasks);
                server_tasks.push(kind);
                self.consumed = false;
                self.server_tasks = server_tasks;
            },
            _ => {},
        }
        self.position = self.position + 1;
    }

    /// Report how the current stage went, and get the next one.
    ///
    /// Errors of shutdown stages do not interrupt the sequence.
    pub fn advance(&mut self, outcome: Outcome) -> (stage: Option<Stage>)
        ensures
            final(self)@ == old(self)@.after(outcome),
            final(self)@.wf(),
            stage == final(self)@.current(),
    {
        let stage: Stage = match self.current() {
            Some(stage) => stage,
            None => return None,
        };
        proof {
            use_type_invariant(&*self);
            assert(self.script@.len() == self.script.len());
            lemma_after_wf(self@, outcome);
        }
        match (stage, outcome) {
            (Stage::AwaitShutdown, Outcome::ShutdownRequested) => self.drain(false, None),
            (Stage::AwaitShutdown, Outcome::Done) => self.drain(true, None),
            (Stage::AwaitShutdown, Outcome::Failed(err)) => self.drain(true, Some(err)),
            (Stage::CollectServer, outcome) | (Stage::JoinServer(_), outcome) => {
                if self.error.is_none() {
                    self.error = match outcome {
                        Outcome::Failed(err) => Some(err),
                        _ => None,
                    };
                }
                self.position = self.position + 1;
            },
            (_, Outcome::Failed(err)) => self.fail(stage, err),
            _ => self.pass(stage),
        }
        if self.position >= self.script.len() && self.wait_next && self.error.is_none() {
            self.begin_wait(Vec::new());
        }
        self.current()
    }

    /// Take the result of a run that is through.
    ///
    /// While there are stages left to perform, there is no result.
    pub fn finish(&mut self) -> (res: Option<Result<(), HandleError>>)
        ensures
            old(self)@.current() is Some ==> res is None && final(self)@ == old(self)@,
            old(self)@.current() is None ==> final(self)@ == (HandleState {
                error: None,
                ..old(self)@
            }) && match old(self)@.error {
                Some(err) => res == Some(Err::<(), HandleError>(err)),
                None => res is Some && res->0 is Ok,
            },
            final(self)@.wf(),
    {
        proof {
            use_type_invariant(&*self);
        }
        if self.position < self.script.len() {
            return None;
        }
        let mut error: Option<HandleError> = None;
        std::mem::swap(&mut error, &mut self.error);
        match error {
            Some(err) => Some(Err(err)),
            None => Some(Ok(())),
        }
    }
}

/// One step of setting up logging, tracing and metrics, in front of everything else.
#[derive(Clone, Copy, Debug, PartialEq, Eq, Structural)]
pub enum SetupStage {
    /// Make a registry of log outputs.
    MakeRegistry,
    /// Build trace collection.
    BuildTracing,
    /// Install the registry together with trace collection.
    InstallWithTracing,
    /// Install trace propagation.
    InstallPropagator,
    /// Install the registry alone.
    InstallRegistry,
    /// Build metrics collection.
    BuildMetrics,
    /// Spawn the task that gathers runtime metrics.
    SpawnRuntimeMetrics,
    /// Keep metrics state in the configuration, and install metrics collection.
    InstallMetrics,
}

impl SetupStage {
    /// Error of the stage, if it has failed. Installing the registry fails when another one is
    /// installed already. The other stages that come after building do not fail.
    pub open spec fn error_of(self, failure: Option<String>) -> Option<HandleError> {
        match (self, failure) {
            (SetupStage::MakeRegistry, Some(err))
            | (SetupStage::InstallRegistry, Some(err))
            | (SetupStage::InstallWithTracing, Some(err)) => Some(HandleError::Logging(err)),
            (SetupStage::BuildTracing, Some(err)) => Some(HandleError::Tracing(err)),
            (SetupStage::BuildMetrics, Some(err)) => Some(HandleError::Metrics(err)),
            _ => None,
        }
    }

    /// Error of the stage, if it has failed.
    fn error(self, failure: Option<String>) -> (res: Option<HandleError>)
        ensures
            res == self.error_of(failure),
    {
        match (self, failure) {
            (SetupStage::MakeRegistry, Some(err))
            | (SetupStage::InstallRegistry, Some(err))
            | (SetupStage::InstallWithTracing, Some(err)) => Some(HandleError::Logging(err)),
            (SetupStage::BuildTracing, Some(err)) => Some(HandleError::Tracing(err)),
            (SetupStage::BuildMetrics, Some(err)) => Some(HandleError::Metrics(err)),
            _ => None,
        }
    }
}

/// Stages of setting up logging, tracing and metrics, in order.
pub open spec fn setup_stages(tracing: bool, metrics: bool) -> Seq<SetupStage> {
    seq![SetupStage::MakeRegistry] + if tracing {
        seq![
            SetupStage::BuildTracing,
            SetupStage::InstallWithTracing,
            SetupStage::InstallPropagator,
        ]
    } else {
        seq![SetupStage::InstallRegistry]
    } + if metrics {
        seq![
            SetupStage::BuildMetrics,
            SetupStage::SpawnRuntimeMetrics,
            SetupStage::InstallMetrics,
        ]
    } else {
        Seq::empty()
    }
}

/// Mathematical model of [`Setup`].
#[verifier::ext_equal]
pub struct SetupState {
    /// Stages, in order.
    pub stages: Seq<SetupStage>,
    /// Number of stages that are done.
    pub position: nat,
    /// Error of the stage that has failed, if any.
    pub error: Option<HandleError>,
}

impl SetupState {
    /// Stage to perform. There is none after the last one, or after one that has failed.
    pub open spec fn current(self) -> Option<SetupStage> {
        if self.error is None && self.position < self.stages.len() {
            Some(self.stages[self.position as int])
        } else {
            None
        }
    }

    /// State after the current stage went this way.
    pub open spec fn after(self, failure: Option<String>) -> SetupState {
        match self.current() {
            Some(stage) => match stage.error_of(failure) {
                Some(err) => SetupState { error: Some(err), ..self },
                None => SetupState { position: self.position + 1, ..self },
            },
            None => self,
        }
    }

    /// State after several stages, which did not fail.
    pub open spec fn after_done(self, count: nat) -> SetupState
        decreases count,
    {
        if count == 0 {
            self
        } else {
            self.after_done((count - 1) as nat).after(None)
        }
    }
}

/// Setting up logging, tracing and metrics, stage by stage.
pub struct Setup {
    /// Stages, in order.
    stages: Vec<SetupStage>,
    /// Number of stages that are done.
    position: usize,
    /// Error of the stage that has failed, if any.
    error: Option<HandleError>,
}

impl View for Setup {
    type V = SetupState;

    closed spec fn view(&self) -> SetupState {
        SetupState {
            stages: self.stages@,
            position: self.position as nat,
            error: self.error,
        }
    }
}

impl Setup {
    /// Stage to perform. There is none after the last one, or after one that has failed.
    #[must_use]
    pub fn current(&self) -> (stage: Option<SetupStage>)
        ensures
            stage == self@.current(),
    {
        if self.error.is_none() && self.position < self.stages.len() {
            Some(self.stages[self.position])
        } else {
            None
        }
    }

    /// Report how the current stage went, and get the next one.
    pub fn advance(&mut self, failure: Option<String>) -> (stage: Option<SetupStage>)
        ensures
            final(self)@ == old(self)@.after(failure),
            stage == final(self)@.current(),
    {
        if let Some(stage) = self.current() {
            assert(self.stages@.len() == self.stages.len());
            match stage.error(failure) {
                Some(err) => {
                    self.error = Some(err);
                },
                None => {
                    self.position = self.position + 1;
                },
            }
        }
        self.current()
    }
}

impl<C> AppConfig<C> {
    /// Begin to set up logging, tracing and metrics.
    ///
    /// The stages are performed by the caller, and reported to [`Setup::advance`].
    #[must_use]
    pub fn setup(&self) -> (setup: Setup)
        ensures
            setup@ == (SetupState {
                stages: setup_stages(self.tracing, self.metrics),
                position: 0,
                error: None,
            }),
    {
        let mut stages: Vec<SetupStage> = Vec::new();
        stages.push(SetupStage::MakeRegistry);
        if self.tracing {
            stages.push(SetupStage::BuildTracing);
            stages.push(SetupStage::InstallWithTracing);
            stages.push(SetupStage::InstallPropagator);
        } else {
            stages.push(SetupStage::InstallRegistry);
        }
        if self.metrics {
            stages.push(SetupStage::BuildMetrics);
            stages.push(SetupStage::SpawnRuntimeMetrics);
            stages.push(SetupStage::InstallMetrics);
        }
        Setup { stages, position: 0, error: None }
    }

    /// Create application control handle, once logging, tracing and metrics of this configuration
    /// were set up.
    ///
    /// You can start, stop, control and monitor application with this handle. Metrics state is
    /// kept in the configuration if there is one.
    ///
    /// # Errors
    ///
    /// Returns `Err` if a stage of the setup has failed.
    pub fn handle<P>(&mut self, setup: Setup, token: CancellationToken) -> (res: Result<
        Handle<P>,
        HandleError,
    >)
        requires
            setup@.current() is None,
            setup@.stages == setup_stages(old(self).tracing, old(self).metrics),
        ensures
            match setup@.error {
                Some(err) => {
                    &&& res == Err::<Handle<P>, HandleError>(err)
                    &&& *final(self) == *old(self)
                },
                None => {
                    &&& res is Ok
                    &&& res->Ok_0@ == HandleState::<P>::initial(
                        token,
                        res->Ok_0@.shutdown_trigger,
                        opt_text(old(self).app_name),
                        opt_text(old(self).app_version),
                    )
                    &&& call_ensures(CancellationToken::new, (), res->Ok_0@.shutdown_trigger)
                    &&& res->Ok_0@.wf()
                    &&& *final(self) == (AppConfig {
                        metrics_state: old(self).metrics_state || old(self).metrics,
                        ..*old(self)
                    })
                },
            },
    {
        if let Some(err) = setup.error {
            return Err(err);
        }
        if self.metrics {
            self.metrics_state = true;
        }
        Ok(
            Handle::new(
                token,
                CancellationToken::new(),
                copied(&self.app_name),
                copied(&self.app_version),
            ),
        )
    }
}

/// One step of tearing a handle down.
#[derive(Clone, Copy, Debug, PartialEq, Eq, Structural)]
pub enum TeardownStage {
    /// Cancel the token that requests shutdown.
    CancelTrigger,
    /// Cancel the token of auxillary tasks.
    CancelToken,
    /// Flush metrics.
    FlushMetrics,
    /// Shut down metrics collection.
    ShutdownMetrics,
    /// Flush spans.
    FlushSpans,
    /// Shut down trace collection.
    ShutdownTracing,
}

impl TeardownStage {
    /// Text that is written to stderr about a stage that has failed.
    pub open spec fn alert_text(self, err: Seq<char>) -> Option<Seq<char>> {
        match self {
            TeardownStage::CancelTrigger | TeardownStage::CancelToken => None,
            TeardownStage::FlushMetrics => Some("Error flushing metrics: "@ + err),
            TeardownStage::ShutdownMetrics => Some(
                "Error shutting down OTel metrics provider: "@ + err,
            ),
            TeardownStage::FlushSpans => Some("Error flushing spans: "@ + err),
            TeardownStage::ShutdownTracing => Some(
                "Error shutting down OTel tracing provider: "@ + err,
            ),
        }
    }

    /// Text to write to stderr about a stage that has failed.
    #[must_use]
    pub fn alert(&self, err: &str) -> (res: Option<String>)
        ensures
            opt_text(res) == self.alert_text(err@),
    {
        match self {
            TeardownStage::CancelTrigger | TeardownStage::CancelToken => None,
            TeardownStage::FlushMetrics => Some(joined("Error flushing metrics: ", err)),
            TeardownStage::ShutdownMetrics => Some(
                joined("Error shutting down OTel metrics provider: ", err),
            ),
            TeardownStage::FlushSpans => Some(joined("Error flushing spans: ", err)),
            TeardownStage::ShutdownTracing => Some(
                joined("Error shutting down OTel tracing provider: ", err),
            ),
        }
    }
}

/// Stages of tearing a handle down, in order. All of them are performed, whichever way they go.
#[must_use]
pub fn teardown(metrics: bool, tracing: bool) -> (stages: Vec<TeardownStage>)
    ensures
        stages@ == seq![TeardownStage::CancelTrigger, TeardownStage::CancelToken] + if metrics {
            seq![TeardownStage::FlushMetrics, TeardownStage::ShutdownMetrics]
        } else {
            Seq::empty()
        } + if tracing {
            seq![TeardownStage::FlushSpans, TeardownStage::ShutdownTracing]
        } else {
            Seq::empty()
        },
{
    let mut stages: Vec<TeardownStage> = Vec::new();
    stages.push(TeardownStage::CancelTrigger);
    stages.push(TeardownStage::CancelToken);
    if metrics {
        stages.push(TeardownStage::FlushMetrics);
        stages.push(TeardownStage::ShutdownMetrics);
    }
    if tracing {
        stages.push(TeardownStage::FlushSpans);
        stages.push(TeardownStage::ShutdownTracing);
    }
    stages
}

/// Listen stages only refer to servers that exist.
proof fn lemma_listen_bounded(servers: Seq<ServerKind>)
    requires
        servers.len() <= usize::MAX,
    ensures
        forall|i: int|
            0 <= i < listen(servers).len() ==> match #[trigger] listen(servers)[i] {
                Stage::Listen(server) => server < servers.len(),
                Stage::EnsureCryptoProvider => true,
                _ => false,
            },
    decreases servers.len(),
{
    if servers.len() > 0 {
        lemma_listen_bounded(servers.drop_last());
    }
}

/// Startup keeps the state well-formed.
proof fn lemma_starting_wf<P>(state: HandleState<P>, servers: Seq<ServerKind>)
    requires
        state.wf(),
        servers.len() <= usize::MAX,
    ensures
        state.starting(servers).wf(),
{
    lemma_listen_bounded(servers);
}

/// Performing a stage keeps the state well-formed.
proof fn lemma_after_wf<P>(state: HandleState<P>, outcome: Outcome)
    requires
        state.wf(),
    ensures
        state.after(outcome).wf(),
{
}

} // verus!
