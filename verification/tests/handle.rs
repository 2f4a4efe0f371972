use std::time::Duration;

use tokio_util::sync::CancellationToken;
use uxum::config::{AppConfig, HttpClients};
use uxum::handle::{
    on_signal, signal_error, teardown, Handle, HandleError, Outcome, ServerExit, ServerKind,
    Setup, SetupStage, SignalAction, SignalEvent, Stage, TeardownStage,
};
use uxum::lifecycle::LifecycleError;

fn new_handle(names: &[&'static str]) -> Handle<&'static str> {
    let mut handle =
        Handle::new(CancellationToken::new(), CancellationToken::new(), None, None);
    for name in names {
        handle.register(*name);
    }
    handle
}

/// Perform stages, failing those that `fail` picks, and return them together with the result.
fn perform(
    handle: &mut Handle<&'static str>,
    first: Option<Stage>,
    mut fail: impl FnMut(Stage) -> Outcome,
) -> (Vec<Stage>, Result<(), HandleError>) {
    let mut stages = Vec::new();
    let mut next = first;
    while let Some(stage) = next {
        stages.push(stage);
        next = handle.advance(fail(stage));
    }
    (stages, handle.finish().expect("run is not through"))
}

fn done(_stage: Stage) -> Outcome {
    Outcome::Done
}

/// Set logging, tracing and metrics up, failing stages that `fail` picks.
fn set_up(
    config: &AppConfig<u32>,
    fail: impl Fn(SetupStage) -> Option<String>,
) -> (Setup, Vec<SetupStage>) {
    let mut setup = config.setup();
    let mut stages = Vec::new();
    while let Some(stage) = setup.current() {
        stages.push(stage);
        setup.advance(fail(stage));
    }
    (setup, stages)
}

fn lifecycle_error(text: &str) -> HandleError {
    HandleError::Lifecycle(LifecycleError::start(text.to_string()))
}

#[test]
fn lifecycle_orchestration_order() {
    let mut events: Vec<String> = Vec::new();
    let mut handle = new_handle(&["a", "b"]);
    let mut next = handle.start(vec![ServerKind::Plain]);
    for graceful in [None, Some(Duration::from_millis(500))] {
        if graceful.is_some() {
            next = handle.graceful_shutdown(graceful);
        }
        while let Some(stage) = next {
            let event = match stage {
                Stage::PreListen(i) => Some((i, "start_pre_listen")),
                Stage::PostListen(i) => Some((i, "start_post_listen")),
                Stage::PreDrain(i) => Some((i, "shutdown_pre_drain")),
                Stage::PostDrain(i) => Some((i, "shutdown_post_drain")),
                _ => None,
            };
            if let Some((index, event)) = event {
                events.push(format!("{}:{event}", handle.participant(index).unwrap()));
            }
            next = handle.advance(match stage {
                Stage::AwaitShutdown => Outcome::ShutdownRequested,
                _ => Outcome::Done,
            });
        }
        assert!(handle.finish().unwrap().is_ok());
    }
    assert_eq!(
        events,
        vec![
            "a:start_pre_listen",
            "b:start_pre_listen",
            "a:start_post_listen",
            "b:start_post_listen",
            "b:shutdown_pre_drain",
            "a:shutdown_pre_drain",
            "b:shutdown_post_drain",
            "a:shutdown_post_drain",
        ]
    );
}

#[test]
fn start_performs_stages_in_order() {
    let mut handle = new_handle(&["a", "b"]);
    let first = handle.start(vec![ServerKind::Plain, ServerKind::Tls, ServerKind::Spiffe]);
    let (stages, result) = perform(&mut handle, first, done);
    assert!(result.is_ok());
    assert_eq!(
        stages,
        vec![
            Stage::SpawnSignalHandler,
            Stage::SpawnWatchdog,
            Stage::PreListen(0),
            Stage::PreListen(1),
            Stage::Listen(0),
            Stage::EnsureCryptoProvider,
            Stage::Listen(1),
            Stage::EnsureCryptoProvider,
            Stage::Listen(2),
            Stage::PostListen(0),
            Stage::PostListen(1),
            Stage::AnnounceReady,
        ]
    );
    // Background tasks are running already.
    let first = handle.start(Vec::new());
    let (stages, result) = perform(&mut handle, first, done);
    assert!(result.is_ok());
    assert_eq!(stages[0], Stage::PreListen(0));
}

#[test]
fn failed_signal_handler_is_reported() {
    let mut handle = new_handle(&["a"]);
    let first = handle.start(vec![ServerKind::Plain]);
    let (stages, result) = perform(&mut handle, first, |stage| match stage {
        Stage::SpawnSignalHandler => Outcome::Failed(HandleError::SignalHandler("no".to_string())),
        _ => Outcome::Done,
    });
    assert_eq!(stages, vec![Stage::SpawnSignalHandler, Stage::ReportFailure]);
    assert!(matches!(result, Err(HandleError::SignalHandler(err)) if err == "no"));
    // It is spawned again by another attempt.
    assert_eq!(handle.start(Vec::new()), Some(Stage::SpawnSignalHandler));
}

#[test]
fn failed_participant_unwinds_those_before_it() {
    let mut handle = new_handle(&["a", "b", "c"]);
    let first = handle.start(vec![ServerKind::Plain]);
    let (stages, result) = perform(&mut handle, first, |stage| match stage {
        Stage::PreListen(2) => Outcome::Failed(lifecycle_error("c")),
        Stage::PreDrain(1) => Outcome::Failed(lifecycle_error("ignored")),
        _ => Outcome::Done,
    });
    assert_eq!(
        stages[2..],
        [
            Stage::PreListen(0),
            Stage::PreListen(1),
            Stage::PreListen(2),
            Stage::PreDrain(1),
            Stage::PreDrain(0),
            Stage::PostDrain(1),
            Stage::PostDrain(0),
        ]
    );
    assert_eq!(
        result.unwrap_err().message(),
        "Lifecycle participant failed to start: c"
    );
}

#[test]
fn failed_server_unwinds_everyone() {
    let mut handle = new_handle(&["a", "b"]);
    let first = handle.start(vec![ServerKind::Plain, ServerKind::Plain]);
    let mut reported = None;
    let mut stages = Vec::new();
    let mut next = first;
    while let Some(stage) = next {
        stages.push(stage);
        if stage == Stage::ReportFailure {
            reported = handle.failure();
        }
        next = handle.advance(match stage {
            Stage::Listen(1) => Outcome::Failed(HandleError::ServerBuilder("port".to_string())),
            _ => Outcome::Done,
        });
    }
    assert_eq!(
        stages[4..],
        [
            Stage::Listen(0),
            Stage::Listen(1),
            Stage::ReportFailure,
            Stage::PreDrain(1),
            Stage::PreDrain(0),
            Stage::PostDrain(1),
            Stage::PostDrain(0),
        ]
    );
    assert_eq!(reported, Some("port".to_string()));
    assert!(matches!(handle.finish(), Some(Err(HandleError::ServerBuilder(_)))));
}

#[test]
fn failed_post_listen_aborts_servers() {
    let mut handle = new_handle(&["a", "b"]);
    let first = handle.run(vec![ServerKind::Plain], None);
    let (stages, result) = perform(&mut handle, first, |stage| match stage {
        Stage::PostListen(0) => Outcome::Failed(lifecycle_error("a")),
        _ => Outcome::Done,
    });
    assert_eq!(
        stages[4..],
        [
            Stage::Listen(0),
            Stage::PostListen(0),
            Stage::AnnounceShutdown,
            Stage::AbortServers,
            Stage::PreDrain(1),
            Stage::PreDrain(0),
            Stage::PostDrain(1),
            Stage::PostDrain(0),
        ]
    );
    assert!(matches!(result, Err(HandleError::Lifecycle(_))));
    assert_eq!(handle.wait(None), None);
    assert!(matches!(handle.finish(), Some(Err(HandleError::NotRunning))));
}

#[test]
fn run_waits_after_startup() {
    let graceful = Some(Duration::from_secs(5));
    let mut handle = new_handle(&["a", "b"]);
    let first = handle.run(vec![ServerKind::Plain, ServerKind::Plain], graceful);
    let (stages, result) = perform(&mut handle, first, |stage| match stage {
        Stage::AwaitShutdown => Outcome::ShutdownRequested,
        _ => Outcome::Done,
    });
    assert!(result.is_ok());
    assert_eq!(
        stages[8..],
        [
            Stage::AnnounceReady,
            Stage::AwaitShutdown,
            Stage::AnnounceShutdown,
            Stage::PreDrain(1),
            Stage::PreDrain(0),
            Stage::DrainServers(graceful),
            Stage::CollectServer,
            Stage::CollectServer,
            Stage::PostDrain(1),
            Stage::PostDrain(0),
        ]
    );
}

#[test]
fn run_without_servers_is_not_running() {
    let mut handle = new_handle(&[]);
    let first = handle.run(Vec::new(), None);
    let (stages, result) = perform(&mut handle, first, done);
    assert_eq!(
        stages,
        vec![Stage::SpawnSignalHandler, Stage::SpawnWatchdog, Stage::AnnounceReady]
    );
    assert!(matches!(result, Err(HandleError::NotRunning)));
}

#[test]
fn exited_server_shuts_the_rest_down() {
    let mut handle = new_handle(&["a"]);
    let first = handle.start(vec![ServerKind::Plain, ServerKind::Plain, ServerKind::Plain]);
    assert!(perform(&mut handle, first, done).1.is_ok());
    let first = handle.wait(None);
    let mut exits = 0;
    let (stages, result) = perform(&mut handle, first, |stage| match stage {
        Stage::AwaitShutdown => Outcome::Done,
        Stage::CollectServer => {
            exits += 1;
            Outcome::Failed(HandleError::Server(format!("exit {exits}")))
        }
        Stage::PreDrain(_) => Outcome::Failed(lifecycle_error("ignored")),
        _ => Outcome::Done,
    });
    assert_eq!(
        stages,
        vec![
            Stage::AwaitShutdown,
            Stage::CancelTrigger,
            Stage::AnnounceShutdown,
            Stage::PreDrain(0),
            Stage::DrainServers(None),
            Stage::CollectServer,
            Stage::CollectServer,
            Stage::PostDrain(0),
        ]
    );
    assert_eq!(result.unwrap_err().message(), "HTTP server error: exit 1");
}

#[test]
fn error_of_the_first_exited_server_wins() {
    let mut handle = new_handle(&[]);
    let first = handle.start(vec![ServerKind::Plain, ServerKind::Plain]);
    assert!(perform(&mut handle, first, done).1.is_ok());
    let first = handle.wait(None);
    let (_, result) = perform(&mut handle, first, |stage| match stage {
        Stage::AwaitShutdown => Outcome::Failed(HandleError::ServerTask("first".to_string())),
        Stage::CollectServer => Outcome::Failed(HandleError::ServerTask("second".to_string())),
        _ => Outcome::Done,
    });
    assert_eq!(result.unwrap_err().message(), "Server task error: first");
}

#[test]
fn immediate_shutdown_and_another_one() {
    let mut handle = new_handle(&["a", "b"]);
    let first = handle.start(vec![ServerKind::Plain, ServerKind::Tls]);
    assert!(perform(&mut handle, first, done).1.is_ok());
    let first = handle.shutdown();
    let (stages, result) = perform(&mut handle, first, |stage| match stage {
        Stage::JoinServer(1) => Outcome::Failed(HandleError::TlsServer("x".to_string())),
        _ => Outcome::Done,
    });
    assert_eq!(
        stages,
        vec![
            Stage::CancelTrigger,
            Stage::AnnounceShutdown,
            Stage::PreDrain(1),
            Stage::PreDrain(0),
            Stage::CloseServers,
            Stage::JoinServer(0),
            Stage::JoinServer(1),
            Stage::PostDrain(1),
            Stage::PostDrain(0),
        ]
    );
    assert_eq!(result.unwrap_err().message(), "HTTPS server error: x");
    // Server tasks are consumed.
    assert_eq!(handle.shutdown(), None);
    assert!(matches!(handle.finish(), Some(Ok(()))));
}

#[test]
fn shutdown_before_start_runs_hooks() {
    let mut handle = new_handle(&["a"]);
    // There are no server tasks to consume, so this can be repeated.
    for _ in 0..2 {
        let first = handle.shutdown();
        let (stages, result) = perform(&mut handle, first, done);
        assert!(result.is_ok());
        assert_eq!(
            stages,
            vec![
                Stage::CancelTrigger,
                Stage::AnnounceShutdown,
                Stage::PreDrain(0),
                Stage::CloseServers,
                Stage::PostDrain(0),
            ]
        );
    }
}

#[test]
fn abort_calls_no_participant() {
    let mut handle = new_handle(&["a"]);
    let first = handle.start(vec![ServerKind::Plain]);
    assert!(perform(&mut handle, first, done).1.is_ok());
    let first = handle.abort();
    let (stages, result) = perform(&mut handle, first, done);
    assert_eq!(stages, vec![Stage::AnnounceShutdown, Stage::AbortServers]);
    assert!(result.is_ok());
    assert_eq!(handle.shutdown(), None);
}

#[test]
fn nothing_to_wait_for() {
    let mut handle = new_handle(&["a"]);
    assert_eq!(handle.wait(None), None);
    assert!(matches!(handle.finish(), Some(Err(HandleError::NotRunning))));
    let first = handle.graceful_shutdown(None);
    let (stages, result) = perform(&mut handle, first, done);
    assert_eq!(stages, vec![Stage::CancelTrigger]);
    assert_eq!(result.unwrap_err().message(), "No server is currently running");
    // Nothing is performed after the end of a run.
    assert_eq!(handle.advance(Outcome::Done), None);
    assert_eq!(handle.current(), None);
}

#[test]
fn result_is_given_at_the_end() {
    let mut handle = new_handle(&[]);
    assert!(handle.start(Vec::new()).is_some());
    assert!(handle.finish().is_none());
    assert!(handle.failure().is_none());
}

#[test]
fn servers_started_again_are_waited_for() {
    let mut handle = new_handle(&[]);
    for _ in 0..2 {
        let first = handle.run(vec![ServerKind::Plain], None);
        let (stages, result) = perform(&mut handle, first, |stage| match stage {
            Stage::AwaitShutdown => Outcome::ShutdownRequested,
            _ => Outcome::Done,
        });
        assert!(result.is_ok());
        assert!(stages.contains(&Stage::AwaitShutdown));
    }
    assert_eq!(handle.shutdown(), None);
}

#[test]
fn handle_of_a_config() {
    let mut config: AppConfig<u32> = AppConfig {
        app_name: Some("app".to_string()),
        app_version: Some("1.0".to_string()),
        http_clients: HttpClients::new(),
        tracing: false,
        metrics: true,
        metrics_state: false,
    };
    let (setup, stages) = set_up(&config, |_| None);
    assert_eq!(
        stages,
        vec![
            SetupStage::MakeRegistry,
            SetupStage::InstallRegistry,
            SetupStage::BuildMetrics,
            SetupStage::SpawnRuntimeMetrics,
            SetupStage::InstallMetrics,
        ]
    );
    let token = CancellationToken::new();
    let mut handle: Handle<&'static str> = config.handle(setup, token.clone()).unwrap();
    assert!(config.metrics_state);
    handle.register("a").register("b");
    assert_eq!(handle.participant(1), Some(&"b"));
    assert_eq!(handle.participant(2), None);
    let ctx = handle.lifecycle_context();
    assert_eq!(ctx.app_name(), Some("app"));
    assert_eq!(ctx.app_version(), Some("1.0"));
    token.cancel();
    assert!(handle.token().is_cancelled());
    assert!(ctx.root_token().is_cancelled());
    assert!(!ctx.is_shutdown_requested());
    handle.shutdown_trigger().cancel();
    assert!(ctx.is_shutdown_requested());
    config.tracing = true;
    config.metrics = false;
    assert_eq!(
        set_up(&config, |_| None).1,
        vec![
            SetupStage::MakeRegistry,
            SetupStage::BuildTracing,
            SetupStage::InstallWithTracing,
            SetupStage::InstallPropagator,
        ]
    );
}

#[test]
fn failed_setup_stops() {
    let mut config: AppConfig<u32> = AppConfig {
        app_name: None,
        app_version: None,
        http_clients: HttpClients::new(),
        tracing: true,
        metrics: true,
        metrics_state: false,
    };
    for (failing, count) in [
        (SetupStage::MakeRegistry, 1),
        (SetupStage::BuildTracing, 2),
        (SetupStage::InstallWithTracing, 3),
        (SetupStage::BuildMetrics, 5),
    ] {
        let (setup, stages) = set_up(&config, |stage| {
            (stage == failing).then_some("x".to_string())
        });
        assert_eq!(stages.len(), count);
        let res: Result<Handle<u32>, HandleError> = config.handle(setup, CancellationToken::new());
        let err = res.err().unwrap();
        assert!(match failing {
            SetupStage::MakeRegistry | SetupStage::InstallWithTracing => {
                matches!(err, HandleError::Logging(_))
            }
            SetupStage::BuildTracing => matches!(err, HandleError::Tracing(_)),
            _ => matches!(err, HandleError::Metrics(_)),
        });
        assert_eq!(err.message(), "x");
        assert!(!config.metrics_state);
    }
}

#[test]
fn teardown_stages() {
    assert_eq!(
        teardown(true, true),
        vec![
            TeardownStage::CancelTrigger,
            TeardownStage::CancelToken,
            TeardownStage::FlushMetrics,
            TeardownStage::ShutdownMetrics,
            TeardownStage::FlushSpans,
            TeardownStage::ShutdownTracing,
        ]
    );
    assert_eq!(
        teardown(false, false),
        vec![TeardownStage::CancelTrigger, TeardownStage::CancelToken]
    );
    assert_eq!(
        TeardownStage::FlushMetrics.alert("x"),
        Some("Error flushing metrics: x".to_string())
    );
    assert_eq!(
        TeardownStage::ShutdownMetrics.alert("x"),
        Some("Error shutting down OTel metrics provider: x".to_string())
    );
    assert_eq!(
        TeardownStage::FlushSpans.alert("x"),
        Some("Error flushing spans: x".to_string())
    );
    assert_eq!(
        TeardownStage::ShutdownTracing.alert("x"),
        Some("Error shutting down OTel tracing provider: x".to_string())
    );
    assert_eq!(TeardownStage::CancelToken.alert("x"), None);
}

#[test]
fn signals() {
    assert_eq!(on_signal(SignalEvent::ShutdownRequested), SignalAction::Stop);
    assert_eq!(
        on_signal(SignalEvent::Received { is_shutdown: true }),
        SignalAction::RequestShutdown
    );
    assert_eq!(
        on_signal(SignalEvent::Received { is_shutdown: false }),
        SignalAction::Wait
    );
    assert_eq!(on_signal(SignalEvent::Failed), SignalAction::Wait);
}

#[test]
fn server_kinds() {
    assert!(!ServerKind::Plain.needs_crypto_provider());
    assert!(ServerKind::Tls.needs_crypto_provider());
    assert!(ServerKind::Spiffe.needs_crypto_provider());
    let text = |kind: ServerKind| kind.task_error("x".to_string()).message();
    assert_eq!(text(ServerKind::Plain), "HTTP server error: x");
    assert_eq!(text(ServerKind::Tls), "HTTPS server error: x");
    assert_eq!(text(ServerKind::Spiffe), "SPIFFE HTTPS server error: x");
    for kind in [ServerKind::Plain, ServerKind::Tls, ServerKind::Spiffe] {
        assert!(matches!(
            kind.build_error("x".to_string()),
            HandleError::ServerBuilder(err) if err == "x"
        ));
    }
    assert!(matches!(
        signal_error("x".to_string()),
        HandleError::SignalHandler(err) if err == "x"
    ));
}

#[test]
fn server_exits() {
    assert!(matches!(ServerExit::Stopped.outcome(), Outcome::Done));
    assert!(matches!(
        ServerExit::Failed(HandleError::NotRunning).outcome(),
        Outcome::Failed(HandleError::NotRunning)
    ));
    assert!(matches!(
        ServerExit::Lost("x".to_string()).outcome(),
        Outcome::Failed(HandleError::ServerTask(err)) if err == "x"
    ));
}

#[test]
fn participants_started_again_are_shut_down() {
    let mut handle = new_handle(&["a"]);
    let first = handle.start(vec![ServerKind::Plain]);
    assert!(perform(&mut handle, first, done).1.is_ok());
    let first = handle.shutdown();
    assert!(perform(&mut handle, first, done).1.is_ok());
    assert_eq!(handle.shutdown(), None);
    assert!(matches!(handle.finish(), Some(Ok(()))));
    let first = handle.start(Vec::new());
    assert!(perform(&mut handle, first, done).1.is_ok());
    let first = handle.shutdown();
    let (stages, result) = perform(&mut handle, first, done);
    assert!(result.is_ok());
    assert!(stages.contains(&Stage::PreDrain(0)));
    assert!(stages.contains(&Stage::PostDrain(0)));
}

#[test]
fn servers_left_by_a_failed_startup() {
    let fail_second = |stage: Stage| match stage {
        Stage::Listen(1) => Outcome::Failed(HandleError::NotRunning),
        _ => Outcome::Done,
    };
    let mut handle = new_handle(&[]);
    let first = handle.start(vec![ServerKind::Plain, ServerKind::Plain]);
    assert!(perform(&mut handle, first, fail_second).1.is_err());
    let first = handle.shutdown();
    let (stages, _) = perform(&mut handle, first, done);
    assert!(stages.contains(&Stage::JoinServer(0)));
    assert!(!stages.contains(&Stage::JoinServer(1)));
}

#[test]
fn handle_error_texts() {
    let x = || "x".to_string();
    assert_eq!(HandleError::Logging(x()).message(), "x");
    assert_eq!(HandleError::Tracing(x()).message(), "x");
    assert_eq!(HandleError::Metrics(x()).message(), "x");
    assert_eq!(HandleError::ServerBuilder(x()).message(), "x");
    assert_eq!(HandleError::InitTls.message(), "Error initializing crypto provider");
    assert_eq!(HandleError::SignalHandler(x()).message(), "x");
    assert_eq!(HandleError::custom(x()).message(), "Custom error: x");
    assert_eq!(
        HandleError::Lifecycle(LifecycleError::shutdown(x())).message(),
        "Lifecycle participant failed to shut down: x"
    );
}
