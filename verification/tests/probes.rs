use std::sync::atomic::{AtomicBool, AtomicUsize, Ordering};
use std::sync::Arc;

use uxum::behavior::StandardAppBehavior;
use uxum::probes::{
    respond, Endpoint, HealthSource, ProbeConfig, ProbeResponse, ProbeState, RouteMethod,
    StartedWatchdog, Watchdog, WatchdogConfig,
};

#[derive(Debug)]
struct FakeSource {
    ready: AtomicBool,
    alive: AtomicBool,
    asked: AtomicUsize,
}

impl FakeSource {
    fn new(ready: bool, alive: bool) -> Arc<Self> {
        Arc::new(Self {
            ready: AtomicBool::new(ready),
            alive: AtomicBool::new(alive),
            asked: AtomicUsize::new(0),
        })
    }
}

impl HealthSource for FakeSource {
    fn name(&self) -> &str {
        "fake"
    }
    fn is_ready(&self) -> bool {
        self.asked.fetch_add(1, Ordering::Relaxed);
        self.ready.load(Ordering::Relaxed)
    }
    fn is_alive(&self) -> bool {
        self.asked.fetch_add(1, Ordering::Relaxed);
        self.alive.load(Ordering::Relaxed)
    }
}

struct SilentSource;

impl HealthSource for SilentSource {
    fn name(&self) -> &str {
        "silent"
    }
}

struct FakeWatchdog(AtomicBool);

impl Watchdog for FakeWatchdog {
    fn is_alive(&self) -> bool {
        self.0.load(Ordering::Relaxed)
    }
}

#[derive(Clone)]
struct FakeWatchdogConfig {
    watchdog: Arc<FakeWatchdog>,
    started: Arc<AtomicUsize>,
}

impl FakeWatchdogConfig {
    fn new() -> Self {
        Self {
            watchdog: Arc::new(FakeWatchdog(AtomicBool::new(false))),
            started: Arc::new(AtomicUsize::new(0)),
        }
    }
}

impl WatchdogConfig for FakeWatchdogConfig {
    fn start(&self) -> StartedWatchdog {
        self.started.fetch_add(1, Ordering::Relaxed);
        self.watchdog.0.store(true, Ordering::Relaxed);
        StartedWatchdog {
            inner: self.watchdog.clone(),
        }
    }
}

#[test]
fn readiness_aggregates_sources_and_maintenance() {
    let src = FakeSource::new(true, true);
    let state = ProbeState::new(
        StandardAppBehavior,
        false,
        None,
        vec![src.clone() as Arc<dyn HealthSource>],
    );
    assert!(state.is_ready());
    src.ready.store(false, Ordering::Relaxed);
    assert!(!state.is_ready());
    // Maintenance overrides even ready sources.
    src.ready.store(true, Ordering::Relaxed);
    let state = ProbeState::new(
        StandardAppBehavior,
        true,
        None,
        vec![src as Arc<dyn HealthSource>],
    );
    assert!(!state.is_ready());
}

#[test]
fn liveness_aggregates_sources() {
    let src = FakeSource::new(true, true);
    // No watchdog: liveness depends only on sources.
    let state = ProbeState::new(
        StandardAppBehavior,
        false,
        None,
        vec![src.clone() as Arc<dyn HealthSource>],
    );
    assert!(state.is_alive());
    src.alive.store(false, Ordering::Relaxed);
    assert!(!state.is_alive());
}

#[test]
fn no_sources_preserves_old_behavior() {
    let state = ProbeState::new(StandardAppBehavior, false, None, Vec::new());
    assert!(state.is_ready());
    assert!(state.is_alive());
}

#[test]
fn watchdog_fails_liveness_only() {
    let config = FakeWatchdogConfig::new();
    let watchdog = config.watchdog.clone();
    let src = FakeSource::new(true, true);
    let state = ProbeState::new(
        StandardAppBehavior,
        false,
        Some(&config),
        vec![src.clone() as Arc<dyn HealthSource>],
    );
    assert!(state.is_alive());
    assert_eq!(src.asked.load(Ordering::Relaxed), 1);
    watchdog.0.store(false, Ordering::Relaxed);
    assert!(!state.is_alive());
    assert_eq!(src.asked.load(Ordering::Relaxed), 1);
    assert!(state.is_ready());
    assert_eq!(state.liveness_probe(), ProbeResponse::Status(503));
    assert_eq!(state.readiness_probe(), ProbeResponse::Custom);
}

#[test]
fn one_negative_source_is_enough() {
    let good = FakeSource::new(true, true);
    let bad = FakeSource::new(false, false);
    let last = FakeSource::new(true, true);
    let state = ProbeState::new(
        StandardAppBehavior,
        false,
        None,
        vec![
            good.clone() as Arc<dyn HealthSource>,
            bad as Arc<dyn HealthSource>,
            last.clone() as Arc<dyn HealthSource>,
        ],
    );
    assert!(!state.is_ready());
    assert!(!state.is_alive());
    assert_eq!(good.asked.load(Ordering::Relaxed), 2);
    assert_eq!(last.asked.load(Ordering::Relaxed), 0);
    assert!(!state.ready_with(&vec![true, false, true]));
    assert!(state.ready_with(&vec![true, true, true]));
    assert!(!state.alive_with(false, &vec![false]));
    assert!(state.alive_with(false, &vec![true]));
}

#[test]
fn sources_are_well_by_default() {
    let state = ProbeState::new(
        StandardAppBehavior,
        false,
        None,
        vec![Arc::new(SilentSource) as Arc<dyn HealthSource>],
    );
    assert!(state.is_ready());
    assert!(state.is_alive());
}

#[test]
fn maintenance_mode_is_switched() {
    let src = FakeSource::new(true, true);
    let mut state = ProbeState::new(
        StandardAppBehavior,
        false,
        None,
        vec![src.clone() as Arc<dyn HealthSource>],
    );
    let on = state.maintenance_on();
    assert_eq!((on.status, on.log), (200, Some("maintenance mode enabled")));
    assert!(state.in_maintenance());
    assert!(!state.is_ready());
    assert_eq!(src.asked.load(Ordering::Relaxed), 0);
    assert!(state.is_alive());
    assert_eq!(state.readiness_probe(), ProbeResponse::Status(503));
    let again = state.maintenance_on();
    assert_eq!((again.status, again.log), (200, None));
    let off = state.maintenance_off();
    assert_eq!((off.status, off.log), (200, Some("maintenance mode disabled")));
    assert!(state.is_ready());
    let again = state.maintenance_off();
    assert_eq!((again.status, again.log), (200, None));
    assert_eq!(*state.behavior(), StandardAppBehavior);
}

#[test]
fn default_state_is_in_maintenance() {
    let state = ProbeState::<StandardAppBehavior>::default();
    assert!(!state.is_ready());
    assert!(state.is_alive());
}

#[test]
fn probe_answers() {
    assert_eq!(respond(true), ProbeResponse::Custom);
    assert_eq!(respond(false), ProbeResponse::Status(503));
}

#[test]
fn default_probe_config() {
    let config = ProbeConfig::<u32>::default();
    assert_eq!(config.readiness_path, "/probe/ready");
    assert_eq!(config.liveness_path, "/probe/live");
    assert_eq!(config.maintenance_on_path, "/maintenance/on");
    assert_eq!(config.maintenance_off_path, "/maintenance/off");
    assert_eq!(config.watchdog, Some(0));
    assert!(!config.start_in_maintenance);
}

#[test]
fn routes_follow_config() {
    let defaults = ProbeConfig::<u32>::default();
    let mut config = ProbeConfig::<FakeWatchdogConfig> {
        readiness_path: defaults.readiness_path,
        liveness_path: "/alive".to_string(),
        maintenance_on_path: defaults.maintenance_on_path,
        maintenance_off_path: defaults.maintenance_off_path,
        watchdog: None,
        start_in_maintenance: true,
    };
    let (state, _) = config.build_router(StandardAppBehavior, Vec::new());
    assert!(state.is_alive());
    let watchdog = FakeWatchdogConfig::new();
    config.watchdog = Some(watchdog.clone());
    assert_eq!(watchdog.started.load(Ordering::Relaxed), 0);
    let (state, routes) = config.build_router(StandardAppBehavior, Vec::new());
    assert_eq!(watchdog.started.load(Ordering::Relaxed), 1);
    assert!(state.is_alive());
    watchdog.watchdog.0.store(false, Ordering::Relaxed);
    assert!(!state.is_alive());
    assert!(state.in_maintenance());
    let table: Vec<(String, RouteMethod, Endpoint, Option<&str>)> = routes
        .into_iter()
        .map(|route| (route.path, route.method, route.endpoint, route.permission))
        .collect();
    assert_eq!(
        table,
        vec![
            ("/probe/ready".to_string(), RouteMethod::Get, Endpoint::Readiness, None),
            ("/alive".to_string(), RouteMethod::Get, Endpoint::Liveness, None),
            (
                "/maintenance/on".to_string(),
                RouteMethod::Post,
                Endpoint::MaintenanceOn,
                Some("maintenance")
            ),
            (
                "/maintenance/off".to_string(),
                RouteMethod::Post,
                Endpoint::MaintenanceOff,
                Some("maintenance")
            ),
        ]
    );
}

#[test]
fn clones_share_maintenance_mode() {
    let src = FakeSource::new(true, true);
    let first = ProbeState::new(
        StandardAppBehavior,
        false,
        None,
        vec![src.clone() as Arc<dyn HealthSource>],
    )
    .share();
    let second = first.clone();
    assert!(first.is_ready());
    assert!(second.is_ready());
    let response = first.maintenance_on();
    assert_eq!(response.status, 200);
    assert_eq!(response.log, Some("maintenance mode enabled"));
    assert!(!second.is_ready());
    assert_eq!(second.readiness_probe(), ProbeResponse::Status(503));
    assert!(second.is_alive());
    assert_eq!(second.maintenance_on().log, None);
    let response = second.maintenance_off();
    assert_eq!(response.status, 200);
    assert_eq!(response.log, Some("maintenance mode disabled"));
    assert!(first.is_ready());
    assert_eq!(first.readiness_probe(), ProbeResponse::Custom);
    assert_eq!(first.maintenance_off().log, None);
    src.ready.store(false, Ordering::Relaxed);
    assert!(!first.is_ready());
    assert!(!second.is_ready());
}

#[test]
fn sharing_keeps_the_state() {
    let config = FakeWatchdogConfig::new();
    let watchdog = config.watchdog.clone();
    let src = FakeSource::new(true, true);
    let state = ProbeState::new(
        StandardAppBehavior,
        true,
        Some(&config),
        vec![src.clone() as Arc<dyn HealthSource>],
    )
    .share();
    assert!(!state.is_ready());
    assert_eq!(src.asked.load(Ordering::Relaxed), 0);
    assert!(state.is_alive());
    assert_eq!(src.asked.load(Ordering::Relaxed), 1);
    watchdog.0.store(false, Ordering::Relaxed);
    assert!(!state.clone().is_alive());
    assert_eq!(src.asked.load(Ordering::Relaxed), 1);
    assert_eq!(state.liveness_probe(), ProbeResponse::Status(503));
    assert_eq!(*state.behavior(), StandardAppBehavior);
}
