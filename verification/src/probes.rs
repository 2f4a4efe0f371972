//! Service probe and maintenance mode API endpoints.

use std::ops::Deref;
use std::sync::atomic::{AtomicBool, Ordering};
use std::sync::Arc;

use vstd::prelude::*;

use crate::behavior::StandardAppBehavior;

verus! {

/// Pluggable health source feeding service probes.
///
/// All registered sources are AND-ed together with the built-in maintenance flag (readiness) and
/// runtime watchdog (liveness).
pub trait HealthSource: Send + Sync + 'static {
    /// Source name, used in logs.
    fn name(&self) -> &str;

    /// Whether the component is ready to serve traffic (readiness probe).
    fn is_ready(&self) -> (res: bool)
        default_ensures
            res,
    {
        true
    }

    /// Whether the component is functioning at all (liveness probe).
    fn is_alive(&self) -> (res: bool)
        default_ensures
            res,
    {
        true
    }
}

/// Runtime watchdog for use in liveness probes.
pub trait Watchdog: Send + Sync + 'static {
    /// Whether the runtime is functioning.
    fn is_alive(&self) -> bool;
}

/// Runtime watchdog that was started.
pub struct StartedWatchdog {
    /// Watchdog.
    pub inner: Arc<dyn Watchdog>,
}

/// Configuration of a runtime watchdog.
pub trait WatchdogConfig {
    /// Make a watchdog, and start it.
    fn start(&self) -> StartedWatchdog;
}

/// The watchdog was made from the configuration, and was started.
pub open spec fn started_from<C: WatchdogConfig + ?Sized>(
    config: &C,
    watchdog: StartedWatchdog,
) -> bool {
    call_ensures(C::start, (config,), watchdog)
}

/// There is a watchdog if it is configured. It was made from the configuration, and was started.
pub open spec fn watches<C: WatchdogConfig + ?Sized>(
    config: Option<&C>,
    watchdog: Option<StartedWatchdog>,
) -> bool {
    &&& watchdog is Some <==> config is Some
    &&& config matches Some(config) ==> started_from(config, watchdog->0)
}

/// Start a watchdog if it is configured.
fn start_watchdog<C: WatchdogConfig + ?Sized>(config: Option<&C>) -> (watchdog: Option<
    StartedWatchdog,
>)
    ensures
        watches(config, watchdog),
{
    match config {
        Some(config) => Some(config.start()),
        None => None,
    }
}

/// The source was asked whether it is ready, and has given this answer.
pub open spec fn says_ready<S: HealthSource + ?Sized>(source: &S, answer: bool) -> bool {
    call_ensures(S::is_ready, (source,), answer)
}

/// The source was asked whether it is alive, and has given this answer.
pub open spec fn says_alive<S: HealthSource + ?Sized>(source: &S, answer: bool) -> bool {
    call_ensures(S::is_alive, (source,), answer)
}

/// The watchdog was asked whether the runtime is functioning, and has given this answer.
pub open spec fn vouches<W: Watchdog + ?Sized>(watchdog: &W, answer: bool) -> bool {
    call_ensures(W::is_alive, (watchdog,), answer)
}

/// Ask a source whether it is ready.
fn ask_ready<S: HealthSource + ?Sized>(source: &S) -> (answer: bool)
    ensures
        says_ready(source, answer),
{
    source.is_ready()
}

/// Ask a source whether it is alive.
fn ask_alive<S: HealthSource + ?Sized>(source: &S) -> (answer: bool)
    ensures
        says_alive(source, answer),
{
    source.is_alive()
}

/// Ask a watchdog whether the runtime is functioning.
fn ask_watchdog<W: Watchdog + ?Sized>(watchdog: &W) -> (answer: bool)
    ensures
        vouches(watchdog, answer),
{
    watchdog.is_alive()
}

/// Every answer is positive.
pub open spec fn all_true(answers: Seq<bool>) -> bool {
    forall|i: int| 0 <= i < answers.len() ==> #[trigger] answers[i]
}

/// Answers are those of the first sources out of `count`, in order: every source is asked until
/// there is a negative answer.
pub open spec fn asked_in_order(answers: Seq<bool>, count: nat) -> bool {
    &&& answers.len() <= count
    &&& all_true(answers) ==> answers.len() == count
    &&& answers.len() > 0 ==> all_true(answers.drop_last())
}

/// Configuration for service probes and management mode API.
#[derive(Clone, Debug, PartialEq)]
pub struct ProbeConfig<W> {
    /// URL path for readiness probe.
    pub readiness_path: String,
    /// URL path for liveness probe.
    pub liveness_path: String,
    /// URL path to enable maintenance mode.
    pub maintenance_on_path: String,
    /// URL path to disable maintenance mode.
    pub maintenance_off_path: String,
    /// Runtime watchdog configuration.
    pub watchdog: Option<W>,
    /// Enable maintenance mode at startup.
    pub start_in_maintenance: bool,
}

impl<W: Default> Default for ProbeConfig<W> {
    fn default() -> (config: Self)
        ensures
            config.readiness_path@ == "/probe/ready"@,
            config.liveness_path@ == "/probe/live"@,
            config.maintenance_on_path@ == "/maintenance/on"@,
            config.maintenance_off_path@ == "/maintenance/off"@,
            config.watchdog is Some,
            W::default.ensures((), config.watchdog->0),
            !config.start_in_maintenance,
    {
        ProbeConfig {
            readiness_path: "/probe/ready".to_owned(),
            liveness_path: "/probe/live".to_owned(),
            maintenance_on_path: "/maintenance/on".to_owned(),
            maintenance_off_path: "/maintenance/off".to_owned(),
            watchdog: Some(W::default()),
            start_in_maintenance: false,
        }
    }
}

/// HTTP method of a route.
#[derive(Clone, Copy, Debug, PartialEq, Eq, Structural)]
pub enum RouteMethod {
    /// GET.
    Get,
    /// POST.
    Post,
}

/// Handler of a route.
#[derive(Clone, Copy, Debug, PartialEq, Eq, Structural)]
pub enum Endpoint {
    /// Readiness probe.
    Readiness,
    /// Liveness probe.
    Liveness,
    /// Enable maintenance mode.
    MaintenanceOn,
    /// Disable maintenance mode.
    MaintenanceOff,
}

/// Route of probe and maintenance API.
#[derive(Clone, Debug, PartialEq)]
pub struct ProbeRoute {
    /// URL path.
    pub path: String,
    /// HTTP method.
    pub method: RouteMethod,
    /// Handler.
    pub endpoint: Endpoint,
    /// Permission that the caller must have been granted, if any.
    pub permission: Option<&'static str>,
}

impl Endpoint {
    /// Probes are read, and maintenance mode is posted.
    pub open spec fn method_of(self) -> RouteMethod {
        match self {
            Endpoint::Readiness | Endpoint::Liveness => RouteMethod::Get,
            Endpoint::MaintenanceOn | Endpoint::MaintenanceOff => RouteMethod::Post,
        }
    }

    /// Probes are open to everyone, and maintenance mode takes a permission.
    pub open spec fn permission_of(self) -> Option<Seq<char>> {
        match self {
            Endpoint::Readiness | Endpoint::Liveness => None,
            Endpoint::MaintenanceOn | Endpoint::MaintenanceOff => Some("maintenance"@),
        }
    }

    /// Make a route to the handler.
    fn route(self, path: &String) -> (route: ProbeRoute)
        ensures
            route.leads_to(self, path@),
    {
        let (method, permission): (RouteMethod, Option<&'static str>) = match self {
            Endpoint::Readiness | Endpoint::Liveness => (RouteMethod::Get, None),
            Endpoint::MaintenanceOn | Endpoint::MaintenanceOff => (
                RouteMethod::Post,
                Some("maintenance"),
            ),
        };
        ProbeRoute { path: path.clone(), method, endpoint: self, permission }
    }
}

impl ProbeRoute {
    /// Route leads from the path to the handler.
    pub open spec fn leads_to(self, endpoint: Endpoint, path: Seq<char>) -> bool {
        &&& self.path@ == path
        &&& self.endpoint == endpoint
        &&& self.method == endpoint.method_of()
        &&& match endpoint.permission_of() {
            Some(permission) => self.permission is Some && self.permission->0@ == permission,
            None => self.permission is None,
        }
    }
}

impl<W> ProbeConfig<W> {
    /// Routes of all probe and maintenance methods.
    pub fn routes(&self) -> (routes: Vec<ProbeRoute>)
        ensures
            routes@.len() == 4,
            routes@[0].leads_to(Endpoint::Readiness, self.readiness_path@),
            routes@[1].leads_to(Endpoint::Liveness, self.liveness_path@),
            routes@[2].leads_to(Endpoint::MaintenanceOn, self.maintenance_on_path@),
            routes@[3].leads_to(Endpoint::MaintenanceOff, self.maintenance_off_path@),
    {
        let mut routes: Vec<ProbeRoute> = Vec::new();
        routes.push(Endpoint::Readiness.route(&self.readiness_path));
        routes.push(Endpoint::Liveness.route(&self.liveness_path));
        routes.push(Endpoint::MaintenanceOn.route(&self.maintenance_on_path));
        routes.push(Endpoint::MaintenanceOff.route(&self.maintenance_off_path));
        routes
    }
}

impl<W: WatchdogConfig> ProbeConfig<W> {
    /// State for probes and maintenance mode API, together with its routes.
    ///
    /// Runtime watchdog is started if it is configured.
    pub fn build_router<B>(
        &self,
        behavior: B,
        health_sources: Vec<Arc<dyn HealthSource>>,
    ) -> (res: (ProbeState<B>, Vec<ProbeRoute>))
        ensures
            res.0@.behavior == behavior,
            res.0@.in_maintenance == self.start_in_maintenance,
            res.0@.watchdog is Some <==> self.watchdog is Some,
            self.watchdog matches Some(config) ==> started_from(&config, res.0@.watchdog->0),
            res.0@.health_sources == health_sources@,
            res.1@.len() == 4,
            res.1@[0].leads_to(Endpoint::Readiness, self.readiness_path@),
            res.1@[1].leads_to(Endpoint::Liveness, self.liveness_path@),
            res.1@[2].leads_to(Endpoint::MaintenanceOn, self.maintenance_on_path@),
            res.1@[3].leads_to(Endpoint::MaintenanceOff, self.maintenance_off_path@),
    {
        let watchdog = start_watchdog(self.watchdog.as_ref());
        let state = ProbeState::with_watchdog(
            behavior,
            self.start_in_maintenance,
            watchdog,
            health_sources,
        );
        (state, self.routes())
    }
}

/// What a probe answers with.
#[derive(Clone, Copy, Debug, PartialEq, Eq, Structural)]
pub enum ProbeResponse {
    /// Whatever the application behavior answers with.
    Custom,
    /// Bare status code.
    Status(u16),
}

/// Status code of a successful request.
pub const OK: u16 = 200;

/// Status code of a service that is not ready, or not functioning.
pub const SERVICE_UNAVAILABLE: u16 = 503;

/// Inner struct for probes/maintenance state.
pub struct ProbeStateInner<B> {
    /// Application behavior, which probes are answered by.
    behavior: B,
    /// Maintenance mode flag.
    in_maintenance: bool,
    /// Optional runtime watchdog for use in liveness probes.
    watchdog: Option<StartedWatchdog>,
    /// External health sources aggregated into probe responses.
    health_sources: Vec<Arc<dyn HealthSource>>,
}

/// Mathematical model of the state for probes and maintenance mode.
pub struct ProbeView<B> {
    /// Application behavior.
    pub behavior: B,
    /// Maintenance mode flag.
    pub in_maintenance: bool,
    /// Runtime watchdog, if there is one.
    pub watchdog: Option<StartedWatchdog>,
    /// External health sources.
    pub health_sources: Seq<Arc<dyn HealthSource>>,
}

impl<B> ProbeView<B> {
    /// Readiness, when health sources give these answers.
    pub open spec fn ready(self, answers: Seq<bool>) -> bool {
        !self.in_maintenance && all_true(answers)
    }

    /// Liveness, when the watchdog, if there is one, gives this answer, and health sources give
    /// these ones.
    pub open spec fn alive(self, watchdog: bool, answers: Seq<bool>) -> bool {
        (self.watchdog is Some ==> watchdog) && all_true(answers)
    }

    /// Readiness was found out this way: outside of maintenance, health sources were asked in
    /// order, and have given these answers.
    pub open spec fn readiness(self, answers: Seq<bool>, ready: bool) -> bool {
        &&& ready == self.ready(answers)
        &&& !self.in_maintenance ==> asked_ready(self.health_sources, answers)
    }

    /// Liveness was found out this way: the watchdog, if there is one, was asked and has given
    /// this answer, and unless it was negative, health sources were asked in order, and have given
    /// these answers.
    pub open spec fn liveness(self, watchdog: bool, answers: Seq<bool>, alive: bool) -> bool {
        &&& alive == self.alive(watchdog, answers)
        &&& self.watchdog is Some ==> vouches(&*self.watchdog->0.inner, watchdog)
        &&& watchdog || self.watchdog is None ==> asked_alive(self.health_sources, answers)
    }

    /// State with another maintenance mode flag.
    pub open spec fn with_maintenance(self, in_maintenance: bool) -> Self {
        ProbeView { in_maintenance, ..self }
    }
}

impl<B> View for ProbeStateInner<B> {
    type V = ProbeView<B>;

    closed spec fn view(&self) -> ProbeView<B> {
        ProbeView {
            behavior: self.behavior,
            in_maintenance: self.in_maintenance,
            watchdog: self.watchdog,
            health_sources: self.health_sources@,
        }
    }
}

/// Sources were asked in order whether they are ready, up to the first negative answer, and have
/// given these answers.
pub open spec fn asked_ready(sources: Seq<Arc<dyn HealthSource>>, answers: Seq<bool>) -> bool {
    &&& asked_in_order(answers, sources.len())
    &&& forall|i: int|
        0 <= i < answers.len() ==> says_ready(&*sources[i], #[trigger] answers[i])
}

/// Sources were asked in order whether they are alive, up to the first negative answer, and have
/// given these answers.
pub open spec fn asked_alive(sources: Seq<Arc<dyn HealthSource>>, answers: Seq<bool>) -> bool {
    &&& asked_in_order(answers, sources.len())
    &&& forall|i: int|
        0 <= i < answers.len() ==> says_alive(&*sources[i], #[trigger] answers[i])
}

/// Ask sources whether they are ready, unless in maintenance.
fn poll_ready(in_maintenance: bool, sources: &Vec<Arc<dyn HealthSource>>) -> (answers: Vec<bool>)
    ensures
        !in_maintenance ==> asked_ready(sources@, answers@),
{
    let mut answers: Vec<bool> = Vec::new();
    if in_maintenance {
        return answers;
    }
    for i in 0..sources.len()
        invariant
            answers@.len() == i,
            all_true(answers@),
            forall|j: int| 0 <= j < i ==> says_ready(&*sources@[j], #[trigger] answers@[j]),
    {
        let answer: bool = ask_ready(&*sources[i]);
        answers.push(answer);
        if !answer {
            proof {
                assert(!answers@[i as int]);
                assert(answers@.drop_last() =~= answers@.take(i as int));
            }
            return answers;
        }
    }
    answers
}

/// Ask the watchdog, if there is one, whether the runtime is functioning.
fn poll_watchdog(watchdog: &Option<StartedWatchdog>) -> (answer: bool)
    ensures
        watchdog matches Some(watchdog) ==> vouches(&*watchdog.inner, answer),
        watchdog is None ==> answer,
{
    match watchdog {
        Some(watchdog) => ask_watchdog(&*watchdog.inner),
        None => true,
    }
}

/// Ask sources whether they are alive, unless the watchdog has given a negative answer.
fn poll_alive(watchdog: bool, sources: &Vec<Arc<dyn HealthSource>>) -> (answers: Vec<bool>)
    ensures
        watchdog ==> asked_alive(sources@, answers@),
{
    let mut answers: Vec<bool> = Vec::new();
    if !watchdog {
        return answers;
    }
    for i in 0..sources.len()
        invariant
            answers@.len() == i,
            all_true(answers@),
            forall|j: int| 0 <= j < i ==> says_alive(&*sources@[j], #[trigger] answers@[j]),
    {
        let answer: bool = ask_alive(&*sources[i]);
        answers.push(answer);
        if !answer {
            proof {
                assert(!answers@[i as int]);
                assert(answers@.drop_last() =~= answers@.take(i as int));
            }
            return answers;
        }
    }
    answers
}

/// Aggregate answers.
fn all_of(answers: &Vec<bool>) -> (res: bool)
    ensures
        res == all_true(answers@),
{
    for i in 0..answers.len()
        invariant
            forall|j: int| 0 <= j < i ==> #[trigger] answers@[j],
    {
        if !answers[i] {
            return false;
        }
    }
    true
}

impl<B> ProbeStateInner<B> {
    /// Application behavior, which probes are answered by.
    pub fn behavior(&self) -> (behavior: &B)
        ensures
            *behavior == self@.behavior,
    {
        &self.behavior
    }

    /// Maintenance mode flag.
    pub fn in_maintenance(&self) -> (res: bool)
        ensures
            res == self@.in_maintenance,
    {
        self.in_maintenance
    }

    /// Aggregate readiness over the maintenance flag and answers of health sources.
    pub fn ready_with(&self, answers: &Vec<bool>) -> (res: bool)
        ensures
            res == self@.ready(answers@),
    {
        !self.in_maintenance && all_of(answers)
    }

    /// Aggregate liveness over the answer of the watchdog and answers of health sources.
    pub fn alive_with(&self, watchdog: bool, answers: &Vec<bool>) -> (res: bool)
        ensures
            res == self@.alive(watchdog, answers@),
    {
        (self.watchdog.is_none() || watchdog) && all_of(answers)
    }

    /// Aggregate readiness over the maintenance flag and all health sources.
    ///
    /// Answers of health sources may change at any time. They are not asked while in maintenance.
    pub fn is_ready(&self) -> (res: bool)
        ensures
            exists|answers: Seq<bool>| #[trigger] self@.readiness(answers, res),
    {
        let answers: Vec<bool> = poll_ready(self.in_maintenance, &self.health_sources);
        let res: bool = self.ready_with(&answers);
        assert(self@.readiness(answers@, res));
        res
    }

    /// Aggregate liveness over the watchdog and all health sources.
    ///
    /// Answers of the watchdog and of health sources may change at any time. Health sources are
    /// not asked after a negative answer of the watchdog.
    pub fn is_alive(&self) -> (res: bool)
        ensures
            exists|watchdog: bool, answers: Seq<bool>| #[trigger]
                self@.liveness(watchdog, answers, res),
    {
        let watchdog: bool = poll_watchdog(&self.watchdog);
        let answers: Vec<bool> = poll_alive(watchdog, &self.health_sources);
        let res: bool = self.alive_with(watchdog, &answers);
        assert(self@.liveness(watchdog, answers@, res));
        res
    }

    /// Readiness probe handler.
    ///
    /// For use in k8s-like deployments.
    pub fn readiness_probe(&self) -> (res: ProbeResponse)
        ensures
            exists|answers: Seq<bool>, ready: bool| #[trigger]
                self@.readiness(answers, ready) && res == probe_response(ready),
    {
        respond(self.is_ready())
    }

    /// Liveness probe handler.
    ///
    /// For use in k8s-like deployments.
    pub fn liveness_probe(&self) -> (res: ProbeResponse)
        ensures
            exists|watchdog: bool, answers: Seq<bool>, alive: bool| #[trigger]
                self@.liveness(watchdog, answers, alive) && res == probe_response(alive),
    {
        respond(self.is_alive())
    }
}

/// What a probe answers with, by whether everything is well.
pub open spec fn probe_response(well: bool) -> ProbeResponse {
    if well {
        ProbeResponse::Custom
    } else {
        ProbeResponse::Status(SERVICE_UNAVAILABLE)
    }
}

/// Answer a probe, by whether everything is well.
pub fn respond(well: bool) -> (res: ProbeResponse)
    ensures
        res == probe_response(well),
{
    if well {
        ProbeResponse::Custom
    } else {
        ProbeResponse::Status(SERVICE_UNAVAILABLE)
    }
}

/// Outcome of a request to change maintenance mode.
pub struct MaintenanceResponse {
    /// Status code of the response.
    pub status: u16,
    /// Message to log, if the mode has changed.
    pub log: Option<&'static str>,
}

impl MaintenanceResponse {
    /// The request succeeds, and is logged if it has changed something.
    pub open spec fn follows(self, changed: bool, message: Seq<char>) -> bool {
        &&& self.status == OK
        &&& self.log is Some <==> changed
        &&& self.log is Some ==> self.log->0@ == message
    }
}

/// State for probes and maintenance mode API.
pub struct ProbeState<B>(ProbeStateInner<B>);

impl<B> View for ProbeState<B> {
    type V = ProbeView<B>;

    closed spec fn view(&self) -> ProbeView<B> {
        self.0@
    }
}

impl<B> Deref for ProbeState<B> {
    type Target = ProbeStateInner<B>;

    fn deref(&self) -> (inner: &ProbeStateInner<B>)
        ensures
            inner@ == self@,
    {
        &self.0
    }
}

impl Default for ProbeState<StandardAppBehavior> {
    fn default() -> (state: Self)
        ensures
            state@.in_maintenance,
            state@.watchdog is None,
            state@.health_sources.len() == 0,
    {
        ProbeState::with_watchdog(StandardAppBehavior, true, None, Vec::new())
    }
}

impl<B> ProbeState<B> {
    /// Create new [`ProbeState`] with optional [`WatchdogConfig`] and external health sources.
    ///
    /// Runtime watchdog is started if it is configured.
    #[must_use]
    pub fn new(
        behavior: B,
        in_maint: bool,
        watchdog: Option<&dyn WatchdogConfig>,
        health_sources: Vec<Arc<dyn HealthSource>>,
    ) -> (state: Self)
        ensures
            state@ == (ProbeView {
                behavior,
                in_maintenance: in_maint,
                watchdog: state@.watchdog,
                health_sources: health_sources@,
            }),
            watches(watchdog, state@.watchdog),
    {
        ProbeState::with_watchdog(behavior, in_maint, start_watchdog(watchdog), health_sources)
    }

    /// Create new [`ProbeState`] with a watchdog that was started already.
    fn with_watchdog(
        behavior: B,
        in_maint: bool,
        watchdog: Option<StartedWatchdog>,
        health_sources: Vec<Arc<dyn HealthSource>>,
    ) -> (state: Self)
        ensures
            state@ == (ProbeView {
                behavior,
                in_maintenance: in_maint,
                watchdog,
                health_sources: health_sources@,
            }),
    {
        ProbeState(
            ProbeStateInner { behavior, in_maintenance: in_maint, watchdog, health_sources },
        )
    }

    /// Enable maintenance mode.
    pub fn maintenance_on(&mut self) -> (res: MaintenanceResponse)
        ensures
            final(self)@ == old(self)@.with_maintenance(true),
            res.follows(!old(self)@.in_maintenance, "maintenance mode enabled"@),
    {
        let log: Option<&'static str> = if !self.0.in_maintenance {
            Some("maintenance mode enabled")
        } else {
            None
        };
        self.0.in_maintenance = true;
        MaintenanceResponse { status: OK, log }
    }

    /// Disable maintenance mode.
    pub fn maintenance_off(&mut self) -> (res: MaintenanceResponse)
        ensures
            final(self)@ == old(self)@.with_maintenance(false),
            res.follows(old(self)@.in_maintenance, "maintenance mode disabled"@),
    {
        let log: Option<&'static str> = if self.0.in_maintenance {
            Some("maintenance mode disabled")
        } else {
            None
        };
        self.0.in_maintenance = false;
        MaintenanceResponse { status: OK, log }
    }
}

/// Parts of the state that is shared between all clones.
struct SharedParts<B> {
    /// Application behavior, which probes are answered by.
    behavior: B,
    /// Maintenance mode flag.
    flag: AtomicBool,
    /// Optional runtime watchdog for use in liveness probes.
    watchdog: Option<StartedWatchdog>,
    /// External health sources aggregated into probe responses.
    health_sources: Vec<Arc<dyn HealthSource>>,
}

/// State for probes and maintenance mode API, shared between all clones.
pub struct SharedProbeState<B>(Arc<SharedParts<B>>);

/// Mathematical model of [`SharedProbeState`].
///
/// The value of the flag is its identity: states with the same flag switch maintenance mode
/// together. Whether the flag is up can change at any time, and is not a part of its value.
pub struct SharedView<B> {
    /// Application behavior.
    pub behavior: B,
    /// Maintenance mode flag.
    pub flag: AtomicBool,
    /// Runtime watchdog, if there is one.
    pub watchdog: Option<StartedWatchdog>,
    /// External health sources.
    pub health_sources: Seq<Arc<dyn HealthSource>>,
}

impl<B> SharedView<B> {
    /// State at a moment when the flag is up or down.
    pub open spec fn at(self, in_maintenance: bool) -> ProbeView<B> {
        ProbeView {
            behavior: self.behavior,
            in_maintenance,
            watchdog: self.watchdog,
            health_sources: self.health_sources,
        }
    }

    /// The flag was read, and has shown this.
    pub open spec fn shows(self, in_maintenance: bool) -> bool {
        call_ensures(AtomicBool::load, (&self.flag, Ordering::Relaxed), in_maintenance)
    }

    /// The flag was put up or down, and has shown this before.
    pub open spec fn switched(self, in_maintenance: bool, before: bool) -> bool {
        call_ensures(AtomicBool::swap, (&self.flag, in_maintenance, Ordering::Relaxed), before)
    }
}

impl<B> View for SharedProbeState<B> {
    type V = SharedView<B>;

    closed spec fn view(&self) -> SharedView<B> {
        SharedView {
            behavior: self.0.behavior,
            flag: self.0.flag,
            watchdog: self.0.watchdog,
            health_sources: self.0.health_sources@,
        }
    }
}

impl<B> Clone for SharedProbeState<B> {
    /// Share the state: a clone has the same flag, and the same sources.
    fn clone(&self) -> (res: Self)
        ensures
            res@ == self@,
    {
        SharedProbeState(self.0.clone())
    }
}

impl<B> ProbeState<B> {
    /// Make the state shared.
    #[must_use]
    pub fn share(self) -> (shared: SharedProbeState<B>)
        ensures
            shared@.at(self@.in_maintenance) == self@,
            call_ensures(AtomicBool::new, (self@.in_maintenance,), shared@.flag),
    {
        SharedProbeState(
            Arc::new(
                SharedParts {
                    behavior: self.0.behavior,
                    flag: AtomicBool::new(self.0.in_maintenance),
                    watchdog: self.0.watchdog,
                    health_sources: self.0.health_sources,
                },
            ),
        )
    }
}

impl<B> SharedProbeState<B> {
    /// Application behavior, which probes are answered by.
    pub fn behavior(&self) -> (behavior: &B)
        ensures
            *behavior == self@.behavior,
    {
        &self.0.behavior
    }

    /// Aggregate readiness over the maintenance flag and all health sources.
    ///
    /// The flag can be switched from another thread at any time, so it is not said what it shows.
    pub fn is_ready(&self) -> (res: bool)
        ensures
            exists|in_maintenance: bool, answers: Seq<bool>|
                {
                    &&& self@.shows(in_maintenance)
                    &&& #[trigger] self@.at(in_maintenance).readiness(answers, res)
                },
    {
        let in_maintenance: bool = self.0.flag.load(Ordering::Relaxed);
        let answers: Vec<bool> = poll_ready(in_maintenance, &self.0.health_sources);
        let res: bool = !in_maintenance && all_of(&answers);
        assert(self@.at(in_maintenance).readiness(answers@, res));
        res
    }

    /// Aggregate liveness over the watchdog and all health sources. Maintenance mode plays no
    /// part in it.
    pub fn is_alive(&self) -> (res: bool)
        ensures
            exists|watchdog: bool, answers: Seq<bool>| #[trigger]
                self@.at(false).liveness(watchdog, answers, res),
    {
        let watchdog: bool = poll_watchdog(&self.0.watchdog);
        let answers: Vec<bool> = poll_alive(watchdog, &self.0.health_sources);
        let res: bool = watchdog && all_of(&answers);
        assert(self@.at(false).liveness(watchdog, answers@, res));
        res
    }

    /// Readiness probe handler.
    pub fn readiness_probe(&self) -> (res: ProbeResponse)
        ensures
            exists|in_maintenance: bool, answers: Seq<bool>, ready: bool|
                {
                    &&& self@.shows(in_maintenance)
                    &&& #[trigger] self@.at(in_maintenance).readiness(answers, ready)
                    &&& res == probe_response(ready)
                },
    {
        respond(self.is_ready())
    }

    /// Liveness probe handler.
    pub fn liveness_probe(&self) -> (res: ProbeResponse)
        ensures
            exists|watchdog: bool, answers: Seq<bool>, alive: bool| #[trigger]
                self@.at(false).liveness(watchdog, answers, alive) && res == probe_response(alive),
    {
        respond(self.is_alive())
    }

    /// Enable maintenance mode, for all clones.
    pub fn maintenance_on(&self) -> (res: MaintenanceResponse)
        ensures
            exists|before: bool| #[trigger]
                self@.switched(true, before) && res.follows(
                    !before,
                    "maintenance mode enabled"@,
                ),
    {
        let before: bool = self.0.flag.swap(true, Ordering::Relaxed);
        assert(self@.switched(true, before));
        MaintenanceResponse {
            status: OK,
            log: if !before {
                Some("maintenance mode enabled")
            } else {
                None
            },
        }
    }

    /// Disable maintenance mode, for all clones.
    pub fn maintenance_off(&self) -> (res: MaintenanceResponse)
        ensures
            exists|before: bool| #[trigger]
                self@.switched(false, before) && res.follows(
                    before,
                    "maintenance mode disabled"@,
                ),
    {
        let before: bool = self.0.flag.swap(false, Ordering::Relaxed);
        assert(self@.switched(false, before));
        MaintenanceResponse {
            status: OK,
            log: if before {
                Some("maintenance mode disabled")
            } else {
                None
            },
        }
    }
}

/// Clones share one state: a switch made through one of them is a switch of the other, and what
/// one of them finds out about readiness or liveness, the other could have found out as well.
pub proof fn lemma_clones_share<B>(
    state: SharedView<B>,
    copy: SharedView<B>,
    in_maintenance: bool,
    before: bool,
    watchdog: bool,
    answers: Seq<bool>,
    res: bool,
)
    requires
        state == copy,
    ensures
        state.switched(in_maintenance, before) == copy.switched(in_maintenance, before),
        state.shows(in_maintenance) == copy.shows(in_maintenance),
        state.at(in_maintenance).readiness(answers, res) == copy.at(in_maintenance).readiness(
            answers,
            res,
        ),
        state.at(in_maintenance).liveness(watchdog, answers, res) == copy.at(
            in_maintenance,
        ).liveness(watchdog, answers, res),
{
}

/// Maintenance mode after a number of switches, made through any holders of the state.
pub open spec fn after_switches<B>(state: ProbeView<B>, switches: Seq<bool>) -> ProbeView<B>
    decreases switches.len(),
{
    if switches.len() == 0 {
        state
    } else {
        after_switches(state, switches.drop_last()).with_maintenance(switches.last())
    }
}

/// Out of any number of switches the last one counts, whoever has made it. Nothing else changes.
pub proof fn lemma_last_switch_counts<B>(
    state: ProbeView<B>,
    switches: Seq<bool>,
    answers: Seq<bool>,
)
    ensures
        after_switches(state, switches) == state.with_maintenance(
            if switches.len() == 0 {
                state.in_maintenance
            } else {
                switches.last()
            },
        ),
        after_switches(state, switches).ready(answers) == (!(if switches.len() == 0 {
            state.in_maintenance
        } else {
            switches.last()
        }) && all_true(answers)),
    decreases switches.len(),
{
    if switches.len() > 0 {
        lemma_last_switch_counts(state, switches.drop_last(), answers);
    }
}

/// Clones answer alike: whichever of them maintenance mode was switched through, and however many
/// times, for one set of answers of the watchdog and of health sources both of them find the
/// service ready, or neither does, and both of them find it alive, or neither does. They are ready
/// if the last switch has disabled maintenance mode, and every health source is ready.
pub proof fn lemma_clones_answer_alike<B>(
    state: SharedView<B>,
    copy: SharedView<B>,
    in_maintenance: bool,
    switches: Seq<bool>,
    watchdog: bool,
    answers: Seq<bool>,
    ready: bool,
    copy_ready: bool,
    alive: bool,
    copy_alive: bool,
)
    requires
        state == copy,
        after_switches(state.at(in_maintenance), switches).readiness(answers, ready),
        after_switches(copy.at(in_maintenance), switches).readiness(answers, copy_ready),
        after_switches(state.at(in_maintenance), switches).liveness(watchdog, answers, alive),
        after_switches(copy.at(in_maintenance), switches).liveness(watchdog, answers, copy_alive),
    ensures
        ready == copy_ready,
        ready == (!(if switches.len() == 0 {
            in_maintenance
        } else {
            switches.last()
        }) && all_true(answers)),
        alive == copy_alive,
{
    lemma_last_switch_counts(state.at(in_maintenance), switches, answers);
}

/// Maintenance overrides even ready sources, and has no effect on liveness.
pub proof fn lemma_maintenance_overrides<B>(
    state: ProbeView<B>,
    watchdog: bool,
    answers: Seq<bool>,
)
    ensures
        !state.with_maintenance(true).ready(answers),
        state.with_maintenance(false).ready(answers) == all_true(answers),
        state.with_maintenance(true).alive(watchdog, answers) == state.alive(watchdog, answers),
        state.with_maintenance(false).alive(watchdog, answers) == state.alive(watchdog, answers),
{
}

/// Sources are AND-ed together: one negative answer is enough to fail a probe, whatever the
/// others are.
pub proof fn lemma_one_negative_fails<B>(
    state: ProbeView<B>,
    watchdog: bool,
    answers: Seq<bool>,
    index: int,
)
    requires
        0 <= index < answers.len(),
        !answers[index],
    ensures
        !state.ready(answers),
        !state.alive(watchdog, answers),
{
}

/// Probes depend on the first negative answer alone: it makes no difference that sources after
/// it are not asked.
pub proof fn lemma_rest_not_asked<B>(
    state: ProbeView<B>,
    watchdog: bool,
    answers: Seq<bool>,
    asked: Seq<bool>,
)
    requires
        asked_in_order(asked, answers.len()),
        asked == answers.take(asked.len() as int),
    ensures
        state.ready(asked) == state.ready(answers),
        state.alive(watchdog, asked) == state.alive(watchdog, answers),
{
    if all_true(asked) {
        assert(asked == answers);
    } else {
        let i = choose|i: int| 0 <= i < asked.len() && !(#[trigger] asked[i]);
        assert(!answers[i]);
    }
}

/// A service is found ready if and only if it is not in maintenance, and every health source was
/// asked and has said that it is ready. If it is not in maintenance and is not found ready, there is
/// a source that has said that it is not ready, and every one before it has said that it is.
pub proof fn lemma_readiness<B>(state: ProbeView<B>, answers: Seq<bool>, ready: bool)
    requires
        state.readiness(answers, ready),
    ensures
        state.in_maintenance ==> !ready,
        ready ==> answers.len() == state.health_sources.len() && forall|i: int|
            0 <= i < state.health_sources.len() ==> says_ready(
                &*#[trigger] state.health_sources[i],
                true,
            ),
        !ready && !state.in_maintenance ==> 0 < answers.len() <= state.health_sources.len()
            && says_ready(&*state.health_sources[answers.len() - 1], false) && forall|i: int|
            0 <= i < answers.len() - 1 ==> says_ready(
                &*#[trigger] state.health_sources[i],
                true,
            ),
{
    if ready {
        assert forall|i: int| 0 <= i < state.health_sources.len() implies says_ready(
            &*#[trigger] state.health_sources[i],
            true,
        ) by {
            assert(answers[i]);
        }
    } else if !state.in_maintenance {
        let init = answers.drop_last();
        assert forall|i: int| 0 <= i < answers.len() - 1 implies says_ready(
            &*#[trigger] state.health_sources[i],
            true,
        ) by {
            assert(init[i]);
            assert(answers[i]);
        }
        let bad = choose|i: int| 0 <= i < answers.len() && !(#[trigger] answers[i]);
        if bad < answers.len() - 1 {
            assert(init[bad]);
        }
        assert(!answers[answers.len() - 1]);
    }
}

/// A service is found alive if and only if the watchdog, if there is one, has said that the runtime
/// is functioning, and every health source was asked and has said that it is alive, whether or not
/// the service is in maintenance. If it is not found alive, either the watchdog has said otherwise,
/// or there is a source that has said that it is not alive, and every one before it has said that
/// it is.
pub proof fn lemma_liveness<B>(
    state: ProbeView<B>,
    watchdog: bool,
    answers: Seq<bool>,
    alive: bool,
)
    requires
        state.liveness(watchdog, answers, alive),
    ensures
        alive && state.watchdog is Some ==> vouches(&*state.watchdog->0.inner, true),
        alive ==> answers.len() == state.health_sources.len() && forall|i: int|
            0 <= i < state.health_sources.len() ==> says_alive(
                &*#[trigger] state.health_sources[i],
                true,
            ),
        !alive ==> state.watchdog is Some && vouches(&*state.watchdog->0.inner, false) || 0
            < answers.len() <= state.health_sources.len() && says_alive(
            &*state.health_sources[answers.len() - 1],
            false,
        ) && forall|i: int|
            0 <= i < answers.len() - 1 ==> says_alive(
                &*#[trigger] state.health_sources[i],
                true,
            ),
{
    if alive {
        assert forall|i: int| 0 <= i < state.health_sources.len() implies says_alive(
            &*#[trigger] state.health_sources[i],
            true,
        ) by {
            assert(answers[i]);
        }
    } else if watchdog || state.watchdog is None {
        let init = answers.drop_last();
        assert forall|i: int| 0 <= i < answers.len() - 1 implies says_alive(
            &*#[trigger] state.health_sources[i],
            true,
        ) by {
            assert(init[i]);
            assert(answers[i]);
        }
        let bad = choose|i: int| 0 <= i < answers.len() && !(#[trigger] answers[i]);
        if bad < answers.len() - 1 {
            assert(init[bad]);
        }
        assert(!answers[answers.len() - 1]);
    }
}

/// Answers that were given decide about readiness: it takes all of them to be positive, and no
/// maintenance.
pub proof fn lemma_ready_with<B>(state: ProbeView<B>, answers: Seq<bool>)
    ensures
        state.ready(answers) <==> !state.in_maintenance && !answers.contains(false),
{
    if answers.contains(false) {
        let i = answers.index_of(false);
        assert(!answers[i]);
    } else {
        assert forall|i: int| 0 <= i < answers.len() implies #[trigger] answers[i] by {
            if !answers[i] {
                assert(answers.contains(false));
            }
        }
    }
}

/// Answers that were given decide about liveness: it takes all of them to be positive, that of the
/// watchdog included if there is one.
pub proof fn lemma_alive_with<B>(state: ProbeView<B>, watchdog: bool, answers: Seq<bool>)
    ensures
        state.alive(watchdog, answers) <==> (state.watchdog is None || watchdog)
            && !answers.contains(false),
{
    if answers.contains(false) {
        let i = answers.index_of(false);
        assert(!answers[i]);
    } else {
        assert forall|i: int| 0 <= i < answers.len() implies #[trigger] answers[i] by {
            if !answers[i] {
                assert(answers.contains(false));
            }
        }
    }
}

/// Switching maintenance mode sets the flag, and changes nothing else.
pub proof fn lemma_switch<B>(state: ProbeView<B>, in_maintenance: bool)
    ensures
        ({
            let next = state.with_maintenance(in_maintenance);
            &&& next.in_maintenance == in_maintenance
            &&& next.behavior == state.behavior
            &&& next.watchdog == state.watchdog
            &&& next.health_sources == state.health_sources
        }),
{
}

/// A request to switch maintenance mode always succeeds, and is logged if and only if it has
/// changed something.
pub proof fn lemma_maintenance_response(
    response: MaintenanceResponse,
    changed: bool,
    message: Seq<char>,
)
    requires
        response.follows(changed, message),
    ensures
        response.status == 200,
        response.log is Some <==> changed,
        response.log is Some ==> response.log->0@ == message,
{
}

/// A probe is answered by the application if everything is well, and by a bare status code of an
/// unavailable service if it is not.
pub proof fn lemma_probe_response(well: bool)
    ensures
        probe_response(well) == ProbeResponse::Custom <==> well,
        probe_response(well) == ProbeResponse::Status(503) <==> !well,
{
}

/// A route has the path it was given. Probes are read by anyone, and maintenance mode is switched
/// by requests of another method, from those who were granted the permission.
pub proof fn lemma_route(route: ProbeRoute, endpoint: Endpoint, path: Seq<char>)
    requires
        route.leads_to(endpoint, path),
    ensures
        ({
            let probe = endpoint == Endpoint::Readiness || endpoint == Endpoint::Liveness;
            &&& route.path@ == path
            &&& route.endpoint == endpoint
            &&& route.method == RouteMethod::Get <==> probe
            &&& route.method == RouteMethod::Post <==> !probe
            &&& route.permission is None <==> probe
            &&& route.permission is Some ==> route.permission->0@ == "maintenance"@
        }),
{
}

/// Every endpoint has a route of its own, with its configured path.
pub proof fn lemma_routes<W>(config: ProbeConfig<W>, routes: Vec<ProbeRoute>)
    requires
        call_ensures(ProbeConfig::<W>::routes, (&config,), routes),
    ensures
        routes@.len() == 4,
        exists|i: int|
            0 <= i < 4 && (#[trigger] routes@[i]).endpoint == Endpoint::Readiness && routes@[i].path@
                == config.readiness_path@,
        exists|i: int|
            0 <= i < 4 && (#[trigger] routes@[i]).endpoint == Endpoint::Liveness && routes@[i].path@
                == config.liveness_path@,
        exists|i: int|
            0 <= i < 4 && (#[trigger] routes@[i]).endpoint == Endpoint::MaintenanceOn
                && routes@[i].path@ == config.maintenance_on_path@,
        exists|i: int|
            0 <= i < 4 && (#[trigger] routes@[i]).endpoint == Endpoint::MaintenanceOff
                && routes@[i].path@ == config.maintenance_off_path@,
{
    assert(routes@[0].endpoint == Endpoint::Readiness);
    assert(routes@[1].endpoint == Endpoint::Liveness);
    assert(routes@[2].endpoint == Endpoint::MaintenanceOn);
    assert(routes@[3].endpoint == Endpoint::MaintenanceOff);
}

/// A shared state, at a moment when its flag shows something, is a state with that maintenance mode
/// flag, and with the same behavior, watchdog and health sources. Reading the flag and switching it
/// is done to the flag of that state.
pub proof fn lemma_shared_at<B>(state: SharedView<B>, in_maintenance: bool, before: bool)
    ensures
        state.at(in_maintenance).in_maintenance == in_maintenance,
        state.at(in_maintenance).behavior == state.behavior,
        state.at(in_maintenance).watchdog == state.watchdog,
        state.at(in_maintenance).health_sources == state.health_sources,
        state.shows(in_maintenance) ==> call_ensures(
            AtomicBool::load,
            (&state.flag, Ordering::Relaxed),
            in_maintenance,
        ),
        state.switched(in_maintenance, before) ==> call_ensures(
            AtomicBool::swap,
            (&state.flag, in_maintenance, Ordering::Relaxed),
            before,
        ),
{
}

/// A watchdog exists if and only if it is configured, and is then the one that was started from the
/// configuration.
pub proof fn lemma_watches<C: WatchdogConfig + ?Sized>(
    config: Option<&C>,
    watchdog: Option<StartedWatchdog>,
)
    requires
        watches(config, watchdog),
    ensures
        watchdog is Some <==> config is Some,
        config is Some ==> call_ensures(C::start, (config->0,), watchdog->0),
{
}

/// Answers are those that sources and watchdogs give when they are asked.
pub proof fn lemma_asked<S: HealthSource + ?Sized, W: Watchdog + ?Sized>(
    source: &S,
    watchdog: &W,
    answer: bool,
)
    ensures
        says_ready(source, answer) <==> call_ensures(S::is_ready, (source,), answer),
        says_alive(source, answer) <==> call_ensures(S::is_alive, (source,), answer),
        vouches(watchdog, answer) <==> call_ensures(W::is_alive, (watchdog,), answer),
{
}

} // verus!
