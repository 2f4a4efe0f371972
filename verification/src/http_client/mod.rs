//! Instrumented HTTP client.

pub mod retry;

use vstd::prelude::*;

use crate::config::AppConfig;
use crate::util::str::copied;
#[allow(unused_imports)]
use crate::util::str::opt_text;

verus! {

/// Error of HTTP client lookup.
#[derive(Debug)]
pub enum AppBuilderError {
    /// HTTP client with that name is not configured.
    HttpClientAbsent(String),
}

/// Where metrics of a client are collected.
#[derive(Clone, Copy, Debug, PartialEq, Eq, Structural)]
pub enum MetricsSource {
    /// In metrics state given by the caller.
    Given,
    /// In metrics state of the application.
    Shared,
    /// Nowhere.
    Absent,
}

/// What an HTTP client is built from.
#[derive(Debug)]
pub struct HttpClientPlan<'a, C> {
    /// Configuration of the client, unless it is the default one.
    pub config: Option<&'a C>,
    /// Application name to set in the configuration.
    pub app_name: Option<String>,
    /// Application version to set in the configuration.
    pub app_version: Option<String>,
    /// Where metrics of the client are collected.
    pub metrics: MetricsSource,
    /// Name under which metrics of the client are collected.
    pub label: String,
}

/// Where metrics of a client are collected: state given by the caller goes first.
pub open spec fn metrics_source(given: bool, shared: bool) -> MetricsSource {
    if given {
        MetricsSource::Given
    } else if shared {
        MetricsSource::Shared
    } else {
        MetricsSource::Absent
    }
}

impl<'a, C> HttpClientPlan<'a, C> {
    /// Everything apart from configuration is taken from the application.
    pub open spec fn follows(self, app: AppConfig<C>, name: Seq<char>, given: bool) -> bool {
        &&& opt_text(self.app_name) == opt_text(app.app_name)
        &&& opt_text(self.app_version) == opt_text(app.app_version)
        &&& self.metrics == metrics_source(given, app.metrics_state)
        &&& self.label@ == name
    }
}

impl<C> AppConfig<C> {
    /// Plan of a client with given configuration.
    fn plan<'a>(&self, config: Option<&'a C>, name: &str, metrics: bool) -> (plan: HttpClientPlan<
        'a,
        C,
    >)
        ensures
            plan.config == config,
            plan.follows(*self, name@, metrics),
    {
        HttpClientPlan {
            config,
            app_name: copied(&self.app_name),
            app_version: copied(&self.app_version),
            metrics: if metrics {
                MetricsSource::Given
            } else if self.metrics_state {
                MetricsSource::Shared
            } else {
                MetricsSource::Absent
            },
            label: name.to_owned(),
        }
    }

    /// Plan of a configured HTTP client.
    ///
    /// # Errors
    ///
    /// Returns `Err` if there is no configuration available.
    pub fn http_client(&self, name: &str, metrics: bool) -> (res: Result<
        HttpClientPlan<'_, C>,
        AppBuilderError,
    >)
        ensures
            match self.client(name@) {
                Some(config) => {
                    &&& res is Ok
                    &&& res->Ok_0.config == Some(&config)
                    &&& res->Ok_0.follows(*self, name@, metrics)
                },
                None => {
                    &&& res is Err
                    &&& res->Err_0 is HttpClientAbsent
                    &&& res->Err_0->0@ == name@
                },
            },
    {
        match self.http_clients.get(name) {
            Some(config) => Ok(self.plan(Some(config), name, metrics)),
            None => Err(AppBuilderError::HttpClientAbsent(name.to_owned())),
        }
    }

    /// Same as [`Self::http_client`], but plans default client if there is no configuration
    /// available.
    pub fn http_client_or_default(&self, name: &str, metrics: bool) -> (plan: HttpClientPlan<
        '_,
        C,
    >)
        ensures
            plan.config == match self.client(name@) {
                Some(config) => Some(&config),
                None => None,
            },
            plan.follows(*self, name@, metrics),
    {
        match self.http_client(name, metrics) {
            Ok(plan) => plan,
            Err(AppBuilderError::HttpClientAbsent(_)) => self.plan(None, name, metrics),
        }
    }
}

/// A plan is made if and only if there is a client of that name, with its configuration, and with
/// the name and version of the application. Its metrics are collected under the name of the client,
/// in the state that the caller has given, or else in that of the application, or else nowhere. The
/// error, if there is none, holds the name that was asked for.
pub proof fn lemma_http_client<'a, C>(
    app: &'a AppConfig<C>,
    name: &str,
    metrics: bool,
    res: Result<HttpClientPlan<'a, C>, AppBuilderError>,
)
    requires
        call_ensures(AppConfig::<C>::http_client, (app, name, metrics), res),
    ensures
        res is Ok <==> app.http_clients@.contains_key(name@),
        res matches Err(AppBuilderError::HttpClientAbsent(absent)) ==> absent@ == name@,
        res matches Ok(plan) ==> {
            &&& plan.config == Some(&app.http_clients@[name@])
            &&& plan.label@ == name@
            &&& opt_text(plan.app_name) == opt_text(app.app_name)
            &&& opt_text(plan.app_version) == opt_text(app.app_version)
            &&& plan.metrics == MetricsSource::Given <==> metrics
            &&& plan.metrics == MetricsSource::Shared <==> !metrics && app.metrics_state
            &&& plan.metrics == MetricsSource::Absent <==> !metrics && !app.metrics_state
        },
{
}

/// With a default to fall back to, the plan is the same if there is a client of that name, and
/// differs in its configuration alone if there is none.
pub proof fn lemma_http_client_or_default<'a, C>(
    app: &'a AppConfig<C>,
    name: &str,
    metrics: bool,
    plan: HttpClientPlan<'a, C>,
)
    requires
        call_ensures(AppConfig::<C>::http_client_or_default, (app, name, metrics), plan),
    ensures
        plan.config is Some <==> app.http_clients@.contains_key(name@),
        plan.config is Some ==> plan.config == Some(&app.http_clients@[name@]),
        plan.label@ == name@,
        opt_text(plan.app_name) == opt_text(app.app_name),
        opt_text(plan.app_version) == opt_text(app.app_version),
        plan.metrics == MetricsSource::Given <==> metrics,
        plan.metrics == MetricsSource::Shared <==> !metrics && app.metrics_state,
        plan.metrics == MetricsSource::Absent <==> !metrics && !app.metrics_state,
{
}

} // verus!
