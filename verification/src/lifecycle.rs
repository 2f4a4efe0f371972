//! Generic service lifecycle participation API.
//!
//! Components that take part in service lifecycle have their startup and shutdown orchestrated
//! by [`crate::handle::Handle`], ordered around the HTTP server's listen and drain points.

use tokio_util::sync::CancellationToken;
use vstd::prelude::*;

#[allow(unused_imports)]
use crate::util::cancel::{answers, lemma_answered};
use crate::util::cancel::{cancel, is_cancelled, Cancelled};
use crate::util::str::{as_slice, joined};
#[allow(unused_imports)]
use crate::util::str::{framed_alike, lemma_framed_alike, opt_slice, opt_text};

verus! {

/// Error type returned by lifecycle participants.
#[derive(Debug)]
#[non_exhaustive]
pub enum LifecycleError {
    /// Participant failed to start.
    Start(String),
    /// Participant failed to shut down cleanly.
    Shutdown(String),
}

impl LifecycleError {
    /// Text of the error.
    pub open spec fn text(self) -> Seq<char> {
        match self {
            LifecycleError::Start(err) => "Lifecycle participant failed to start: "@ + err@,
            LifecycleError::Shutdown(err) => "Lifecycle participant failed to shut down: "@ + err@,
        }
    }

    /// Wrap a custom startup error.
    #[must_use]
    pub fn start(err: String) -> (res: Self)
        ensures
            res == LifecycleError::Start(err),
    {
        LifecycleError::Start(err)
    }

    /// Wrap a custom shutdown error.
    #[must_use]
    pub fn shutdown(err: String) -> (res: Self)
        ensures
            res == LifecycleError::Shutdown(err),
    {
        LifecycleError::Shutdown(err)
    }

    /// Format the error for display.
    pub fn message(&self) -> (res: String)
        ensures
            res@ == self.text(),
    {
        match self {
            LifecycleError::Start(err) => joined("Lifecycle participant failed to start: ", err),
            LifecycleError::Shutdown(err) => joined(
                "Lifecycle participant failed to shut down: ",
                err,
            ),
        }
    }
}

/// Context passed to lifecycle participants during startup.
#[derive(Clone, Debug)]
pub struct LifecycleContext {
    /// Root cancellation token of the service.
    root_token: CancellationToken,
    /// Trigger used to request service-wide graceful shutdown.
    shutdown_trigger: CancellationToken,
    /// Application name, if configured.
    app_name: Option<String>,
    /// Application version, if configured.
    app_version: Option<String>,
}

/// Mathematical model of [`LifecycleContext`].
#[verifier::ext_equal]
pub struct ContextView {
    /// Root cancellation token of the service.
    pub root_token: CancellationToken,
    /// Trigger used to request service-wide graceful shutdown.
    pub shutdown_trigger: CancellationToken,
    /// Application name, if configured.
    pub app_name: Option<Seq<char>>,
    /// Application version, if configured.
    pub app_version: Option<Seq<char>>,
}

impl View for LifecycleContext {
    type V = ContextView;

    closed spec fn view(&self) -> ContextView {
        ContextView {
            root_token: self.root_token,
            shutdown_trigger: self.shutdown_trigger,
            app_name: opt_text(self.app_name),
            app_version: opt_text(self.app_version),
        }
    }
}

impl LifecycleContext {
    /// Create a new lifecycle context.
    ///
    /// Normally constructed by [`crate::handle::Handle`]. Public so participants can be
    /// driven directly in tests or from other frameworks.
    #[must_use]
    pub fn new(root_token: CancellationToken, shutdown_trigger: CancellationToken) -> (ctx: Self)
        ensures
            ctx@ == (ContextView { root_token, shutdown_trigger, app_name: None, app_version: None }),
    {
        LifecycleContext { root_token, shutdown_trigger, app_name: None, app_version: None }
    }

    /// Set application name.
    #[must_use]
    pub fn with_app_name(self, name: &str) -> (ctx: Self)
        ensures
            ctx@ == (ContextView { app_name: Some(name@), ..self@ }),
    {
        let mut ctx = self;
        ctx.app_name = Some(name.to_owned());
        ctx
    }

    /// Set application version.
    #[must_use]
    pub fn with_app_version(self, version: &str) -> (ctx: Self)
        ensures
            ctx@ == (ContextView { app_version: Some(version@), ..self@ }),
    {
        let mut ctx = self;
        ctx.app_version = Some(version.to_owned());
        ctx
    }

    /// Root cancellation token; cancelled when the service is torn down.
    #[must_use]
    pub fn root_token(&self) -> (token: &CancellationToken)
        ensures
            *token == self@.root_token,
    {
        &self.root_token
    }

    /// Request service-wide graceful shutdown.
    ///
    /// Idempotent; safe to call from any task at any time after startup. The result tells which
    /// token was cancelled.
    pub fn request_shutdown(&self) -> (cancelled: Cancelled)
        ensures
            cancelled@ == self@.shutdown_trigger,
    {
        cancel(&self.shutdown_trigger)
    }

    /// Whether service-wide shutdown has been requested.
    ///
    /// The answer is that of the shutdown trigger. It can be cancelled from another thread at any
    /// time, so no more is said of it.
    #[must_use]
    pub fn is_shutdown_requested(&self) -> (res: bool)
        ensures
            answers(self@.shutdown_trigger, res),
    {
        let res: bool = is_cancelled(&self.shutdown_trigger, None);
        proof {
            lemma_answered(self.shutdown_trigger, None, res);
        }
        res
    }

    /// Whether service-wide shutdown has been requested, after a request that may have been made
    /// through this context, or through any other context with the same shutdown trigger.
    ///
    /// If it was, the answer is positive, and stays so.
    #[must_use]
    pub fn is_shutdown_requested_since(&self, request: &Cancelled) -> (res: bool)
        ensures
            answers(self@.shutdown_trigger, res),
            request@ == self@.shutdown_trigger ==> res,
    {
        let res: bool = is_cancelled(&self.shutdown_trigger, Some(request));
        proof {
            lemma_answered(self.shutdown_trigger, Some(request), res);
        }
        res
    }

    /// Application name, if configured.
    #[must_use]
    pub fn app_name(&self) -> (name: Option<&str>)
        ensures
            opt_slice(name) == self@.app_name,
    {
        as_slice(&self.app_name)
    }

    /// Application version, if configured.
    #[must_use]
    pub fn app_version(&self) -> (version: Option<&str>)
        ensures
            opt_slice(version) == self@.app_version,
    {
        as_slice(&self.app_version)
    }
}

/// Text of an error holds the text of what has caused it, behind the same words whatever that is.
pub proof fn lemma_lifecycle_texts(left: String, right: String)
    ensures
        framed_alike(
            LifecycleError::Start(left).text(),
            left@,
            LifecycleError::Start(right).text(),
            right@,
        ),
        framed_alike(
            LifecycleError::Shutdown(left).text(),
            left@,
            LifecycleError::Shutdown(right).text(),
            right@,
        ),
{
    lemma_framed_alike("Lifecycle participant failed to start: "@, left@, right@);
    lemma_framed_alike("Lifecycle participant failed to shut down: "@, left@, right@);
}

/// A context has what it was made from, and gives it back: tokens it was given, and the name and
/// version that were set. Setting one of them does not change anything else.
pub proof fn lemma_context(
    root_token: CancellationToken,
    shutdown_trigger: CancellationToken,
    made: LifecycleContext,
    name: &str,
    named: LifecycleContext,
    version: &str,
    versioned: LifecycleContext,
    read_name: Option<&str>,
    read_version: Option<&str>,
    read_token: &CancellationToken,
)
    requires
        call_ensures(LifecycleContext::new, (root_token, shutdown_trigger), made),
        call_ensures(LifecycleContext::with_app_name, (made, name), named),
        call_ensures(LifecycleContext::with_app_version, (named, version), versioned),
        call_ensures(LifecycleContext::app_name, (&versioned,), read_name),
        call_ensures(LifecycleContext::app_version, (&versioned,), read_version),
        call_ensures(LifecycleContext::root_token, (&versioned,), read_token),
    ensures
        read_name is Some && read_name->0@ == name@,
        read_version is Some && read_version->0@ == version@,
        *read_token == root_token,
        made@.app_name is None && made@.app_version is None,
        named@.app_name == Some(name@) && named@.app_version is None,
        versioned@.app_name == Some(name@) && versioned@.app_version == Some(version@),
        versioned@.root_token == root_token && versioned@.shutdown_trigger == shutdown_trigger,
{
}

} // verus!
