use tokio_util::sync::CancellationToken;
use uxum::lifecycle::{LifecycleContext, LifecycleError};

#[test]
fn request_shutdown_cancels_trigger() {
    let trigger = CancellationToken::new();
    let ctx = LifecycleContext::new(CancellationToken::new(), trigger.clone())
        .with_app_name("app")
        .with_app_version("1.0");
    assert!(!ctx.is_shutdown_requested());
    ctx.request_shutdown();
    assert!(trigger.is_cancelled());
    assert!(ctx.is_shutdown_requested());
    assert_eq!(ctx.app_name(), Some("app"));
    assert_eq!(ctx.app_version(), Some("1.0"));
}

#[test]
fn request_shutdown_is_idempotent_and_leaves_root_alone() {
    let root = CancellationToken::new();
    let ctx = LifecycleContext::new(root.clone(), CancellationToken::new());
    ctx.request_shutdown();
    let cancelled = ctx.request_shutdown();
    assert!(cancelled.token().is_cancelled());
    assert!(ctx.is_shutdown_requested());
    assert!(ctx.is_shutdown_requested_since(&cancelled));
    assert!(ctx.clone().is_shutdown_requested_since(&cancelled));
    let other = LifecycleContext::new(root.clone(), CancellationToken::new());
    assert!(!other.is_shutdown_requested_since(&cancelled));
    assert!(!root.is_cancelled());
    assert!(!ctx.root_token().is_cancelled());
    root.cancel();
    assert!(ctx.root_token().is_cancelled());
}

#[test]
fn context_without_names() {
    let ctx = LifecycleContext::new(CancellationToken::new(), CancellationToken::new());
    assert_eq!(ctx.app_name(), None);
    assert_eq!(ctx.app_version(), None);
}

#[test]
fn lifecycle_error_texts() {
    assert_eq!(
        LifecycleError::start("no database".to_string()).message(),
        "Lifecycle participant failed to start: no database"
    );
    assert_eq!(
        LifecycleError::shutdown("still busy".to_string()).message(),
        "Lifecycle participant failed to shut down: still busy"
    );
    assert!(matches!(
        LifecycleError::start("x".to_string()),
        LifecycleError::Start(err) if err == "x"
    ));
    assert!(matches!(
        LifecycleError::shutdown("x".to_string()),
        LifecycleError::Shutdown(err) if err == "x"
    ));
}
