use std::time::Duration;

use retry_policies::Jitter;
use uxum::config::{AppConfig, HttpClients};
use uxum::http_client::retry::{ExponentialBackoffPolicy, FixedIntervalPolicy, RetryPolicyKind};
use uxum::http_client::{AppBuilderError, MetricsSource};

fn app() -> AppConfig<u32> {
    let mut http_clients = HttpClients::new();
    http_clients.insert("first".to_string(), 3);
    http_clients.insert("second".to_string(), 2);
    http_clients.insert("first".to_string(), 1);
    AppConfig {
        app_name: Some("app".to_string()),
        app_version: None,
        http_clients,
        tracing: false,
        metrics: false,
        metrics_state: false,
    }
}

#[test]
fn a_name_has_one_client() {
    let mut clients = HttpClients::new();
    assert_eq!(clients.get("first"), None);
    clients.insert("first".to_string(), 1);
    assert_eq!(clients.get("first"), Some(&1));
    clients.insert("second".to_string(), 2);
    assert_eq!(clients.get("first"), Some(&1));
    assert_eq!(clients.get("second"), Some(&2));
    clients.insert("first".to_string(), 3);
    assert_eq!(clients.get("first"), Some(&3));
    assert_eq!(clients.get("second"), Some(&2));
    assert_eq!(clients.get("First"), None);
}

#[test]
fn configured_client() {
    let app = app();
    let plan = app.http_client("second", false).unwrap();
    assert_eq!(plan.config, Some(&2));
    assert_eq!(plan.app_name.as_deref(), Some("app"));
    assert_eq!(plan.app_version, None);
    assert_eq!(plan.metrics, MetricsSource::Absent);
    assert_eq!(plan.label, "second");
    assert_eq!(app.http_client("first", false).unwrap().config, Some(&1));
    assert_eq!(app.http_clients.get("second"), Some(&2));
}

#[test]
fn absent_client() {
    let app = app();
    assert!(matches!(
        app.http_client("third", true),
        Err(AppBuilderError::HttpClientAbsent(name)) if name == "third"
    ));
    let plan = app.http_client_or_default("third", true);
    assert_eq!(plan.config, None);
    assert_eq!(plan.app_name.as_deref(), Some("app"));
    assert_eq!(plan.metrics, MetricsSource::Given);
    assert_eq!(plan.label, "third");
    assert_eq!(app.http_clients.get(""), None);
}

#[test]
fn default_is_not_used_for_a_configured_client() {
    let app = app();
    let plan = app.http_client_or_default("first", false);
    assert_eq!(plan.config, Some(&1));
    assert_eq!(plan.label, "first");
}

#[test]
fn given_metrics_go_first() {
    let mut app = app();
    app.metrics_state = true;
    assert_eq!(app.http_client("first", true).unwrap().metrics, MetricsSource::Given);
    assert_eq!(app.http_client("first", false).unwrap().metrics, MetricsSource::Shared);
}

#[test]
fn fixed_interval_retries() {
    let policy = FixedIntervalPolicy::new(3, Duration::from_secs(2)).unwrap();
    let mut retries = 0;
    while let Some(delay) = policy.should_retry(retries) {
        assert_eq!(delay, Duration::from_secs(2));
        retries += 1;
    }
    assert_eq!(retries, 3);
    assert_eq!(policy.should_retry(2), Some(Duration::from_secs(2)));
    assert_eq!(policy.should_retry(3), None);
    assert_eq!(policy.should_retry(u32::MAX), None);
    assert!(FixedIntervalPolicy::new(0, Duration::from_secs(2)).is_none());
}

#[test]
fn exponential_backoff_strategy() {
    let policy =
        ExponentialBackoffPolicy::new(5, Duration::from_secs(1), Duration::from_secs(3)).unwrap();
    let strategy = policy.strategy();
    assert_eq!(strategy.max_n_retries, Some(5));
    assert_eq!(strategy.min_retry_interval, Duration::from_secs(1));
    assert_eq!(strategy.max_retry_interval, Duration::from_secs(3));
    assert!(matches!(strategy.jitter, Jitter::Full));
    assert_eq!(strategy.base, 2);
    assert_eq!(policy.checked_strategy(), Some(strategy));
    assert!(
        ExponentialBackoffPolicy::new(0, Duration::from_secs(1), Duration::from_secs(3)).is_none()
    );
}

#[test]
fn exponential_backoff_bounds() {
    let equal =
        ExponentialBackoffPolicy::new(1, Duration::from_secs(3), Duration::from_secs(3)).unwrap();
    assert!(equal.checked_strategy().is_some());
    let reversed =
        ExponentialBackoffPolicy::new(1, Duration::from_nanos(2), Duration::from_nanos(1)).unwrap();
    assert!(reversed.checked_strategy().is_none());
    assert_ne!(
        RetryPolicyKind::ExponentialBackoff(equal),
        RetryPolicyKind::ExponentialBackoff(reversed)
    );
}
