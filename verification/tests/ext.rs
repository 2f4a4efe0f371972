use std::borrow::{Borrow, BorrowMut};
use std::time::{Duration, Instant};

use uxum::layers::ext::{Deadline, HandlerName, ListenerInfo, ListenerProtocol};

#[test]
fn handler_name() {
    let name = HandlerName::new("list_users");
    assert_eq!(name.as_str(), "list_users");
    assert_eq!(AsRef::<str>::as_ref(&name), "list_users");
    assert_eq!(&*name, "list_users");
    let borrowed: &str = name.borrow();
    assert_eq!(borrowed, "list_users");
    assert_eq!(name.to_string(), "list_users");
    assert_eq!(name, HandlerName::new("list_users"));
    assert_ne!(name, HandlerName::new("list_user"));
    assert!(name > HandlerName::new("add_user"));
}

#[test]
fn deadline_at_given_instants() {
    let now = Instant::now();
    let deadline = Deadline::from(now + Duration::from_secs(10));
    assert!(!deadline.is_expired_at(now));
    assert_eq!(deadline.time_left_at(now), Some(Duration::from_secs(10)));
    let cutoff = now + Duration::from_secs(10);
    assert!(!deadline.is_expired_at(cutoff));
    assert_eq!(deadline.time_left_at(cutoff), Some(Duration::ZERO));
    let late = now + Duration::from_secs(11);
    assert!(deadline.is_expired_at(late));
    assert!(deadline.is_expired_at(late + Duration::from_secs(1)));
    assert_eq!(deadline.time_left_at(late), None);
}

#[test]
fn deadline_in_the_future_is_not_expired() {
    let deadline = Deadline::from_duration(Duration::from_secs(3600)).unwrap();
    assert!(!deadline.is_expired());
    let left = deadline.time_left().unwrap();
    assert!(left > Duration::from_secs(3500) && left <= Duration::from_secs(3600));
}

#[test]
fn deadline_in_the_past_is_expired() {
    let deadline = Deadline::new();
    while Instant::now() <= *deadline {}
    assert!(deadline.is_expired());
    assert_eq!(deadline.time_left(), None);
    let deadline = Deadline::default();
    while Instant::now() <= *deadline {}
    assert!(deadline.is_expired());
}

#[test]
fn deadline_too_far_away() {
    assert!(Deadline::from_duration(Duration::MAX).is_none());
    let now = Instant::now();
    assert!(Deadline::after(now, Duration::MAX).is_none());
    let deadline = Deadline::after(now, Duration::from_secs(1)).unwrap();
    assert_eq!(*deadline, now + Duration::from_secs(1));
}

#[test]
fn deadline_conversions() {
    let now = Instant::now();
    let mut deadline = Deadline::from(now);
    assert_eq!(*AsRef::<Instant>::as_ref(&deadline), now);
    let borrowed: &Instant = deadline.borrow();
    assert_eq!(*borrowed, now);
    *deadline += Duration::from_secs(1);
    assert_eq!(*deadline, now + Duration::from_secs(1));
    let instant: &mut Instant = deadline.borrow_mut();
    *instant = now;
    assert_eq!(deadline, Deadline::from(now));
    let tokio_now = tokio::time::Instant::from_std(now);
    assert_eq!(Deadline::from(tokio_now), Deadline::from(now));
}

#[test]
fn listener_protocols() {
    let table = [
        (ListenerProtocol::Http, "http", "tcp"),
        (ListenerProtocol::HttpsTls, "https", "tcp"),
        (ListenerProtocol::HttpsSpiffe, "https", "tcp"),
        (ListenerProtocol::Quic, "https", "udp"),
    ];
    for (protocol, scheme, transport) in table {
        assert_eq!(protocol.as_scheme(), scheme);
        assert_eq!(protocol.as_transport(), transport);
    }
}

#[test]
fn listener_info() {
    assert_eq!(ListenerInfo::new_http(1).protocol, ListenerProtocol::Http);
    assert_eq!(ListenerInfo::new_tls(1).protocol, ListenerProtocol::HttpsTls);
    assert_eq!(ListenerInfo::new_spiffe(1).protocol, ListenerProtocol::HttpsSpiffe);
    let info = ListenerInfo::new_quic("[::1]:443");
    assert_eq!(info.protocol, ListenerProtocol::Quic);
    assert_eq!(info.local_addr, "[::1]:443");
    assert_eq!(info.clone(), info);
}
