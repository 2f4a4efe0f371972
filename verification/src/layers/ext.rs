//! Miscellaneous types used as request extensions.

use std::borrow::{Borrow, BorrowMut};
use std::ops::{Deref, DerefMut};
use std::time::{Duration, Instant};

use tokio::time::Instant as TokioInstant;
use vstd::prelude::*;
#[allow(unused_imports)]
use vstd::std_specs::cmp::PartialEqSpec;

#[allow(unused_imports)]
use crate::time::duration_nanos;
use crate::util::str::same_text;

verus! {

/// Point in time.
#[verifier::external_type_specification]
#[verifier::external_body]
pub struct ExInstant(Instant);

/// Point in time, as the runtime keeps it.
#[verifier::external_type_specification]
#[verifier::external_body]
pub struct ExTokioInstant(TokioInstant);

/// Place of an instant on the scale of its clock, in nanoseconds.
pub uninterp spec fn position(instant: Instant) -> int;

/// Instant that comes some time after another one, as [`Instant::checked_add`] gives it. There
/// is none if it is too far in the future.
pub uninterp spec fn moved(instant: Instant, duration: Duration) -> Option<Instant>;

/// Instant that an instant of the runtime stands for, as [`TokioInstant::into_std`] gives it.
pub uninterp spec fn std_instant(instant: TokioInstant) -> Instant;

/// `Instant::now` reads the clock. Nothing is claimed of the result.
pub assume_specification[ Instant::now ]() -> Instant;

/// `Instant::checked_duration_since` measures time from an earlier instant, and finds none if
/// that instant is later.
pub assume_specification[ Instant::checked_duration_since ](
    instant: &Instant,
    earlier: Instant,
) -> (res: Option<Duration>)
    ensures
        res is Some <==> position(earlier) <= position(*instant),
        res is Some ==> duration_nanos(res->0) == position(*instant) - position(earlier),
;

/// `Instant::checked_add` moves an instant into the future by a duration, if the result can be
/// represented. That depends on the instant and on the duration.
pub assume_specification[ Instant::checked_add ](instant: &Instant, duration: Duration) -> (res:
    Option<Instant>)
    ensures
        res == moved(*instant, duration),
        res is Some ==> position(res->0) == position(*instant) + duration_nanos(duration),
;

/// `tokio::time::Instant::into_std` converts an instant of the runtime. The result is a function
/// of the instant.
pub assume_specification[ TokioInstant::into_std ](instant: TokioInstant) -> (res: Instant)
    ensures
        res == std_instant(instant),
;

/// Static handler name.
///
/// This gets attached as an extension to requests and responses for use mainly in middleware
/// layers.
#[derive(Clone, Copy, Debug, Eq, PartialOrd, Ord, Hash)]
pub struct HandlerName(&'static str);

impl View for HandlerName {
    type V = Seq<char>;

    closed spec fn view(&self) -> Seq<char> {
        self.0@
    }
}

impl HandlerName {
    /// Name consists of the characters of a string slice.
    pub open spec fn is_spelled(self, text: &str) -> bool {
        text@ == self@
    }

    /// Construct new [`HandlerName`] from static string slice.
    #[must_use]
    pub fn new(name: &'static str) -> (res: Self)
        ensures
            res@ == name@,
    {
        HandlerName(name)
    }

    /// Get static string slice stored inside.
    #[must_use]
    pub fn as_str(&self) -> (res: &'static str)
        ensures
            res@ == self@,
    {
        self.0
    }

    /// Copy of the string slice stored inside.
    #[must_use]
    pub fn to_string(&self) -> (res: String)
        ensures
            res@ == self@,
    {
        self.0.to_owned()
    }
}

impl PartialEq for HandlerName {
    fn eq(&self, other: &Self) -> (res: bool) {
        same_text(self.0, other.0)
    }
}

impl vstd::std_specs::cmp::PartialEqSpecImpl for HandlerName {
    open spec fn obeys_eq_spec() -> bool {
        true
    }

    open spec fn eq_spec(&self, other: &Self) -> bool {
        self@ == other@
    }
}

/// Two names are equal if and only if they consist of the same characters.
pub proof fn lemma_names_equal(left: HandlerName, right: HandlerName)
    ensures
        HandlerName::obeys_eq_spec(),
        left.eq_spec(&right) <==> left@ == right@,
{
}

impl AsRef<str> for HandlerName {
    fn as_ref(&self) -> (res: &str)
        ensures
            res@ == self@,
    {
        self.0
    }
}

impl Deref for HandlerName {
    type Target = str;

    fn deref(&self) -> (res: &str)
        ensures
            res@ == self@,
    {
        self.0
    }
}

impl Borrow<str> for HandlerName {
    fn borrow(&self) -> (res: &str)
        ensures
            self.is_spelled(res),
    {
        self.0
    }
}

/// Cutoff time after which the request must be timed out.
#[derive(Clone, Copy, Debug, PartialEq, Eq, PartialOrd, Ord, Hash)]
pub struct Deadline(Instant);

impl View for Deadline {
    type V = Instant;

    closed spec fn view(&self) -> Instant {
        self.0
    }
}

impl Deadline {
    /// Deadline is at an instant.
    pub open spec fn falls_at(self, instant: Instant) -> bool {
        self@ == instant
    }

    /// Deadline has passed at an instant.
    pub open spec fn expired_at(self, now: Instant) -> bool {
        position(now) > position(self@)
    }

    /// Time that is left at an instant, in nanoseconds, unless deadline has passed.
    pub open spec fn left_at(self, now: Instant) -> Option<int> {
        if self.expired_at(now) {
            None
        } else {
            Some(position(self@) - position(now))
        }
    }

    /// A duration is the time that is left at an instant.
    pub open spec fn leaves(self, now: Instant, left: Option<Duration>) -> bool {
        match left {
            Some(left) => self.left_at(now) == Some(duration_nanos(left) as int),
            None => self.left_at(now) is None,
        }
    }

    /// Deadline comes some time after an instant.
    pub open spec fn follows(self, now: Instant, left: Duration) -> bool {
        &&& Some(self@) == moved(now, left)
        &&& position(self@) == position(now) + duration_nanos(left)
    }

    /// Construct new [`Deadline`] with zero time left.
    ///
    /// The instant is whatever the clock reads.
    #[must_use]
    pub fn new() -> (res: Self)
        ensures
            call_ensures(Instant::now, (), res@),
    {
        Deadline(Instant::now())
    }

    /// Construct new [`Deadline`] with some time left from an instant.
    ///
    /// Returns [`None`] if it would be too far in the future.
    #[must_use]
    pub fn after(now: Instant, left: Duration) -> (res: Option<Self>)
        ensures
            res is Some <==> moved(now, left) is Some,
            res matches Some(deadline) ==> deadline.follows(now, left),
    {
        match now.checked_add(left) {
            Some(instant) => Some(Deadline(instant)),
            None => None,
        }
    }

    /// Construct new [`Deadline`] with some time left.
    ///
    /// Returns [`None`] if it would be too far in the future.
    #[must_use]
    pub fn from_duration(left: Duration) -> (res: Option<Self>)
        ensures
            exists|now: Instant|
                {
                    &&& #[trigger] call_ensures(Instant::now, (), now)
                    &&& res is Some <==> moved(now, left) is Some
                    &&& res matches Some(deadline) ==> deadline.follows(now, left)
                },
    {
        Deadline::after(Instant::now(), left)
    }

    /// Check if deadline has passed at an instant.
    #[must_use]
    pub fn is_expired_at(&self, now: Instant) -> (res: bool)
        ensures
            res == self.expired_at(now),
    {
        self.0.checked_duration_since(now).is_none()
    }

    /// Check if deadline has passed.
    #[must_use]
    pub fn is_expired(&self) -> (res: bool)
        ensures
            exists|now: Instant|
                {
                    &&& #[trigger] call_ensures(Instant::now, (), now)
                    &&& res == self.expired_at(now)
                },
    {
        self.is_expired_at(Instant::now())
    }

    /// Get time remaining at an instant.
    ///
    /// Returns [`None`] if deadline has passed.
    #[must_use]
    pub fn time_left_at(&self, now: Instant) -> (res: Option<Duration>)
        ensures
            self.leaves(now, res),
    {
        self.0.checked_duration_since(now)
    }

    /// Get remaining time.
    ///
    /// Returns [`None`] if deadline has passed.
    #[must_use]
    pub fn time_left(&self) -> (res: Option<Duration>)
        ensures
            exists|now: Instant|
                {
                    &&& #[trigger] call_ensures(Instant::now, (), now)
                    &&& self.leaves(now, res)
                },
    {
        self.time_left_at(Instant::now())
    }
}

/// Deadline that has passed stays so: it has passed at every later instant.
pub proof fn lemma_stays_expired(deadline: Deadline, now: Instant, later: Instant)
    requires
        deadline.expired_at(now),
        position(now) <= position(later),
    ensures
        deadline.expired_at(later),
        deadline.left_at(later) is None,
{
}

/// While deadline has not passed, time that is left decreases by as much as has gone by.
pub proof fn lemma_time_left_decreases(deadline: Deadline, now: Instant, later: Instant)
    requires
        !deadline.expired_at(later),
        position(now) <= position(later),
    ensures
        !deadline.expired_at(now),
        deadline.left_at(later)->0 == deadline.left_at(now)->0 - (position(later) - position(now)),
{
}

/// Deadline with some time left from an instant has not passed at that instant, and has exactly
/// that time left.
pub proof fn lemma_deadline_after(deadline: Deadline, now: Instant, left: Duration)
    requires
        deadline.follows(now, left),
    ensures
        !deadline.expired_at(now),
        deadline.leaves(now, Some(left)),
{
}

impl Default for Deadline {
    fn default() -> (res: Self)
        ensures
            call_ensures(Instant::now, (), res@),
    {
        Deadline::new()
    }
}

impl From<Instant> for Deadline {
    fn from(value: Instant) -> (res: Self)
        ensures
            res@ == value,
    {
        Deadline(value)
    }
}

impl vstd::std_specs::convert::FromSpecImpl<Instant> for Deadline {
    open spec fn obeys_from_spec() -> bool {
        true
    }

    closed spec fn from_spec(value: Instant) -> Self {
        Deadline(value)
    }
}

impl From<TokioInstant> for Deadline {
    fn from(value: TokioInstant) -> (res: Self)
        ensures
            res@ == std_instant(value),
    {
        Deadline(value.into_std())
    }
}

impl vstd::std_specs::convert::FromSpecImpl<TokioInstant> for Deadline {
    open spec fn obeys_from_spec() -> bool {
        true
    }

    closed spec fn from_spec(value: TokioInstant) -> Self {
        Deadline(std_instant(value))
    }
}

impl AsRef<Instant> for Deadline {
    fn as_ref(&self) -> (res: &Instant)
        ensures
            *res == self@,
    {
        &self.0
    }
}

impl Deref for Deadline {
    type Target = Instant;

    fn deref(&self) -> (res: &Instant)
        ensures
            *res == self@,
    {
        &self.0
    }
}

impl Borrow<Instant> for Deadline {
    fn borrow(&self) -> (res: &Instant)
        ensures
            self.falls_at(*res),
    {
        &self.0
    }
}

impl BorrowMut<Instant> for Deadline {
    fn borrow_mut(&mut self) -> (res: &mut Instant)
        ensures
            old(self).falls_at(*res),
            final(self).falls_at(*final(res)),
    {
        &mut self.0
    }
}

impl DerefMut for Deadline {
    fn deref_mut(&mut self) -> (res: &mut Instant)
        ensures
            *res == old(self)@,
            final(self)@ == *final(res),
    {
        &mut self.0
    }
}

/// Describes listener's protocol and its features.
#[derive(Clone, Copy, Debug, PartialEq, Eq, Structural)]
pub enum ListenerProtocol {
    /// Plain HTTP over TCP.
    Http,
    /// HTTP over TLS over TCP using static preconfigured certificates.
    HttpsTls,
    /// HTTP over TLS over TCP using SPIFFE-distributed certificates.
    HttpsSpiffe,
    /// QUIC over UDP using static preconfigured certificates.
    Quic,
}

impl ListenerProtocol {
    /// Get URL scheme formatted as OpenTelemetry attribute value.
    pub fn as_scheme(&self) -> (res: &'static str)
        ensures
            res@ == if *self is Http {
                "http"@
            } else {
                "https"@
            },
    {
        match self {
            ListenerProtocol::Http => "http",
            ListenerProtocol::HttpsTls
            | ListenerProtocol::HttpsSpiffe
            | ListenerProtocol::Quic => "https",
        }
    }

    /// Get transport protocol formatted as OpenTelemetry attribute value.
    pub fn as_transport(&self) -> (res: &'static str)
        ensures
            res@ == if *self is Quic {
                "udp"@
            } else {
                "tcp"@
            },
    {
        match self {
            ListenerProtocol::Quic => "udp",
            _ => "tcp",
        }
    }
}

/// This structure is registered as an extension for every request via a custom acceptor.
#[derive(Clone, Debug, PartialEq, Eq)]
pub struct ListenerInfo<A> {
    /// Listener protocol.
    pub protocol: ListenerProtocol,
    /// Local listening address and port, if applicable.
    pub local_addr: A,
}

impl<A> ListenerInfo<A> {
    /// Create listener info object for plain HTTP over TCP.
    pub fn new_http(local_addr: A) -> (res: Self)
        ensures
            res == (ListenerInfo { protocol: ListenerProtocol::Http, local_addr }),
    {
        ListenerInfo { protocol: ListenerProtocol::Http, local_addr }
    }

    /// Create listener info object for HTTP over TLS over TCP.
    pub fn new_tls(local_addr: A) -> (res: Self)
        ensures
            res == (ListenerInfo { protocol: ListenerProtocol::HttpsTls, local_addr }),
    {
        ListenerInfo { protocol: ListenerProtocol::HttpsTls, local_addr }
    }

    /// Create listener info object for HTTP over SPIFFE/TLS over TCP.
    pub fn new_spiffe(local_addr: A) -> (res: Self)
        ensures
            res == (ListenerInfo { protocol: ListenerProtocol::HttpsSpiffe, local_addr }),
    {
        ListenerInfo { protocol: ListenerProtocol::HttpsSpiffe, local_addr }
    }

    /// Create listener info object for QUIC over UDP.
    pub fn new_quic(local_addr: A) -> (res: Self)
        ensures
            res == (ListenerInfo { protocol: ListenerProtocol::Quic, local_addr }),
    {
        ListenerInfo { protocol: ListenerProtocol::Quic, local_addr }
    }
}

/// Deadline has passed at an instant if and only if the instant comes after it, and there is no time
/// left then. Otherwise the time that is left is exactly that from the instant to the deadline.
pub proof fn lemma_deadline_at(
    deadline: Deadline,
    now: Instant,
    expired: bool,
    left: Option<Duration>,
)
    requires
        call_ensures(Deadline::is_expired_at, (&deadline, now), expired),
        call_ensures(Deadline::time_left_at, (&deadline, now), left),
    ensures
        expired <==> position(now) > position(deadline@),
        left is None <==> expired,
        left is Some ==> position(now) + duration_nanos(left->0) == position(deadline@),
{
}

/// Whatever the clock reads, deadline has passed if and only if that comes after it.
pub proof fn lemma_deadline_now(deadline: Deadline, expired: bool, left: Option<Duration>)
    requires
        call_ensures(Deadline::is_expired, (&deadline,), expired),
        call_ensures(Deadline::time_left, (&deadline,), left),
    ensures
        exists|now: Instant| #[trigger]
            call_ensures(Instant::now, (), now) && (expired <==> position(now) > position(
                deadline@,
            )),
        exists|now: Instant| #[trigger]
            call_ensures(Instant::now, (), now) && (left is None <==> position(now) > position(
                deadline@,
            )) && (left is Some ==> position(now) + duration_nanos(left->0) == position(deadline@)),
{
}

/// Deadline that is made some time after an instant comes exactly that time after it. It is not
/// made if and only if there is no such instant.
pub proof fn lemma_made_after(now: Instant, left: Duration, deadline: Option<Deadline>)
    requires
        call_ensures(Deadline::after, (now, left), deadline),
    ensures
        deadline is Some <==> moved(now, left) is Some,
        deadline is Some ==> position(deadline->0@) == position(now) + duration_nanos(left),
{
}

/// Deadline with some time left comes exactly that time after what the clock reads.
pub proof fn lemma_made_from_duration(left: Duration, deadline: Option<Deadline>)
    requires
        call_ensures(Deadline::from_duration, (left,), deadline),
    ensures
        exists|now: Instant| #[trigger]
            call_ensures(Instant::now, (), now) && (deadline is Some <==> moved(now, left) is Some)
                && (deadline is Some ==> position(deadline->0@) == position(now) + duration_nanos(
                left,
            )),
{
}

/// What is borrowed from a name consists of its characters, and what is borrowed from a deadline is
/// its instant.
pub proof fn lemma_borrowed(name: HandlerName, text: &str, deadline: Deadline, instant: Instant)
    ensures
        name.is_spelled(text) <==> text@ == name@,
        deadline.falls_at(instant) <==> instant == deadline@,
{
}

/// Reading a name, and copying it, gives the text that it was made from.
pub proof fn lemma_name_texts(
    text: &'static str,
    name: HandlerName,
    slice: &'static str,
    copy: String,
)
    requires
        call_ensures(HandlerName::new, (text,), name),
        call_ensures(HandlerName::as_str, (&name,), slice),
        call_ensures(HandlerName::to_string, (&name,), copy),
    ensures
        slice@ == text@,
        copy@ == text@,
{
}

} // verus!
