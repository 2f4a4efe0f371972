//! Appender which passes formatted log messages to the task that sends them to a remote HTTP
//! collector.

use std::time::Duration;

use tokio::sync::mpsc::Receiver;
#[allow(unused_imports)]
use tokio::sync::mpsc::Sender;
use tokio_util::sync::CancellationToken;
use url::Url;
use vstd::prelude::*;
#[allow(unused_imports)]
use vstd::utf8::{decode_utf8, encode_utf8, encode_utf8_decode_utf8, valid_utf8};

#[allow(unused_imports)]
use crate::logging::batch::LoggerState;
use crate::logging::batch::{HttpLog, HttpLoggerTask};
#[allow(unused_imports)]
use crate::logging::queue::{ends_of_queue, Offer};
use crate::logging::queue::{LogSender, QueueError};
use crate::util::str::joined;
#[allow(unused_imports)]
use crate::util::str::{framed_alike, lemma_framed_alike, opt_text};

verus! {

/// Error of reading bytes as text.
#[verifier::external_type_specification]
#[verifier::external_body]
pub struct ExUtf8Error(std::str::Utf8Error);

/// `std::str::from_utf8` reads bytes as text, and succeeds if they are valid UTF-8. The text
/// is encoded by the same bytes.
pub assume_specification[ std::str::from_utf8 ](data: &[u8]) -> (res: Result<
    &str,
    std::str::Utf8Error,
>)
    ensures
        res is Ok <==> valid_utf8(data@),
        res matches Ok(text) ==> encode_utf8(text@) == data@,
;

/// Actually write every Nth failure to stderr, to not overwhelm log collectors such as journald
/// with large volume of spurious errors.
pub const EMIT_NTH_ERROR: u32 = 100;

/// HTTP log appender error.
#[derive(Debug)]
pub enum HttpLogAppenderError {
    /// HTTP client error
    HttpClient(String),
    /// Unable to set up HTTP sender thread
    Thread(String),
    /// Runtime error for HTTP sender thread
    Runtime(String),
    /// Unable to send logs
    Send(String),
}

impl HttpLogAppenderError {
    /// Text of the error.
    pub open spec fn text(self) -> Seq<char> {
        match self {
            HttpLogAppenderError::HttpClient(err) => "HTTP client error: "@ + err@,
            HttpLogAppenderError::Thread(err) => "Unable to set up HTTP sender thread: "@ + err@,
            HttpLogAppenderError::Runtime(err) => "Runtime error for HTTP sender thread: "@ + err@,
            HttpLogAppenderError::Send(err) => "Unable to send logs via HTTP: "@ + err@,
        }
    }

    /// Result of setting up the HTTP sender thread, by how spawning it went.
    pub fn spawned<T>(thread: Result<T, String>) -> (res: Result<T, Self>)
        ensures
            res == match thread {
                Ok(thread) => Ok::<T, Self>(thread),
                Err(err) => Err::<T, Self>(HttpLogAppenderError::Thread(err)),
            },
    {
        match thread {
            Ok(thread) => Ok(thread),
            Err(err) => Err(HttpLogAppenderError::Thread(err)),
        }
    }

    /// Result of setting up the runtime of the HTTP sender thread, by how building it went.
    pub fn built<T>(runtime: Result<T, String>) -> (res: Result<T, Self>)
        ensures
            res == match runtime {
                Ok(runtime) => Ok::<T, Self>(runtime),
                Err(err) => Err::<T, Self>(HttpLogAppenderError::Runtime(err)),
            },
    {
        match runtime {
            Ok(runtime) => Ok(runtime),
            Err(err) => Err(HttpLogAppenderError::Runtime(err)),
        }
    }

    /// Format the error for display.
    pub fn message(&self) -> (res: String)
        ensures
            res@ == self.text(),
    {
        match self {
            HttpLogAppenderError::HttpClient(err) => joined("HTTP client error: ", err),
            HttpLogAppenderError::Thread(err) => joined(
                "Unable to set up HTTP sender thread: ",
                err,
            ),
            HttpLogAppenderError::Runtime(err) => joined(
                "Runtime error for HTTP sender thread: ",
                err,
            ),
            HttpLogAppenderError::Send(err) => joined("Unable to send logs via HTTP: ", err),
        }
    }
}

/// Text that stands for a queue item in error messages.
pub open spec fn item_text(item: HttpLog) -> Seq<char> {
    match item {
        HttpLog::Flush => "log flush request"@,
        HttpLog::Message { data } => "log message: "@ + if valid_utf8(data@) {
            decode_utf8(data@)
        } else {
            "invalid UTF-8 in message"@
        },
    }
}

impl HttpLog {
    /// Format the item for display.
    pub fn message(&self) -> (res: String)
        ensures
            res@ == item_text(*self),
    {
        match self {
            HttpLog::Flush => "log flush request".to_owned(),
            HttpLog::Message { data } => match std::str::from_utf8(data.as_slice()) {
                Ok(text) => {
                    proof {
                        encode_utf8_decode_utf8(text@);
                    }
                    joined("log message: ", text)
                },
                Err(_) => joined("log message: ", "invalid UTF-8 in message"),
            },
        }
    }
}

impl QueueError {
    /// Text that alerts about the error.
    pub open spec fn alert_text(self) -> Seq<char> {
        match self {
            QueueError::Full(item) => "HTTP log queue full: "@ + item_text(item),
            QueueError::Closed(item) => "HTTP log queue closed: "@ + item_text(item),
        }
    }

    /// Format an alert about the error.
    pub fn alert(&self) -> (res: String)
        ensures
            res@ == self.alert_text(),
    {
        match self {
            QueueError::Full(item) => joined("HTTP log queue full: ", item.message().as_str()),
            QueueError::Closed(item) => joined("HTTP log queue closed: ", item.message().as_str()),
        }
    }
}

/// Format of log messages.
#[derive(Clone, Copy, Debug, PartialEq, Eq, Structural)]
pub enum LoggingFormat {
    /// One JSON object per line.
    Json,
    /// Lines of text.
    Text,
}

impl LoggingFormat {
    /// Content type of a request that carries log messages.
    pub open spec fn content_type_text(self) -> Seq<char> {
        match self {
            LoggingFormat::Json => "application/jsonl"@,
            LoggingFormat::Text => "text/plain"@,
        }
    }

    /// Content-type header value to use when sending log messages.
    pub fn content_type(&self) -> (res: &'static str)
        ensures
            res@ == self.content_type_text(),
    {
        match self {
            LoggingFormat::Json => "application/jsonl",
            LoggingFormat::Text => "text/plain",
        }
    }
}

/// HTTP method of requests that carry log messages.
#[derive(Clone, Copy, Debug, PartialEq, Eq, Structural)]
pub enum LoggingHttpMethod {
    /// `POST` request.
    Post,
    /// `PUT` request.
    Put,
    /// `PATCH` request.
    Patch,
}

impl LoggingHttpMethod {
    /// Name of the method.
    pub open spec fn name(self) -> Seq<char> {
        match self {
            LoggingHttpMethod::Post => "POST"@,
            LoggingHttpMethod::Put => "PUT"@,
            LoggingHttpMethod::Patch => "PATCH"@,
        }
    }

    /// Name of the method, as it is sent.
    pub fn as_str(&self) -> (res: &'static str)
        ensures
            res@ == self.name(),
    {
        match self {
            LoggingHttpMethod::Post => "POST",
            LoggingHttpMethod::Put => "PUT",
            LoggingHttpMethod::Patch => "PATCH",
        }
    }
}

/// Configuration of the appender.
#[derive(Clone, Debug)]
pub struct LoggingHttpConfig {
    /// URL to send aggregated logs to.
    pub endpoint: Url,
    /// HTTP method to use when calling [`Self::endpoint`].
    pub method: LoggingHttpMethod,
    /// Number of items that the queue has room for.
    pub queue: usize,
    /// Max count of log messages to batch together and send in a single request.
    pub max_batch_size: usize,
    /// Return errors to the logger when internal queue is full or closed.
    pub back_pressure: bool,
    /// Do not disable tracing spans and events inside HTTP log appender thread if true.
    pub debug: bool,
    /// Do not initiate new HTTP request on receiving flush operation.
    pub ignore_flush: bool,
    /// Enable optional periodic forced flush of accumulated logs.
    pub periodic_flush: Option<Duration>,
}

impl LoggingHttpConfig {
    /// A queue and a batch have room for at least one message, and a queue is not larger than
    /// it can be.
    pub open spec fn wf(self) -> bool {
        &&& 0 < self.queue <= usize::MAX / 8
        &&& 0 < self.max_batch_size
    }
}

/// Parameters passed into log sender thread.
pub struct HttpLogAppenderThread<C> {
    /// Receiver end of message queue.
    pub rx: Receiver<HttpLog>,
    /// Signal thread termination.
    pub token: CancellationToken,
    /// HTTP client to use when calling remote log collector endpoint.
    pub client: C,
    /// URL to send aggregated logs to.
    pub endpoint: Url,
    /// HTTP method to use when calling [`Self::endpoint`].
    pub method: LoggingHttpMethod,
    /// Content-type header value to use when sending log messages.
    pub content_type: &'static str,
    /// Batching of log messages.
    pub task: HttpLoggerTask,
    /// Do not disable tracing spans and events inside HTTP log appender thread if true.
    pub debug: bool,
    /// Enable optional periodic forced flush of accumulated logs.
    pub periodic_flush: Option<Duration>,
}

/// Count of contiguous errors. This works together with [`EMIT_NTH_ERROR`] constant to
/// rate-limit emission of internal errors.
struct ErrorCount {
    /// Number of errors since the last one that was alerted about.
    count: u32,
}

impl ErrorCount {
    /// The count starts again before it gets to the error that is alerted about.
    #[verifier::type_invariant]
    spec fn inv(self) -> bool {
        self.count < EMIT_NTH_ERROR
    }

    /// Begin to count.
    fn new() -> (res: Self)
        ensures
            res.count == 0,
    {
        ErrorCount { count: 0 }
    }

    /// Count an error, and tell if it is to be alerted about.
    fn add(&mut self) -> (alerted: bool)
        ensures
            alerted == (old(self).count == 0),
            final(self).count as nat == next_count(old(self).count as nat),
    {
        proof {
            use_type_invariant(&*self);
        }
        let alerted: bool = self.count == 0;
        self.count = if self.count + 1 == EMIT_NTH_ERROR {
            0
        } else {
            self.count + 1
        };
        alerted
    }
}

/// Count of contiguous errors after one more error.
pub open spec fn next_count(count: nat) -> nat {
    (count + 1) % (EMIT_NTH_ERROR as nat)
}

/// Wrapper for the message queue for use in sending logs.
pub struct HttpLogAppender {
    /// Sender end of message queue.
    queue: LogSender,
    /// Signal thread termination.
    token: CancellationToken,
    /// Count of contiguous errors.
    errors: ErrorCount,
    /// Return errors to the logger when internal queue is full or closed.
    back_pressure: bool,
}

/// Mathematical model of [`HttpLogAppender`].
#[verifier::ext_equal]
pub struct AppenderState {
    /// Sender end of message queue.
    pub tx: Sender<HttpLog>,
    /// Offers made to the queue so far, oldest first.
    pub offers: Seq<Offer>,
    /// Signal for thread termination.
    pub token: CancellationToken,
    /// Count of contiguous errors since the last one that was alerted about.
    pub err_count: nat,
    /// Errors are returned to the logger.
    pub back_pressure: bool,
}

impl AppenderState {
    /// The count starts again before it gets to the error that is alerted about.
    pub open spec fn wf(self) -> bool {
        self.err_count < EMIT_NTH_ERROR
    }

    /// State after one offer to the queue, before it is looked at how it went.
    pub open spec fn offering(self, item: HttpLog, answer: Result<(), QueueError>) -> Self {
        AppenderState { offers: self.offers.push(Offer { item, answer }), ..self }
    }

    /// State after it was looked at how an offer went.
    pub open spec fn after(self, sent: Result<(), QueueError>) -> AppenderState {
        AppenderState {
            err_count: match sent {
                Ok(_) => 0,
                Err(_) => next_count(self.err_count),
            },
            ..self
        }
    }

    /// Text that is written to stderr after an attempt to put an item into the queue.
    pub open spec fn alert(self, sent: Result<(), QueueError>) -> Option<Seq<char>> {
        match sent {
            Err(err) if self.err_count == 0 => Some(err.alert_text()),
            _ => None,
        }
    }

    /// State after a number of failed attempts in a row.
    pub open spec fn after_failures(self, failures: Seq<QueueError>) -> AppenderState
        decreases failures.len(),
    {
        if failures.len() == 0 {
            self
        } else {
            self.after_failures(failures.drop_last()).after(Err(failures.last()))
        }
    }
}

impl View for HttpLogAppender {
    type V = AppenderState;

    closed spec fn view(&self) -> AppenderState {
        AppenderState {
            tx: self.queue.tx(),
            offers: self.queue.offers(),
            token: self.token,
            err_count: self.errors.count as nat,
            back_pressure: self.back_pressure,
        }
    }
}

/// What the logger, and stderr, get after an attempt to put an item into the queue.
pub struct Report<T> {
    /// Result to return to the logger.
    pub result: Result<T, QueueError>,
    /// Text to write to stderr.
    pub alert: Option<String>,
}

impl<T> Report<T> {
    /// The report is made of an attempt: `done` is returned in case of success, and in case of
    /// an error that is not to be returned.
    pub open spec fn follows(
        self,
        state: AppenderState,
        sent: Result<(), QueueError>,
        done: T,
    ) -> bool {
        &&& opt_text(self.alert) == state.alert(sent)
        &&& match sent {
            Err(err) if state.back_pressure => self.result == Err::<T, QueueError>(err),
            _ => self.result == Ok::<T, QueueError>(done),
        }
    }
}

impl HttpLogAppender {
    /// Creates new appender object, and parameters of the thread that it sends messages to.
    ///
    /// # Errors
    ///
    /// Returns `Err` if building the HTTP client has failed. There are no parameters to spawn a
    /// thread with then.
    pub fn new<C>(
        config: &LoggingHttpConfig,
        format: &LoggingFormat,
        client: Result<C, String>,
    ) -> (res: Result<(Self, HttpLogAppenderThread<C>), HttpLogAppenderError>)
        requires
            config.wf(),
        ensures
            client matches Err(err) ==> res == Err::<(Self, HttpLogAppenderThread<C>), _>(
                HttpLogAppenderError::HttpClient(err),
            ),
            client is Ok ==> res is Ok,
            res matches Ok((appender, thread)) ==> {
                &&& ends_of_queue(appender@.tx, thread.rx, config.queue)
                &&& appender@.offers == Seq::<Offer>::empty()
                &&& call_ensures(CancellationToken::new, (), appender@.token)
                &&& appender@.err_count == 0
                &&& appender@.back_pressure == config.back_pressure
                &&& thread.token == appender@.token
                &&& thread.client == client->Ok_0
                &&& thread.endpoint == config.endpoint
                &&& thread.method == config.method
                &&& thread.content_type@ == format.content_type_text()
                &&& thread.task@ == (LoggerState {
                    buffered: Seq::empty(),
                    max_batch_size: config.max_batch_size as nat,
                    ignore_flush: config.ignore_flush,
                })
                &&& thread.task@.wf()
                &&& thread.debug == config.debug
                &&& thread.periodic_flush == config.periodic_flush
            },
    {
        let token = CancellationToken::new();
        let (queue, rx) = LogSender::open(config.queue);
        let client: C = match client {
            Ok(client) => client,
            Err(err) => return Err(HttpLogAppenderError::HttpClient(err)),
        };
        let thread = HttpLogAppenderThread {
            rx,
            token: token.clone(),
            client,
            endpoint: config.endpoint.clone(),
            method: config.method,
            content_type: format.content_type(),
            task: HttpLoggerTask::new(config.max_batch_size, config.ignore_flush),
            debug: config.debug,
            periodic_flush: config.periodic_flush,
        };
        let appender = HttpLogAppender {
            queue,
            token,
            errors: ErrorCount::new(),
            back_pressure: config.back_pressure,
        };
        Ok((appender, thread))
    }

    /// Token that signals thread termination.
    #[must_use]
    pub fn token(&self) -> (token: CancellationToken)
        ensures
            token == self@.token,
    {
        self.token.clone()
    }

    /// Alert about an error, unless it comes too soon after another one.
    fn alert_stderr(&mut self, err: &QueueError) -> (alert: Option<String>)
        ensures
            final(self)@ == old(self)@.after(Err(*err)),
            opt_text(alert) == old(self)@.alert(Err(*err)),
    {
        if self.errors.add() {
            Some(err.alert())
        } else {
            None
        }
    }

    /// Account for an attempt to put an item into the queue.
    pub fn settle<T>(&mut self, sent: Result<(), QueueError>, done: T) -> (report: Report<T>)
        ensures
            final(self)@ == old(self)@.after(sent),
            final(self)@.wf(),
            report.follows(old(self)@, sent, done),
    {
        let report: Report<T> = match sent {
            Ok(()) => {
                self.errors = ErrorCount::new();
                Report { result: Ok(done), alert: None }
            },
            Err(err) => {
                let alert = self.alert_stderr(&err);
                if self.back_pressure {
                    Report { result: Err(err), alert }
                } else {
                    Report { result: Ok(done), alert }
                }
            },
        };
        proof {
            use_type_invariant(&self.errors);
        }
        report
    }

    /// Put a message into the queue.
    ///
    /// The message is offered to the queue exactly once, and nothing else is. Whether the queue
    /// takes it depends on the other end of the queue, so that is not said here. The report and
    /// the state follow whatever the queue has answered.
    pub fn write(&mut self, buf: &[u8]) -> (report: Report<usize>)
        ensures
            final(self)@.wf(),
            exists|item: HttpLog, sent: Result<(), QueueError>|
                {
                    &&& item is Message && item->data@ == buf@
                    &&& sent matches Err(err) ==> err.item() == item
                    &&& final(self)@ == #[trigger] old(self)@.offering(item, sent).after(sent)
                    &&& report.follows(old(self)@, sent, buf@.len() as usize)
                },
    {
        let item = HttpLog::Message { data: vstd::slice::slice_to_vec(buf) };
        let ghost given = item;
        let sent = self.queue.offer(item);
        let ghost answer = sent;
        let report = self.settle(sent, buf.len());
        assert(self@ == old(self)@.offering(given, answer).after(answer));
        report
    }

    /// Put a flush request into the queue.
    ///
    /// The request is offered to the queue exactly once, and nothing else is. Whether the queue
    /// takes it depends on the other end of the queue, so that is not said here. The report and
    /// the state follow whatever the queue has answered.
    pub fn flush(&mut self) -> (report: Report<()>)
        ensures
            final(self)@.wf(),
            exists|sent: Result<(), QueueError>|
                {
                    &&& sent matches Err(err) ==> err.item() is Flush
                    &&& final(self)@ == #[trigger] old(self)@.offering(HttpLog::Flush, sent).after(
                        sent,
                    )
                    &&& report.follows(old(self)@, sent, ())
                },
    {
        let sent = self.queue.offer(HttpLog::Flush);
        let ghost answer = sent;
        let report = self.settle(sent, ());
        assert(self@ == old(self)@.offering(HttpLog::Flush, answer).after(answer));
        report
    }
}

/// How the thread that sends messages has ended.
pub enum ThreadEnd {
    /// The thread has ended as it should.
    Done,
    /// The thread has ended with an error.
    Failed(HttpLogAppenderError),
    /// The thread has panicked.
    Panicked,
}

impl ThreadEnd {
    /// Text that is written to stderr about the end of the thread.
    pub open spec fn alert_text(self) -> Option<Seq<char>> {
        match self {
            ThreadEnd::Done => None,
            ThreadEnd::Failed(err) => Some(
                "Unable to shut down HTTP log appender thread: "@ + err.text(),
            ),
            ThreadEnd::Panicked => Some("HTTP log appender thread panic detected"@),
        }
    }

    /// Text to write to stderr about the end of the thread.
    pub fn alert(&self) -> (res: Option<String>)
        ensures
            opt_text(res) == self.alert_text(),
    {
        match self {
            ThreadEnd::Done => None,
            ThreadEnd::Failed(err) => Some(
                joined(
                    "Unable to shut down HTTP log appender thread: ",
                    err.message().as_str(),
                ),
            ),
            ThreadEnd::Panicked => Some("HTTP log appender thread panic detected".to_owned()),
        }
    }
}

/// How a request that carries log messages has ended.
pub enum SendEnd {
    /// The collector has accepted the messages.
    Accepted,
    /// The request was not sent.
    NotSent(String),
    /// The collector has answered with an error.
    Rejected(String),
}

impl SendEnd {
    /// Text that is written to stderr about the request.
    pub open spec fn alert_text(self) -> Option<Seq<char>> {
        match self {
            SendEnd::Accepted => None,
            SendEnd::NotSent(err) => Some("Unable to send HTTP logs: "@ + err@),
            SendEnd::Rejected(err) => Some(
                "Error response received after sending HTTP logs: "@ + err@,
            ),
        }
    }

    /// Text to write to stderr about the request.
    pub fn alert(&self) -> (res: Option<String>)
        ensures
            opt_text(res) == self.alert_text(),
    {
        match self {
            SendEnd::Accepted => None,
            SendEnd::NotSent(err) => Some(joined("Unable to send HTTP logs: ", err)),
            SendEnd::Rejected(err) => Some(
                joined("Error response received after sending HTTP logs: ", err),
            ),
        }
    }
}

/// Out of errors in a row, every Nth one is alerted about, beginning with the first. After a
/// success the count begins again.
pub proof fn lemma_every_nth_alerted(
    state: AppenderState,
    failures: Seq<QueueError>,
    next: QueueError,
)
    ensures
        ({
            let started = state.after(Ok(())).after_failures(failures);
            &&& started.err_count == failures.len() % (EMIT_NTH_ERROR as nat)
            &&& started.wf()
            &&& started.alert(Err(next)) == if failures.len() % (EMIT_NTH_ERROR as nat) == 0 {
                Some(next.alert_text())
            } else {
                None
            }
        }),
    decreases failures.len(),
{
    if failures.len() > 0 {
        lemma_every_nth_alerted(state, failures.drop_last(), next);
        let before = (failures.len() - 1) as nat;
        assert((before % 100 + 1) % 100 == (before + 1) % 100);
    }
}

/// Without back pressure the logger is never given an error: every write claims to have taken
/// the whole message.
pub proof fn lemma_no_back_pressure<T>(
    state: AppenderState,
    sent: Result<(), QueueError>,
    report: Report<T>,
    done: T,
)
    requires
        !state.back_pressure,
        report.follows(state, sent, done),
    ensures
        report.result == Ok::<T, QueueError>(done),
{
}

/// What the logger gets does not depend on anything but back pressure and the answer of the queue.
/// An error is returned if and only if there was one and there is back pressure, and it is the one
/// that the queue has answered with, together with the item. In all other cases the write counts as
/// done, and done in full.
pub proof fn lemma_report<T>(
    state: AppenderState,
    sent: Result<(), QueueError>,
    report: Report<T>,
    done: T,
)
    requires
        report.follows(state, sent, done),
    ensures
        report.result is Err <==> sent is Err && state.back_pressure,
        report.result is Err ==> report.result->Err_0 == sent->Err_0,
        report.result is Ok ==> report.result->Ok_0 == done,
        sent is Ok ==> report.alert is None,
        sent is Err ==> (report.alert is Some <==> state.err_count == 0),
        report.alert is Some ==> report.alert->0@ == sent->Err_0.alert_text(),
{
}

/// An offer to the queue, however it went, is written down behind all earlier ones. Looking at how
/// it went changes the count of errors alone: it starts again after a success, and grows by one
/// after an error until it gets to the one that is alerted about.
pub proof fn lemma_offer_settled(
    state: AppenderState,
    item: HttpLog,
    sent: Result<(), QueueError>,
)
    requires
        state.err_count < 100,
    ensures
        ({
            let next = state.offering(item, sent).after(sent);
            &&& next.tx == state.tx
            &&& next.token == state.token
            &&& next.back_pressure == state.back_pressure
            &&& next.offers == state.offers.push(Offer { item, answer: sent })
            &&& sent is Ok ==> next.err_count == 0
            &&& sent is Err && state.err_count < 99 ==> next.err_count == state.err_count + 1
            &&& sent is Err && state.err_count == 99 ==> next.err_count == 0
        }),
{
}

/// Text that stands for a message holds the message itself, behind the same words for all messages
/// that can be read. All messages that cannot be read are alike.
pub proof fn lemma_item_texts(left: Vec<u8>, right: Vec<u8>)
    ensures
        ({
            let left_text = item_text(HttpLog::Message { data: left });
            let right_text = item_text(HttpLog::Message { data: right });
            &&& valid_utf8(left@) && valid_utf8(right@) ==> framed_alike(
                left_text,
                decode_utf8(left@),
                right_text,
                decode_utf8(right@),
            )
            &&& !valid_utf8(left@) && !valid_utf8(right@) ==> left_text == right_text
        }),
{
    lemma_framed_alike("log message: "@, decode_utf8(left@), decode_utf8(right@));
}

/// An alert about an item holds the text that stands for the item, behind the same words whatever
/// the item is.
pub proof fn lemma_alert_texts(left: HttpLog, right: HttpLog)
    ensures
        framed_alike(
            QueueError::Full(left).alert_text(),
            item_text(left),
            QueueError::Full(right).alert_text(),
            item_text(right),
        ),
        framed_alike(
            QueueError::Closed(left).alert_text(),
            item_text(left),
            QueueError::Closed(right).alert_text(),
            item_text(right),
        ),
{
    lemma_framed_alike("HTTP log queue full: "@, item_text(left), item_text(right));
    lemma_framed_alike("HTTP log queue closed: "@, item_text(left), item_text(right));
}

/// Text of an error holds the text of what has caused it, behind the same words whatever that is.
pub proof fn lemma_appender_texts(left: String, right: String)
    ensures
        framed_alike(
            HttpLogAppenderError::HttpClient(left).text(),
            left@,
            HttpLogAppenderError::HttpClient(right).text(),
            right@,
        ),
        framed_alike(
            HttpLogAppenderError::Thread(left).text(),
            left@,
            HttpLogAppenderError::Thread(right).text(),
            right@,
        ),
        framed_alike(
            HttpLogAppenderError::Runtime(left).text(),
            left@,
            HttpLogAppenderError::Runtime(right).text(),
            right@,
        ),
        framed_alike(
            HttpLogAppenderError::Send(left).text(),
            left@,
            HttpLogAppenderError::Send(right).text(),
            right@,
        ),
{
    lemma_framed_alike("HTTP client error: "@, left@, right@);
    lemma_framed_alike("Unable to set up HTTP sender thread: "@, left@, right@);
    lemma_framed_alike("Runtime error for HTTP sender thread: "@, left@, right@);
    lemma_framed_alike("Unable to send logs via HTTP: "@, left@, right@);
}

/// There is nothing to write about a thread that has ended as it should, and about a request that
/// was accepted. In all other cases there is, and an error is held by it, behind the same words
/// whatever the error is.
pub proof fn lemma_end_texts(
    left: HttpLogAppenderError,
    right: HttpLogAppenderError,
    left_text: String,
    right_text: String,
)
    ensures
        ThreadEnd::Done.alert_text() is None,
        ThreadEnd::Panicked.alert_text() is Some,
        ThreadEnd::Failed(left).alert_text() is Some,
        framed_alike(
            ThreadEnd::Failed(left).alert_text()->0,
            left.text(),
            ThreadEnd::Failed(right).alert_text()->0,
            right.text(),
        ),
        SendEnd::Accepted.alert_text() is None,
        SendEnd::NotSent(left_text).alert_text() is Some,
        framed_alike(
            SendEnd::NotSent(left_text).alert_text()->0,
            left_text@,
            SendEnd::NotSent(right_text).alert_text()->0,
            right_text@,
        ),
        SendEnd::Rejected(left_text).alert_text() is Some,
        framed_alike(
            SendEnd::Rejected(left_text).alert_text()->0,
            left_text@,
            SendEnd::Rejected(right_text).alert_text()->0,
            right_text@,
        ),
{
    lemma_framed_alike(
        "Unable to shut down HTTP log appender thread: "@,
        left.text(),
        right.text(),
    );
    lemma_framed_alike("Unable to send HTTP logs: "@, left_text@, right_text@);
    lemma_framed_alike(
        "Error response received after sending HTTP logs: "@,
        left_text@,
        right_text@,
    );
}

/// The sender thread gets what is configured: where, how and with what client to send, how many
/// messages at once, and when to flush. The appender and the thread have one queue and one token.
/// Without a client there is neither, and the error holds the reason.
pub proof fn lemma_new_appender<C>(
    config: LoggingHttpConfig,
    format: LoggingFormat,
    client: Result<C, String>,
    res: Result<(HttpLogAppender, HttpLogAppenderThread<C>), HttpLogAppenderError>,
)
    requires
        call_ensures(HttpLogAppender::new::<C>, (&config, &format, client), res),
    ensures
        res is Ok <==> client is Ok,
        client matches Err(err) ==> res->Err_0 == HttpLogAppenderError::HttpClient(err),
        res matches Ok((appender, thread)) ==> {
            &&& ends_of_queue(appender@.tx, thread.rx, config.queue)
            &&& appender@.offers.len() == 0
            &&& appender@.err_count == 0
            &&& appender@.back_pressure == config.back_pressure
            &&& thread.token == appender@.token
            &&& client == Ok::<C, String>(thread.client)
            &&& thread.endpoint == config.endpoint
            &&& thread.method == config.method
            &&& thread.content_type@ == if format == LoggingFormat::Json {
                "application/jsonl"@
            } else {
                "text/plain"@
            }
            &&& thread.task@.buffered.len() == 0
            &&& thread.task@.max_batch_size == config.max_batch_size
            &&& thread.task@.ignore_flush == config.ignore_flush
            &&& thread.debug == config.debug
            &&& thread.periodic_flush == config.periodic_flush
        },
{
}

} // verus!
