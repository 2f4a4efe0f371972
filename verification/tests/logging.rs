use std::time::Duration;

use url::Url;
use uxum::logging::batch::{request_body, HttpLog, HttpLoggerTask, LogAction, LogEvent};
use uxum::logging::http::{
    HttpLogAppender, HttpLogAppenderError, HttpLogAppenderThread, LoggingFormat, LoggingHttpConfig,
    LoggingHttpMethod, SendEnd, ThreadEnd, EMIT_NTH_ERROR,
};
use uxum::logging::queue::QueueError;

fn message(text: &str) -> HttpLog {
    HttpLog::Message {
        data: text.as_bytes().to_vec(),
    }
}

fn received(text: &str) -> LogEvent {
    LogEvent::Received(message(text))
}

fn batch(action: LogAction) -> Option<Vec<Vec<u8>>> {
    match action {
        LogAction::Send { batch } => Some(batch),
        LogAction::Wait => None,
        LogAction::Stop => panic!("unexpected stop"),
    }
}

fn lines(texts: &[&str]) -> Vec<Vec<u8>> {
    texts.iter().map(|text| text.as_bytes().to_vec()).collect()
}

fn config(queue: usize, back_pressure: bool) -> LoggingHttpConfig {
    LoggingHttpConfig {
        endpoint: Url::parse("https://logs.example.org/push").unwrap(),
        method: LoggingHttpMethod::Put,
        queue,
        max_batch_size: 2,
        back_pressure,
        debug: false,
        ignore_flush: false,
        periodic_flush: Some(Duration::from_secs(1)),
    }
}

fn appender(
    queue: usize,
    back_pressure: bool,
) -> (HttpLogAppender, HttpLogAppenderThread<&'static str>) {
    let config = config(queue, back_pressure);
    HttpLogAppender::new(&config, &LoggingFormat::Json, Ok("client")).unwrap()
}

#[test]
fn full_batch_is_sent() {
    let mut task = HttpLoggerTask::new(2, false);
    assert_eq!(batch(task.on_event(received("a"))), None);
    assert_eq!(batch(task.on_event(received("b"))), Some(lines(&["a", "b"])));
    assert_eq!(batch(task.on_event(received("c"))), None);
}

#[test]
fn flush_and_tick_send_what_there_is() {
    let mut task = HttpLoggerTask::new(10, false);
    assert_eq!(batch(task.on_event(LogEvent::Tick)), None);
    assert_eq!(batch(task.on_event(LogEvent::Received(HttpLog::Flush))), None);
    assert_eq!(batch(task.on_event(received("a"))), None);
    assert_eq!(batch(task.on_event(LogEvent::Tick)), Some(lines(&["a"])));
    assert_eq!(batch(task.on_event(received("b"))), None);
    assert_eq!(
        batch(task.on_event(LogEvent::Received(HttpLog::Flush))),
        Some(lines(&["b"]))
    );
    assert_eq!(batch(task.on_event(LogEvent::Tick)), None);
}

#[test]
fn flush_can_be_ignored() {
    let mut task = HttpLoggerTask::new(10, true);
    assert_eq!(batch(task.on_event(received("a"))), None);
    assert_eq!(batch(task.on_event(LogEvent::Received(HttpLog::Flush))), None);
    assert_eq!(batch(task.on_event(LogEvent::Tick)), Some(lines(&["a"])));
}

#[test]
fn cancellation_and_closed_queue_stop_the_task() {
    let mut task = HttpLoggerTask::new(10, false);
    assert!(matches!(task.on_event(LogEvent::Cancelled), LogAction::Stop));
    assert!(matches!(task.on_event(LogEvent::Closed), LogAction::Stop));
}

#[test]
fn leftovers_are_sent_in_chunks() {
    let mut task = HttpLoggerTask::new(2, false);
    assert_eq!(batch(task.on_event(received("a"))), None);
    for text in ["b", "c", "d", "e"] {
        task.on_leftover(message(text));
        task.on_leftover(HttpLog::Flush);
    }
    assert_eq!(
        task.finish(),
        vec![lines(&["a", "b"]), lines(&["c", "d"]), lines(&["e"])]
    );
    assert!(HttpLoggerTask::new(2, false).finish().is_empty());
}

#[test]
fn every_message_is_delivered_once_and_in_order() {
    let mut task = HttpLoggerTask::new(3, false);
    let mut sent: Vec<Vec<u8>> = Vec::new();
    let mut expected: Vec<Vec<u8>> = Vec::new();
    for i in 0..20 {
        let text = format!("{i}\n");
        expected.push(text.as_bytes().to_vec());
        if let Some(batch) = batch(task.on_event(received(&text))) {
            assert!(batch.len() <= 3);
            sent.extend(batch);
        }
        if i % 5 == 0 {
            if let Some(batch) = batch(task.on_event(LogEvent::Tick)) {
                assert!(!batch.is_empty() && batch.len() <= 3);
                sent.extend(batch);
            }
        }
    }
    for i in 20..27 {
        let text = format!("{i}\n");
        expected.push(text.as_bytes().to_vec());
        task.on_leftover(message(&text));
    }
    for batch in task.finish() {
        assert!(!batch.is_empty() && batch.len() <= 3);
        sent.extend(batch);
    }
    assert_eq!(sent, expected);
}

#[test]
fn batches_are_full_when_flushes_are_ignored() {
    let mut task = HttpLoggerTask::new(2, true);
    let mut sent: Vec<Vec<Vec<u8>>> = Vec::new();
    for event in [
        LogEvent::Received(HttpLog::Flush),
        received("a"),
        LogEvent::Received(HttpLog::Flush),
        received("b"),
        received("c"),
        LogEvent::Received(HttpLog::Flush),
    ] {
        sent.extend(batch(task.on_event(event)));
    }
    assert!(matches!(task.on_event(LogEvent::Cancelled), LogAction::Stop));
    for item in [message("d"), HttpLog::Flush, message("e")] {
        task.on_leftover(item);
    }
    sent.extend(task.finish());
    assert_eq!(
        sent,
        vec![lines(&["a", "b"]), lines(&["c", "d"]), lines(&["e"])]
    );
}

#[test]
fn body_is_all_lines() {
    assert_eq!(request_body(&lines(&["a\n", "", "bc\n"])), b"a\nbc\n".to_vec());
    assert_eq!(request_body(&Vec::new()), Vec::<u8>::new());
}

#[test]
fn written_messages_get_to_the_other_end() {
    let (mut appender, mut thread) = appender(2, true);
    let report = appender.write(b"hello");
    assert!(matches!(report.result, Ok(5)));
    assert_eq!(report.alert, None);
    let report = appender.flush();
    assert!(report.result.is_ok());
    assert!(matches!(
        thread.rx.try_recv(),
        Ok(HttpLog::Message { data }) if data == b"hello"
    ));
    assert!(matches!(thread.rx.try_recv(), Ok(HttpLog::Flush)));
    assert!(thread.rx.try_recv().is_err());
}

#[test]
fn full_queue_with_back_pressure() {
    let (mut appender, _thread) = appender(1, true);
    assert!(appender.write(b"a").result.is_ok());
    let report = appender.write(b"b");
    assert!(matches!(
        report.result,
        Err(QueueError::Full(HttpLog::Message { data })) if data == b"b"
    ));
    assert_eq!(report.alert.as_deref(), Some("HTTP log queue full: log message: b"));
    let report = appender.flush();
    assert!(matches!(report.result, Err(QueueError::Full(HttpLog::Flush))));
    assert_eq!(report.alert, None);
}

#[test]
fn closed_queue_without_back_pressure() {
    let (mut appender, thread) = appender(1, false);
    drop(thread);
    let report = appender.flush();
    assert!(report.result.is_ok());
    assert_eq!(
        report.alert.as_deref(),
        Some("HTTP log queue closed: log flush request")
    );
    let report = appender.write(&[0xff, 0xfe]);
    assert!(matches!(report.result, Ok(2)));
    assert_eq!(report.alert, None);
}

#[test]
fn every_nth_failure_is_alerted_about() {
    let (mut appender, mut thread) = appender(1, false);
    assert!(appender.write(b"first").alert.is_none());
    let mut alerts = Vec::new();
    for i in 0..250 {
        if appender.write(b"more").alert.is_some() {
            alerts.push(i);
        }
    }
    assert_eq!(EMIT_NTH_ERROR, 100);
    assert_eq!(alerts, vec![0, 100, 200]);
    // The count begins again after a success.
    assert!(thread.rx.try_recv().is_ok());
    assert!(appender.write(b"in").alert.is_none());
    assert!(appender.write(b"out").alert.is_some());
    assert!(appender.write(b"out").alert.is_none());
}

#[test]
fn settling_by_outcome() {
    let (mut appender, _thread) = appender(1, true);
    let report = appender.settle(Err(QueueError::Closed(HttpLog::Flush)), 7_u8);
    assert!(matches!(report.result, Err(QueueError::Closed(HttpLog::Flush))));
    let report = appender.settle(Ok(()), 7_u8);
    assert!(matches!(report.result, Ok(7)));
    assert_eq!(report.alert, None);
}

#[test]
fn thread_parameters() {
    let (appender, thread) = appender(4, false);
    assert_eq!(thread.client, "client");
    assert_eq!(thread.endpoint.as_str(), "https://logs.example.org/push");
    assert_eq!(thread.method, LoggingHttpMethod::Put);
    assert_eq!(thread.content_type, "application/jsonl");
    assert!(!thread.debug);
    assert_eq!(thread.periodic_flush, Some(Duration::from_secs(1)));
    assert!(!thread.token.is_cancelled());
    appender.token().cancel();
    assert!(thread.token.is_cancelled());
    let mut task = thread.task;
    assert_eq!(batch(task.on_event(received("a"))), None);
    assert_eq!(batch(task.on_event(received("b"))), Some(lines(&["a", "b"])));
    assert_eq!(LoggingFormat::Text.content_type(), "text/plain");
    assert_eq!(LoggingFormat::Json.content_type(), "application/jsonl");
}

#[test]
fn no_appender_without_a_client() {
    let config = config(4, false);
    let client: Result<(), String> = Err("no certificates".to_string());
    assert!(matches!(
        HttpLogAppender::new(&config, &LoggingFormat::Text, client),
        Err(HttpLogAppenderError::HttpClient(err)) if err == "no certificates"
    ));
}

#[test]
fn errors_of_the_sender_thread() {
    assert!(matches!(HttpLogAppenderError::spawned(Ok(1)), Ok(1)));
    assert!(matches!(
        HttpLogAppenderError::spawned::<u8>(Err("x".to_string())),
        Err(HttpLogAppenderError::Thread(err)) if err == "x"
    ));
    assert!(matches!(HttpLogAppenderError::built(Ok(1)), Ok(1)));
    assert!(matches!(
        HttpLogAppenderError::built::<u8>(Err("x".to_string())),
        Err(HttpLogAppenderError::Runtime(err)) if err == "x"
    ));
}

#[test]
fn method_names() {
    assert_eq!(LoggingHttpMethod::Post.as_str(), "POST");
    assert_eq!(LoggingHttpMethod::Put.as_str(), "PUT");
    assert_eq!(LoggingHttpMethod::Patch.as_str(), "PATCH");
}

#[test]
fn every_write_queues_one_message() {
    let (mut appender, mut thread) = appender(8, true);
    for text in ["a", "b", "c"] {
        assert!(appender.write(text.as_bytes()).result.is_ok());
    }
    for text in ["a", "b", "c"] {
        assert!(matches!(
            thread.rx.try_recv(),
            Ok(HttpLog::Message { data }) if data == text.as_bytes()
        ));
    }
    assert!(thread.rx.try_recv().is_err());
}

#[test]
fn item_texts() {
    assert_eq!(HttpLog::Flush.message(), "log flush request");
    assert_eq!(message("grüße").message(), "log message: grüße");
    assert_eq!(
        HttpLog::Message { data: vec![0xff] }.message(),
        "log message: invalid UTF-8 in message"
    );
}

#[test]
fn appender_error_texts() {
    let x = || "x".to_string();
    assert_eq!(HttpLogAppenderError::HttpClient(x()).message(), "HTTP client error: x");
    assert_eq!(
        HttpLogAppenderError::Thread(x()).message(),
        "Unable to set up HTTP sender thread: x"
    );
    assert_eq!(
        HttpLogAppenderError::Runtime(x()).message(),
        "Runtime error for HTTP sender thread: x"
    );
    assert_eq!(
        HttpLogAppenderError::Send(x()).message(),
        "Unable to send logs via HTTP: x"
    );
}

#[test]
fn alerts_about_thread_and_requests() {
    assert_eq!(ThreadEnd::Done.alert(), None);
    assert_eq!(
        ThreadEnd::Failed(HttpLogAppenderError::Runtime("x".to_string())).alert(),
        Some(
            "Unable to shut down HTTP log appender thread: Runtime error for HTTP sender thread: x"
                .to_string()
        )
    );
    assert_eq!(
        ThreadEnd::Panicked.alert(),
        Some("HTTP log appender thread panic detected".to_string())
    );
    assert_eq!(SendEnd::Accepted.alert(), None);
    assert_eq!(
        SendEnd::NotSent("x".to_string()).alert(),
        Some("Unable to send HTTP logs: x".to_string())
    );
    assert_eq!(
        SendEnd::Rejected("x".to_string()).alert(),
        Some("Error response received after sending HTTP logs: x".to_string())
    );
}
