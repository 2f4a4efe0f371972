use uxum::behavior::{default_error_handler, ErrorResponse, HandlerFailure};

#[test]
fn known_failures() {
    assert!(matches!(
        default_error_handler(HandlerFailure::RateLimit, "tag", "text"),
        ErrorResponse::RateLimit
    ));
    assert!(matches!(
        default_error_handler(HandlerFailure::Timeout, "tag", "text"),
        ErrorResponse::Timeout
    ));
}

#[test]
fn other_failures_are_problems() {
    match default_error_handler(HandlerFailure::Other, "tag:error", "it broke") {
        ErrorResponse::Problem(problem) => {
            assert_eq!(problem.status_code.as_u16(), 500);
            assert_eq!(problem.body.len(), 2);
            assert_eq!(problem.body["type"].as_str(), Some("tag:error"));
            assert_eq!(problem.body["title"].as_str(), Some("it broke"));
        }
        _ => panic!("not a problem"),
    }
}
