//! Customization of application behaviors.

use axum::http::status::InvalidStatusCode;
use axum::http::StatusCode;
use problemdetails::Problem;
use vstd::prelude::*;

verus! {

/// Status code of a response.
#[verifier::external_type_specification]
#[verifier::external_body]
pub struct ExStatusCode(StatusCode);

/// Number that is not a status code.
#[verifier::external_type_specification]
#[verifier::external_body]
pub struct ExInvalidStatusCode(InvalidStatusCode);

/// Problem description to be sent to a client.
#[verifier::external_type_specification]
#[verifier::external_body]
pub struct ExProblem(Problem);

/// Number of a status code.
pub uninterp spec fn status_number(status: StatusCode) -> u16;

/// Number of the status code that a problem is sent with.
pub uninterp spec fn problem_status(problem: Problem) -> u16;

/// Members of a problem description that are strings, by their name.
pub uninterp spec fn problem_texts(problem: Problem) -> Map<Seq<char>, Seq<char>>;

/// No members.
pub open spec fn no_texts() -> Map<Seq<char>, Seq<char>> {
    Map::empty()
}

/// `StatusCode::from_u16` makes a status code out of any number of three digits.
pub assume_specification[ StatusCode::from_u16 ](number: u16) -> (res: Result<
    StatusCode,
    InvalidStatusCode,
>)
    ensures
        res is Ok <==> 100 <= number < 1000,
        res matches Ok(status) ==> status_number(status) == number,
;

/// `problemdetails::new` makes a problem without any members.
#[verifier::external_body]
fn problem(status: StatusCode) -> (res: Problem)
    ensures
        problem_status(res) == status_number(status),
        problem_texts(res) == no_texts(),
{
    problemdetails::new(status)
}

/// `Problem::with_type` sets the member named "type".
#[verifier::external_body]
fn with_type(problem: Problem, value: &str) -> (res: Problem)
    ensures
        problem_status(res) == problem_status(problem),
        problem_texts(res) == problem_texts(problem).insert("type"@, value@),
{
    problem.with_type(value)
}

/// `Problem::with_title` sets the member named "title".
#[verifier::external_body]
fn with_title(problem: Problem, value: &str) -> (res: Problem)
    ensures
        problem_status(res) == problem_status(problem),
        problem_texts(res) == problem_texts(problem).insert("title"@, value@),
{
    problem.with_title(value)
}

/// Status code of a response to a request that has failed inside the service.
pub const INTERNAL_SERVER_ERROR: u16 = 500;

/// Standard application behavior, used by default.
#[derive(Clone, Copy, Debug, PartialEq, Eq, Structural)]
pub struct StandardAppBehavior;

/// What a handler has failed with.
#[derive(Clone, Copy, Debug, PartialEq, Eq, Structural)]
pub enum HandlerFailure {
    /// There were too many requests.
    RateLimit,
    /// The request took too long.
    Timeout,
    /// Any other error.
    Other,
}

/// What a failed request is answered with.
pub enum ErrorResponse {
    /// Whatever the rate limit error is answered with.
    RateLimit,
    /// Whatever the timeout error is answered with.
    Timeout,
    /// A problem description.
    Problem(Problem),
}

/// Error handler for uxum-specific error types.
///
/// Other errors are described by the type they are tagged with, and by their text.
pub fn default_error_handler(failure: HandlerFailure, tag: &str, text: &str) -> (res: ErrorResponse)
    ensures
        res is RateLimit <==> failure is RateLimit,
        res is Timeout <==> failure is Timeout,
        res matches ErrorResponse::Problem(problem) ==> {
            &&& problem_status(problem) == INTERNAL_SERVER_ERROR
            &&& problem_texts(problem) == map!["type"@ => tag@, "title"@ => text@]
        },
{
    match failure {
        HandlerFailure::RateLimit => ErrorResponse::RateLimit,
        HandlerFailure::Timeout => ErrorResponse::Timeout,
        HandlerFailure::Other => {
            let status: StatusCode = StatusCode::from_u16(INTERNAL_SERVER_ERROR).unwrap();
            ErrorResponse::Problem(with_title(with_type(problem(status), tag), text))
        },
    }
}

/// Rate limit and timeout errors are answered by themselves. Any other error is answered by a
/// problem description with the status of an internal error, which has the tag as its type and the
/// text as its title, and nothing else.
pub proof fn lemma_error_response(
    failure: HandlerFailure,
    tag: &str,
    text: &str,
    response: ErrorResponse,
    member: Seq<char>,
)
    requires
        call_ensures(default_error_handler, (failure, tag, text), response),
    ensures
        response is RateLimit <==> failure == HandlerFailure::RateLimit,
        response is Timeout <==> failure == HandlerFailure::Timeout,
        response is Problem <==> failure == HandlerFailure::Other,
        response matches ErrorResponse::Problem(problem) ==> {
            &&& problem_status(problem) == 500
            &&& problem_texts(problem).contains_key(member) <==> member == "type"@ || member
                == "title"@
            &&& problem_texts(problem)["type"@] == tag@
            &&& problem_texts(problem)["title"@] == text@
        },
{
    reveal_strlit("type");
    reveal_strlit("title");
    assert("type"@.len() != "title"@.len());
}

} // verus!
