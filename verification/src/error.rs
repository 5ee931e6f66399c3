//! Failures: those of the grading pipeline, and the shape in which any
//! failure is reported to a client.

use vstd::prelude::*;

verus! {

/// The kinds of failure that a client is told about.
#[derive(Clone, Copy, Debug, PartialEq, Eq, Structural)]
pub enum ErrorTypes {
    InternalError,
    JwtTokenExpired,
    MaxAttemptsSubmit,
    CourseNotOwned,
    NoAuthHeader,
    /// What was asked for does not exist; no failure of the server.
    NotFound,
}

impl ErrorTypes {
    /// The name under which the kind is reported.
    pub open spec fn name(self) -> Seq<char> {
        match self {
            ErrorTypes::InternalError => "server_internal_error"@,
            ErrorTypes::JwtTokenExpired => "jwt_token_expired"@,
            ErrorTypes::MaxAttemptsSubmit => "max_attempts_submit"@,
            ErrorTypes::CourseNotOwned => "course_not_owned"@,
            ErrorTypes::NoAuthHeader => "no_auth_header"@,
            ErrorTypes::NotFound => "not_found"@,
        }
    }

    /// The name of the kind.
    pub fn to_string(&self) -> (name: String)
        ensures
            name@ == self.name(),
    {
        match self {
            ErrorTypes::InternalError => String::from_str("server_internal_error"),
            ErrorTypes::JwtTokenExpired => String::from_str("jwt_token_expired"),
            ErrorTypes::MaxAttemptsSubmit => String::from_str("max_attempts_submit"),
            ErrorTypes::CourseNotOwned => String::from_str("course_not_owned"),
            ErrorTypes::NoAuthHeader => String::from_str("no_auth_header"),
            ErrorTypes::NotFound => String::from_str("not_found"),
        }
    }
}

/// The body of a response that reports a failure.
#[derive(Clone, Debug, PartialEq, Eq)]
pub struct ErrorResponse {
    pub error_type: String,
    pub error_msg: String,
}

impl ErrorResponse {
    /// The report of a failure of kind `error_type` with the message
    /// `error_msg`.
    pub fn new(error_type: ErrorTypes, error_msg: &str) -> (response: ErrorResponse)
        ensures
            response.error_type@ == error_type.name(),
            response.error_msg@ == error_msg@,
    {
        ErrorResponse { error_type: error_type.to_string(), error_msg: String::from_str(error_msg) }
    }
}

impl ErrorResponse {
    /// The report of a request that broke off, with what is known of why:
    /// an internal error whose message is `details`, or a fixed text where
    /// nothing is known.
    pub fn for_panic(details: Option<&str>) -> (response: ErrorResponse)
        ensures
            response.error_type@ == ErrorTypes::InternalError.name(),
            response.error_msg@ == (match details {
                Some(text) => text@,
                None => "Unknown panic message"@,
            }),
    {
        match details {
            Some(text) => ErrorResponse::new(ErrorTypes::InternalError, text),
            None => ErrorResponse::new(ErrorTypes::InternalError, "Unknown panic message"),
        }
    }
}

/// A failure inside the server, with what is known of its cause.
#[derive(Clone, Debug, PartialEq, Eq)]
pub struct AppError {
    pub cause: String,
}

impl AppError {
    /// The message that reports the failure.
    pub open spec fn message(self) -> Seq<char> {
        "Something went wrong: "@ + self.cause@
    }

    /// The report of the failure: an internal error with its message.
    pub fn response(&self) -> (response: ErrorResponse)
        ensures
            response.error_type@ == ErrorTypes::InternalError.name(),
            response.error_msg@ == self.message(),
    {
        let mut message = String::from_str("Something went wrong: ");
        message.append(self.cause.as_str());
        ErrorResponse::new(ErrorTypes::InternalError, message.as_str())
    }
}

/// The ways in which handing in, grading or reading progress can fail.
#[derive(Clone, Copy, Debug, PartialEq, Eq, Structural)]
pub enum PipelineError {
    /// The user has no progress on the task yet.
    NotFound,
    /// The user has used up the attempts that the task allows.
    MaxAttemptsExceeded,
    /// The grading service failed or answered what cannot be read.
    UpstreamGradingFailure,
    /// The store did not answer or refused a write.
    StoreUnavailable,
    /// An event arrived that the step in progress does not expect.
    OutOfOrder,
}

impl PipelineError {
    /// The kind under which the failure is reported to a client.
    pub open spec fn reported_as(self) -> ErrorTypes {
        match self {
            PipelineError::NotFound => ErrorTypes::NotFound,
            PipelineError::MaxAttemptsExceeded => ErrorTypes::MaxAttemptsSubmit,
            _ => ErrorTypes::InternalError,
        }
    }

    /// The status code of the response that reports the failure: 404 for a
    /// user without progress on the task, which is expected and no failure
    /// of the server; 400 for used-up attempts, which the client can do
    /// nothing about by asking again at once; 500 for everything else.
    pub open spec fn status(self) -> u16 {
        match self {
            PipelineError::NotFound => 404,
            PipelineError::MaxAttemptsExceeded => 400,
            _ => 500,
        }
    }

    /// The text that tells a client of the failure.
    pub open spec fn text(self) -> Seq<char> {
        match self {
            PipelineError::NotFound => "The user has handed in nothing for the task"@,
            PipelineError::MaxAttemptsExceeded => "Try again later"@,
            PipelineError::UpstreamGradingFailure => "The grading service failed"@,
            PipelineError::StoreUnavailable => "The store is not available"@,
            PipelineError::OutOfOrder => "Internal error occured"@,
        }
    }

    /// The status code of the response that reports the failure.
    pub fn status_code(&self) -> (code: u16)
        ensures
            code == self.status(),
    {
        match self {
            PipelineError::NotFound => 404,
            PipelineError::MaxAttemptsExceeded => 400,
            _ => 500,
        }
    }

    /// The body of the response that reports the failure.
    pub fn response(&self) -> (response: ErrorResponse)
        ensures
            response.error_type@ == self.reported_as().name(),
            response.error_msg@ == self.text(),
    {
        let kind = self.error_type();
        match self {
            PipelineError::NotFound => ErrorResponse::new(kind, "The user has handed in nothing for the task"),
            PipelineError::MaxAttemptsExceeded => ErrorResponse::new(kind, "Try again later"),
            PipelineError::UpstreamGradingFailure => ErrorResponse::new(
                kind,
                "The grading service failed",
            ),
            PipelineError::StoreUnavailable => ErrorResponse::new(
                kind,
                "The store is not available",
            ),
            PipelineError::OutOfOrder => ErrorResponse::new(kind, "Internal error occured"),
        }
    }

    /// The kind under which the failure is reported to a client.
    pub fn error_type(&self) -> (kind: ErrorTypes)
        ensures
            kind == self.reported_as(),
    {
        match self {
            PipelineError::NotFound => ErrorTypes::NotFound,
            PipelineError::MaxAttemptsExceeded => ErrorTypes::MaxAttemptsSubmit,
            _ => ErrorTypes::InternalError,
        }
    }
}

} // verus!
