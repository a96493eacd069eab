//! The API error model.
//!
//! One shape for every failure the HTTP layer can produce, with the status
//! code attached to the variant rather than chosen at the call site. There is
//! no variant for an unavailable commentary model: with a circuit breaker in
//! place that is a designed steady state, answered with a canned line.

use vstd::prelude::*;

use axum::http::StatusCode;

verus! {

#[verifier::external_type_specification]
#[verifier::external_body]
pub struct ExAnyhowError(anyhow::Error);

#[verifier::external_type_specification]
#[verifier::external_body]
pub struct ExStatusCode(StatusCode);

/// The HTTP status whose numeric code is `code`.
pub uninterp spec fn status_with_code(code: u16) -> StatusCode;

/// `StatusCode::from_u16`: accepts exactly the codes from 100 to 999, which
/// `requires` admits alone.
#[verifier::external_body]
fn status_from_code(code: u16) -> (status: StatusCode)
    requires
        100 <= code <= 999,
    ensures
        status == status_with_code(code),
{
    match StatusCode::from_u16(code) {
        Ok(status) => status,
        Err(_) => StatusCode::INTERNAL_SERVER_ERROR,
    }
}

#[derive(Debug)]
pub enum ApiError {
    NotFound { what: &'static str },
    InvalidRequest(String),
    IllegalMove,
    MatchFinished,
    BatchNotCancellable,
    EngineUnavailable,
    /// The write channel is full and a durable write could not be accepted.
    /// Retryable, and distinct from a failure: under lab load this is
    /// backpressure working as designed.
    WriteQueueSaturated,
    /// A stored row carries a `format_version` this build cannot decode.
    UnsupportedFormatVersion { found: u32 },
    Internal(anyhow::Error),
}

impl ApiError {
    pub open spec fn spec_code(&self) -> Seq<char> {
        match self {
            ApiError::NotFound { .. } => "not_found"@,
            ApiError::InvalidRequest(_) => "invalid_request"@,
            ApiError::IllegalMove => "illegal_move"@,
            ApiError::MatchFinished => "match_finished"@,
            ApiError::BatchNotCancellable => "batch_not_cancellable"@,
            ApiError::EngineUnavailable => "engine_unavailable"@,
            ApiError::WriteQueueSaturated => "write_queue_saturated"@,
            ApiError::UnsupportedFormatVersion { .. } => "unsupported_format_version"@,
            ApiError::Internal(_) => "internal_error"@,
        }
    }

    /// The stable string clients match on. Never derived from the variant
    /// name.
    pub fn code(&self) -> (code: &'static str)
        ensures
            code@ == self.spec_code(),
    {
        match self {
            ApiError::NotFound { .. } => "not_found",
            ApiError::InvalidRequest(_) => "invalid_request",
            ApiError::IllegalMove => "illegal_move",
            ApiError::MatchFinished => "match_finished",
            ApiError::BatchNotCancellable => "batch_not_cancellable",
            ApiError::EngineUnavailable => "engine_unavailable",
            ApiError::WriteQueueSaturated => "write_queue_saturated",
            ApiError::UnsupportedFormatVersion { .. } => "unsupported_format_version",
            ApiError::Internal(_) => "internal_error",
        }
    }

    pub open spec fn spec_status_code(&self) -> u16 {
        match self {
            ApiError::NotFound { .. } => 404,
            ApiError::InvalidRequest(_) => 400,
            ApiError::IllegalMove | ApiError::MatchFinished | ApiError::BatchNotCancellable => 409,
            ApiError::UnsupportedFormatVersion { .. } => 409,
            ApiError::EngineUnavailable | ApiError::WriteQueueSaturated => 503,
            ApiError::Internal(_) => 500,
        }
    }

    /// The numeric HTTP status of the error.
    pub fn status_code(&self) -> (code: u16)
        ensures
            code == self.spec_status_code(),
    {
        match self {
            ApiError::NotFound { .. } => 404,
            ApiError::InvalidRequest(_) => 400,
            ApiError::IllegalMove | ApiError::MatchFinished | ApiError::BatchNotCancellable => 409,
            ApiError::UnsupportedFormatVersion { .. } => 409,
            ApiError::EngineUnavailable | ApiError::WriteQueueSaturated => 503,
            ApiError::Internal(_) => 500,
        }
    }

    pub fn status(&self) -> (status: StatusCode)
        ensures
            status == status_with_code(self.spec_status_code()),
    {
        status_from_code(self.status_code())
    }

    /// The human-readable description. An internal error's detail is for the
    /// operator, not the client.
    pub fn message(&self) -> (text: String)
        ensures
            self matches ApiError::NotFound { what } ==> text@ == what@ + " does not exist"@,
            self matches ApiError::InvalidRequest(detail) ==> text@ == detail@,
            self is IllegalMove ==> text@ == "the selected move is not legal in the current position"@,
            self is MatchFinished ==> text@ == "this match is already over"@,
            self is BatchNotCancellable ==> text@
                == "this batch cannot be cancelled from its current state"@,
            self is EngineUnavailable ==> text@ == "no engine worker is available"@,
            self is WriteQueueSaturated ==> text@ == "the write queue is saturated; retry"@,
            self matches ApiError::UnsupportedFormatVersion { found } ==> exists|digits: String|
                text@ == "stored data uses format_version "@ + digits@
                    + ", which this build cannot decode"@
                    && vstd::string::to_string_from_display_ensures::<u32>(&found, digits),
            self is Internal ==> text@ == "internal error"@,
    {
        match self {
            ApiError::NotFound { what } => {
                let mut text = (*what).to_owned();
                text.append(" does not exist");
                text
            },
            ApiError::InvalidRequest(detail) => detail.clone(),
            ApiError::IllegalMove => "the selected move is not legal in the current position".to_owned(),
            ApiError::MatchFinished => "this match is already over".to_owned(),
            ApiError::BatchNotCancellable => "this batch cannot be cancelled from its current state".to_owned(),
            ApiError::EngineUnavailable => "no engine worker is available".to_owned(),
            ApiError::WriteQueueSaturated => "the write queue is saturated; retry".to_owned(),
            ApiError::UnsupportedFormatVersion { found } => {
                let digits = found.to_string();
                let mut text = "stored data uses format_version ".to_owned();
                text.append(digits.as_str());
                text.append(", which this build cannot decode");
                text
            },
            ApiError::Internal(_) => "internal error".to_owned(),
        }
    }
}

impl From<anyhow::Error> for ApiError {
    fn from(source: anyhow::Error) -> (error: ApiError) {
        ApiError::Internal(source)
    }
}

impl vstd::std_specs::convert::FromSpecImpl<anyhow::Error> for ApiError {
    open spec fn obeys_from_spec() -> bool {
        true
    }

    open spec fn from_spec(source: anyhow::Error) -> ApiError {
        ApiError::Internal(source)
    }
}

pub type ApiResult<T> = Result<T, ApiError>;

} // verus!
