use vstd::prelude::*;

verus! {

#[verifier::external_type_specification]
#[verifier::external_body]
pub struct ExReqwestError(reqwest::Error);

#[verifier::external_type_specification]
#[verifier::external_body]
pub struct ExJsonError(serde_json::Error);

/// The error codes that the API's OAuth endpoints report.
#[derive(Debug, Clone, Copy, PartialEq, Eq, Structural)]
pub enum ErrorType {
    InvalidClient,
    InvalidGrant,
    InvalidRequest,
    InvalidScope,
    UnauthorizedClient,
    UnsupportedGrantType,
    Unknown,
}

/// The kind that an `error` string of the API stands for: an exact match on one
/// of the known codes, and `Unknown` for anything else.
pub open spec fn error_type_of(s: Seq<char>) -> ErrorType {
    if s == "invalid_client"@ {
        ErrorType::InvalidClient
    } else if s == "invalid_grant"@ {
        ErrorType::InvalidGrant
    } else if s == "invalid_request"@ {
        ErrorType::InvalidRequest
    } else if s == "invalid_scope"@ {
        ErrorType::InvalidScope
    } else if s == "unauthorized_client"@ {
        ErrorType::UnauthorizedClient
    } else if s == "unsupported_grant_type"@ {
        ErrorType::UnsupportedGrantType
    } else {
        ErrorType::Unknown
    }
}

/// An `error` string that is none of the known codes is read as `Unknown`,
/// never as a failure.
pub proof fn lemma_unrecognised_error_is_unknown(s: Seq<char>)
    requires
        s != "invalid_client"@,
        s != "invalid_grant"@,
        s != "invalid_request"@,
        s != "invalid_scope"@,
        s != "unauthorized_client"@,
        s != "unsupported_grant_type"@,
    ensures
        error_type_of(s) == ErrorType::Unknown,
{
}

impl ErrorType {
    /// Reads an `error` string of the API; an unrecognised one is `Unknown`.
    pub fn parse(s: &str) -> (r: ErrorType)
        ensures
            r == error_type_of(s@),
    {
        let s = String::from_str(s);
        if s == String::from_str("invalid_client") {
            ErrorType::InvalidClient
        } else if s == String::from_str("invalid_grant") {
            ErrorType::InvalidGrant
        } else if s == String::from_str("invalid_request") {
            ErrorType::InvalidRequest
        } else if s == String::from_str("invalid_scope") {
            ErrorType::InvalidScope
        } else if s == String::from_str("unauthorized_client") {
            ErrorType::UnauthorizedClient
        } else if s == String::from_str("unsupported_grant_type") {
            ErrorType::UnsupportedGrantType
        } else {
            ErrorType::Unknown
        }
    }
}

impl std::str::FromStr for ErrorType {
    type Err = FtError;

    fn from_str(s: &str) -> (r: Result<ErrorType, FtError>)
        ensures
            r == Ok::<ErrorType, FtError>(error_type_of(s@)),
    {
        Ok(ErrorType::parse(s))
    }
}

/// The text of an optional string slice.
pub open spec fn opt_view(o: Option<&str>) -> Option<Seq<char>> {
    match o {
        Some(s) => Some(s@),
        None => None,
    }
}

/// Everything that can go wrong when talking to the API.
#[derive(Debug)]
pub enum FtError {
    /// The HTTP client could not be built.
    ReqwestBuilderError(reqwest::Error),
    /// A request could not be sent or its response not be read.
    ReqwestError(reqwest::Error),
    /// A response body did not have the expected shape.
    SerdeError { source: serde_json::Error },
    /// An operation for one credential mode was called on a client of the other.
    InvalidAuthType,
    /// The API rejected the request.
    ApiError { error: ErrorType, error_status: u64, error_description: String },
    /// A request for something that this library does not offer yet.
    NotImplemented,
    /// The system clock reads a time before the Unix epoch.
    InvalidTimestamp { seconds_before_epoch: u64 },
}

/// The error that a rejected request stands for, from the fields of its body:
/// `error` defaults to `unknown`, the description to a fixed sentence, and the
/// status to the HTTP status of the response.
pub open spec fn api_error_of(http_status: u16, error: Option<Seq<char>>, description: Option<Seq<char>>, status: Option<u64>) -> (ErrorType, u64, Seq<char>) {
    (
        match error {
            Some(e) => error_type_of(e),
            None => ErrorType::Unknown,
        },
        match status {
            Some(s) => s,
            None => http_status as u64,
        },
        match description {
            Some(d) => d,
            None => "No description provided."@,
        },
    )
}

impl FtError {
    /// The error for a request that the API rejected.
    pub fn from_api_error(error: ErrorType, status: u64, error_description: String) -> (r: Self)
        ensures
            r matches FtError::ApiError { error: e, error_status: s, error_description: d }
                && e == error && s == status && d == error_description,
    {
        FtError::ApiError { error, error_status: status, error_description }
    }

    /// The error that a rejected request stands for, from the `error`,
    /// `error_description` and `status` fields of its body and its HTTP status.
    pub fn from_error_fields(http_status: u16, error: Option<&str>, description: Option<&str>, status: Option<u64>) -> (r: Self)
        ensures
            r matches FtError::ApiError { error: e, error_status: s, error_description: d }
                && (e, s, d@) == api_error_of(http_status, opt_view(error), opt_view(description), status),
    {
        let kind = match error {
            Some(e) => ErrorType::parse(e),
            None => ErrorType::Unknown,
        };
        let code = match status {
            Some(s) => s,
            None => http_status as u64,
        };
        let text = match description {
            Some(d) => String::from_str(d),
            None => String::from_str("No description provided."),
        };
        FtError::from_api_error(kind, code, text)
    }
}

} // verus!
