//! Request handlers over the service layer.
use vstd::prelude::*;
use crate::models::{CoreError, core_display, process_outcome, process_succeeds};
use crate::services::{self, ServiceError, handle_outcome, service_display};
use crate::text::{join2, trim, trimmed};

verus! {

/// Failures reported to a client.
#[derive(Debug)]
pub enum ApiError {
    ServiceError(ServiceError),
    BadRequest(String),
    InternalError(String),
}

/// The text of an API error.
pub open spec fn api_display(e: ApiError) -> Seq<char> {
    match e {
        ApiError::ServiceError(s) => "Service error: "@ + service_display(s),
        ApiError::BadRequest(s) => "Bad request: "@ + s@,
        ApiError::InternalError(s) => "Internal server error: "@ + s@,
    }
}

impl ApiError {
    /// The text of this error.
    pub fn to_string(&self) -> (r: String)
        ensures
            r@ == api_display(*self),
    {
        match self {
            ApiError::ServiceError(s) => join2("Service error: ", s.to_string().as_str()),
            ApiError::BadRequest(s) => join2("Bad request: ", s.as_str()),
            ApiError::InternalError(s) => join2("Internal server error: ", s.as_str()),
        }
    }
}

/// Whether `s` holds nothing but white space.
pub open spec fn is_blank(s: Seq<char>) -> bool {
    trimmed(s).len() == 0
}

/// Whether `s` holds nothing but white space.
pub fn blank(s: &str) -> (r: bool)
    ensures
        r == is_blank(s@),
{
    trim(s).is_empty()
}

/// Processes the document `doc_id` and returns the content to report. A
/// blank ID is a bad request; any failure below is an internal error.
pub fn api_process_document(doc_id: &str) -> (r: Result<String, ApiError>)
    ensures
        if is_blank(doc_id@) {
            r matches Err(ApiError::BadRequest(m)) && m@ == "Document ID cannot be empty"@
        } else {
            match r {
                Ok(s) => handle_outcome(doc_id@, Ok(s)),
                Err(ApiError::InternalError(m)) => m@ == "An unexpected error occurred"@ && exists|
                    e: CoreError,
                | process_outcome(doc_id@, Err(e)),
                Err(_) => false,
            }
        },
{
    if blank(doc_id) {
        return Err(ApiError::BadRequest(String::from_str("Document ID cannot be empty")));
    }
    match services::handle_document(doc_id) {
        Ok(content) => Ok(content),
        Err(ServiceError::ValidationError(msg)) => Err(ApiError::BadRequest(msg)),
        Err(ServiceError::CoreError(_)) => Err(
            ApiError::InternalError(String::from_str("An unexpected error occurred")),
        ),
    }
}

/// Validates and processes new content for `doc_id`. Blank input and
/// invalid content are bad requests; a core failure is an internal error
/// that carries its text.
pub fn api_create_document(doc_id: &str, content: &str) -> (r: Result<(), ApiError>)
    ensures
        if is_blank(doc_id@) {
            r matches Err(ApiError::BadRequest(m)) && m@ == "Document ID cannot be empty"@
        } else if is_blank(content@) {
            r matches Err(ApiError::BadRequest(m)) && m@ == "Document content cannot be empty"@
        } else if content.len() < 10 {
            r matches Err(ApiError::BadRequest(m)) && m@ == "Document validation failed: "@
                + "Document too short"@ + " -- "@ + "[Core Display] Invalid Document: \""@
                + "Document too short"@ + "\""@
        } else {
            match r {
                Ok(()) => process_succeeds(doc_id@),
                Err(ApiError::InternalError(m)) => exists|e: CoreError|
                    process_outcome(doc_id@, Err(e)) && m@ == "Core system error: "@ + core_display(
                        e,
                    ),
                Err(_) => false,
            }
        },
{
    if blank(doc_id) {
        return Err(ApiError::BadRequest(String::from_str("Document ID cannot be empty")));
    }
    if blank(content) {
        return Err(ApiError::BadRequest(String::from_str("Document content cannot be empty")));
    }
    match services::validate_and_process(doc_id, content) {
        Ok(_) => Ok(()),
        Err(ServiceError::ValidationError(msg)) => Err(ApiError::BadRequest(msg)),
        Err(ServiceError::CoreError(core_err)) => Err(
            ApiError::InternalError(join2("Core system error: ", core_err.to_string().as_str())),
        ),
    }
}

} // verus!
