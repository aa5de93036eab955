//! The service layer over the core layer.
use vstd::prelude::*;
use crate::models::{self, CoreError, core_display, process_outcome};
use crate::text::{join2, join3};

verus! {

/// Failures of the service layer.
#[derive(Debug)]
pub enum ServiceError {
    /// A core failure, passed on whole.
    CoreError(CoreError),
    ValidationError(String),
}

/// The text of a service error.
pub open spec fn service_display(e: ServiceError) -> Seq<char> {
    match e {
        ServiceError::CoreError(c) => "Core error: "@ + core_display(c),
        ServiceError::ValidationError(s) => "Validation error: "@ + s@,
    }
}

impl ServiceError {
    /// The text of this error.
    pub fn to_string(&self) -> (r: String)
        ensures
            r@ == service_display(*self),
    {
        match self {
            ServiceError::CoreError(c) => join2("Core error: ", c.to_string().as_str()),
            ServiceError::ValidationError(s) => join2("Validation error: ", s.as_str()),
        }
    }
}

/// The result of handling the document `id`: the core content behind a
/// prefix, or the core failure wrapped.
pub open spec fn handle_outcome(id: Seq<char>, r: Result<String, ServiceError>) -> bool {
    match r {
        Ok(s) => exists|c: String|
            process_outcome(id, Ok(c)) && s@ == "Service processed: "@ + c@,
        Err(ServiceError::CoreError(e)) => process_outcome(id, Err(e)),
        Err(ServiceError::ValidationError(_)) => false,
    }
}

/// Processes the document `doc_id` through the core layer.
pub fn handle_document(doc_id: &str) -> (r: Result<String, ServiceError>)
    ensures
        handle_outcome(doc_id@, r),
{
    match models::process_document(doc_id) {
        Ok(content) => Ok(join2("Service processed: ", content.as_str())),
        Err(e) => Err(ServiceError::CoreError(e)),
    }
}

/// Validates `content`, then processes `doc_id`. Invalid content gives a
/// `ValidationError` that holds the reason and the core error's text.
pub fn validate_and_process(doc_id: &str, content: &str) -> (r: Result<String, ServiceError>)
    ensures
        if content.len() < 10 {
            r matches Err(ServiceError::ValidationError(m)) && m@ == "Document validation failed: "@
                + "Document too short"@ + " -- "@ + "[Core Display] Invalid Document: \""@
                + "Document too short"@ + "\""@
        } else {
            handle_outcome(doc_id@, r)
        },
{
    match models::validate_document(content) {
        Ok(()) => {},
        Err(err) => {
            let full_error_message = err.to_string();
            return match err {
                CoreError::InvalidDocument(reason) => {
                    let mut m = join3("Document validation failed: ", reason.as_str(), " -- ");
                    m.append(full_error_message.as_str());
                    Err(ServiceError::ValidationError(m))
                },
                other => Err(ServiceError::CoreError(other)),
            };
        },
    }
    handle_document(doc_id)
}

} // verus!
