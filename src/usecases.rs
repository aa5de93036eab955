//! The use-case layer over the domain layer.
use vstd::prelude::*;
use crate::domain::{self, DomainError, domain_display, process_outcome};
use crate::text::{join2, join3};

verus! {

/// Failures of the use-case layer.
#[derive(Debug)]
pub enum UseCaseError {
    /// A domain failure, passed on whole.
    DomainError(DomainError),
    ValidationError(String),
}

/// The text of a use-case error.
pub open spec fn use_case_display(e: UseCaseError) -> Seq<char> {
    match e {
        UseCaseError::DomainError(c) => "domain error: "@ + domain_display(c),
        UseCaseError::ValidationError(s) => "Validation error: "@ + s@,
    }
}

impl UseCaseError {
    /// The text of this error.
    pub fn to_string(&self) -> (r: String)
        ensures
            r@ == use_case_display(*self),
    {
        match self {
            UseCaseError::DomainError(c) => join2("domain error: ", c.to_string().as_str()),
            UseCaseError::ValidationError(s) => join2("Validation error: ", s.as_str()),
        }
    }
}

/// The result of handling the document `id`: the domain content behind a
/// prefix, or the domain failure wrapped.
pub open spec fn handle_outcome(id: Seq<char>, r: Result<String, UseCaseError>) -> bool {
    match r {
        Ok(s) => exists|c: String|
            process_outcome(id, Ok(c)) && s@ == "Service processed: "@ + c@,
        Err(UseCaseError::DomainError(e)) => process_outcome(id, Err(e)),
        Err(UseCaseError::ValidationError(_)) => false,
    }
}

/// Processes the document `doc_id` through the domain layer.
pub fn handle_document(doc_id: &str) -> (r: Result<String, UseCaseError>)
    ensures
        handle_outcome(doc_id@, r),
{
    match domain::process_document(doc_id) {
        Ok(content) => Ok(join2("Service processed: ", content.as_str())),
        Err(e) => Err(UseCaseError::DomainError(e)),
    }
}

/// Validates `content`, then processes `doc_id`. Invalid content gives a
/// `ValidationError` that holds the reason and the domain error's text.
pub fn validate_and_process(doc_id: &str, content: &str) -> (r: Result<String, UseCaseError>)
    ensures
        if content.len() < 10 {
            r matches Err(UseCaseError::ValidationError(m)) && m@ == "Document validation failed: "@
                + "Document too short"@ + " -- "@ + "[Domain Display] Invalid Document: \""@
                + "Document too short"@ + "\""@
        } else {
            handle_outcome(doc_id@, r)
        },
{
    match domain::validate_document(content) {
        Ok(()) => {},
        Err(err) => {
            let full_error_message = err.to_string();
            return match err {
                DomainError::InvalidDocument(reason) => {
                    let mut m = join3("Document validation failed: ", reason.as_str(), " -- ");
                    m.append(full_error_message.as_str());
                    Err(UseCaseError::ValidationError(m))
                },
                other => Err(UseCaseError::DomainError(other)),
            };
        },
    }
    handle_document(doc_id)
}

} // verus!
