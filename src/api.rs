//! The outer API over the use-case layer.
use vstd::prelude::*;
use crate::domain::process_succeeds;
use crate::handlers::{blank, is_blank};
use crate::text::{join2, join3, trim, trimmed};
use crate::domain::domain_display;
use crate::usecases::{self, UseCaseError, handle_outcome, use_case_display};

verus! {

/// Failures of an API request.
#[derive(Debug)]
pub enum RequestError {
    /// The document ID is blank.
    EmptyDocumentId,
    /// The content is blank; holds the document ID, trimmed.
    EmptyContent(String),
    /// Processing the document `doc_id` failed with `cause`.
    Processing { doc_id: String, cause: UseCaseError },
    /// Validating or processing new content failed.
    UseCase(UseCaseError),
}

/// The text of a request error: the outermost context where there is one.
pub open spec fn request_display(e: RequestError) -> Seq<char> {
    match e {
        RequestError::EmptyDocumentId => "Document ID cannot be empty"@,
        RequestError::EmptyContent(id) => "This content with id: '"@ + id@ + "' is not good.\n"@,
        RequestError::Processing { doc_id, cause } => "Failed processing document "@ + doc_id@,
        RequestError::UseCase(u) => use_case_display(u),
    }
}

/// The text of the failure beneath a use-case error: the domain error it
/// wraps, or the error itself where it wraps none.
pub open spec fn use_case_root(u: UseCaseError) -> Seq<char> {
    match u {
        UseCaseError::DomainError(d) => domain_display(d),
        UseCaseError::ValidationError(_) => use_case_display(u),
    }
}

/// The text of the innermost failure of a request error.
pub open spec fn request_root(e: RequestError) -> Seq<char> {
    match e {
        RequestError::EmptyDocumentId => "Document ID cannot be empty"@,
        RequestError::EmptyContent(_) => "Document content cannot be empty"@,
        RequestError::Processing { doc_id, cause } => use_case_root(cause),
        RequestError::UseCase(u) => use_case_root(u),
    }
}

impl RequestError {
    /// The text of the innermost failure, beneath any context.
    pub fn root_cause(&self) -> (r: String)
        ensures
            r@ == request_root(*self),
    {
        let u = match self {
            RequestError::EmptyDocumentId => {
                return String::from_str("Document ID cannot be empty");
            },
            RequestError::EmptyContent(_) => {
                return String::from_str("Document content cannot be empty");
            },
            RequestError::Processing { doc_id, cause } => cause,
            RequestError::UseCase(u) => u,
        };
        match u {
            UseCaseError::DomainError(d) => d.to_string(),
            UseCaseError::ValidationError(_) => u.to_string(),
        }
    }

    /// The text of this error.
    pub fn to_string(&self) -> (r: String)
        ensures
            r@ == request_display(*self),
    {
        match self {
            RequestError::EmptyDocumentId => String::from_str("Document ID cannot be empty"),
            RequestError::EmptyContent(id) => join3(
                "This content with id: '",
                id.as_str(),
                "' is not good.\n",
            ),
            RequestError::Processing { doc_id, cause } => join2(
                "Failed processing document ",
                doc_id.as_str(),
            ),
            RequestError::UseCase(u) => u.to_string(),
        }
    }
}

/// Processes the document `doc_id` and returns the content to report. A
/// blank ID is refused; a failure below is kept as the cause.
pub fn api_process_document(doc_id: &str) -> (r: Result<String, RequestError>)
    ensures
        if is_blank(doc_id@) {
            r matches Err(RequestError::EmptyDocumentId)
        } else {
            match r {
                Ok(s) => handle_outcome(doc_id@, Ok(s)),
                Err(RequestError::Processing { doc_id: id, cause }) => id@ == doc_id@
                    && handle_outcome(doc_id@, Err(cause)),
                Err(_) => false,
            }
        },
{
    if blank(doc_id) {
        return Err(RequestError::EmptyDocumentId);
    }
    match usecases::handle_document(doc_id) {
        Ok(content) => Ok(content),
        Err(cause) => Err(RequestError::Processing { doc_id: String::from_str(doc_id), cause }),
    }
}

/// Validates and processes new content for `doc_id`. A blank ID or blank
/// content is refused; a failure below is passed on.
pub fn api_create_document(doc_id: &str, content: &str) -> (r: Result<(), RequestError>)
    ensures
        if is_blank(doc_id@) {
            r matches Err(RequestError::EmptyDocumentId)
        } else if is_blank(content@) {
            r matches Err(RequestError::EmptyContent(id)) && id@ == trimmed(doc_id@)
        } else if content.len() < 10 {
            r matches Err(RequestError::UseCase(UseCaseError::ValidationError(m))) && m@
                == "Document validation failed: "@ + "Document too short"@ + " -- "@
                + "[Domain Display] Invalid Document: \""@ + "Document too short"@ + "\""@
        } else {
            match r {
                Ok(()) => process_succeeds(doc_id@),
                Err(RequestError::UseCase(u)) => handle_outcome(doc_id@, Err(u)),
                Err(_) => false,
            }
        },
{
    if blank(doc_id) {
        return Err(RequestError::EmptyDocumentId);
    }
    if blank(content) {
        return Err(RequestError::EmptyContent(String::from_str(trim(doc_id))));
    }
    match usecases::validate_and_process(doc_id, content) {
        Ok(_) => Ok(()),
        Err(e) => Err(RequestError::UseCase(e)),
    }
}

} // verus!
