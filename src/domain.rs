//! The domain layer: document lookup and validation.
use vstd::prelude::*;
use crate::text::{join2, join3, same_text};

verus! {

/// Failures of the domain layer.
#[derive(Debug)]
pub enum DomainError {
    DocumentNotFound(String),
    InvalidDocument(String),
    StorageError(String),
}

/// The text of a domain error.
pub open spec fn domain_display(e: DomainError) -> Seq<char> {
    match e {
        DomainError::DocumentNotFound(s) => "[Domain Display] Document not found: \""@ + s@ + "\""@,
        DomainError::InvalidDocument(s) => "[Domain Display] Invalid Document: \""@ + s@ + "\""@,
        DomainError::StorageError(s) => "[Domain Display] Storage Error:\""@ + s@ + "\""@,
    }
}

impl DomainError {
    /// The text of this error.
    pub fn to_string(&self) -> (r: String)
        ensures
            r@ == domain_display(*self),
    {
        match self {
            DomainError::DocumentNotFound(s) => join3(
                "[Domain Display] Document not found: \"",
                s.as_str(),
                "\"",
            ),
            DomainError::InvalidDocument(s) => join3(
                "[Domain Display] Invalid Document: \"",
                s.as_str(),
                "\"",
            ),
            DomainError::StorageError(s) => join3("[Domain Display] Storage Error:\"", s.as_str(), "\""),
        }
    }
}

/// The content produced for a document that is processed.
pub open spec fn processed_content(id: Seq<char>) -> Seq<char> {
    "Processed document content for ID: "@ + id
}

/// The result of processing the document `id`: an empty ID is invalid, the
/// IDs `not_found` and `storage_error` fail, any other ID gives its content.
pub open spec fn process_outcome(id: Seq<char>, r: Result<String, DomainError>) -> bool {
    if id.len() == 0 {
        r matches Err(DomainError::InvalidDocument(m)) && m@ == "Empty document ID"@
    } else if id == "not_found"@ {
        r matches Err(DomainError::DocumentNotFound(m)) && m@ == id
    } else if id == "storage_error"@ {
        r matches Err(DomainError::StorageError(m)) && m@ == "Failed to read document"@
    } else {
        r matches Ok(s) && s@ == processed_content(id)
    }
}

/// Whether the document `id` is processed without failure.
pub open spec fn process_succeeds(id: Seq<char>) -> bool {
    id.len() != 0 && id != "not_found"@ && id != "storage_error"@
}

/// Processes the document `doc_id` and returns its content.
pub fn process_document(doc_id: &str) -> (r: Result<String, DomainError>)
    ensures
        process_outcome(doc_id@, r),
{
    if doc_id.is_empty() {
        return Err(DomainError::InvalidDocument(String::from_str("Empty document ID")));
    }
    if same_text(doc_id, "not_found") {
        return Err(DomainError::DocumentNotFound(String::from_str(doc_id)));
    }
    if same_text(doc_id, "storage_error") {
        return Err(DomainError::StorageError(String::from_str("Failed to read document")));
    }
    Ok(join2("Processed document content for ID: ", doc_id))
}

/// Accepts content of at least ten bytes; shorter content is invalid.
pub fn validate_document(content: &str) -> (r: Result<(), DomainError>)
    ensures
        if content.len() < 10 {
            r matches Err(DomainError::InvalidDocument(m)) && m@ == "Document too short"@
        } else {
            r is Ok
        },
{
    if content.len() < 10 {
        return Err(DomainError::InvalidDocument(String::from_str("Document too short")));
    }
    Ok(())
}

} // verus!
