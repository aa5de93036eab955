//! The core layer: document lookup and validation.
use vstd::prelude::*;
use crate::text::{join2, join3, same_text};

verus! {

/// Failures of the core layer.
#[derive(Debug)]
pub enum CoreError {
    DocumentNotFound(String),
    InvalidDocument(String),
    StorageError(String),
}

/// The text of a core error.
pub open spec fn core_display(e: CoreError) -> Seq<char> {
    match e {
        CoreError::DocumentNotFound(s) => "[Core Display] Document not found: \""@ + s@ + "\""@,
        CoreError::InvalidDocument(s) => "[Core Display] Invalid Document: \""@ + s@ + "\""@,
        CoreError::StorageError(s) => "[Core Display] Storage Error:\""@ + s@ + "\""@,
    }
}

impl CoreError {
    /// The text of this error.
    pub fn to_string(&self) -> (r: String)
        ensures
            r@ == core_display(*self),
    {
        match self {
            CoreError::DocumentNotFound(s) => join3(
                "[Core Display] Document not found: \"",
                s.as_str(),
                "\"",
            ),
            CoreError::InvalidDocument(s) => join3(
                "[Core Display] Invalid Document: \"",
                s.as_str(),
                "\"",
            ),
            CoreError::StorageError(s) => join3("[Core Display] Storage Error:\"", s.as_str(), "\""),
        }
    }
}

/// The content produced for a document that is processed.
pub open spec fn processed_content(id: Seq<char>) -> Seq<char> {
    "Processed document content for ID: "@ + id
}

/// The result of processing the document `id`: an empty ID is invalid, the
/// IDs `not_found` and `storage_error` fail, any other ID gives its content.
pub open spec fn process_outcome(id: Seq<char>, r: Result<String, CoreError>) -> bool {
    if id.len() == 0 {
        r matches Err(CoreError::InvalidDocument(m)) && m@ == "Empty document ID"@
    } else if id == "not_found"@ {
        r matches Err(CoreError::DocumentNotFound(m)) && m@ == id
    } else if id == "storage_error"@ {
        r matches Err(CoreError::StorageError(m)) && m@ == "Failed to read document"@
    } else {
        r matches Ok(s) && s@ == processed_content(id)
    }
}

/// Whether the document `id` is processed without failure.
pub open spec fn process_succeeds(id: Seq<char>) -> bool {
    id.len() != 0 && id != "not_found"@ && id != "storage_error"@
}

/// Processes the document `doc_id` and returns its content.
pub fn process_document(doc_id: &str) -> (r: Result<String, CoreError>)
    ensures
        process_outcome(doc_id@, r),
{
    if doc_id.is_empty() {
        return Err(CoreError::InvalidDocument(String::from_str("Empty document ID")));
    }
    if same_text(doc_id, "not_found") {
        return Err(CoreError::DocumentNotFound(String::from_str(doc_id)));
    }
    if same_text(doc_id, "storage_error") {
        return Err(CoreError::StorageError(String::from_str("Failed to read document")));
    }
    Ok(join2("Processed document content for ID: ", doc_id))
}

/// Accepts content of at least ten bytes; shorter content is invalid.
pub fn validate_document(content: &str) -> (r: Result<(), CoreError>)
    ensures
        if content.len() < 10 {
            r matches Err(CoreError::InvalidDocument(m)) && m@ == "Document too short"@
        } else {
            r is Ok
        },
{
    if content.len() < 10 {
        return Err(CoreError::InvalidDocument(String::from_str("Document too short")));
    }
    Ok(())
}

} // verus!
