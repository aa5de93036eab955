use error_handling::api::{self, RequestError};
use error_handling::domain::{self, DomainError};
use error_handling::handlers::{self, ApiError};
use error_handling::models::{self, CoreError};
use error_handling::services::{self, ServiceError};
use error_handling::usecases::{self, UseCaseError};

#[test]
fn core_process_document_cases() {
    assert_eq!(
        models::process_document("valid_doc").unwrap(),
        "Processed document content for ID: valid_doc"
    );
    match models::process_document("") {
        Err(CoreError::InvalidDocument(m)) => assert_eq!(m, "Empty document ID"),
        other => panic!("unexpected {:?}", other),
    }
    match models::process_document("not_found") {
        Err(CoreError::DocumentNotFound(m)) => assert_eq!(m, "not_found"),
        other => panic!("unexpected {:?}", other),
    }
    match models::process_document("storage_error") {
        Err(CoreError::StorageError(m)) => assert_eq!(m, "Failed to read document"),
        other => panic!("unexpected {:?}", other),
    }
}

#[test]
fn core_validate_document_counts_bytes() {
    assert!(models::validate_document("Too short").is_err());
    assert!(models::validate_document("0123456789").is_ok());
    // five characters, ten bytes
    assert!(models::validate_document("ééééé").is_ok());
    match models::validate_document("") {
        Err(CoreError::InvalidDocument(m)) => assert_eq!(m, "Document too short"),
        other => panic!("unexpected {:?}", other),
    }
}

#[test]
fn core_error_texts() {
    assert_eq!(
        CoreError::DocumentNotFound("x".to_string()).to_string(),
        "[Core Display] Document not found: \"x\""
    );
    assert_eq!(
        CoreError::InvalidDocument("y".to_string()).to_string(),
        "[Core Display] Invalid Document: \"y\""
    );
    assert_eq!(
        CoreError::StorageError("z".to_string()).to_string(),
        "[Core Display] Storage Error:\"z\""
    );
}

#[test]
fn domain_layer_cases() {
    assert_eq!(
        domain::process_document("abc").unwrap(),
        "Processed document content for ID: abc"
    );
    assert!(matches!(domain::process_document("not_found"), Err(DomainError::DocumentNotFound(_))));
    assert!(matches!(domain::validate_document("short"), Err(DomainError::InvalidDocument(_))));
    assert_eq!(
        DomainError::StorageError("s".to_string()).to_string(),
        "[Domain Display] Storage Error:\"s\""
    );
}

#[test]
fn services_wrap_core() {
    assert_eq!(
        services::handle_document("doc").unwrap(),
        "Service processed: Processed document content for ID: doc"
    );
    let err = services::handle_document("storage_error").unwrap_err();
    assert_eq!(
        err.to_string(),
        "Core error: [Core Display] Storage Error:\"Failed to read document\""
    );
    match services::validate_and_process("doc", "Too short") {
        Err(ServiceError::ValidationError(m)) => assert_eq!(
            m,
            "Document validation failed: Document too short -- \
             [Core Display] Invalid Document: \"Document too short\""
        ),
        other => panic!("unexpected {:?}", other),
    }
    assert!(services::validate_and_process("doc", "long enough content").is_ok());
    assert!(matches!(
        services::validate_and_process("not_found", "long enough content"),
        Err(ServiceError::CoreError(CoreError::DocumentNotFound(_)))
    ));
}

#[test]
fn usecases_wrap_domain() {
    assert_eq!(
        usecases::handle_document("doc").unwrap(),
        "Service processed: Processed document content for ID: doc"
    );
    let err = usecases::handle_document("not_found").unwrap_err();
    assert_eq!(
        err.to_string(),
        "domain error: [Domain Display] Document not found: \"not_found\""
    );
    match usecases::validate_and_process("doc", "tiny") {
        Err(UseCaseError::ValidationError(m)) => {
            assert_eq!(
                m,
                "Document validation failed: Document too short -- \
                 [Domain Display] Invalid Document: \"Document too short\""
            );
        }
        other => panic!("unexpected {:?}", other),
    }
    assert_eq!(
        UseCaseError::ValidationError("v".to_string()).to_string(),
        "Validation error: v"
    );
}

#[test]
fn handlers_map_service_errors() {
    assert!(matches!(
        handlers::api_process_document(" \t "),
        Err(ApiError::BadRequest(m)) if m == "Document ID cannot be empty"
    ));
    assert_eq!(
        handlers::api_process_document("doc").unwrap(),
        "Service processed: Processed document content for ID: doc"
    );
    assert!(matches!(
        handlers::api_process_document("not_found"),
        Err(ApiError::InternalError(m)) if m == "An unexpected error occurred"
    ));
    assert!(matches!(
        handlers::api_create_document("id", "\n "),
        Err(ApiError::BadRequest(m)) if m == "Document content cannot be empty"
    ));
    assert!(matches!(
        handlers::api_create_document("id", "short"),
        Err(ApiError::BadRequest(m)) if m.starts_with("Document validation failed")
    ));
    match handlers::api_create_document("storage_error", "long enough content") {
        Err(ApiError::InternalError(m)) => assert_eq!(
            m,
            "Core system error: [Core Display] Storage Error:\"Failed to read document\""
        ),
        other => panic!("unexpected {:?}", other),
    }
    assert!(handlers::api_create_document("id", "long enough content").is_ok());
    assert_eq!(
        ApiError::BadRequest("b".to_string()).to_string(),
        "Bad request: b"
    );
    assert_eq!(
        ApiError::ServiceError(ServiceError::ValidationError("v".to_string())).to_string(),
        "Service error: Validation error: v"
    );
}

#[test]
fn api_process_and_create() {
    assert!(matches!(api::api_process_document(""), Err(RequestError::EmptyDocumentId)));
    assert_eq!(
        api::api_process_document("valid_doc").unwrap(),
        "Service processed: Processed document content for ID: valid_doc"
    );
    let err = api::api_process_document("not_found").unwrap_err();
    assert_eq!(err.to_string(), "Failed processing document not_found");
    assert!(matches!(
        err,
        RequestError::Processing { cause: UseCaseError::DomainError(DomainError::DocumentNotFound(_)), .. }
    ));

    assert!(api::api_create_document("new_doc", "This is a valid document with enough content").is_ok());
    assert!(matches!(
        api::api_create_document("new_doc", "Too short"),
        Err(RequestError::UseCase(UseCaseError::ValidationError(_)))
    ));
    assert!(matches!(api::api_create_document("", "Too short"), Err(RequestError::EmptyDocumentId)));
    let err = api::api_create_document("  sane_id\u{3000}", "").unwrap_err();
    assert!(matches!(&err, RequestError::EmptyContent(id) if id == "sane_id"));
    assert_eq!(err.to_string(), "This content with id: 'sane_id' is not good.\n");
    assert_eq!(err.root_cause(), "Document content cannot be empty");
    assert_eq!(
        api::api_process_document("not_found").unwrap_err().root_cause(),
        "[Domain Display] Document not found: \"not_found\""
    );
    assert_eq!(
        api::api_create_document("x", "short").unwrap_err().root_cause(),
        "Validation error: Document validation failed: Document too short -- \
         [Domain Display] Invalid Document: \"Document too short\""
    );
    assert_eq!(RequestError::EmptyDocumentId.root_cause(), "Document ID cannot be empty");
}
