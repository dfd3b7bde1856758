use realty::errors::AppError;
use realty::models::ApiResponse;

#[test]
fn the_envelope_keeps_what_it_is_given() {
    let r: ApiResponse<u32> = ApiResponse::new(
        true,
        "Successfully retrieved".to_string(),
        Some(7),
        None,
    );
    assert!(r.success);
    assert_eq!(r.message, "Successfully retrieved");
    assert_eq!(r.data, Some(7));
    assert_eq!(r.error, None);

    let e: ApiResponse<u32> = ApiResponse::new(
        false,
        "Failed".to_string(),
        None,
        Some("boom".to_string()),
    );
    assert!(!e.success);
    assert_eq!(e.data, None);
    assert_eq!(e.error.as_deref(), Some("boom"));
}

#[test]
fn every_error_class_maps_to_its_status_code() {
    assert_eq!(AppError::InvalidInput.status_code(), 400);
    assert_eq!(AppError::Unauthorized.status_code(), 400);
    assert_eq!(AppError::NotFound.status_code(), 404);
    assert_eq!(AppError::Forbidden.status_code(), 403);
    assert_eq!(AppError::Conflict.status_code(), 400);
    assert_eq!(AppError::Internal.status_code(), 500);
}
