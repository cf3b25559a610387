use imdn::error::{ErrorCode, ReadImageError, ReadThumbnailError};

#[test]
fn image_errors_convert_to_thumbnail_errors() {
    assert_eq!(
        ReadThumbnailError::from(ReadImageError::ForbiddenPath),
        ReadThumbnailError::ForbiddenPath
    );
    assert_eq!(
        ReadThumbnailError::from(ReadImageError::FileNotFound),
        ReadThumbnailError::FileNotFound
    );
    assert_eq!(
        ReadThumbnailError::from(ReadImageError::BackendUnavailable),
        ReadThumbnailError::BackendUnavailable
    );
}

#[test]
fn statuses() {
    assert_eq!(ReadImageError::ForbiddenPath.status(), 403);
    assert_eq!(ReadThumbnailError::ForbiddenPath.status(), 403);
    assert_eq!(ReadThumbnailError::FileNotFound.status(), 404);
    assert_eq!(ReadThumbnailError::BackendUnavailable.status(), 503);
    assert_eq!(ReadThumbnailError::DecodeError.status(), 422);
    assert_eq!(ReadThumbnailError::EncodeError.status(), 500);
    assert_eq!(ReadThumbnailError::CacheUnavailable.status(), 500);
    assert!(ReadThumbnailError::BackendUnavailable.is_retryable());
    assert!(!ReadThumbnailError::DecodeError.is_retryable());
}

#[test]
fn error_codes() {
    assert_eq!(ErrorCode::new("x.y").error_code(), "x.y");
    assert_eq!(
        ErrorCode::for_image_error(ReadImageError::FileNotFound).error_code(),
        "not.found"
    );
    assert_eq!(
        ErrorCode::for_image_error(ReadImageError::ForbiddenPath).error_code(),
        "forbidden"
    );
    assert_eq!(
        ErrorCode::for_image_error(ReadImageError::BackendUnavailable).error_code(),
        "service.unavailable"
    );
    assert_eq!(ErrorCode::internal().error_code(), "internal.server.error");
}

#[test]
fn thumbnail_error_codes() {
    assert_eq!(
        ErrorCode::for_thumbnail_error(ReadThumbnailError::ForbiddenPath).error_code(),
        "forbidden"
    );
    assert_eq!(
        ErrorCode::for_thumbnail_error(ReadThumbnailError::FileNotFound).error_code(),
        "not.found"
    );
    assert_eq!(
        ErrorCode::for_thumbnail_error(ReadThumbnailError::BackendUnavailable).error_code(),
        "service.unavailable"
    );
    assert_eq!(
        ErrorCode::for_thumbnail_error(ReadThumbnailError::DecodeError).error_code(),
        "unsupported.image"
    );
    assert_eq!(
        ErrorCode::for_thumbnail_error(ReadThumbnailError::EncodeError).error_code(),
        "internal.server.error"
    );
    assert_eq!(
        ErrorCode::for_thumbnail_error(ReadThumbnailError::CacheUnavailable).error_code(),
        "internal.server.error"
    );
}
