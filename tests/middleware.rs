use upload_coordinator::errors::AppError;
use upload_coordinator::middleware::{parse_chunk_index, ValidationMiddleware};

#[test]
fn validate_file_size_allows_within_limit() {
    assert!(ValidationMiddleware::validate_file_size(1_048_576, 10_485_760).is_ok());
}

#[test]
fn validate_file_size_rejects_over_limit() {
    let err = ValidationMiddleware::validate_file_size(20, 10).unwrap_err();
    assert!(matches!(err, AppError::FileSizeExceeded { .. }));
}

#[test]
fn validate_content_type_accepts_known_prefix() {
    assert!(ValidationMiddleware::validate_content_type("image/png").is_ok());
}

#[test]
fn validate_content_type_rejects_unknown_type() {
    let err = ValidationMiddleware::validate_content_type("application/x-msdownload").unwrap_err();
    assert!(matches!(err, AppError::InvalidField { .. }));
}

#[test]
fn file_size_at_the_limit_is_accepted() {
    assert!(ValidationMiddleware::validate_file_size(10, 10).is_ok());
    match ValidationMiddleware::validate_file_size(11, 10).unwrap_err() {
        AppError::FileSizeExceeded { size, max } => {
            assert_eq!(size, 11);
            assert_eq!(max, 10);
        }
        other => panic!("unexpected error {:?}", other),
    }
}

#[test]
fn content_types_of_every_allowed_family() {
    for t in ["video/mp4", "audio/ogg", "text/plain", "application/json", "application/pdf", "application/zip"] {
        assert!(ValidationMiddleware::validate_content_type(t).is_ok(), "{}", t);
    }
    assert!(ValidationMiddleware::validate_content_type("IMAGE/PNG").is_err());
    assert!(ValidationMiddleware::validate_content_type("").is_err());
}

#[test]
fn chunk_index_parsing_follows_u16() {
    assert_eq!(parse_chunk_index("0"), Some(0));
    assert_eq!(parse_chunk_index("42"), Some(42));
    assert_eq!(parse_chunk_index("+7"), Some(7));
    assert_eq!(parse_chunk_index("0065535"), Some(65535));
    assert_eq!(parse_chunk_index("65536"), None);
    assert_eq!(parse_chunk_index("99999999999999999999"), None);
    assert_eq!(parse_chunk_index(""), None);
    assert_eq!(parse_chunk_index("+"), None);
    assert_eq!(parse_chunk_index("-1"), None);
    assert_eq!(parse_chunk_index("1a"), None);
    assert_eq!(parse_chunk_index(" 1"), None);
    for text in ["0", "+12", "65535", "65536", "", "x", "-0"] {
        assert_eq!(parse_chunk_index(text), text.parse::<u16>().ok(), "{}", text);
    }
}

#[test]
fn upload_headers_are_checked_in_order() {
    let ok = ValidationMiddleware::validate_upload_headers(Some("abc".into()), Some("3".into())).unwrap();
    assert_eq!(ok, ("abc".to_string(), 3));

    match ValidationMiddleware::validate_upload_headers(None, None).unwrap_err() {
        AppError::MissingField { field } => assert_eq!(field, "X-Upload-Id header"),
        other => panic!("unexpected error {:?}", other),
    }
    match ValidationMiddleware::validate_upload_headers(Some("abc".into()), None).unwrap_err() {
        AppError::MissingField { field } => assert_eq!(field, "X-Chunk-Index header"),
        other => panic!("unexpected error {:?}", other),
    }
    match ValidationMiddleware::validate_upload_headers(Some("abc".into()), Some("x".into())).unwrap_err() {
        AppError::InvalidField { field, reason } => {
            assert_eq!(field, "X-Chunk-Index");
            assert_eq!(reason, "Must be a valid number");
        }
        other => panic!("unexpected error {:?}", other),
    }
}
