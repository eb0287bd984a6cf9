use upload_coordinator::config::Config;
use upload_coordinator::errors::AppError;
use upload_coordinator::models::{UploadChunkRecord, UploadStatus, UserRole};
use upload_coordinator::store::SessionRow;
use upload_coordinator::text::u64_to_string;
use upload_coordinator::utils::{
    categorize_content_type, generate_r2_key, generate_unique_identifier, sanitize_filename,
    sanitize_path_component, storage_key_for,
};

#[test]
fn path_components_keep_safe_characters_lowercased() {
    assert_eq!(sanitize_path_component("User_123-AB"), "user_123-ab");
    assert_eq!(sanitize_path_component("../etc/passwd"), "etcpasswd");
    assert_eq!(sanitize_path_component("a b!c"), "abc");
    assert_eq!(sanitize_path_component("Émile"), "émile");
    assert_eq!(sanitize_path_component(&"x".repeat(80)).len(), 50);
    assert_eq!(sanitize_path_component(""), "");
}

#[test]
fn file_names_are_trimmed_and_cleaned() {
    assert_eq!(sanitize_filename("  report.pdf  "), "report.pdf");
    assert_eq!(sanitize_filename("a/b\\c:d*e?f\"g<h>i|j"), "abcdefghij");
    assert_eq!(sanitize_filename("   "), "unknown");
    assert_eq!(sanitize_filename("///"), "unknown");
    assert_eq!(sanitize_filename(&"n".repeat(300)).len(), 255);
    assert_eq!(sanitize_filename("Photo.JPG"), "Photo.JPG");
}

#[test]
fn content_types_map_to_categories() {
    assert_eq!(categorize_content_type("image/png"), "image");
    assert_eq!(categorize_content_type("IMAGE/JPEG"), "image");
    assert_eq!(categorize_content_type("video/mp4"), "video");
    assert_eq!(categorize_content_type("audio/mpeg"), "audio");
    assert_eq!(categorize_content_type("text/plain"), "document");
    assert_eq!(categorize_content_type("application/JSON"), "document");
    assert_eq!(categorize_content_type("application/zip"), "other");
}

#[test]
fn storage_keys_join_sanitized_parts() {
    let key = storage_key_for(&UserRole::Creator, "user123", "video.mp4", "video/mp4", "20240115");
    assert_eq!(key, "creator/user123/20240115/video/video.mp4");
    let key = storage_key_for(&UserRole::Member, "U/1", " a/b.png ", "image/png", "20250101");
    assert_eq!(key, "member/u1/20250101/image/ab.png");
}

#[test]
fn generated_keys_carry_todays_date() {
    let key = generate_r2_key(&UserRole::Subscriber, "Bob", "song.mp3", "audio/mpeg");
    let parts: Vec<&str> = key.split('/').collect();
    assert_eq!(parts.len(), 5);
    assert_eq!(parts[0], "subscriber");
    assert_eq!(parts[1], "bob");
    assert_eq!(parts[2].len(), 8);
    assert!(parts[2].chars().all(|c| c.is_ascii_digit()));
    assert_eq!(parts[3], "audio");
    assert_eq!(parts[4], "song.mp3");
}

#[test]
fn unique_identifiers_have_time_and_uuid() {
    let a = generate_unique_identifier();
    let b = generate_unique_identifier();
    assert_ne!(a, b);
    let (millis, uuid) = a.split_once('-').unwrap();
    assert!(millis.parse::<i64>().unwrap() > 0);
    assert_eq!(uuid.len(), 36);
}

#[test]
fn decimal_formatting() {
    assert_eq!(u64_to_string(0), "0");
    assert_eq!(u64_to_string(1234567890), "1234567890");
    assert_eq!(u64_to_string(u64::MAX), "18446744073709551615");
}

#[test]
fn error_codes_statuses_and_messages() {
    let e = AppError::FileSizeExceeded { size: 11_000_000_000, max: 10_737_418_240 };
    assert_eq!(e.status_code(), 413);
    assert_eq!(e.code(), "FILE_TOO_LARGE");
    assert_eq!(e.message(), "File size 11000000000 exceeds maximum allowed 10737418240");
    let e = AppError::ChunkAlreadyUploaded { upload_id: "u1".into(), index: 3 };
    assert_eq!(e.status_code(), 409);
    assert_eq!(e.code(), "CHUNK_ALREADY_UPLOADED");
    assert_eq!(e.message(), "Chunk 3 already uploaded for upload u1");
    let e = AppError::InvalidChunkIndex { index: 70 };
    assert_eq!((e.status_code(), e.code()), (400, "INVALID_CHUNK_INDEX"));
    assert_eq!(e.message(), "Invalid chunk index: 70");
    let e = AppError::InvalidField { field: "contentType".into(), reason: "Unsupported file type".into() };
    assert_eq!(e.message(), "Invalid field 'contentType': Unsupported file type");
    assert_eq!(AppError::UploadNotFound { upload_id: "x".into() }.status_code(), 404);
    assert_eq!(AppError::UploadCancelled { upload_id: "x".into() }.code(), "UPLOAD_CANCELLED");
    assert_eq!(AppError::UploadAlreadyCompleted { upload_id: "x".into() }.message(), "Upload already completed: x");
    assert_eq!(AppError::RateLimitExceeded.status_code(), 429);
    assert_eq!(AppError::AuthError { message: "no".into() }.status_code(), 401);
    assert_eq!(AppError::R2Error { message: "down".into() }.message(), "Storage error: down");
    assert_eq!(AppError::MissingField { field: "f".into() }.message(), "Missing required field: f");
}

#[test]
fn runtime_errors_are_classified_by_message() {
    assert!(matches!(AppError::from_runtime_message("binding not found".into()), AppError::DatabaseError { .. }));
    assert!(matches!(AppError::from_runtime_message("KV read failed".into()), AppError::KvError { .. }));
    assert!(matches!(AppError::from_runtime_message("R2 put failed".into()), AppError::R2Error { .. }));
    assert!(matches!(AppError::from_runtime_message("no bucket".into()), AppError::R2Error { .. }));
    match AppError::from_runtime_message("weird".into()) {
        AppError::InternalError { message } => assert_eq!(message, "weird"),
        other => panic!("unexpected error {:?}", other),
    }
}

#[test]
fn roles_and_statuses_parse() {
    assert_eq!("CREATOR".parse::<UserRole>(), Ok(UserRole::Creator));
    assert_eq!(UserRole::parse_name("Member"), Ok(UserRole::Member));
    assert_eq!(UserRole::parse_name("admin"), Err("Invalid user role: admin".to_string()));
    assert_eq!(UserRole::Subscriber.as_str(), "subscriber");
    assert_eq!(UploadStatus::parse("in_progress"), Some(UploadStatus::InProgress));
    assert_eq!(UploadStatus::parse("Completed"), None);
    assert_eq!(UploadStatus::Cancelled.as_str(), "cancelled");
    assert!(UploadStatus::Completed.is_terminal());
    assert!(!UploadStatus::Initiated.is_terminal());
}

fn row() -> SessionRow {
    SessionRow {
        upload_id: "u1".into(),
        file_name: "a.png".into(),
        total_size: 42,
        content_type: "image/png".into(),
        user_id: "bob".into(),
        user_role: "Creator".into(),
        r2_key: "creator/bob/20240115/image/a.png".into(),
        r2_upload_id: "t1".into(),
        status: "in_progress".into(),
        created_at: "2024-01-15T10:30:00Z".into(),
        updated_at: "2024-01-15T10:30:01.500+00:00".into(),
        version: 7,
    }
}

#[test]
fn rows_become_sessions() {
    let chunks = vec![UploadChunkRecord { chunk_index: 0, chunk_size: 42, etag: Some("e".into()) }];
    let s = row().try_into_metadata(chunks).unwrap();
    assert_eq!(s.created_at, 1_705_314_600_000);
    assert_eq!(s.updated_at, 1_705_314_601_500);
    assert_eq!(s.user_role, UserRole::Creator);
    assert_eq!(s.status, UploadStatus::InProgress);
    assert_eq!(s.chunks.len(), 1);
    assert_eq!(s.r2_upload_id, "t1");
    assert_eq!(s.version, 7);

    let mut bad = row();
    bad.created_at = "yesterday".into();
    match bad.try_into_metadata(Vec::new()).unwrap_err() {
        AppError::DatabaseError { message } => assert_eq!(message, "Invalid created_at timestamp: yesterday"),
        other => panic!("unexpected error {:?}", other),
    }
    let mut bad = row();
    bad.user_role = "admin".into();
    match bad.try_into_metadata(Vec::new()).unwrap_err() {
        AppError::DatabaseError { message } => {
            assert_eq!(message, "Invalid user_role in database: Invalid user role: admin")
        }
        other => panic!("unexpected error {:?}", other),
    }
    let mut bad = row();
    bad.status = "done".into();
    assert!(matches!(bad.try_into_metadata(Vec::new()).unwrap_err(), AppError::DatabaseError { .. }));
}

#[test]
fn default_configuration() {
    let c = Config::default();
    assert_eq!(c.database_name, "UPLOAD_DB");
    assert_eq!(c.max_file_size, 10_737_418_240);
    assert_eq!(c.chunk_size, 157_286_400);
    assert_eq!(c.max_chunk_index, 10_000);
    assert!(c.permits_upload(UserRole::Subscriber));
    assert_eq!(c.upload_roles.len(), 3);
}
