use upload_coordinator::config::Config;
use upload_coordinator::coordinator::{
    accept_chunk, after_conditional_write, estimate_progress, finish_cancel, finish_complete,
    initiate, plan_cancel, plan_chunk, plan_complete, status_of, validate_init, CancelPlan,
    InitRequest, WriteStep,
};
use upload_coordinator::errors::AppError;
use upload_coordinator::models::{UploadMetadata, UploadStatus, UserRole};

fn request(total_size: u64) -> InitRequest {
    InitRequest {
        user_id: "user123".to_string(),
        user_role: UserRole::Creator,
        file_name: "video.mp4".to_string(),
        total_size,
        content_type: "video/mp4".to_string(),
        r2_key: "creator/user123/20240115/video/video.mp4".to_string(),
    }
}

fn config_with_max(max_file_size: u64) -> Config {
    let mut c = Config::default();
    c.max_file_size = max_file_size;
    c
}

fn open_session() -> UploadMetadata {
    let (session, _) = initiate(request(500_000_000), &Config::default(), Ok("transfer-1".to_string())).unwrap();
    session
}

fn add_chunk(session: &mut UploadMetadata, index: u16, tag: &str) {
    let config = Config::default();
    plan_chunk(Some(&*session), &session.upload_id.clone(), index, 10, &config).unwrap();
    accept_chunk(session, index, 10, Ok(tag.to_string()), &config).unwrap();
}

#[test]
fn init_within_configured_maximum_succeeds() {
    let config = config_with_max(10_737_418_240);
    assert!(validate_init(&request(500_000_000), &config).is_ok());
    let (session, reply) = initiate(request(500_000_000), &config, Ok("transfer-1".to_string())).unwrap();
    assert_eq!(session.status, UploadStatus::Initiated);
    assert_eq!(session.total_size, 500_000_000);
    assert!(session.chunks.is_empty());
    assert_eq!(session.r2_upload_id, "transfer-1");
    assert_eq!(session.created_at, session.updated_at);
    assert_eq!(session.upload_id.len(), 36);
    assert_eq!(reply.upload_id, session.upload_id);
    assert_eq!(reply.r2_key, "creator/user123/20240115/video/video.mp4");
    assert_eq!(reply.chunk_size, 157_286_400);
    assert_eq!(reply.status, UploadStatus::Initiated);
}

#[test]
fn init_over_configured_maximum_reports_sizes() {
    let config = config_with_max(10_737_418_240);
    match validate_init(&request(20_000_000_000), &config).unwrap_err() {
        AppError::FileSizeExceeded { size, max } => {
            assert_eq!(size, 20_000_000_000);
            assert_eq!(max, 10_737_418_240);
        }
        other => panic!("unexpected error {:?}", other),
    }
    let err = initiate(request(20_000_000_000), &config, Ok("t".to_string())).unwrap_err();
    assert!(matches!(err, AppError::FileSizeExceeded { size: 20_000_000_000, max: 10_737_418_240 }));
}

#[test]
fn init_rejects_missing_fields_zero_size_and_roles() {
    let config = Config::default();
    let mut r = request(10);
    r.user_id = String::new();
    match validate_init(&r, &config).unwrap_err() {
        AppError::ValidationError { message } => assert_eq!(message, "Missing required field: user_id"),
        other => panic!("unexpected error {:?}", other),
    }
    assert!(matches!(validate_init(&request(0), &config).unwrap_err(), AppError::ValidationError { .. }));
    let mut r = request(10);
    r.content_type = "application/x-msdownload".to_string();
    assert!(matches!(validate_init(&r, &config).unwrap_err(), AppError::InvalidField { .. }));
    let mut restricted = Config::default();
    restricted.upload_roles = vec![UserRole::Member];
    assert!(matches!(validate_init(&request(10), &restricted).unwrap_err(), AppError::AuthError { .. }));
    let mut r = request(10);
    r.user_role = UserRole::Member;
    assert!(validate_init(&r, &restricted).is_ok());
}

#[test]
fn init_reports_backend_failures() {
    let config = Config::default();
    match initiate(request(10), &config, Err("boom".to_string())).unwrap_err() {
        AppError::R2Error { message } => assert_eq!(message, "Failed to initialize multipart upload: boom"),
        other => panic!("unexpected error {:?}", other),
    }
    assert!(matches!(initiate(request(10), &config, Ok(String::new())).unwrap_err(), AppError::R2Error { .. }));
}

#[test]
fn first_chunk_moves_session_in_progress() {
    let config = Config::default();
    let mut session = open_session();
    let part = plan_chunk(Some(&session), &session.upload_id.clone(), 0, 1_048_576, &config).unwrap();
    assert_eq!(part.part_number, 1);
    assert_eq!(part.r2_upload_id, "transfer-1");
    assert_eq!(part.r2_key, session.r2_key);
    let reply = accept_chunk(&mut session, 0, 1_048_576, Ok("etag-0".to_string()), &config).unwrap();
    assert_eq!(reply.chunk_index, 0);
    assert!(!reply.etag.is_empty());
    assert_eq!(reply.status, UploadStatus::InProgress);
    assert_eq!(session.status, UploadStatus::InProgress);
    assert_eq!(session.chunks.len(), 1);
    assert_eq!(session.chunks[0].chunk_size, 1_048_576);
}

#[test]
fn duplicate_chunk_is_rejected_and_record_kept() {
    let config = Config::default();
    let mut session = open_session();
    add_chunk(&mut session, 4, "first");
    let err = plan_chunk(Some(&session), "x", 4, 10, &config).unwrap_err();
    assert!(matches!(err, AppError::ChunkAlreadyUploaded { index: 4, .. }));
    let err = accept_chunk(&mut session, 4, 99, Ok("second".to_string()), &config).unwrap_err();
    assert!(matches!(err, AppError::ChunkAlreadyUploaded { index: 4, .. }));
    assert_eq!(session.chunks.len(), 1);
    assert_eq!(session.chunks[0].etag.as_deref(), Some("first"));
    assert_eq!(session.chunks[0].chunk_size, 10);
}

#[test]
fn chunk_checks_come_in_order() {
    let config = Config::default();
    let mut session = open_session();
    assert!(matches!(plan_chunk(None, "missing", 0, 1, &config).unwrap_err(), AppError::UploadNotFound { .. }));
    assert!(matches!(
        plan_chunk(Some(&session), "", 10_001, 1, &config).unwrap_err(),
        AppError::InvalidChunkIndex { index: 10_001 }
    ));
    assert!(plan_chunk(Some(&session), "", 10_000, 1, &config).is_ok());
    assert!(matches!(plan_chunk(Some(&session), "", 1, 0, &config).unwrap_err(), AppError::ValidationError { .. }));
    let before = session.updated_at;
    match accept_chunk(&mut session, 1, 5, Err("network".to_string()), &config).unwrap_err() {
        AppError::R2Error { message } => assert_eq!(message, "Failed to upload chunk to R2: network"),
        other => panic!("unexpected error {:?}", other),
    }
    assert_eq!(session.status, UploadStatus::Initiated);
    assert_eq!(session.updated_at, before);
    assert!(session.chunks.is_empty());
    session.r2_upload_id = String::new();
    assert!(matches!(plan_chunk(Some(&session), "", 1, 5, &config).unwrap_err(), AppError::InternalError { .. }));
}

#[test]
fn terminal_sessions_refuse_chunks_and_completion() {
    let config = Config::default();
    let mut session = open_session();
    add_chunk(&mut session, 0, "a");
    finish_complete(&mut session, Ok(())).unwrap();
    assert!(matches!(plan_chunk(Some(&session), "", 1, 1, &config).unwrap_err(), AppError::UploadAlreadyCompleted { .. }));
    assert!(matches!(plan_complete(Some(&session), "").unwrap_err(), AppError::UploadAlreadyCompleted { .. }));
    assert!(matches!(plan_cancel(Some(&session), "").unwrap_err(), AppError::UploadAlreadyCompleted { .. }));
    assert!(matches!(finish_cancel(&mut session, Ok(())).unwrap_err(), AppError::UploadAlreadyCompleted { .. }));
    assert_eq!(session.status, UploadStatus::Completed);

    let mut other = open_session();
    finish_cancel(&mut other, Ok(())).unwrap();
    assert!(matches!(plan_chunk(Some(&other), "", 1, 1, &config).unwrap_err(), AppError::UploadCancelled { .. }));
    assert!(matches!(finish_complete(&mut other, Ok(())).unwrap_err(), AppError::UploadCancelled { .. }));
    assert_eq!(other.status, UploadStatus::Cancelled);
}

#[test]
fn completion_orders_parts_regardless_of_arrival() {
    let mut session = open_session();
    add_chunk(&mut session, 2, "t2");
    add_chunk(&mut session, 0, "t0");
    add_chunk(&mut session, 1, "t1");
    let req = plan_complete(Some(&session), "").unwrap();
    let numbers: Vec<u16> = req.parts.iter().map(|p| p.part_number).collect();
    assert_eq!(numbers, vec![1, 2, 3]);
    let tags: Vec<&str> = req.parts.iter().map(|p| p.etag.as_str()).collect();
    assert_eq!(tags, vec!["t0", "t1", "t2"]);
    assert_eq!(req.r2_upload_id, "transfer-1");
}

#[test]
fn failed_finalize_keeps_session_and_request() {
    let mut session = open_session();
    add_chunk(&mut session, 1, "b");
    add_chunk(&mut session, 0, "a");
    let first = plan_complete(Some(&session), "").unwrap();
    let err = finish_complete(&mut session, Err("timeout".to_string())).unwrap_err();
    match err {
        AppError::R2Error { message } => assert_eq!(message, "Failed to finalize multipart upload: timeout"),
        other => panic!("unexpected error {:?}", other),
    }
    assert_eq!(session.status, UploadStatus::InProgress);
    let second = plan_complete(Some(&session), "").unwrap();
    assert_eq!(first.parts, second.parts);
    let reply = finish_complete(&mut session, Ok(())).unwrap();
    assert_eq!(reply.status, UploadStatus::Completed);
    assert_eq!(session.status, UploadStatus::Completed);
}

#[test]
fn completing_without_chunks_is_a_validation_error() {
    let mut session = open_session();
    match plan_complete(Some(&session), "").unwrap_err() {
        AppError::ValidationError { message } => assert_eq!(message, "No uploaded chunks to finalize"),
        other => panic!("unexpected error {:?}", other),
    }
    assert!(matches!(finish_complete(&mut session, Ok(())).unwrap_err(), AppError::ValidationError { .. }));
    assert_eq!(session.status, UploadStatus::Initiated);
    assert!(matches!(plan_complete(None, "gone").unwrap_err(), AppError::UploadNotFound { .. }));
}

#[test]
fn cancel_survives_abort_failure() {
    let config = Config::default();
    let mut session = open_session();
    add_chunk(&mut session, 0, "a");
    match plan_cancel(Some(&session), "").unwrap() {
        CancelPlan::Abort { r2_key, r2_upload_id } => {
            assert_eq!(r2_key, session.r2_key);
            assert_eq!(r2_upload_id, "transfer-1");
        }
        other => panic!("unexpected plan {:?}", other),
    }
    let reply = finish_cancel(&mut session, Err("abort failed".to_string())).unwrap();
    assert_eq!(reply.status, UploadStatus::Cancelled);
    assert_eq!(reply.abort_error.as_deref(), Some("abort failed"));
    assert_eq!(session.status, UploadStatus::Cancelled);
    let status = status_of(Some(&session), "", &config).unwrap();
    assert_eq!(status.status, UploadStatus::Cancelled);
}

#[test]
fn cancel_is_idempotent_and_local_without_transfer() {
    let mut session = open_session();
    finish_cancel(&mut session, Ok(())).unwrap();
    let stamp = session.updated_at;
    assert!(matches!(plan_cancel(Some(&session), "").unwrap(), CancelPlan::AlreadyCancelled));
    let reply = finish_cancel(&mut session, Ok(())).unwrap();
    assert_eq!(reply.status, UploadStatus::Cancelled);
    assert!(reply.abort_error.is_none());
    assert_eq!(session.updated_at, stamp);

    let mut fresh = open_session();
    fresh.r2_upload_id = String::new();
    assert!(matches!(plan_cancel(Some(&fresh), "").unwrap(), CancelPlan::LocalOnly));
    assert!(matches!(plan_cancel(None, "nope").unwrap_err(), AppError::UploadNotFound { .. }));
}

#[test]
fn status_projects_sorted_indices_and_progress() {
    let mut config = Config::default();
    config.chunk_size = 100;
    let mut session = open_session();
    session.total_size = 350;
    add_chunk(&mut session, 3, "d");
    add_chunk(&mut session, 1, "b");
    let p = status_of(Some(&session), "", &config).unwrap();
    assert_eq!(p.chunk_indices, vec![1, 3]);
    assert_eq!(p.progress_percent, 50);
    assert_eq!(p.chunk_size, 100);
    assert_eq!(p.total_size, 350);
    assert_eq!(p.status, UploadStatus::InProgress);
    assert_eq!(p.updated_at, session.updated_at);
    match status_of(None, "abc", &config).unwrap_err() {
        AppError::UploadNotFound { upload_id } => assert_eq!(upload_id, "abc"),
        other => panic!("unexpected error {:?}", other),
    }
}

#[test]
fn progress_estimate_edges() {
    assert_eq!(estimate_progress(1, 350, 100), 25);
    assert_eq!(estimate_progress(4, 350, 100), 100);
    assert_eq!(estimate_progress(9, 350, 100), 100);
    assert_eq!(estimate_progress(0, 350, 100), 0);
    assert_eq!(estimate_progress(3, 0, 100), 0);
    assert_eq!(estimate_progress(3, 350, 0), 0);
    assert_eq!(estimate_progress(1, 3, 1), 33);
    assert_eq!(estimate_progress(usize::MAX, u64::MAX, 1), 100);
}

#[test]
fn every_change_advances_the_version() {
    let config = Config::default();
    let mut session = open_session();
    assert_eq!(session.version, 0);
    add_chunk(&mut session, 0, "a");
    assert_eq!(session.version, 1);
    assert!(accept_chunk(&mut session, 0, 10, Ok("b".to_string()), &config).is_err());
    assert!(finish_complete(&mut session, Err("down".to_string())).is_err());
    assert_eq!(session.version, 1);
    finish_complete(&mut session, Ok(())).unwrap();
    assert_eq!(session.version, 2);

    let mut other = open_session();
    other.version = u64::MAX;
    finish_cancel(&mut other, Ok(())).unwrap();
    assert_eq!(other.version, 0);
    finish_cancel(&mut other, Ok(())).unwrap();
    assert_eq!(other.version, 0);
}

#[test]
fn conditional_writes_retry_then_give_up() {
    assert_eq!(after_conditional_write(1, 0, "u").unwrap(), WriteStep::Done);
    assert_eq!(after_conditional_write(1, 2, "u").unwrap(), WriteStep::Done);
    assert_eq!(after_conditional_write(0, 0, "u").unwrap(), WriteStep::Retry);
    assert_eq!(after_conditional_write(0, 1, "u").unwrap(), WriteStep::Retry);
    match after_conditional_write(0, 2, "u9").unwrap_err() {
        AppError::DatabaseError { message } => assert_eq!(message, "Concurrent update of upload u9"),
        other => panic!("unexpected error {:?}", other),
    }
}
