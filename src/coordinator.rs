//! The upload session state machine.
//!
//! Every operation that talks to the backend is split in two steps. The
//! first step (`validate_init`, `plan_chunk`, `plan_complete`, `plan_cancel`)
//! checks the request against the session and says which backend call to
//! make, if any; it fails fast, before any backend work. The caller makes the
//! call and hands its outcome to the second step (`initiate`, `accept_chunk`,
//! `finish_complete`, `finish_cancel`), which checks the request again and
//! then applies the outcome to the session record. A failed step leaves the
//! record as it was, so the caller has nothing to persist.
//!
//! Every change of a record advances its version. The caller writes a
//! changed record only over the version it read, and when another write
//! came first it reads the record again and reapplies the same backend
//! outcome (`after_conditional_write` decides), so the writes to one session
//! are serialized.

use vstd::prelude::*;
use vstd::string::StringExecFns;
use crate::config::{permits_upload, Config, ConfigView};
use crate::constants::MAX_WRITE_ATTEMPTS;
use crate::errors::{AppError, AppResult, ErrorView};
use crate::middleware::{content_type_allowed, unsupported_type_error, ValidationMiddleware};
use crate::models::{
    bump_version, has_index, next_version, ChunkView, SessionView, UploadChunkRecord,
    UploadMetadata, UploadStatus, UserRole,
};
use crate::parts::{
    collect_part_descriptors, completion_parts, part_views, sort_by_index, sort_chunks_by_index,
    PartDescriptor, PartView,
};
use crate::runtime::{new_uuid, now_millis};

verus! {

// ---------------------------------------------------------------------------
// Values exchanged with the caller
// ---------------------------------------------------------------------------

/// A request to open an upload session.
#[derive(Debug)]
pub struct InitRequest {
    /// Identity of the uploading principal.
    pub user_id: String,
    /// Permission class of the principal.
    pub user_role: UserRole,
    /// Display name of the file.
    pub file_name: String,
    /// Declared final byte length.
    pub total_size: u64,
    /// Declared MIME type.
    pub content_type: String,
    /// Backend object key, derived by the caller.
    pub r2_key: String,
}

/// View of an initiation request.
pub struct InitRequestView {
    pub user_id: Seq<char>,
    pub user_role: UserRole,
    pub file_name: Seq<char>,
    pub total_size: u64,
    pub content_type: Seq<char>,
    pub r2_key: Seq<char>,
}

impl View for InitRequest {
    type V = InitRequestView;

    open spec fn view(&self) -> InitRequestView {
        InitRequestView {
            user_id: self.user_id@,
            user_role: self.user_role,
            file_name: self.file_name@,
            total_size: self.total_size,
            content_type: self.content_type@,
            r2_key: self.r2_key@,
        }
    }
}

/// What an opened session reports to the caller.
#[derive(Debug)]
pub struct InitReply {
    pub upload_id: String,
    pub r2_key: String,
    /// Recommended chunk size, in bytes.
    pub chunk_size: usize,
    pub status: UploadStatus,
}

/// The backend call that stores one chunk.
#[derive(Debug)]
pub struct PartUpload {
    pub r2_key: String,
    pub r2_upload_id: String,
    /// One-based backend part number: the chunk index plus one.
    pub part_number: u16,
}

/// What an accepted chunk reports to the caller.
#[derive(Debug)]
pub struct ChunkReply {
    pub upload_id: String,
    pub chunk_index: u16,
    pub etag: String,
    pub status: UploadStatus,
}

/// The backend call that finalizes a transfer.
#[derive(Debug)]
pub struct CompletionRequest {
    pub r2_key: String,
    pub r2_upload_id: String,
    /// The parts in ascending order of part number.
    pub parts: Vec<PartDescriptor>,
}

/// What a completed session reports to the caller.
#[derive(Debug)]
pub struct CompleteReply {
    pub upload_id: String,
    pub r2_key: String,
    pub status: UploadStatus,
}

/// What cancelling a session asks of the backend.
#[derive(Debug)]
pub enum CancelPlan {
    /// The session is already cancelled: nothing to do.
    AlreadyCancelled,
    /// No backend transfer was opened: only the record changes.
    LocalOnly,
    /// Abort this backend transfer, then cancel the record.
    Abort { r2_key: String, r2_upload_id: String },
}

/// What a cancelled session reports to the caller.
#[derive(Debug)]
pub struct CancelReply {
    pub upload_id: String,
    pub status: UploadStatus,
    /// The backend's abort failure, for the caller to report; it does not
    /// block the cancellation.
    pub abort_error: Option<String>,
}

/// The read-only projection of a session.
#[derive(Debug)]
pub struct SessionProjection {
    pub upload_id: String,
    pub file_name: String,
    pub status: UploadStatus,
    pub total_size: u64,
    /// Indices of the acknowledged chunks, ascending.
    pub chunk_indices: Vec<u16>,
    /// Estimated completion, from 0 to 100.
    pub progress_percent: u8,
    /// Configured chunk size, in bytes.
    pub chunk_size: usize,
    pub r2_key: String,
    pub user_role: UserRole,
    pub content_type: String,
    pub created_at: i64,
    pub updated_at: i64,
}

// ---------------------------------------------------------------------------
// The model
// ---------------------------------------------------------------------------

/// View of the session the store returned, if any.
pub open spec fn session_view(s: Option<&UploadMetadata>) -> Option<SessionView> {
    match s {
        Some(m) => Some(m@),
        None => None,
    }
}

/// View of a backend outcome that carries a string or an error message.
pub open spec fn text_outcome(r: Result<String, String>) -> Result<Seq<char>, Seq<char>> {
    match r {
        Ok(t) => Ok(t@),
        Err(m) => Err(m@),
    }
}

/// View of a backend outcome that carries nothing or an error message.
pub open spec fn unit_outcome(r: Result<(), String>) -> Result<(), Seq<char>> {
    match r {
        Ok(()) => Ok(()),
        Err(m) => Err(m@),
    }
}

/// The validation error for an absent required field.
pub open spec fn missing_field_error(name: Seq<char>) -> ErrorView {
    ErrorView::ValidationError { message: "Missing required field: "@ + name }
}

/// Why an initiation request is refused, checked before any backend call.
pub open spec fn init_error(req: InitRequestView, c: ConfigView) -> Option<ErrorView> {
    if req.user_id.len() == 0 {
        Some(missing_field_error("user_id"@))
    } else if req.file_name.len() == 0 {
        Some(missing_field_error("file_name"@))
    } else if req.content_type.len() == 0 {
        Some(missing_field_error("content_type"@))
    } else if req.r2_key.len() == 0 {
        Some(missing_field_error("r2_key"@))
    } else if req.total_size == 0 {
        Some(ErrorView::ValidationError { message: "total_size must be greater than zero"@ })
    } else if req.total_size > c.max_file_size {
        Some(ErrorView::FileSizeExceeded { size: req.total_size, max: c.max_file_size })
    } else if !content_type_allowed(req.content_type) {
        Some(unsupported_type_error())
    } else if !permits_upload(c, req.user_role) {
        Some(ErrorView::AuthError { message: "User role is not permitted to upload"@ })
    } else {
        None
    }
}

/// Why initiation fails, given the outcome of opening the backend transfer.
pub open spec fn init_failure(
    req: InitRequestView,
    c: ConfigView,
    opened: Result<Seq<char>, Seq<char>>,
) -> Option<ErrorView> {
    match init_error(req, c) {
        Some(e) => Some(e),
        None => match opened {
            Err(m) => Some(
                ErrorView::R2Error { message: "Failed to initialize multipart upload: "@ + m },
            ),
            Ok(t) => if t.len() == 0 {
                Some(ErrorView::R2Error { message: "Backend returned an empty multipart upload id"@ })
            } else {
                None
            },
        },
    }
}

/// The record of a session just opened.
pub open spec fn initiated_session(
    req: InitRequestView,
    upload_id: Seq<char>,
    transfer: Seq<char>,
    now: i64,
) -> SessionView {
    SessionView {
        upload_id,
        file_name: req.file_name,
        total_size: req.total_size,
        created_at: now,
        updated_at: now,
        user_role: req.user_role,
        content_type: req.content_type,
        status: UploadStatus::Initiated,
        chunks: Seq::empty(),
        r2_key: req.r2_key,
        user_id: req.user_id,
        r2_upload_id: transfer,
        version: 0,
    }
}

/// Why a chunk is refused, checked before any backend call.
pub open spec fn chunk_error(
    s: Option<SessionView>,
    upload_id: Seq<char>,
    index: u16,
    size: u64,
    c: ConfigView,
) -> Option<ErrorView> {
    match s {
        None => Some(ErrorView::UploadNotFound { upload_id }),
        Some(s) => if s.status == UploadStatus::Completed {
            Some(ErrorView::UploadAlreadyCompleted { upload_id: s.upload_id })
        } else if s.status == UploadStatus::Cancelled {
            Some(ErrorView::UploadCancelled { upload_id: s.upload_id })
        } else if index > c.max_chunk_index || index == u16::MAX {
            Some(ErrorView::InvalidChunkIndex { index })
        } else if size == 0 {
            Some(ErrorView::ValidationError { message: "Chunk body is empty"@ })
        } else if has_index(s.chunks, index) {
            Some(ErrorView::ChunkAlreadyUploaded { upload_id: s.upload_id, index })
        } else if s.r2_upload_id.len() == 0 {
            Some(ErrorView::InternalError { message: "Session has no backend transfer"@ })
        } else {
            None
        },
    }
}

/// Why accepting a chunk fails, given the outcome of the part upload.
pub open spec fn chunk_failure(
    s: SessionView,
    index: u16,
    size: u64,
    uploaded: Result<Seq<char>, Seq<char>>,
    c: ConfigView,
) -> Option<ErrorView> {
    match chunk_error(Some(s), s.upload_id, index, size, c) {
        Some(e) => Some(e),
        None => match uploaded {
            Err(m) => Some(ErrorView::R2Error { message: "Failed to upload chunk to R2: "@ + m }),
            Ok(t) => if t.len() == 0 {
                Some(ErrorView::R2Error { message: "Backend returned an empty ETag"@ })
            } else {
                None
            },
        },
    }
}

/// The record after chunk `index` of `size` bytes was stored with tag `tag`.
pub open spec fn chunk_applied(
    s: SessionView,
    index: u16,
    size: u64,
    tag: Seq<char>,
    now: i64,
) -> SessionView {
    SessionView {
        status: UploadStatus::InProgress,
        updated_at: now,
        chunks: s.chunks.push(ChunkView { index, size, tag: Some(tag) }),
        version: next_version(s.version),
        ..s
    }
}

/// Why a session cannot be finalized, checked before any backend call.
pub open spec fn complete_error(s: Option<SessionView>, upload_id: Seq<char>) -> Option<ErrorView> {
    match s {
        None => Some(ErrorView::UploadNotFound { upload_id }),
        Some(s) => if s.status == UploadStatus::Completed {
            Some(ErrorView::UploadAlreadyCompleted { upload_id: s.upload_id })
        } else if s.status == UploadStatus::Cancelled {
            Some(ErrorView::UploadCancelled { upload_id: s.upload_id })
        } else if s.chunks.len() == 0 {
            Some(ErrorView::ValidationError { message: "No uploaded chunks to finalize"@ })
        } else if completion_parts(s.chunks) is Err {
            Some(completion_parts(s.chunks)->Err_0)
        } else if s.r2_upload_id.len() == 0 {
            Some(ErrorView::InternalError { message: "Session has no backend transfer"@ })
        } else {
            None
        },
    }
}

/// Why finalizing fails, given the outcome of the backend's finalize call.
pub open spec fn complete_failure(s: SessionView, finalized: Result<(), Seq<char>>) -> Option<
    ErrorView,
> {
    match complete_error(Some(s), s.upload_id) {
        Some(e) => Some(e),
        None => match finalized {
            Err(m) => Some(
                ErrorView::R2Error { message: "Failed to finalize multipart upload: "@ + m },
            ),
            Ok(()) => None,
        },
    }
}

/// The record of a finalized session.
pub open spec fn completed(s: SessionView, now: i64) -> SessionView {
    SessionView {
        status: UploadStatus::Completed,
        updated_at: now,
        version: next_version(s.version),
        ..s
    }
}

/// Why a session cannot be cancelled.
pub open spec fn cancel_error(s: Option<SessionView>, upload_id: Seq<char>) -> Option<ErrorView> {
    match s {
        None => Some(ErrorView::UploadNotFound { upload_id }),
        Some(s) => if s.status == UploadStatus::Completed {
            Some(ErrorView::UploadAlreadyCompleted { upload_id: s.upload_id })
        } else {
            None
        },
    }
}

/// The record after cancellation; a cancelled record stays as it is.
pub open spec fn cancelled(s: SessionView, now: i64) -> SessionView {
    if s.status == UploadStatus::Cancelled {
        s
    } else {
        SessionView {
            status: UploadStatus::Cancelled,
            updated_at: now,
            version: next_version(s.version),
            ..s
        }
    }
}

/// Whether `plan` is the cancellation plan for `s`.
pub open spec fn cancel_plan_for(plan: CancelPlan, s: SessionView) -> bool {
    if s.status == UploadStatus::Cancelled {
        plan is AlreadyCancelled
    } else if s.r2_upload_id.len() == 0 {
        plan is LocalOnly
    } else {
        match plan {
            CancelPlan::Abort { r2_key, r2_upload_id } => r2_key@ == s.r2_key && r2_upload_id@
                == s.r2_upload_id,
            _ => false,
        }
    }
}

/// How many chunks a file of `total` bytes takes at `chunk` bytes each.
pub open spec fn expected_chunks(total: u64, chunk: usize) -> nat {
    if chunk == 0 {
        0
    } else {
        ((total + chunk - 1) / (chunk as int)) as nat
    }
}

/// Completion estimated from the number of accepted chunks, capped at 100.
pub open spec fn progress_percent(count: nat, total: u64, chunk: usize) -> nat {
    let expected = expected_chunks(total, chunk);
    if expected == 0 {
        0
    } else if count * 100 / expected > 100 {
        100
    } else {
        count * 100 / expected
    }
}

/// Whether `p` is the projection of `s` under configuration `c`.
pub open spec fn projection_of(p: SessionProjection, s: SessionView, c: ConfigView) -> bool {
    &&& p.upload_id@ == s.upload_id
    &&& p.file_name@ == s.file_name
    &&& p.status == s.status
    &&& p.total_size == s.total_size
    &&& p.chunk_indices@ == sort_by_index(s.chunks).map_values(|v: ChunkView| v.index)
    &&& p.progress_percent == progress_percent(s.chunks.len(), s.total_size, c.chunk_size)
    &&& p.chunk_size == c.chunk_size
    &&& p.r2_key@ == s.r2_key
    &&& p.user_role == s.user_role
    &&& p.content_type@ == s.content_type
    &&& p.created_at == s.created_at
    &&& p.updated_at == s.updated_at
}

// ---------------------------------------------------------------------------
// Helpers
// ---------------------------------------------------------------------------

fn missing_field(name: &str) -> (e: AppError)
    ensures
        e@ == missing_field_error(name@),
{
    let mut message = String::from_str("Missing required field: ");
    message.append(name);
    AppError::ValidationError { message }
}

fn prefixed(prefix: &str, rest: &String) -> (r: String)
    ensures
        r@ == prefix@ + rest@,
{
    let mut s = String::from_str(prefix);
    s.append(rest.as_str());
    s
}

fn find_index(chunks: &Vec<UploadChunkRecord>, index: u16) -> (r: bool)
    ensures
        r == has_index(crate::models::chunk_views(chunks@), index),
{
    let mut i: usize = 0;
    while i < chunks.len()
        invariant
            i <= chunks@.len(),
            forall|j: int| 0 <= j < i ==> chunks@[j].chunk_index != index,
        decreases chunks.len() - i,
    {
        if chunks[i].chunk_index == index {
            assert(crate::models::chunk_views(chunks@)[i as int].index == index);
            return true;
        }
        i += 1;
    }
    assert forall|j: int| 0 <= j < chunks@.len() implies crate::models::chunk_views(
        chunks@,
    )[j].index != index by {}
    false
}

// ---------------------------------------------------------------------------
// Initiation
// ---------------------------------------------------------------------------

/// Checks an initiation request: required fields present, size above zero
/// and within the configured maximum, content type supported, role allowed
/// to upload.
pub fn validate_init(req: &InitRequest, config: &Config) -> (r: AppResult<()>)
    ensures
        match r {
            Ok(()) => init_error(req@, config@) is None,
            Err(e) => init_error(req@, config@) == Some(e@),
        },
{
    if req.user_id.as_str().is_empty() {
        return Err(missing_field("user_id"));
    }
    if req.file_name.as_str().is_empty() {
        return Err(missing_field("file_name"));
    }
    if req.content_type.as_str().is_empty() {
        return Err(missing_field("content_type"));
    }
    if req.r2_key.as_str().is_empty() {
        return Err(missing_field("r2_key"));
    }
    if req.total_size == 0 {
        return Err(
            AppError::ValidationError {
                message: String::from_str("total_size must be greater than zero"),
            },
        );
    }
    ValidationMiddleware::validate_file_size(req.total_size, config.max_file_size)?;
    ValidationMiddleware::validate_content_type(req.content_type.as_str())?;
    if !config.permits_upload(req.user_role) {
        return Err(
            AppError::AuthError { message: String::from_str("User role is not permitted to upload") },
        );
    }
    Ok(())
}

/// Opens a session once the backend transfer for `req.r2_key` has been
/// opened with outcome `opened` (the transfer id, or the backend's error).
/// The session gets a fresh random identifier and starts `Initiated` with no
/// chunk. If the caller then fails to persist the record, the opened
/// transfer has no session; finding and aborting such transfers is left to a
/// reconciliation job outside the library.
pub fn initiate(req: InitRequest, config: &Config, opened: Result<String, String>) -> (r: AppResult<
    (UploadMetadata, InitReply),
>)
    ensures
        match r {
            Ok((s, reply)) => {
                &&& init_failure(req@, config@, text_outcome(opened)) is None
                &&& text_outcome(opened) == Ok::<Seq<char>, Seq<char>>(s@.r2_upload_id)
                &&& s@ == initiated_session(req@, s@.upload_id, s@.r2_upload_id, s@.created_at)
                &&& s@.upload_id.len() == 36
                &&& s@.wf()
                &&& reply.upload_id@ == s@.upload_id
                &&& reply.r2_key@ == req@.r2_key
                &&& reply.chunk_size == config.chunk_size
                &&& reply.status == UploadStatus::Initiated
            },
            Err(e) => init_failure(req@, config@, text_outcome(opened)) == Some(e@),
        },
{
    validate_init(&req, config)?;
    let transfer = match opened {
        Err(m) => {
            return Err(AppError::R2Error { message: prefixed("Failed to initialize multipart upload: ", &m) });
        },
        Ok(t) => t,
    };
    if transfer.as_str().is_empty() {
        return Err(
            AppError::R2Error {
                message: String::from_str("Backend returned an empty multipart upload id"),
            },
        );
    }
    let upload_id = new_uuid();
    let now = now_millis();
    let reply = InitReply {
        upload_id: upload_id.clone(),
        r2_key: req.r2_key.clone(),
        chunk_size: config.chunk_size,
        status: UploadStatus::Initiated,
    };
    let session = UploadMetadata {
        upload_id,
        file_name: req.file_name,
        total_size: req.total_size,
        created_at: now,
        updated_at: now,
        user_role: req.user_role,
        content_type: req.content_type,
        status: UploadStatus::Initiated,
        chunks: Vec::new(),
        r2_key: req.r2_key,
        user_id: req.user_id,
        r2_upload_id: transfer,
        version: 0,
    };
    assert(session@.chunks =~= Seq::<ChunkView>::empty());
    Ok((session, reply))
}

// ---------------------------------------------------------------------------
// Chunk ingestion
// ---------------------------------------------------------------------------

/// Checks a chunk of `chunk_size` bytes at `chunk_index` against the session
/// the store returned for `upload_id`, and gives the backend part upload to
/// make: part number `chunk_index + 1` of the session's transfer.
pub fn plan_chunk(
    session: Option<&UploadMetadata>,
    upload_id: &str,
    chunk_index: u16,
    chunk_size: u64,
    config: &Config,
) -> (r: AppResult<PartUpload>)
    ensures
        match r {
            Ok(p) => {
                &&& chunk_error(session_view(session), upload_id@, chunk_index, chunk_size, config@) is None
                &&& p.r2_key@ == session_view(session)->Some_0.r2_key
                &&& p.r2_upload_id@ == session_view(session)->Some_0.r2_upload_id
                &&& p.part_number == chunk_index + 1
            },
            Err(e) => chunk_error(session_view(session), upload_id@, chunk_index, chunk_size, config@)
                == Some(e@),
        },
{
    let s = match session {
        None => {
            return Err(AppError::UploadNotFound { upload_id: String::from_str(upload_id) });
        },
        Some(s) => s,
    };
    if s.status == UploadStatus::Completed {
        return Err(AppError::UploadAlreadyCompleted { upload_id: s.upload_id.clone() });
    }
    if s.status == UploadStatus::Cancelled {
        return Err(AppError::UploadCancelled { upload_id: s.upload_id.clone() });
    }
    if chunk_index > config.max_chunk_index || chunk_index == u16::MAX {
        return Err(AppError::InvalidChunkIndex { index: chunk_index });
    }
    if chunk_size == 0 {
        return Err(AppError::ValidationError { message: String::from_str("Chunk body is empty") });
    }
    if find_index(&s.chunks, chunk_index) {
        return Err(
            AppError::ChunkAlreadyUploaded { upload_id: s.upload_id.clone(), index: chunk_index },
        );
    }
    if s.r2_upload_id.as_str().is_empty() {
        return Err(
            AppError::InternalError { message: String::from_str("Session has no backend transfer") },
        );
    }
    Ok(
        PartUpload {
            r2_key: s.r2_key.clone(),
            r2_upload_id: s.r2_upload_id.clone(),
            part_number: chunk_index + 1,
        },
    )
}

/// Records chunk `chunk_index` of `chunk_size` bytes once its part upload
/// has run with outcome `uploaded` (the part's tag, or the backend's error).
/// On success the chunk is appended, the session is `InProgress`,
/// `updated_at` is bumped and the version advanced; on failure the session
/// is unchanged.
pub fn accept_chunk(
    session: &mut UploadMetadata,
    chunk_index: u16,
    chunk_size: u64,
    uploaded: Result<String, String>,
    config: &Config,
) -> (r: AppResult<ChunkReply>)
    ensures
        match r {
            Ok(reply) => {
                &&& chunk_failure(old(session)@, chunk_index, chunk_size, text_outcome(uploaded), config@) is None
                &&& text_outcome(uploaded) == Ok::<Seq<char>, Seq<char>>(reply.etag@)
                &&& final(session)@ == chunk_applied(
                    old(session)@,
                    chunk_index,
                    chunk_size,
                    reply.etag@,
                    final(session)@.updated_at,
                )
                &&& reply.upload_id@ == old(session)@.upload_id
                &&& reply.chunk_index == chunk_index
                &&& reply.etag@.len() > 0
                &&& reply.status == UploadStatus::InProgress
            },
            Err(e) => {
                &&& chunk_failure(old(session)@, chunk_index, chunk_size, text_outcome(uploaded), config@)
                    == Some(e@)
                &&& final(session)@ == old(session)@
            },
        },
        old(session)@.wf() ==> final(session)@.wf(),
        transition_allowed_or_unchanged(old(session)@, final(session)@),
{
    let checked = plan_chunk(Some(&*session), session.upload_id.as_str(), chunk_index, chunk_size, config);
    if let Err(e) = checked {
        return Err(e);
    }
    let tag = match uploaded {
        Err(m) => {
            return Err(AppError::R2Error { message: prefixed("Failed to upload chunk to R2: ", &m) });
        },
        Ok(t) => t,
    };
    if tag.as_str().is_empty() {
        return Err(AppError::R2Error { message: String::from_str("Backend returned an empty ETag") });
    }
    let ghost before = session@;
    let reply = ChunkReply {
        upload_id: session.upload_id.clone(),
        chunk_index,
        etag: tag.clone(),
        status: UploadStatus::InProgress,
    };
    session.chunks.push(UploadChunkRecord { chunk_index, chunk_size, etag: Some(tag) });
    session.status = UploadStatus::InProgress;
    session.updated_at = now_millis();
    session.version = bump_version(session.version);
    proof {
        assert(session@.chunks =~= before.chunks.push(
            ChunkView { index: chunk_index, size: chunk_size, tag: Some(reply.etag@) },
        ));
        assert(session@ =~= chunk_applied(before, chunk_index, chunk_size, reply.etag@, session@.updated_at));
        if before.wf() {
            let cs = session@.chunks;
            assert forall|i: int, j: int|
                0 <= i < cs.len() && 0 <= j < cs.len() && i != j implies #[trigger] cs[i].index
                != #[trigger] cs[j].index by {
                if i == cs.len() - 1 {
                    assert(before.chunks[j].index == cs[j].index);
                } else if j == cs.len() - 1 {
                    assert(before.chunks[i].index == cs[i].index);
                }
            }
        }
    }
    Ok(reply)
}

/// The status change of a step is one the state machine allows, or the
/// status is unchanged.
pub open spec fn transition_allowed_or_unchanged(before: SessionView, after: SessionView) -> bool {
    before.status == after.status || crate::models::transition_allowed(before.status, after.status)
}

// ---------------------------------------------------------------------------
// Completion
// ---------------------------------------------------------------------------

/// Checks that the session the store returned for `upload_id` can be
/// finalized, and gives the backend finalize call to make: the session's
/// chunks sorted by index, chunk `i` as part `i + 1` with its tag.
pub fn plan_complete(session: Option<&UploadMetadata>, upload_id: &str) -> (r: AppResult<
    CompletionRequest,
>)
    ensures
        match r {
            Ok(req) => {
                &&& complete_error(session_view(session), upload_id@) is None
                &&& completion_parts(session_view(session)->Some_0.chunks) == Ok::<Seq<PartView>, ErrorView>(
                    part_views(req.parts@),
                )
                &&& req.r2_key@ == session_view(session)->Some_0.r2_key
                &&& req.r2_upload_id@ == session_view(session)->Some_0.r2_upload_id
            },
            Err(e) => complete_error(session_view(session), upload_id@) == Some(e@),
        },
{
    let s = match session {
        None => {
            return Err(AppError::UploadNotFound { upload_id: String::from_str(upload_id) });
        },
        Some(s) => s,
    };
    if s.status == UploadStatus::Completed {
        return Err(AppError::UploadAlreadyCompleted { upload_id: s.upload_id.clone() });
    }
    if s.status == UploadStatus::Cancelled {
        return Err(AppError::UploadCancelled { upload_id: s.upload_id.clone() });
    }
    if s.chunks.len() == 0 {
        return Err(
            AppError::ValidationError { message: String::from_str("No uploaded chunks to finalize") },
        );
    }
    let ordered = sort_chunks_by_index(s.chunks.as_slice());
    let parts = collect_part_descriptors(ordered.as_slice())?;
    if s.r2_upload_id.as_str().is_empty() {
        return Err(
            AppError::InternalError { message: String::from_str("Session has no backend transfer") },
        );
    }
    Ok(CompletionRequest { r2_key: s.r2_key.clone(), r2_upload_id: s.r2_upload_id.clone(), parts })
}

/// Marks the session `Completed` once the backend finalize call has run with
/// outcome `finalized`. If the request is refused or the backend failed, the
/// session is unchanged and may be completed again later.
pub fn finish_complete(session: &mut UploadMetadata, finalized: Result<(), String>) -> (r: AppResult<
    CompleteReply,
>)
    ensures
        match r {
            Ok(reply) => {
                &&& complete_failure(old(session)@, unit_outcome(finalized)) is None
                &&& final(session)@ == completed(old(session)@, final(session)@.updated_at)
                &&& reply.upload_id@ == old(session)@.upload_id
                &&& reply.r2_key@ == old(session)@.r2_key
                &&& reply.status == UploadStatus::Completed
            },
            Err(e) => {
                &&& complete_failure(old(session)@, unit_outcome(finalized)) == Some(e@)
                &&& final(session)@ == old(session)@
            },
        },
        old(session)@.wf() ==> final(session)@.wf(),
        transition_allowed_or_unchanged(old(session)@, final(session)@),
{
    let checked = plan_complete(Some(&*session), session.upload_id.as_str());
    if let Err(e) = checked {
        return Err(e);
    }
    if let Err(m) = finalized {
        return Err(AppError::R2Error { message: prefixed("Failed to finalize multipart upload: ", &m) });
    }
    let ghost before = session@;
    session.status = UploadStatus::Completed;
    session.updated_at = now_millis();
    session.version = bump_version(session.version);
    assert(session@ =~= completed(before, session@.updated_at));
    Ok(
        CompleteReply {
            upload_id: session.upload_id.clone(),
            r2_key: session.r2_key.clone(),
            status: UploadStatus::Completed,
        },
    )
}

// ---------------------------------------------------------------------------
// Cancellation
// ---------------------------------------------------------------------------

/// Checks that the session the store returned for `upload_id` can be
/// cancelled, and says what to ask of the backend.
pub fn plan_cancel(session: Option<&UploadMetadata>, upload_id: &str) -> (r: AppResult<CancelPlan>)
    ensures
        match r {
            Ok(plan) => {
                &&& cancel_error(session_view(session), upload_id@) is None
                &&& cancel_plan_for(plan, session_view(session)->Some_0)
            },
            Err(e) => cancel_error(session_view(session), upload_id@) == Some(e@),
        },
{
    let s = match session {
        None => {
            return Err(AppError::UploadNotFound { upload_id: String::from_str(upload_id) });
        },
        Some(s) => s,
    };
    match s.status {
        UploadStatus::Completed => Err(
            AppError::UploadAlreadyCompleted { upload_id: s.upload_id.clone() },
        ),
        UploadStatus::Cancelled => Ok(CancelPlan::AlreadyCancelled),
        _ => {
            if s.r2_upload_id.as_str().is_empty() {
                Ok(CancelPlan::LocalOnly)
            } else {
                Ok(
                    CancelPlan::Abort {
                        r2_key: s.r2_key.clone(),
                        r2_upload_id: s.r2_upload_id.clone(),
                    },
                )
            }
        },
    }
}

/// Marks the session `Cancelled` after the backend abort (if any) ran with
/// outcome `aborted`. An abort failure does not block the cancellation: it
/// is handed back in the reply for the caller to report. Cancelling a
/// cancelled session changes nothing.
pub fn finish_cancel(session: &mut UploadMetadata, aborted: Result<(), String>) -> (r: AppResult<
    CancelReply,
>)
    ensures
        match r {
            Ok(reply) => {
                &&& cancel_error(Some(old(session)@), old(session)@.upload_id) is None
                &&& final(session)@ == cancelled(old(session)@, final(session)@.updated_at)
                &&& reply.upload_id@ == old(session)@.upload_id
                &&& reply.status == UploadStatus::Cancelled
                &&& match unit_outcome(aborted) {
                    Ok(()) => reply.abort_error is None,
                    Err(m) => reply.abort_error matches Some(t) && t@ == m,
                }
            },
            Err(e) => {
                &&& cancel_error(Some(old(session)@), old(session)@.upload_id) == Some(e@)
                &&& final(session)@ == old(session)@
            },
        },
        old(session)@.wf() ==> final(session)@.wf(),
        transition_allowed_or_unchanged(old(session)@, final(session)@),
{
    if session.status == UploadStatus::Completed {
        return Err(AppError::UploadAlreadyCompleted { upload_id: session.upload_id.clone() });
    }
    let abort_error = match aborted {
        Ok(()) => None,
        Err(m) => Some(m),
    };
    if session.status != UploadStatus::Cancelled {
        let ghost before = session@;
        session.status = UploadStatus::Cancelled;
        session.updated_at = now_millis();
        session.version = bump_version(session.version);
        assert(session@ =~= cancelled(before, session@.updated_at));
    }
    Ok(
        CancelReply {
            upload_id: session.upload_id.clone(),
            status: UploadStatus::Cancelled,
            abort_error,
        },
    )
}

// ---------------------------------------------------------------------------
// Serialized writes
// ---------------------------------------------------------------------------

/// What follows a write of a session record made on the condition that the
/// stored version is still the one that was read.
#[derive(Debug, Clone, Copy, PartialEq, Eq, Structural)]
pub enum WriteStep {
    /// The write took effect.
    Done,
    /// Another write came first: read the record again and reapply the
    /// step's outcome to it.
    Retry,
}

/// The error reported when concurrent writes keep winning.
pub open spec fn write_conflict_error(upload_id: Seq<char>) -> ErrorView {
    ErrorView::DatabaseError { message: "Concurrent update of upload "@ + upload_id }
}

/// Decides what follows a conditional write that changed `rows_changed`
/// rows on attempt `attempt` (counted from 0): done when it took effect,
/// otherwise retry until `MAX_WRITE_ATTEMPTS` attempts were made.
pub fn after_conditional_write(rows_changed: usize, attempt: u32, upload_id: &str) -> (r: AppResult<
    WriteStep,
>)
    ensures
        rows_changed > 0 ==> r matches Ok(WriteStep::Done),
        rows_changed == 0 && attempt + 1 < MAX_WRITE_ATTEMPTS ==> r matches Ok(WriteStep::Retry),
        rows_changed == 0 && attempt + 1 >= MAX_WRITE_ATTEMPTS ==> (r matches Err(e) && e@
            == write_conflict_error(upload_id@)),
{
    if rows_changed > 0 {
        Ok(WriteStep::Done)
    } else if attempt < MAX_WRITE_ATTEMPTS - 1 {
        Ok(WriteStep::Retry)
    } else {
        let mut message = String::from_str("Concurrent update of upload ");
        message.append(upload_id);
        Err(AppError::DatabaseError { message })
    }
}

// ---------------------------------------------------------------------------
// Status
// ---------------------------------------------------------------------------

/// Completion estimated as accepted chunks over the chunks the declared size
/// takes at the configured chunk size, in percent, capped at 100; 0 when
/// either size is 0.
pub fn estimate_progress(count: usize, total_size: u64, chunk_size: usize) -> (r: u8)
    ensures
        r as nat == progress_percent(count as nat, total_size, chunk_size),
{
    if chunk_size == 0 {
        return 0;
    }
    let expected: u128 = (total_size as u128 + chunk_size as u128 - 1) / (chunk_size as u128);
    if expected == 0 {
        return 0;
    }
    assert((count as u128) * 100 <= u128::MAX) by (nonlinear_arith)
        requires
            count <= usize::MAX,
    ;
    let pct: u128 = (count as u128) * 100 / expected;
    if pct > 100 {
        100
    } else {
        pct as u8
    }
}

/// The read-only projection of the session the store returned for
/// `upload_id`.
pub fn status_of(session: Option<&UploadMetadata>, upload_id: &str, config: &Config) -> (r: AppResult<
    SessionProjection,
>)
    ensures
        match r {
            Ok(p) => session_view(session) is Some && projection_of(p, session_view(session)->Some_0, config@),
            Err(e) => session_view(session) is None && e@ == (ErrorView::UploadNotFound { upload_id: upload_id@ }),
        },
{
    let s = match session {
        None => {
            return Err(AppError::UploadNotFound { upload_id: String::from_str(upload_id) });
        },
        Some(s) => s,
    };
    let ordered = sort_chunks_by_index(s.chunks.as_slice());
    let mut indices: Vec<u16> = Vec::new();
    let mut i: usize = 0;
    while i < ordered.len()
        invariant
            i <= ordered@.len(),
            indices@ == crate::models::chunk_views(ordered@).subrange(0, i as int).map_values(
                |v: ChunkView| v.index,
            ),
        decreases ordered.len() - i,
    {
        indices.push(ordered[i].chunk_index);
        i += 1;
        assert(indices@ =~= crate::models::chunk_views(ordered@).subrange(0, i as int).map_values(
            |v: ChunkView| v.index,
        ));
    }
    assert(crate::models::chunk_views(ordered@).subrange(0, i as int) =~= crate::models::chunk_views(ordered@));
    Ok(
        SessionProjection {
            upload_id: s.upload_id.clone(),
            file_name: s.file_name.clone(),
            status: s.status,
            total_size: s.total_size,
            chunk_indices: indices,
            progress_percent: estimate_progress(s.chunks.len(), s.total_size, config.chunk_size),
            chunk_size: config.chunk_size,
            r2_key: s.r2_key.clone(),
            user_role: s.user_role,
            content_type: s.content_type.clone(),
            created_at: s.created_at,
            updated_at: s.updated_at,
        },
    )
}

} // verus!
