//! Data model of an upload session.
//!
//! Each executable type has a view: the same record with strings as
//! `Seq<char>`. Contracts throughout the crate speak of the views.

use vstd::prelude::*;
use vstd::string::StringExecFns;
use crate::text::{lower_of, lowercase, text_eq};

verus! {

/// Coarse permission class of the uploading principal.
#[derive(Clone, Copy, Debug, PartialEq, Eq, Structural, Hash)]
pub enum UserRole {
    /// Content creator with full upload privileges.
    Creator,
    /// Regular member with standard upload access.
    Member,
    /// Subscriber with limited upload capabilities.
    Subscriber,
}

/// The lowercase name of a role, as used in storage paths and API responses.
pub open spec fn role_name(role: UserRole) -> Seq<char> {
    match role {
        UserRole::Creator => "creator"@,
        UserRole::Member => "member"@,
        UserRole::Subscriber => "subscriber"@,
    }
}

impl UserRole {
    /// Lowercase name of the role.
    pub fn as_str(&self) -> (r: &'static str)
        ensures
            r@ == role_name(*self),
    {
        match self {
            UserRole::Creator => "creator",
            UserRole::Member => "member",
            UserRole::Subscriber => "subscriber",
        }
    }
}

/// The role named `name`, if any.
pub open spec fn role_named(name: Seq<char>) -> Option<UserRole> {
    if name == "creator"@ {
        Some(UserRole::Creator)
    } else if name == "member"@ {
        Some(UserRole::Member)
    } else if name == "subscriber"@ {
        Some(UserRole::Subscriber)
    } else {
        None
    }
}

impl UserRole {
    /// Parses a role name, ignoring case; anything else is refused with the
    /// message `Invalid user role: <text>`.
    pub fn parse_name(s: &str) -> (r: Result<UserRole, String>)
        ensures
            match role_named(lower_of(s@)) {
                Some(role) => r == Ok::<UserRole, String>(role),
                None => r matches Err(m) && m@ == "Invalid user role: "@ + s@,
            },
    {
        let lower = lowercase(s);
        if text_eq(lower.as_str(), "creator") {
            Ok(UserRole::Creator)
        } else if text_eq(lower.as_str(), "member") {
            Ok(UserRole::Member)
        } else if text_eq(lower.as_str(), "subscriber") {
            Ok(UserRole::Subscriber)
        } else {
            let mut m = String::from_str("Invalid user role: ");
            m.append(s);
            Err(m)
        }
    }
}

impl std::str::FromStr for UserRole {
    type Err = String;

    fn from_str(s: &str) -> Result<UserRole, String> {
        UserRole::parse_name(s)
    }
}

/// Lifecycle state of an upload session.
///
/// `Initiated` and `InProgress` are open; `Completed` and `Cancelled` are
/// terminal.
#[derive(Clone, Copy, Debug, PartialEq, Eq, Structural, Hash)]
pub enum UploadStatus {
    /// The session exists and its backend transfer is open; no chunk yet.
    Initiated,
    /// At least one chunk has been accepted.
    InProgress,
    /// The backend transfer has been finalized into one object.
    Completed,
    /// The session was cancelled and its backend transfer aborted.
    Cancelled,
}

/// The wire name of a status.
pub open spec fn status_name(status: UploadStatus) -> Seq<char> {
    match status {
        UploadStatus::Initiated => "initiated"@,
        UploadStatus::InProgress => "in_progress"@,
        UploadStatus::Completed => "completed"@,
        UploadStatus::Cancelled => "cancelled"@,
    }
}

/// The status whose wire name is `name`, if any.
pub open spec fn status_named(name: Seq<char>) -> Option<UploadStatus> {
    if name == "initiated"@ {
        Some(UploadStatus::Initiated)
    } else if name == "in_progress"@ {
        Some(UploadStatus::InProgress)
    } else if name == "completed"@ {
        Some(UploadStatus::Completed)
    } else if name == "cancelled"@ {
        Some(UploadStatus::Cancelled)
    } else {
        None
    }
}

/// A terminal status admits no further change.
pub open spec fn is_terminal(status: UploadStatus) -> bool {
    status == UploadStatus::Completed || status == UploadStatus::Cancelled
}

/// The status changes that the session state machine allows.
///
/// The first accepted chunk moves `Initiated` to `InProgress`, later chunks
/// keep `InProgress`, completion and cancellation leave either open state,
/// and cancelling a cancelled session is the one idempotent case.
pub open spec fn transition_allowed(from: UploadStatus, to: UploadStatus) -> bool {
    match (from, to) {
        (UploadStatus::Initiated, UploadStatus::InProgress) => true,
        (UploadStatus::InProgress, UploadStatus::InProgress) => true,
        (UploadStatus::Initiated, UploadStatus::Completed) => true,
        (UploadStatus::InProgress, UploadStatus::Completed) => true,
        (UploadStatus::Initiated, UploadStatus::Cancelled) => true,
        (UploadStatus::InProgress, UploadStatus::Cancelled) => true,
        (UploadStatus::Cancelled, UploadStatus::Cancelled) => true,
        _ => false,
    }
}

impl UploadStatus {
    /// Wire name of the status.
    pub fn as_str(&self) -> (r: &'static str)
        ensures
            r@ == status_name(*self),
    {
        match self {
            UploadStatus::Initiated => "initiated",
            UploadStatus::InProgress => "in_progress",
            UploadStatus::Completed => "completed",
            UploadStatus::Cancelled => "cancelled",
        }
    }

    /// The status whose wire name is exactly `s`, if any.
    pub fn parse(s: &str) -> (r: Option<UploadStatus>)
        ensures
            r == status_named(s@),
    {
        if text_eq(s, "initiated") {
            Some(UploadStatus::Initiated)
        } else if text_eq(s, "in_progress") {
            Some(UploadStatus::InProgress)
        } else if text_eq(s, "completed") {
            Some(UploadStatus::Completed)
        } else if text_eq(s, "cancelled") {
            Some(UploadStatus::Cancelled)
        } else {
            None
        }
    }

    /// Whether the status is terminal.
    pub fn is_terminal(&self) -> (r: bool)
        ensures
            r == is_terminal(*self),
    {
        match self {
            UploadStatus::Completed | UploadStatus::Cancelled => true,
            _ => false,
        }
    }
}

/// One acknowledged chunk of a session.
#[derive(Debug)]
pub struct UploadChunkRecord {
    /// Zero-based position of the chunk in the client's chunking scheme.
    pub chunk_index: u16,
    /// Number of bytes received for the chunk.
    pub chunk_size: u64,
    /// Integrity tag the backend returned for the part.
    pub etag: Option<String>,
}

/// View of a chunk record.
pub struct ChunkView {
    pub index: u16,
    pub size: u64,
    pub tag: Option<Seq<char>>,
}

/// View of an optional string.
pub open spec fn opt_view(o: Option<String>) -> Option<Seq<char>> {
    match o {
        Some(s) => Some(s@),
        None => None,
    }
}

impl View for UploadChunkRecord {
    type V = ChunkView;

    open spec fn view(&self) -> ChunkView {
        ChunkView { index: self.chunk_index, size: self.chunk_size, tag: opt_view(self.etag) }
    }
}

/// Views of a sequence of chunk records.
pub open spec fn chunk_views(s: Seq<UploadChunkRecord>) -> Seq<ChunkView> {
    s.map_values(|c: UploadChunkRecord| c@)
}

/// No two records of `s` share a chunk index.
pub open spec fn unique_indices(s: Seq<ChunkView>) -> bool {
    forall|i: int, j: int|
        0 <= i < s.len() && 0 <= j < s.len() && i != j ==> #[trigger] s[i].index != #[trigger] s[j].index
}

/// Some record of `s` has chunk index `index`.
pub open spec fn has_index(s: Seq<ChunkView>, index: u16) -> bool {
    exists|i: int| 0 <= i < s.len() && #[trigger] s[i].index == index
}

impl UploadChunkRecord {
    /// A copy of the record.
    pub fn duplicate(&self) -> (r: UploadChunkRecord)
        ensures
            r@ == self@,
    {
        let etag = match &self.etag {
            Some(t) => Some(t.clone()),
            None => None,
        };
        UploadChunkRecord { chunk_index: self.chunk_index, chunk_size: self.chunk_size, etag }
    }
}

/// The persisted record of one upload session.
///
/// Timestamps are milliseconds since the Unix epoch, UTC.
#[derive(Debug)]
pub struct UploadMetadata {
    /// Unique identifier of the session, immutable.
    pub upload_id: String,
    /// Client-supplied display name of the file.
    pub file_name: String,
    /// Declared final byte length of the file.
    pub total_size: u64,
    /// Creation time.
    pub created_at: i64,
    /// Time of the last mutation.
    pub updated_at: i64,
    /// Permission class of the owner.
    pub user_role: UserRole,
    /// Declared MIME type.
    pub content_type: String,
    /// Lifecycle state.
    pub status: UploadStatus,
    /// Every acknowledged chunk, in order of acceptance.
    pub chunks: Vec<UploadChunkRecord>,
    /// Backend object key, assigned at creation and immutable.
    pub r2_key: String,
    /// Identity of the uploading principal.
    pub user_id: String,
    /// Handle of the backend multipart transfer.
    pub r2_upload_id: String,
    /// Write counter for optimistic concurrency: every change of the record
    /// advances it, and the store accepts a write only over the version it
    /// was read at.
    pub version: u64,
}

/// View of a session record.
pub struct SessionView {
    pub upload_id: Seq<char>,
    pub file_name: Seq<char>,
    pub total_size: u64,
    pub created_at: i64,
    pub updated_at: i64,
    pub user_role: UserRole,
    pub content_type: Seq<char>,
    pub status: UploadStatus,
    pub chunks: Seq<ChunkView>,
    pub r2_key: Seq<char>,
    pub user_id: Seq<char>,
    pub r2_upload_id: Seq<char>,
    pub version: u64,
}

/// The version after `v`; it wraps around after `u64::MAX` writes.
pub open spec fn next_version(v: u64) -> u64 {
    if v == u64::MAX {
        0
    } else {
        (v + 1) as u64
    }
}

/// The version after `v`.
pub fn bump_version(v: u64) -> (r: u64)
    ensures
        r == next_version(v),
{
    if v == u64::MAX {
        0
    } else {
        v + 1
    }
}

impl View for UploadMetadata {
    type V = SessionView;

    open spec fn view(&self) -> SessionView {
        SessionView {
            upload_id: self.upload_id@,
            file_name: self.file_name@,
            total_size: self.total_size,
            created_at: self.created_at,
            updated_at: self.updated_at,
            user_role: self.user_role,
            content_type: self.content_type@,
            status: self.status,
            chunks: chunk_views(self.chunks@),
            r2_key: self.r2_key@,
            user_id: self.user_id@,
            r2_upload_id: self.r2_upload_id@,
            version: self.version,
        }
    }
}

impl SessionView {
    /// Invariant of a session record: chunk indices are unique, an
    /// `Initiated` session has no chunk, and a session that moved past
    /// `Initiated` by accepting or finalizing chunks has at least one.
    pub open spec fn wf(self) -> bool {
        &&& unique_indices(self.chunks)
        &&& self.status == UploadStatus::Initiated ==> self.chunks.len() == 0
        &&& (self.status == UploadStatus::InProgress || self.status == UploadStatus::Completed)
            ==> self.chunks.len() > 0
    }
}

} // verus!
