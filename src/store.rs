//! The session record as a relational session store holds it: plain
//! columns, with the role, the status and the timestamps as text.

use vstd::prelude::*;
use vstd::string::StringExecFns;
use crate::errors::{AppError, AppResult, ErrorView};
use crate::models::{
    chunk_views, role_named, status_named, SessionView, UploadChunkRecord, UploadMetadata,
    UploadStatus, UserRole,
};
use crate::runtime::{parse_rfc3339_millis, rfc3339_millis};
use crate::text::lower_of;

verus! {

/// One row of the sessions table.
#[derive(Debug)]
pub struct SessionRow {
    pub upload_id: String,
    pub file_name: String,
    pub total_size: u64,
    pub content_type: String,
    pub user_id: String,
    /// Role name, any case.
    pub user_role: String,
    pub r2_key: String,
    pub r2_upload_id: String,
    /// Status wire name.
    pub status: String,
    /// RFC 3339 timestamp.
    pub created_at: String,
    /// RFC 3339 timestamp.
    pub updated_at: String,
    /// Write counter.
    pub version: u64,
}

/// Why a row does not describe a session.
pub open spec fn row_error(row: SessionRow) -> Option<ErrorView> {
    if rfc3339_millis(row.created_at@) is None {
        Some(ErrorView::DatabaseError { message: "Invalid created_at timestamp: "@ + row.created_at@ })
    } else if rfc3339_millis(row.updated_at@) is None {
        Some(ErrorView::DatabaseError { message: "Invalid updated_at timestamp: "@ + row.updated_at@ })
    } else if role_named(lower_of(row.user_role@)) is None {
        Some(
            ErrorView::DatabaseError {
                message: "Invalid user_role in database: "@ + ("Invalid user role: "@ + row.user_role@),
            },
        )
    } else if status_named(row.status@) is None {
        Some(ErrorView::DatabaseError { message: "Invalid upload status in database: "@ + row.status@ })
    } else {
        None
    }
}

/// The session a valid row describes, with its chunk records.
pub open spec fn row_session(row: SessionRow, chunks: Seq<UploadChunkRecord>) -> SessionView {
    SessionView {
        upload_id: row.upload_id@,
        file_name: row.file_name@,
        total_size: row.total_size,
        created_at: rfc3339_millis(row.created_at@)->Some_0,
        updated_at: rfc3339_millis(row.updated_at@)->Some_0,
        user_role: role_named(lower_of(row.user_role@))->Some_0,
        content_type: row.content_type@,
        status: status_named(row.status@)->Some_0,
        chunks: chunk_views(chunks),
        r2_key: row.r2_key@,
        user_id: row.user_id@,
        r2_upload_id: row.r2_upload_id@,
        version: row.version,
    }
}

fn database_error(prefix: &str, text: &String) -> (e: AppError)
    ensures
        e@ == (ErrorView::DatabaseError { message: prefix@ + text@ }),
{
    let mut message = String::from_str(prefix);
    message.append(text.as_str());
    AppError::DatabaseError { message }
}

impl SessionRow {
    /// The session this row describes, with the given chunk records; fails
    /// with `DatabaseError` on a timestamp, role or status that does not
    /// parse.
    pub fn try_into_metadata(self, chunks: Vec<UploadChunkRecord>) -> (r: AppResult<UploadMetadata>)
        ensures
            match r {
                Ok(s) => row_error(self) is None && s@ == row_session(self, chunks@),
                Err(e) => row_error(self) == Some(e@),
            },
    {
        let created_at = match parse_rfc3339_millis(self.created_at.as_str()) {
            Some(t) => t,
            None => {
                return Err(database_error("Invalid created_at timestamp: ", &self.created_at));
            },
        };
        let updated_at = match parse_rfc3339_millis(self.updated_at.as_str()) {
            Some(t) => t,
            None => {
                return Err(database_error("Invalid updated_at timestamp: ", &self.updated_at));
            },
        };
        let user_role: UserRole = match UserRole::parse_name(self.user_role.as_str()) {
            Ok(role) => role,
            Err(m) => {
                return Err(database_error("Invalid user_role in database: ", &m));
            },
        };
        let status = match UploadStatus::parse(self.status.as_str()) {
            Some(status) => status,
            None => {
                return Err(database_error("Invalid upload status in database: ", &self.status));
            },
        };
        let ghost row = self;
        let s = UploadMetadata {
            upload_id: self.upload_id,
            file_name: self.file_name,
            total_size: self.total_size,
            created_at,
            updated_at,
            user_role,
            content_type: self.content_type,
            status,
            chunks,
            r2_key: self.r2_key,
            user_id: self.user_id,
            r2_upload_id: self.r2_upload_id,
            version: self.version,
        };
        assert(s@ == row_session(row, chunks@));
        Ok(s)
    }
}

} // verus!
