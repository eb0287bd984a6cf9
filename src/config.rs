//! Resolved configuration, supplied with every call.

use vstd::prelude::*;
use vstd::string::StringExecFns;
use crate::constants::{DEFAULT_CHUNK_SIZE, DEFAULT_MAX_FILE_SIZE, MAX_CHUNK_INDEX, UPLOAD_DB_NAME};
use crate::models::UserRole;

verus! {

/// Limits and permissions that the coordinator applies.
#[derive(Debug)]
pub struct Config {
    /// Binding name of the session database.
    pub database_name: String,
    /// Largest accepted declared file size, in bytes.
    pub max_file_size: u64,
    /// Recommended chunk size, in bytes.
    pub chunk_size: usize,
    /// Largest accepted chunk index.
    pub max_chunk_index: u16,
    /// Roles that may open an upload session.
    pub upload_roles: Vec<UserRole>,
}

/// View of a configuration.
pub struct ConfigView {
    pub database_name: Seq<char>,
    pub max_file_size: u64,
    pub chunk_size: usize,
    pub max_chunk_index: u16,
    pub upload_roles: Seq<UserRole>,
}

impl View for Config {
    type V = ConfigView;

    open spec fn view(&self) -> ConfigView {
        ConfigView {
            database_name: self.database_name@,
            max_file_size: self.max_file_size,
            chunk_size: self.chunk_size,
            max_chunk_index: self.max_chunk_index,
            upload_roles: self.upload_roles@,
        }
    }
}

/// Whether the configuration lets `role` open an upload session.
pub open spec fn permits_upload(c: ConfigView, role: UserRole) -> bool {
    c.upload_roles.contains(role)
}

impl Config {
    /// Whether the configuration lets `role` open an upload session.
    pub fn permits_upload(&self, role: UserRole) -> (r: bool)
        ensures
            r == permits_upload(self@, role),
    {
        let mut i: usize = 0;
        while i < self.upload_roles.len()
            invariant
                i <= self.upload_roles@.len(),
                forall|j: int| 0 <= j < i ==> self.upload_roles@[j] != role,
            decreases self.upload_roles.len() - i,
        {
            if self.upload_roles[i] == role {
                assert(self.upload_roles@[i as int] == role);
                return true;
            }
            i += 1;
        }
        false
    }
}

impl Default for Config {
    /// The database binding `UPLOAD_DB`, 10 GiB files, 150 MiB chunks, chunk
    /// indices up to 10 000, and every role allowed to upload.
    fn default() -> (r: Config)
        ensures
            r@.database_name == UPLOAD_DB_NAME@,
            r@.max_file_size == DEFAULT_MAX_FILE_SIZE,
            r@.chunk_size == DEFAULT_CHUNK_SIZE,
            r@.max_chunk_index == MAX_CHUNK_INDEX,
            r@.upload_roles == seq![UserRole::Creator, UserRole::Member, UserRole::Subscriber],
    {
        let mut roles: Vec<UserRole> = Vec::new();
        roles.push(UserRole::Creator);
        roles.push(UserRole::Member);
        roles.push(UserRole::Subscriber);
        assert(roles@ =~= seq![UserRole::Creator, UserRole::Member, UserRole::Subscriber]);
        Config {
            database_name: String::from_str(UPLOAD_DB_NAME),
            max_file_size: DEFAULT_MAX_FILE_SIZE,
            chunk_size: DEFAULT_CHUNK_SIZE as usize,
            max_chunk_index: MAX_CHUNK_INDEX,
            upload_roles: roles,
        }
    }
}

} // verus!
