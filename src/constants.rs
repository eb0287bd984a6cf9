//! Default limits and the names shared with the runtime around the library.

use vstd::prelude::*;

verus! {

/// Binding name of the configuration store.
pub const STORAGE_CONFIG_KV_NAME: &'static str = "STORAGE_CONFIG";

/// Binding name of the object-storage bucket.
pub const STORAGE_BUCKET_NAME: &'static str = "STORAGE_BUCKET";

/// Binding name of the session database.
pub const UPLOAD_DB_NAME: &'static str = "UPLOAD_DB";

/// Default maximum file size, 10 GiB.
pub const DEFAULT_MAX_FILE_SIZE: u64 = 10_737_418_240;

/// Default recommended chunk size, 150 MiB.
pub const DEFAULT_CHUNK_SIZE: u64 = 157_286_400;

/// Default largest accepted chunk index.
pub const MAX_CHUNK_INDEX: u16 = 10_000;

/// How many times a mutation is attempted when concurrent writes to the
/// same session keep winning.
pub const MAX_WRITE_ATTEMPTS: u32 = 3;

/// Header that carries the session identifier.
pub const HEADER_UPLOAD_ID: &'static str = "X-Upload-Id";

/// Header that carries the chunk index.
pub const HEADER_CHUNK_INDEX: &'static str = "X-Chunk-Index";

/// Allowed origins for cross-origin requests.
pub const CORS_ALLOW_ORIGIN: &'static str = "*";

/// Allowed methods for cross-origin requests.
pub const CORS_ALLOW_METHODS: &'static str = "GET, POST, PUT, DELETE, OPTIONS";

/// Allowed headers for cross-origin requests.
pub const CORS_ALLOW_HEADERS: &'static str = "Content-Type, X-Upload-Id, X-Chunk-Index";

} // verus!
