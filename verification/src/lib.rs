//! Client-side engine for uploading files to B2 cloud storage.
//!
//! The crate holds the decisions of an upload, stated and proved: whether a
//! file goes up whole or in parts, which bytes make up each part and each
//! chunk of a body, which digest goes with which bytes, how workers share the
//! parts, how an expired upload URL is replaced, how many URLs are out at one
//! time, and what is asked of the service at each step. It sends nothing and
//! reads no file: requests leave it as descriptions, and what was read or
//! received comes in as values.

pub mod client;
pub mod digest;
pub mod error;
pub mod fs;
pub mod header;
pub mod large_file;
pub mod models;
pub mod pool;
pub mod ranges;
pub mod text;
pub mod types;
pub mod upload_url;

pub use client::ClientBuilder;
pub use client::ClientState;
pub use error::B2Error;
pub use fs::NewFileFromPath;
pub use large_file::LargeFileUpload;
pub use types::sse::ServerSideEncryption;
pub use types::sse::ServerSideEncryptionCustomer;
pub use types::FileRetention;
pub use types::NewFileInfo;
pub use types::NewLargeFileInfo;
pub use types::NewPartInfo;
pub use upload_url::UploadPartUrl;
pub use upload_url::UploadUrl;
