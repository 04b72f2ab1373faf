//! Models for the B2 API.
//!
//! These types are largely read-only.

pub mod capabilities;
pub mod file_headers;

use crate::models::capabilities::B2CapabilitiesStringSet;
use crate::models::capabilities::B2Capability;
pub use crate::client::create_auth_header;
pub use crate::models::file_headers::B2FileHeaders;
use std::collections::HashMap;
use vstd::prelude::*;

verus! {

#[derive(Debug)]
pub struct B2Authorized {
    /// The identifier for the account.
    pub account_id: String,
    /// An authorization token to use with all calls, other than b2_authorize_account,
    /// that need an `authorization` header.
    ///
    /// **This authorization token is valid for at most 24 hours.**
    pub auth_token: String,
    pub api: B2ApiInfo,
    pub expiration: Option<u64>,
}

#[derive(Debug)]
pub struct B2ApiInfo {
    pub storage: B2StorageApi,
}

#[derive(Debug)]
pub struct B2StorageApi {
    /// The URL to use for API calls.
    pub api_url: String,
    pub download_url: String,
    pub recommended_part_size: u64,
    pub absolute_minimum_part_size: u64,
    pub s3_api_url: String,
    pub capabilities: B2CapabilitiesStringSet,
    /// When present, access is restricted to one bucket.
    pub bucket_id: Option<String>,
    /// When `bucketId` is set, and it is a valid bucket that has not been deleted,
    /// this field is set to the name of the bucket.
    ///
    /// It's possible that bucketId is set to a bucket that no longer exists,
    /// in which case this field will be null. It's also null when `bucketId` is null.
    pub bucket_name: Option<String>,
    /// When present, access is restricted to files whose names start with the prefix.
    pub name_prefix: Option<String>,
}

impl B2StorageApi {
    /// Checks if the storage API has the capability to perform the given action.
    pub fn contains(&self, capability: B2Capability) -> (allowed: bool)
        ensures
            allowed == (self.capabilities@ & capability@ == capability@),
    {
        self.capabilities.contains(capability)
    }
}

impl B2Authorized {
    /// The account's set of capabilities holds all of `capability`.
    pub open spec fn spec_allowed(&self, capability: B2Capability) -> bool {
        self.spec_allows(capability@)
    }

    /// The account's set of capabilities holds every capability whose bit is
    /// set in `bits`.
    pub open spec fn spec_allows(&self, bits: u32) -> bool {
        self.api.storage.capabilities@ & bits == bits
    }

    /// Checks if the authorized account has the capability to perform the given action.
    pub fn allowed(&self, capability: B2Capability) -> (allowed: bool)
        ensures
            allowed == self.spec_allowed(capability),
    {
        self.api.storage.contains(capability)
    }
}

#[derive(Debug)]
pub struct B2ApplicationKey {
    /// The account that this application key is for.
    pub account_id: String,
    /// The name assigned when the key was created.
    pub key_name: String,
    /// The ID of the application key.
    pub application_key_id: String,
    pub bucket_id: Option<String>,
    /// A list of strings, each one naming a capability the key has.
    pub capabilities: B2CapabilitiesStringSet,
    /// When present, restricts access to files whose names start with the prefix.
    pub name_prefix: Option<String>,
    /// When present and set to s3, the key can be used to sign requests to the S3 Compatible API.
    pub options: Vec<String>,
    /// When present, says when this key will expire, in milliseconds since 1970.
    pub expiration_timestamp: u64,
}

#[derive(Debug)]
pub struct B2ListedApplicationKey {
    pub keys: Vec<B2ApplicationKey>,
    /// Set if there are more keys beyond the ones that were returned. Pass this value
    /// as `startApplicationKeyId` in the next query to continue listing keys.
    ///
    /// Note that this value may not be a valid application key ID,
    /// but can still be used as the starting point for the next query.
    pub next_application_key_id: Option<String>,
}

#[derive(Debug, Clone, Copy, PartialEq, Eq, Structural)]
pub enum B2BucketType {
    All,
    AllPublic,
    AllPrivate,
    Restricted,
    Shared,
    Snapshot,
}

#[derive(Debug)]
pub struct B2Bucket {
    /// The account that the bucket is in.
    pub account_id: String,
    /// The unique ID of the bucket.
    pub bucket_id: String,
    /// The unique name of the bucket
    pub bucket_name: String,
    pub bucket_type: B2BucketType,
    /// A counter that is updated every time the bucket is modified,
    /// and can be used with the `ifRevisionIs` parameter to
    /// `b2_update_bucket` to prevent colliding, simultaneous updates.
    pub revision: u64,
    pub bucket_info: HashMap<String, String>,
    pub cors_rules: Vec<B2CorsRule>,
    pub lifecycle_rules: Vec<B2LifecycleRule>,
    /// When present and set to s3, the bucket can be accessed through the S3 Compatible API.
    pub options: Vec<String>,
    pub replication_configuration: Option<B2ReplicationConfiguration>,
    pub default_server_side_encryption: B2ServerSideEncryption,
    pub file_lock_configuration: B2FileLockConfiguration,
}

#[derive(Debug)]
pub struct B2FileLockConfiguration {
    pub is_client_authorized_to_read: bool,
    pub value: Option<B2FileLockConfigurationValue>,
}

#[derive(Debug)]
pub struct B2FileLockConfigurationValue {
    pub default_retention: B2FileRetention,
    pub is_file_lock_enabled: bool,
}

#[derive(Debug)]
pub struct B2DefaultServerSideEncryption {
    pub is_client_authorized_to_read: bool,
    pub value: Option<B2ServerSideEncryption>,
}

/// See [CORS Rules](https://www.backblaze.com/docs/cloud-storage-cross-origin-resource-sharing-rules) for more information.
#[derive(Debug)]
pub struct B2CorsRule {
    pub cors_rule_name: String,
    pub allowed_origins: Vec<String>,
    pub allowed_operations: Vec<String>,
    pub allowed_headers: Vec<String>,
    pub expose_headers: Vec<String>,
    pub max_age_seconds: u64,
}

#[derive(Default, Debug)]
pub struct B2ReplicationConfiguration {
    pub as_replication_source: Option<B2ReplicationSourceArray>,
    pub as_replication_destination: Option<B2ReplicationDestination>,
}

#[derive(Debug)]
pub struct B2ReplicationSourceArray {
    pub replication_rules: Vec<B2ReplicationSource>,
}

#[derive(Debug)]
pub struct B2ReplicationSource {
    pub destination_bucket_id: String,
    pub file_name_prefix: String,
    pub include_existing_files: bool,
    pub is_enabled: bool,
    pub priority: u64,
    pub replication_rule_name: String,
}

#[derive(Debug)]
pub struct B2ReplicationDestination {
    pub source_to_destination_key_mapping: String,
}

#[derive(Debug)]
pub struct B2LifecycleRule {
    pub days_from_hiding_to_deleting: u64,
    pub days_from_uploading_to_hiding: u64,
    pub file_name_prefix: Option<String>,
}

/// When you upload a file to B2, you must call `b2_get_upload_url` first to get the URL for uploading.
/// Then, you use `b2_upload_file` on this URL to upload your file.
///
/// An upload url and upload authorization token are valid for 24 hours or until the endpoint
/// rejects an upload, see `b2_upload_file`. You can upload as many files to this URL as you need.
///
/// To achieve faster upload speeds, request multiple upload urls and upload your files
/// to these different endpoints in parallel.
#[derive(Debug)]
pub struct B2UploadUrl {
    /// The identifier for the bucket, if doing a simple upload.
    pub bucket_id: Option<String>,
    /// The identifier for the file, if doing a large file upload.
    pub file_id: Option<String>,
    /// The URL that can be used to upload files to this bucket, see b2_upload_file.
    pub upload_url: String,
    /// The authorization token that must be used when uploading files to this bucket.
    ///
    /// This token is valid for 24 hours or until the uploadUrl endpoint rejects an upload,
    /// see b2_upload_file
    pub authorization_token: String,
}

#[derive(Debug)]
pub enum B2FileEncryptionHeaders {
    B2 { algorithm: String },
    Customer { algorithm: String, key_md5: String },
}

#[derive(Debug, Clone, Copy, PartialEq, Eq, Structural)]
pub enum B2FileRetentionMode {
    Governance,
    Compliance,
}

impl B2FileRetentionMode {
    /// The mode's name as the service writes it.
    pub open spec fn spec_name(&self) -> Seq<char> {
        match self {
            B2FileRetentionMode::Governance => "governance"@,
            B2FileRetentionMode::Compliance => "compliance"@,
        }
    }

    /// The mode's name as the service writes it.
    pub fn as_ref(&self) -> (name: &'static str)
        ensures
            name@ == self.spec_name(),
    {
        match self {
            B2FileRetentionMode::Governance => "governance",
            B2FileRetentionMode::Compliance => "compliance",
        }
    }
}

/// The state of a file.
///
/// The B2 API describes these are "actions", but they are more like states,
/// with the real values of "start", "upload", "hide", and "folder".
#[derive(Debug)]
pub enum B2FileAction {
    Started,
    Uploaded,
    Hidden,
    Folder,
}

/// The state of a file's replication.
#[derive(Debug)]
pub enum B2ReplicationStatus {
    Pending,
    Completed,
    Failed,
    Replica,
}

#[derive(Default, Debug)]
pub struct B2LegalHold {
    pub is_client_authorized_to_read: bool,
    pub value: Option<String>,
}

#[derive(Default, Debug)]
pub struct B2FileRetention {
    pub is_client_authorized_to_read: bool,
    pub value: Option<B2FileRetentionValue>,
}

#[derive(Debug)]
pub struct B2FileRetentionValue {
    pub mode: B2FileRetentionMode,
    pub retain_until_timestamp: u64,
}

#[derive(Default, Debug)]
pub struct B2ServerSideEncryption {
    pub algorithm: Option<String>,
    pub mode: Option<String>,
}

#[derive(Default, Debug)]
pub struct B2FileInfo {
    pub account_id: Option<String>,
    pub file_id: String,
    pub file_name: String,
    pub action: Option<B2FileAction>,
    pub bucket_id: String,
    pub content_length: u64,
    pub content_sha1: Option<String>,
    pub content_type: Option<String>,
    pub file_info: HashMap<String, String>,
    pub file_retention: B2FileRetention,
    pub legal_hold: B2LegalHold,
    pub replication_status: Option<B2ReplicationStatus>,
    pub server_side_encryption: B2ServerSideEncryption,
    pub upload_timestamp: u64,
}

#[derive(Default, Debug)]
pub struct B2FileInfoList {
    pub files: Vec<B2FileInfo>,
    /// The name of the next file, if there are more files to list.
    pub next_file_name: Option<String>,
    /// The ID of the next file, if there are more files to list.
    pub next_file_id: Option<String>,
}

/// Response from `b2_cancel_large_file`
#[derive(Debug)]
pub struct B2CancelledFileInfo {
    pub file_id: String,
    pub file_name: String,
    pub bucket_id: String,
    pub account_id: String,
}

#[derive(Debug)]
pub struct B2PartInfo {
    pub file_id: String,
    pub part_number: u64,
    pub content_length: u64,
    pub content_sha1: String,
    pub server_side_encryption: B2ServerSideEncryption,
    pub upload_timestamp: u64,
}

} // verus!
