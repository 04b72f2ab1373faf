//! Parameters of the calls that a client makes.

pub mod buckets;
pub mod sse;

use crate::header::has_room;
use crate::header::header_entries;
use crate::header::is_header_value;
use crate::header::lemma_decimal_is_header_value;
use crate::header::lemma_fixed_values_are_header_values;
use crate::header::put_header;
use crate::header::takes_header_value;
use crate::header::with_header;
use crate::models::capabilities::B2CapabilitiesStringSet;
use crate::text::decimal;
pub use crate::types::buckets::CreateBucket;
pub use crate::types::buckets::ListBuckets;
pub use crate::types::buckets::UpdateBucket;
use crate::text::decimal_digits;
use reqwest::header::HeaderMap;
use reqwest::header::HeaderValue;
use crate::models::B2FileRetentionMode;
use crate::types::sse::ServerSideEncryption;
use vstd::prelude::*;

verus! {

/// Identifier for a file to download, either by its file ID or file name.
#[derive(Debug, Clone, Copy)]
pub enum DownloadFileBy<'a> {
    /// Download a file by its file ID.
    FileId(&'a str),
    /// Download a file by its file name.
    ///
    /// If a file has multiple versions, the most recent version will be downloaded.
    FileName(&'a str),
}

/// Parameters for creating a new application key.
#[derive(Debug, Clone)]
pub struct CreateApplicationKey<'a> {
    /// The capabilities to grant to the new key.
    pub capabilities: B2CapabilitiesStringSet,
    /// The name of the new key.
    pub key_name: &'a str,
    /// When provided, the key will expire after the given number of seconds,
    /// and will have `expirationTimestamp` set. Value must be a positive integer,
    /// and must be less than 1000 days (in seconds).
    pub valid_duration_in_seconds: Option<u64>,
    /// When present, the new key can only access this bucket.
    ///
    /// When set, only these capabilities can be specified:
    /// `listAllBucketNames`, `listBuckets`, `readBuckets`, `readBucketEncryption`,
    /// `writeBucketEncryption`, `readBucketRetentions`, `writeBucketRetentions`,
    /// `listFiles`, `readFiles`, `shareFiles`, `writeFiles`, `deleteFiles`,
    /// `readFileLegalHolds`, `writeFileLegalHolds`, `readFileRetentions`,
    /// `writeFileRetentions`, and `bypassGovernance`.
    pub bucket_id: Option<&'a str>,
    /// When present, restricts access to files whose names start with the prefix.
    ///
    /// You must set `bucketId` when setting this.
    pub name_prefix: Option<&'a str>,
}

/// Parameters for listing files in a bucket.
#[derive(Debug, Clone, Copy)]
pub struct ListFiles<'a> {
    /// If `true`, list all versions of all files in the bucket.
    /// If `false`, list only the most recent versions of each file.
    pub all_versions: bool,
    /// The ID of the bucket to list files in. If `None`, the client's default bucket will be used.
    pub bucket_id: Option<&'a str>,
    /// The first file name to return. If `None`, the list will start at the beginning.
    pub start_file_name: Option<&'a str>,
    /// The first file ID to return. If `None`, the list will start at the beginning.
    ///
    /// Only used if `all_versions` is `true`.
    pub start_file_id: Option<&'a str>,
    /// The maximum number of files to return. If `None`, the maximum is 1000.
    ///
    /// If you set `max_file_count` to more than 1000 and more than 1000 are returned,
    /// the call will be billed as multiple transactions,
    /// as if you had made requests in a loop asking for 1000 at a time.
    pub max_file_count: Option<usize>,
    /// The prefix to filter files by. If `None`, no prefix will be used.
    pub prefix: Option<&'a str>,
    /// The delimiter to use when filtering files. If `None`, no delimiter will be used.
    pub delimiter: Option<&'a str>,
}

/// New file retention settings to apply to a file.
#[derive(Debug, Clone, Copy, PartialEq, Eq, Structural)]
pub struct FileRetention {
    /// The retention mode to use for the file.
    pub mode: Option<B2FileRetentionMode>,
    /// Point at which the file will be unlocked and can be deleted.
    ///
    /// In millieconds since the Unix epoch.
    pub retain_until_timestamp: Option<u64>,
    /// Bypasses governance mode retention settings to set the new retention settings.
    pub bypass_governance: bool,
}

impl FileRetention {
    /// Creates a new `FileRetention` with the given retention mode.
    pub fn new(mode: Option<B2FileRetentionMode>) -> (retention: Self)
        ensures
            retention == (FileRetention {
                mode,
                retain_until_timestamp: None,
                bypass_governance: false,
            }),
    {
        FileRetention { mode, retain_until_timestamp: None, bypass_governance: false }
    }

    /// Creates a new `FileRetention` with no retention settings.
    pub fn none() -> (retention: Self)
        ensures
            retention == (FileRetention {
                mode: None,
                retain_until_timestamp: None,
                bypass_governance: false,
            }),
    {
        FileRetention::new(None)
    }

    /// Creates a new `FileRetention` with [`Compliance`](B2FileRetentionMode::Compliance) retention settings.
    pub fn compliance() -> (retention: Self)
        ensures
            retention == (FileRetention {
                mode: Some(B2FileRetentionMode::Compliance),
                retain_until_timestamp: None,
                bypass_governance: false,
            }),
    {
        FileRetention::new(Some(B2FileRetentionMode::Compliance))
    }

    /// Creates a new `FileRetention` with [`Governance`](B2FileRetentionMode::Governance) retention settings.
    pub fn governance() -> (retention: Self)
        ensures
            retention == (FileRetention {
                mode: Some(B2FileRetentionMode::Governance),
                retain_until_timestamp: None,
                bypass_governance: false,
            }),
    {
        FileRetention::new(Some(B2FileRetentionMode::Governance))
    }

    /// Bypasses governance mode retention settings to set the new retention settings.
    pub fn bypass_governance(self) -> (retention: Self)
        ensures
            retention == (FileRetention { bypass_governance: true, ..self }),
    {
        FileRetention { bypass_governance: true, ..self }
    }

    /// Sets the point at which the file will be unlocked and can be deleted.
    ///
    /// In millieconds since the Unix epoch.
    pub fn retain_until_timestamp(self, timestamp: Option<u64>) -> (retention: Self)
        ensures
            retention == (FileRetention { retain_until_timestamp: timestamp, ..self }),
    {
        FileRetention { retain_until_timestamp: timestamp, ..self }
    }
}

impl Default for FileRetention {
    fn default() -> (retention: Self)
        ensures
            retention == (FileRetention {
                mode: None,
                retain_until_timestamp: None,
                bypass_governance: false,
            }),
    {
        FileRetention::new(None)
    }
}

/// Info about a new whole file to be uploaded.
#[derive(Debug)]
pub struct NewFileInfo<'a> {
    /// The name of the new file.
    pub file_name: &'a str,
    /// The length of the file in bytes.
    pub content_length: u64,
    /// The MIME type of the file.
    ///
    /// Will default to `application/octet-stream` if not provided,
    /// or if specified to be `bz/x-auto` then the B2 API will attempt to
    /// determine the file's content type automatically.
    pub content_type: Option<&'a str>,
    /// The SHA1 hash of the file's contents as a hex string.
    pub content_sha1: &'a str,
    /// The server-side encryption to use when uploading the file.
    pub encryption: ServerSideEncryption,
    /// The file retention settings to apply to the file.
    pub retention: Option<FileRetention>,
    /// Whether to apply a legal hold to the file.
    pub legal_hold: Option<bool>,
}

/// Info about a new large file to be uploaded.
///
/// This omits the `content_length`, `content_sha1` and `encryption` fields,
/// due to the file being uploaded in parts. Each part will have its own `content_length`,
/// `content_sha1` and `encryption` fields.
#[derive(Debug)]
pub struct NewLargeFileInfo<'a> {
    /// The name of the new file.
    pub file_name: &'a str,
    /// The MIME type of the file.
    ///
    /// Will default to `application/octet-stream` if not provided,
    /// or if specified to be `bz/x-auto` then the B2 API will attempt to
    /// determine the file's content type automatically.
    pub content_type: Option<&'a str>,
    /// The server-side encryption to use when uploading the file.
    pub encryption: ServerSideEncryption,
    /// The file retention settings to apply to the file.
    pub retention: Option<FileRetention>,
    /// Whether to apply a legal hold to the file.
    pub legal_hold: Option<bool>,
}

/// Info about a new part of a large file to be uploaded.
#[derive(Debug)]
pub struct NewPartInfo<'a> {
    /// The part number of the new large file part, from 1.
    pub part_number: u32,
    /// The length of the part in bytes.
    pub content_length: u64,
    /// The SHA1 hash of the part's contents as a hex string.
    pub content_sha1: &'a str,
    /// The server-side encryption to use when uploading the file.
    pub encryption: ServerSideEncryption,
}

/// The content type that a file gets when none is given.
pub open spec fn content_type_or_default(content_type: Option<&str>) -> Seq<char> {
    match content_type {
        Some(content_type) => content_type@,
        None => "application/octet-stream"@,
    }
}

/// The entries with the retention headers put in: the mode where one is set,
/// and with it the time until which the file is kept, where that is set.
pub open spec fn with_retention_headers(
    retention: Option<FileRetention>,
    entries: Map<Seq<char>, Seq<Seq<u8>>>,
) -> Map<Seq<char>, Seq<Seq<u8>>> {
    match retention {
        Some(FileRetention { mode: Some(mode), retain_until_timestamp, .. }) => {
            let with_mode = with_header(entries, "x-bz-file-retention-mode"@, mode.spec_name());
            match retain_until_timestamp {
                Some(timestamp) => with_header(
                    with_mode,
                    "x-bz-file-retention-retain-until-timestamp"@,
                    decimal_digits(timestamp as nat),
                ),
                None => with_mode,
            }
        },
        _ => entries,
    }
}

/// The entries with the legal hold header put in, `on` or `off`, where a
/// legal hold is spoken of.
pub open spec fn with_legal_hold_header(
    legal_hold: Option<bool>,
    entries: Map<Seq<char>, Seq<Seq<u8>>>,
) -> Map<Seq<char>, Seq<Seq<u8>>> {
    match legal_hold {
        Some(true) => with_header(entries, "x-bz-file-legal-hold"@, "on"@),
        Some(false) => with_header(entries, "x-bz-file-legal-hold"@, "off"@),
        None => entries,
    }
}

/// Puts the retention headers into `headers`.
fn add_retention_headers(retention: &Option<FileRetention>, headers: &mut HeaderMap<HeaderValue>)
    requires
        has_room(header_entries(*old(headers)), 6),
    ensures
        header_entries(*final(headers)) == with_retention_headers(
            *retention,
            header_entries(*old(headers)),
        ),
        has_room(header_entries(*final(headers)), 4),
{
    proof {
        lemma_fixed_values_are_header_values();
    }
    if let Some(retention) = retention {
        if let Some(mode) = retention.mode {
            put_header(headers, "x-bz-file-retention-mode", mode.as_ref(), Ghost(5));
            if let Some(timestamp) = retention.retain_until_timestamp {
                proof {
                    lemma_decimal_is_header_value(timestamp as nat);
                }
                let text = decimal(timestamp);
                put_header(
                    headers,
                    "x-bz-file-retention-retain-until-timestamp",
                    text.as_str(),
                    Ghost(4),
                );
            }
        }
    }
}

/// Puts the legal hold header into `headers`.
fn add_legal_hold_header(legal_hold: Option<bool>, headers: &mut HeaderMap<HeaderValue>)
    requires
        has_room(header_entries(*old(headers)), 4),
    ensures
        header_entries(*final(headers)) == with_legal_hold_header(
            legal_hold,
            header_entries(*old(headers)),
        ),
        has_room(header_entries(*final(headers)), 3),
{
    proof {
        lemma_fixed_values_are_header_values();
    }
    if let Some(legal_hold) = legal_hold {
        put_header(
            headers,
            "x-bz-file-legal-hold",
            if legal_hold {
                "on"
            } else {
                "off"
            },
            Ghost(3),
        );
    }
}

impl NewFileInfo<'_> {
    /// Every text that goes into a header can be a header value.
    pub open spec fn spec_valid_headers(&self) -> bool {
        &&& is_header_value(self.file_name@)
        &&& is_header_value(content_type_or_default(self.content_type))
        &&& is_header_value(self.content_sha1@)
        &&& self.encryption.spec_valid_headers()
    }

    /// The entries with the headers of a whole-file upload put in: name,
    /// content type, length and digest, then retention, legal hold and
    /// encryption as far as they are set.
    pub open spec fn spec_with_headers(
        &self,
        entries: Map<Seq<char>, Seq<Seq<u8>>>,
    ) -> Map<Seq<char>, Seq<Seq<u8>>> {
        let named = with_header(entries, "x-bz-file-name"@, self.file_name@);
        let typed = with_header(
            named,
            "content-type"@,
            content_type_or_default(self.content_type),
        );
        let sized = with_header(
            typed,
            "content-length"@,
            decimal_digits(self.content_length as nat),
        );
        let hashed = with_header(sized, "x-bz-content-sha1"@, self.content_sha1@);
        self.encryption.spec_with_headers(
            with_legal_hold_header(self.legal_hold, with_retention_headers(self.retention, hashed)),
        )
    }

    /// Whether every text that goes into a header can be a header value, as
    /// `add_headers` asks.
    pub fn has_valid_headers(&self) -> (valid: bool)
        ensures
            valid == self.spec_valid_headers(),
    {
        takes_header_value(self.file_name) && takes_header_value(
            match self.content_type {
                Some(content_type) => content_type,
                None => "application/octet-stream",
            },
        ) && takes_header_value(self.content_sha1) && self.encryption.has_valid_headers()
    }

    /// Puts the headers of a whole-file upload into `headers`.
    pub fn add_headers(&self, headers: &mut HeaderMap<HeaderValue>)
        requires
            self.spec_valid_headers(),
            has_room(header_entries(*old(headers)), 10),
        ensures
            header_entries(*final(headers)) == self.spec_with_headers(
                header_entries(*old(headers)),
            ),
    {
        proof {
            lemma_fixed_values_are_header_values();
            lemma_decimal_is_header_value(self.content_length as nat);
        }
        put_header(headers, "x-bz-file-name", self.file_name, Ghost(9));
        put_header(
            headers,
            "content-type",
            match self.content_type {
                Some(content_type) => content_type,
                None => "application/octet-stream",
            },
            Ghost(8),
        );
        let length = decimal(self.content_length);
        put_header(headers, "content-length", length.as_str(), Ghost(7));
        put_header(headers, "x-bz-content-sha1", self.content_sha1, Ghost(6));
        add_retention_headers(&self.retention, headers);
        add_legal_hold_header(self.legal_hold, headers);
        self.encryption.add_headers(headers);
    }
}

impl NewLargeFileInfo<'_> {
    /// Every text that goes into a header can be a header value.
    pub open spec fn spec_valid_headers(&self) -> bool {
        &&& is_header_value(self.file_name@)
        &&& is_header_value(content_type_or_default(self.content_type))
        &&& self.encryption.spec_valid_headers()
    }

    /// The entries with the headers that start a large file put in: name and
    /// content type, then retention, legal hold and encryption as far as
    /// they are set. Length and digest go with each part.
    pub open spec fn spec_with_headers(
        &self,
        entries: Map<Seq<char>, Seq<Seq<u8>>>,
    ) -> Map<Seq<char>, Seq<Seq<u8>>> {
        let named = with_header(entries, "x-bz-file-name"@, self.file_name@);
        let typed = with_header(
            named,
            "content-type"@,
            content_type_or_default(self.content_type),
        );
        self.encryption.spec_with_headers(
            with_legal_hold_header(self.legal_hold, with_retention_headers(self.retention, typed)),
        )
    }

    /// Whether every text that goes into a header can be a header value, as
    /// `add_headers` asks.
    pub fn has_valid_headers(&self) -> (valid: bool)
        ensures
            valid == self.spec_valid_headers(),
    {
        takes_header_value(self.file_name) && takes_header_value(
            match self.content_type {
                Some(content_type) => content_type,
                None => "application/octet-stream",
            },
        ) && self.encryption.has_valid_headers()
    }

    /// Puts the headers that start a large file into `headers`.
    pub fn add_headers(&self, headers: &mut HeaderMap<HeaderValue>)
        requires
            self.spec_valid_headers(),
            has_room(header_entries(*old(headers)), 8),
        ensures
            header_entries(*final(headers)) == self.spec_with_headers(
                header_entries(*old(headers)),
            ),
    {
        proof {
            lemma_fixed_values_are_header_values();
        }
        put_header(headers, "x-bz-file-name", self.file_name, Ghost(7));
        put_header(
            headers,
            "content-type",
            match self.content_type {
                Some(content_type) => content_type,
                None => "application/octet-stream",
            },
            Ghost(6),
        );
        add_retention_headers(&self.retention, headers);
        add_legal_hold_header(self.legal_hold, headers);
        self.encryption.add_headers(headers);
    }
}

impl NewPartInfo<'_> {
    /// Every text that goes into a header can be a header value.
    pub open spec fn spec_valid_headers(&self) -> bool {
        &&& is_header_value(self.content_sha1@)
        &&& self.encryption.spec_valid_headers()
    }

    /// The entries with the headers of a part upload put in: part number,
    /// length and digest, then the encryption.
    pub open spec fn spec_with_headers(
        &self,
        entries: Map<Seq<char>, Seq<Seq<u8>>>,
    ) -> Map<Seq<char>, Seq<Seq<u8>>> {
        let numbered = with_header(
            entries,
            "x-bz-part-number"@,
            decimal_digits(self.part_number as nat),
        );
        let sized = with_header(
            numbered,
            "content-length"@,
            decimal_digits(self.content_length as nat),
        );
        let hashed = with_header(sized, "x-bz-content-sha1"@, self.content_sha1@);
        self.encryption.spec_with_headers(hashed)
    }

    /// Whether every text that goes into a header can be a header value, as
    /// `add_headers` asks.
    pub fn has_valid_headers(&self) -> (valid: bool)
        ensures
            valid == self.spec_valid_headers(),
    {
        takes_header_value(self.content_sha1) && self.encryption.has_valid_headers()
    }

    /// Puts the headers of a part upload into `headers`.
    pub fn add_headers(&self, headers: &mut HeaderMap<HeaderValue>)
        requires
            self.spec_valid_headers(),
            has_room(header_entries(*old(headers)), 6),
        ensures
            header_entries(*final(headers)) == self.spec_with_headers(
                header_entries(*old(headers)),
            ),
    {
        proof {
            lemma_decimal_is_header_value(self.part_number as nat);
            lemma_decimal_is_header_value(self.content_length as nat);
        }
        let number = decimal(self.part_number as u64);
        put_header(headers, "x-bz-part-number", number.as_str(), Ghost(5));
        let length = decimal(self.content_length);
        put_header(headers, "content-length", length.as_str(), Ghost(4));
        put_header(headers, "x-bz-content-sha1", self.content_sha1, Ghost(3));
        self.encryption.add_headers(headers);
    }
}

} // verus!
