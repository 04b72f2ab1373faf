//! The headers that come with a downloaded file, and how they are read.

use crate::error::B2FileHeaderError;
use crate::models::capabilities::same_ignoring_ascii_case;
use crate::models::capabilities::text_eq_ignore_ascii_case;
use crate::models::B2FileEncryptionHeaders;
use crate::models::B2FileRetentionMode;
use crate::text::parse_u64;
use crate::text::parsed_u64;
use crate::text::text_eq;
use reqwest::header::HeaderMap;
use reqwest::header::HeaderValue;
use reqwest::header::ToStrError;
use vstd::prelude::*;

verus! {

/// `headers::ContentLength`, carried through as it came.
#[verifier::external_type_specification]
#[verifier::external_body]
pub struct ExContentLength(headers::ContentLength);

/// `headers::ContentType`, carried through as it came.
#[verifier::external_type_specification]
#[verifier::external_body]
pub struct ExContentType(headers::ContentType);

/// `headers::ContentDisposition`, carried through as it came.
#[verifier::external_type_specification]
#[verifier::external_body]
pub struct ExContentDisposition(headers::ContentDisposition);

/// `headers::Expires`, carried through as it came.
#[verifier::external_type_specification]
#[verifier::external_body]
pub struct ExExpires(headers::Expires);

/// `headers::CacheControl`, carried through as it came.
#[verifier::external_type_specification]
#[verifier::external_body]
pub struct ExCacheControl(headers::CacheControl);

/// The prefix of the names of the headers that carry a file's own info.
pub const INFO_PREFIX: &'static str = "x-bz-info-";

/// The headers of a response to a download, as they were read off it. A
/// header that is read as text is `None` where the response lacks it,
/// `Some(Err(..))` where its value is no text, else `Some(Ok(..))` with the
/// text. A header that is read by its type is `None` where the response lacks
/// it or its value does not decode.
#[derive(Debug)]
pub struct RawFileHeaders<'a> {
    /// `content-length`
    pub content_length: Option<headers::ContentLength>,
    /// `content-type`
    pub content_type: Option<headers::ContentType>,
    /// `x-bz-file-id`
    pub file_id: Option<Result<&'a str, ToStrError>>,
    /// `x-bz-file-name`
    pub file_name: Option<Result<&'a str, ToStrError>>,
    /// `x-bz-content-sha1`
    pub file_sha1: Option<Result<&'a str, ToStrError>>,
    /// The headers whose names start with `x-bz-info-`.
    pub info: HeaderMap<HeaderValue>,
    /// `x-bz-upload-timestamp`
    pub upload_timestamp: Option<Result<&'a str, ToStrError>>,
    /// `content-disposition`
    pub content_disposition: Option<headers::ContentDisposition>,
    /// `content-language`
    pub content_language: Option<Result<&'a str, ToStrError>>,
    /// `expires`
    pub expires: Option<headers::Expires>,
    /// `cache-control`
    pub cache_control: Option<headers::CacheControl>,
    /// `x-bz-server-side-encryption`
    pub server_side_encryption: Option<Result<&'a str, ToStrError>>,
    /// `x-bz-server-side-encryption-customer-algorithm`
    pub customer_algorithm: Option<Result<&'a str, ToStrError>>,
    /// `x-bz-server-side-encryption-customer-key-md5`
    pub customer_key_md5: Option<Result<&'a str, ToStrError>>,
    /// `x-bz-file-retention-mode`
    pub retention_mode: Option<Result<&'a str, ToStrError>>,
    /// `x-bz-file-retention-retain-until-timestamp`
    pub retain_until: Option<Result<&'a str, ToStrError>>,
    /// `x-bz-file-legal-hold`
    pub legal_hold: Option<Result<&'a str, ToStrError>>,
    /// `x-bz-client-unauthorized-to-read`
    pub unauthorized_to_read: Option<Result<&'a str, ToStrError>>,
}

#[derive(Debug)]
pub struct B2FileHeaders {
    pub content_length: headers::ContentLength,
    pub content_type: headers::ContentType,
    pub file_id: String,
    pub file_name: String,
    pub file_sha1: String,
    pub info: HeaderMap<HeaderValue>,
    pub upload_timestamp: u64,
    pub content_disposition: Option<headers::ContentDisposition>,
    pub content_language: Option<String>,
    pub expires: Option<headers::Expires>,
    pub cache_control: Option<headers::CacheControl>,
    pub encryption: Option<B2FileEncryptionHeaders>,
    pub retention_mode: Option<B2FileRetentionMode>,
    pub retain_until: Option<u64>,
    pub legal_hold: Option<bool>,
    pub unauthorized_to_read: Option<String>,
}

/// A header that was read by its type and has to be there.
pub open spec fn spec_typed<T>(value: Option<T>, name: &'static str) -> Result<
    T,
    B2FileHeaderError,
> {
    match value {
        Some(value) => Ok(value),
        None => Err(B2FileHeaderError::MissingHeader(name)),
    }
}

/// A header that was read as text and has to be there.
pub open spec fn spec_required(value: Option<Result<&str, ToStrError>>, name: &'static str) -> Result<
    Seq<char>,
    B2FileHeaderError,
> {
    match value {
        Some(Ok(text)) => Ok(text@),
        Some(Err(e)) => Err(B2FileHeaderError::ToStrError(e)),
        None => Err(B2FileHeaderError::MissingHeader(name)),
    }
}

/// A header that was read as text and may be missing.
pub open spec fn spec_optional(value: Option<Result<&str, ToStrError>>) -> Result<
    Option<Seq<char>>,
    B2FileHeaderError,
> {
    match value {
        Some(Ok(text)) => Ok(Some(text@)),
        Some(Err(e)) => Err(B2FileHeaderError::ToStrError(e)),
        None => Ok(None),
    }
}

/// The retention mode that a text names, whatever the case of its letters.
pub open spec fn spec_retention_mode(text: Seq<char>) -> Option<B2FileRetentionMode> {
    if same_ignoring_ascii_case(text, "governance"@) {
        Some(B2FileRetentionMode::Governance)
    } else if same_ignoring_ascii_case(text, "compliance"@) {
        Some(B2FileRetentionMode::Compliance)
    } else {
        None
    }
}

/// Whether a text says that a legal hold is on: `true` or `yes` say so,
/// `false` or `no` say that it is not, and nothing else says anything.
pub open spec fn spec_legal_hold(text: Seq<char>) -> Option<bool> {
    if text == "true"@ || text == "yes"@ {
        Some(true)
    } else if text == "false"@ || text == "no"@ {
        Some(false)
    } else {
        None
    }
}

/// Whether `name` is the name of a header that carries a file's own info.
pub open spec fn spec_is_info_header(name: Seq<char>) -> bool {
    INFO_PREFIX@.len() <= name.len() && name.subrange(0, INFO_PREFIX@.len() as int)
        == INFO_PREFIX@
}

/// Whether `name` is the name of a header that carries a file's own info:
/// whether it starts with `x-bz-info-`.
pub fn is_info_header(name: &str) -> (info: bool)
    ensures
        info == spec_is_info_header(name@),
{
    crate::text::starts_with(name, INFO_PREFIX)
}

/// A header that was read by its type and has to be there.
fn typed<T>(value: Option<T>, name: &'static str) -> (result: Result<T, B2FileHeaderError>)
    ensures
        result == spec_typed(value, name),
{
    match value {
        Some(value) => Ok(value),
        None => Err(B2FileHeaderError::MissingHeader(name)),
    }
}

/// A header that was read as text and has to be there.
fn required<'a>(value: Option<Result<&'a str, ToStrError>>, name: &'static str) -> (result: Result<
    &'a str,
    B2FileHeaderError,
>)
    ensures
        match result {
            Ok(text) => spec_required(value, name) == Ok::<Seq<char>, B2FileHeaderError>(text@),
            Err(e) => spec_required(value, name) == Err::<Seq<char>, B2FileHeaderError>(e),
        },
{
    match value {
        Some(Ok(text)) => Ok(text),
        Some(Err(e)) => Err(B2FileHeaderError::ToStrError(e)),
        None => Err(B2FileHeaderError::MissingHeader(name)),
    }
}

/// A header that was read as text and may be missing.
fn optional<'a>(value: Option<Result<&'a str, ToStrError>>) -> (result: Result<
    Option<&'a str>,
    B2FileHeaderError,
>)
    ensures
        match result {
            Ok(Some(text)) => spec_optional(value) == Ok::<Option<Seq<char>>, B2FileHeaderError>(
                Some(text@),
            ),
            Ok(None) => spec_optional(value) == Ok::<Option<Seq<char>>, B2FileHeaderError>(None),
            Err(e) => spec_optional(value) == Err::<Option<Seq<char>>, B2FileHeaderError>(e),
        },
{
    match value {
        Some(Ok(text)) => Ok(Some(text)),
        Some(Err(e)) => Err(B2FileHeaderError::ToStrError(e)),
        None => Ok(None),
    }
}

/// A number in decimal, as `u64`'s own parser reads it.
fn number(text: &str) -> (result: Result<u64, B2FileHeaderError>)
    ensures
        match result {
            Ok(n) => parsed_u64(text@) == Some(n),
            Err(e) => parsed_u64(text@) is None && e is IntegerParseError,
        },
{
    match parse_u64(text) {
        Ok(n) => Ok(n),
        Err(e) => Err(B2FileHeaderError::IntegerParseError(e)),
    }
}

/// The retention mode that a text names.
pub fn retention_mode(text: &str) -> (result: Result<B2FileRetentionMode, B2FileHeaderError>)
    ensures
        match result {
            Ok(mode) => spec_retention_mode(text@) == Some(mode),
            Err(e) => spec_retention_mode(text@) is None && e
                == B2FileHeaderError::InvalidRetentionMode,
        },
{
    if text_eq_ignore_ascii_case(text, "governance") {
        Ok(B2FileRetentionMode::Governance)
    } else if text_eq_ignore_ascii_case(text, "compliance") {
        Ok(B2FileRetentionMode::Compliance)
    } else {
        Err(B2FileHeaderError::InvalidRetentionMode)
    }
}

/// Whether a text says that a legal hold is on.
pub fn legal_hold(text: &str) -> (result: Result<bool, B2FileHeaderError>)
    ensures
        match result {
            Ok(on) => spec_legal_hold(text@) == Some(on),
            Err(e) => spec_legal_hold(text@) is None && e == B2FileHeaderError::BoolParseError,
        },
{
    if text_eq(text, "true") || text_eq(text, "yes") {
        Ok(true)
    } else if text_eq(text, "false") || text_eq(text, "no") {
        Ok(false)
    } else {
        Err(B2FileHeaderError::BoolParseError)
    }
}

/// What the headers say of the file's encryption: SSE-B2 with its algorithm
/// where that header is there; else SSE-C with algorithm and key digest
/// where the customer's algorithm is there, and then the digest has to be
/// there too; else nothing.
pub open spec fn spec_encryption(
    server_side: Option<Result<&str, ToStrError>>,
    customer_algorithm: Option<Result<&str, ToStrError>>,
    customer_key_md5: Option<Result<&str, ToStrError>>,
) -> Result<Option<(Seq<char>, Option<Seq<char>>)>, B2FileHeaderError> {
    match spec_optional(server_side) {
        Err(e) => Err(e),
        Ok(Some(algorithm)) => Ok(Some((algorithm, None))),
        Ok(None) => match spec_optional(customer_algorithm) {
            Err(e) => Err(e),
            Ok(None) => Ok(None),
            Ok(Some(algorithm)) => match spec_required(
                customer_key_md5,
                "x-bz-server-side-encryption-customer-key-md5",
            ) {
                Err(e) => Err(e),
                Ok(key_md5) => Ok(Some((algorithm, Some(key_md5)))),
            },
        },
    }
}

/// The algorithm and, for SSE-C, the key digest of an encryption.
pub open spec fn encryption_view(encryption: Option<B2FileEncryptionHeaders>) -> Option<
    (Seq<char>, Option<Seq<char>>),
> {
    match encryption {
        Some(B2FileEncryptionHeaders::B2 { algorithm }) => Some((algorithm@, None)),
        Some(B2FileEncryptionHeaders::Customer { algorithm, key_md5 }) => Some(
            (algorithm@, Some(key_md5@)),
        ),
        None => None,
    }
}

/// What the headers say of the file's encryption.
fn encryption<'a>(
    server_side: Option<Result<&'a str, ToStrError>>,
    customer_algorithm: Option<Result<&'a str, ToStrError>>,
    customer_key_md5: Option<Result<&'a str, ToStrError>>,
) -> (result: Result<Option<B2FileEncryptionHeaders>, B2FileHeaderError>)
    ensures
        match result {
            Ok(found) => spec_encryption(server_side, customer_algorithm, customer_key_md5) == Ok::<
                Option<(Seq<char>, Option<Seq<char>>)>,
                B2FileHeaderError,
            >(encryption_view(found)),
            Err(e) => spec_encryption(server_side, customer_algorithm, customer_key_md5) == Err::<
                Option<(Seq<char>, Option<Seq<char>>)>,
                B2FileHeaderError,
            >(e),
        },
{
    match optional(server_side) {
        Err(e) => Err(e),
        Ok(Some(algorithm)) => Ok(
            Some(B2FileEncryptionHeaders::B2 { algorithm: algorithm.to_owned() }),
        ),
        Ok(None) => match optional(customer_algorithm) {
            Err(e) => Err(e),
            Ok(None) => Ok(None),
            Ok(Some(algorithm)) => match required(
                customer_key_md5,
                "x-bz-server-side-encryption-customer-key-md5",
            ) {
                Err(e) => Err(e),
                Ok(key_md5) => Ok(
                    Some(
                        B2FileEncryptionHeaders::Customer {
                            algorithm: algorithm.to_owned(),
                            key_md5: key_md5.to_owned(),
                        },
                    ),
                ),
            },
        },
    }
}

/// An optional text in a form that owns it.
fn owned(text: Option<&str>) -> (copy: Option<String>)
    ensures
        match text {
            Some(text) => copy matches Some(own) && own@ == text@,
            None => copy is None,
        },
{
    match text {
        Some(text) => Some(text.to_owned()),
        None => None,
    }
}

/// What an optional header that holds a number says.
pub open spec fn spec_optional_number(value: Option<Result<&str, ToStrError>>) -> Option<
    Option<u64>,
> {
    match spec_optional(value) {
        Ok(Some(text)) => match parsed_u64(text) {
            Some(n) => Some(Some(n)),
            None => None,
        },
        Ok(None) => Some(None),
        Err(_) => None,
    }
}

/// What the header of the retention mode says.
pub open spec fn spec_optional_mode(value: Option<Result<&str, ToStrError>>) -> Option<
    Option<B2FileRetentionMode>,
> {
    match spec_optional(value) {
        Ok(Some(text)) => match spec_retention_mode(text) {
            Some(mode) => Some(Some(mode)),
            None => None,
        },
        Ok(None) => Some(None),
        Err(_) => None,
    }
}

/// What the header of the legal hold says.
pub open spec fn spec_optional_hold(value: Option<Result<&str, ToStrError>>) -> Option<
    Option<bool>,
> {
    match spec_optional(value) {
        Ok(Some(text)) => match spec_legal_hold(text) {
            Some(on) => Some(Some(on)),
            None => None,
        },
        Ok(None) => Some(None),
        Err(_) => None,
    }
}

impl<'a> RawFileHeaders<'a> {
    /// `e` is the error that reading these headers ends with. The headers
    /// are read in a fixed order and the first that is wrong decides: a
    /// header that has to be there and is not gives `MissingHeader` with its
    /// name, a value that is no text gives `ToStrError` with the error of the
    /// conversion, a number that does not parse gives `IntegerParseError`, a
    /// retention mode that is neither `governance` nor `compliance` gives
    /// `InvalidRetentionMode`, and a legal hold that is none of `true`,
    /// `yes`, `false`, `no` gives `BoolParseError`. Where nothing is wrong no
    /// error is the error.
    pub open spec fn spec_fails_with(&self, e: B2FileHeaderError) -> bool {
        if self.content_length is None {
            e == B2FileHeaderError::MissingHeader("content-length")
        } else if self.content_type is None {
            e == B2FileHeaderError::MissingHeader("content-type")
        } else if spec_required(self.file_id, "x-bz-file-id") is Err {
            spec_required(self.file_id, "x-bz-file-id") == Err::<Seq<char>, B2FileHeaderError>(e)
        } else if spec_required(self.file_name, "x-bz-file-name") is Err {
            spec_required(self.file_name, "x-bz-file-name") == Err::<Seq<char>, B2FileHeaderError>(
                e,
            )
        } else if spec_required(self.file_sha1, "x-bz-content-sha1") is Err {
            spec_required(self.file_sha1, "x-bz-content-sha1") == Err::<
                Seq<char>,
                B2FileHeaderError,
            >(e)
        } else if spec_required(self.upload_timestamp, "x-bz-upload-timestamp") is Err {
            spec_required(self.upload_timestamp, "x-bz-upload-timestamp") == Err::<
                Seq<char>,
                B2FileHeaderError,
            >(e)
        } else if parsed_u64(spec_required(self.upload_timestamp, "x-bz-upload-timestamp")->Ok_0)
            is None {
            e is IntegerParseError
        } else if spec_optional(self.content_language) is Err {
            spec_optional(self.content_language) == Err::<Option<Seq<char>>, B2FileHeaderError>(e)
        } else if spec_encryption(
            self.server_side_encryption,
            self.customer_algorithm,
            self.customer_key_md5,
        ) is Err {
            spec_encryption(
                self.server_side_encryption,
                self.customer_algorithm,
                self.customer_key_md5,
            ) == Err::<Option<(Seq<char>, Option<Seq<char>>)>, B2FileHeaderError>(e)
        } else if spec_optional(self.retention_mode) is Err {
            spec_optional(self.retention_mode) == Err::<Option<Seq<char>>, B2FileHeaderError>(e)
        } else if spec_optional_mode(self.retention_mode) is None {
            e == B2FileHeaderError::InvalidRetentionMode
        } else if spec_optional(self.retain_until) is Err {
            spec_optional(self.retain_until) == Err::<Option<Seq<char>>, B2FileHeaderError>(e)
        } else if spec_optional_number(self.retain_until) is None {
            e is IntegerParseError
        } else if spec_optional(self.legal_hold) is Err {
            spec_optional(self.legal_hold) == Err::<Option<Seq<char>>, B2FileHeaderError>(e)
        } else if spec_optional_hold(self.legal_hold) is None {
            e == B2FileHeaderError::BoolParseError
        } else if spec_optional(self.unauthorized_to_read) is Err {
            spec_optional(self.unauthorized_to_read) == Err::<
                Option<Seq<char>>,
                B2FileHeaderError,
            >(e)
        } else {
            false
        }
    }

    /// `parsed` holds what these headers say, each header in its field.
    pub open spec fn spec_parses_to(&self, parsed: B2FileHeaders) -> bool {
        &&& self.content_length == Some(parsed.content_length)
        &&& self.content_type == Some(parsed.content_type)
        &&& spec_required(self.file_id, "x-bz-file-id") == Ok::<Seq<char>, B2FileHeaderError>(
            parsed.file_id@,
        )
        &&& spec_required(self.file_name, "x-bz-file-name") == Ok::<Seq<char>, B2FileHeaderError>(
            parsed.file_name@,
        )
        &&& spec_required(self.file_sha1, "x-bz-content-sha1") == Ok::<
            Seq<char>,
            B2FileHeaderError,
        >(parsed.file_sha1@)
        &&& parsed.info == self.info
        &&& spec_optional_number(self.upload_timestamp) == Some(Some(parsed.upload_timestamp))
        &&& parsed.content_disposition == self.content_disposition
        &&& spec_optional(self.content_language) == Ok::<Option<Seq<char>>, B2FileHeaderError>(
            crate::text::id_text(parsed.content_language),
        )
        &&& parsed.expires == self.expires
        &&& parsed.cache_control == self.cache_control
        &&& spec_encryption(
            self.server_side_encryption,
            self.customer_algorithm,
            self.customer_key_md5,
        ) == Ok::<Option<(Seq<char>, Option<Seq<char>>)>, B2FileHeaderError>(
            encryption_view(parsed.encryption),
        )
        &&& spec_optional_mode(self.retention_mode) == Some(parsed.retention_mode)
        &&& spec_optional_number(self.retain_until) == Some(parsed.retain_until)
        &&& spec_optional_hold(self.legal_hold) == Some(parsed.legal_hold)
        &&& spec_optional(self.unauthorized_to_read) == Ok::<
            Option<Seq<char>>,
            B2FileHeaderError,
        >(crate::text::id_text(parsed.unauthorized_to_read))
    }
}

impl B2FileHeaders {
    /// Reads the headers of a downloaded file. The result is `Ok` exactly
    /// when no header is wrong, and then holds what each header says; else
    /// it is the error of the first header that is wrong.
    pub fn parse(raw: RawFileHeaders<'_>) -> (result: Result<B2FileHeaders, B2FileHeaderError>)
        ensures
            match result {
                Ok(parsed) => raw.spec_parses_to(parsed) && forall|e: B2FileHeaderError|
                    !raw.spec_fails_with(e),
                Err(e) => raw.spec_fails_with(e),
            },
    {
        let content_length = match typed(raw.content_length, "content-length") {
            Ok(value) => value,
            Err(e) => {
                return Err(e);
            },
        };
        let content_type = match typed(raw.content_type, "content-type") {
            Ok(value) => value,
            Err(e) => {
                return Err(e);
            },
        };
        let file_id = match required(raw.file_id, "x-bz-file-id") {
            Ok(text) => text.to_owned(),
            Err(e) => {
                return Err(e);
            },
        };
        let file_name = match required(raw.file_name, "x-bz-file-name") {
            Ok(text) => text.to_owned(),
            Err(e) => {
                return Err(e);
            },
        };
        let file_sha1 = match required(raw.file_sha1, "x-bz-content-sha1") {
            Ok(text) => text.to_owned(),
            Err(e) => {
                return Err(e);
            },
        };
        let upload_timestamp: u64 = match required(raw.upload_timestamp, "x-bz-upload-timestamp") {
            Ok(text) => match number(text) {
                Ok(n) => n,
                Err(e) => {
                    return Err(e);
                },
            },
            Err(e) => {
                return Err(e);
            },
        };
        let content_language = match optional(raw.content_language) {
            Ok(text) => owned(text),
            Err(e) => {
                return Err(e);
            },
        };
        let encryption = match encryption(
            raw.server_side_encryption,
            raw.customer_algorithm,
            raw.customer_key_md5,
        ) {
            Ok(found) => found,
            Err(e) => {
                return Err(e);
            },
        };
        let retention_mode: Option<B2FileRetentionMode> = match optional(raw.retention_mode) {
            Ok(Some(text)) => match retention_mode(text) {
                Ok(mode) => Some(mode),
                Err(e) => {
                    return Err(e);
                },
            },
            Ok(None) => None,
            Err(e) => {
                return Err(e);
            },
        };
        let retain_until: Option<u64> = match optional(raw.retain_until) {
            Ok(Some(text)) => match number(text) {
                Ok(n) => Some(n),
                Err(e) => {
                    return Err(e);
                },
            },
            Ok(None) => None,
            Err(e) => {
                return Err(e);
            },
        };
        let legal_hold: Option<bool> = match optional(raw.legal_hold) {
            Ok(Some(text)) => match legal_hold(text) {
                Ok(on) => Some(on),
                Err(e) => {
                    return Err(e);
                },
            },
            Ok(None) => None,
            Err(e) => {
                return Err(e);
            },
        };
        let unauthorized_to_read = match optional(raw.unauthorized_to_read) {
            Ok(text) => owned(text),
            Err(e) => {
                return Err(e);
            },
        };
        Ok(
            B2FileHeaders {
                content_length,
                content_type,
                file_id,
                file_name,
                file_sha1,
                info: raw.info,
                upload_timestamp,
                content_disposition: raw.content_disposition,
                content_language,
                expires: raw.expires,
                cache_control: raw.cache_control,
                encryption,
                retention_mode,
                retain_until,
                legal_hold,
                unauthorized_to_read,
            },
        )
    }
}

} // verus!
