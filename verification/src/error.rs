//! Error handling types for the B2 API.

use crate::models::capabilities::B2Capability;
use crate::text::decimal;
use crate::text::decimal_digits;
use vstd::prelude::*;
use vstd::string::StringExecFns;

verus! {

/// `std::io::Error`, carried through as it came.
#[verifier::external_type_specification]
#[verifier::external_body]
pub struct ExIoError(std::io::Error);

/// `reqwest::Error`, carried through as it came.
#[verifier::external_type_specification]
#[verifier::external_body]
pub struct ExReqwestError(reqwest::Error);

/// `serde_json::Error`, carried through as it came.
#[verifier::external_type_specification]
#[verifier::external_body]
pub struct ExSerdeJsonError(serde_json::Error);

/// `std::num::ParseIntError`, carried through as it came.
#[verifier::external_type_specification]
#[verifier::external_body]
pub struct ExParseIntError(std::num::ParseIntError);

/// `reqwest::header::ToStrError`, carried through as it came.
#[verifier::external_type_specification]
#[verifier::external_body]
pub struct ExToStrError(reqwest::header::ToStrError);

/// The HTTP status with which the service says that an authorization has
/// expired.
pub const STATUS_UNAUTHORIZED: u16 = 401;

/// The B2 API returns errors in a JSON format. This struct represents that format.
#[derive(Debug)]
pub struct B2ErrorMessage {
    /// The HTTP status code.
    pub status: u16,
    /// The B2 error code.
    pub code: String,
    /// The error message.
    pub message: String,
}

impl B2ErrorMessage {
    /// The text of the message: status, code, a colon and the message.
    pub open spec fn spec_to_string(&self) -> Seq<char> {
        decimal_digits(self.status as nat) + " "@ + self.code@ + ": "@ + self.message@
    }

    /// The message as a line of text: `"{status} {code}: {message}"`.
    pub fn to_string(&self) -> (text: String)
        ensures
            text@ == self.spec_to_string(),
    {
        let mut text = decimal(self.status as u64);
        text.append(" ");
        text.append(self.code.as_str());
        text.append(": ");
        text.append(self.message.as_str());
        text
    }

    /// Whether the service rejected the call because the authorization that
    /// it was made with has expired.
    pub fn is_expired(&self) -> (expired: bool)
        ensures
            expired == (self.status == STATUS_UNAUTHORIZED),
    {
        self.status == STATUS_UNAUTHORIZED
    }
}

#[derive(Debug)]
pub enum B2Error {
    /// The B2 API returned an error.
    B2ErrorMessage(B2ErrorMessage),
    IOError(std::io::Error),
    ReqwestError(reqwest::Error),
    SerdeJsonError(serde_json::Error),
    Unknown,
    Unauthorized,
    B2FileHeaderError(B2FileHeaderError),
    MissingBucketId,
    InvalidPartSorting,
    MissingCapability(B2Capability),
    InvalidCapability(B2Capability),
    MissingFileName,
    FileIdMismatch,
    InvalidPrefix,
}

impl B2Error {
    /// The error is the service's word that an authorization has expired:
    /// a message of the B2 API with status 401.
    pub open spec fn spec_is_expired(&self) -> bool {
        self matches B2Error::B2ErrorMessage(e) && e.status == STATUS_UNAUTHORIZED
    }

    /// Whether the error is the service's word that an authorization has
    /// expired. Every other error is a permanent rejection.
    #[verifier::when_used_as_spec(spec_is_expired)]
    pub fn is_expired(&self) -> (expired: bool)
        ensures
            expired == self.spec_is_expired(),
    {
        match self {
            B2Error::B2ErrorMessage(e) => e.is_expired(),
            _ => false,
        }
    }
}

#[derive(Debug)]
pub enum B2FileHeaderError {
    MissingHeader(&'static str),
    IntegerParseError(std::num::ParseIntError),
    BoolParseError,
    ToStrError(reqwest::header::ToStrError),
    InvalidTimestamp,
    InvalidRetentionMode,
}

} // verus!
