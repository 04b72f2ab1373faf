//! Server-Side Encryption (SSE) types and utilities
//!
//! The B2 API supports two types of server-side encryption:
//! - SSE-B2: encryption provided by Backblaze
//! - SSE-C: encryption provided by the client
//!
//! SSE-B2 is the default encryption type, and is used when no encryption type is specified.
//! SSE-C is used when the client provides an encryption key and the necessary headers.

use crate::digest::base64_encode;
use crate::digest::base64_fits;
use crate::digest::base64_standard;
use crate::digest::md5_digest;
use crate::digest::md5_of;
use crate::header::has_room;
use crate::header::header_entries;
use crate::header::put_header;
use crate::header::is_header_value;
use crate::header::takes_header_value;
use crate::header::with_header;
use crate::text::cow_clone;
use crate::text::cow_text;
use reqwest::header::HeaderMap;
use reqwest::header::HeaderValue;
use std::borrow::Cow;
use vstd::prelude::*;
use vstd::std_specs::convert::FromSpecImpl;

verus! {

/// Server-Side Encryption (SSE) with a customer-provided key (SSE-C)
#[derive(Debug)]
pub struct ServerSideEncryptionCustomer {
    /// The algorithm to use when encrypting/decrypting a file using SSE-C encryption.
    ///
    /// The only currently supported value is `"AES256"`.
    pub algorithm: Cow<'static, str>,
    /// The base64-encoded AES256 encryption key when encrypting/decrypting a file using SSE-C encryption.
    pub key: String,
    /// The base64-encoded MD5 digest of the [`key`](ServerSideEncryptionCustomer::key) when encrypting/decrypting a file using SSE-C encryption.
    pub key_md5: String,
}

impl Clone for ServerSideEncryptionCustomer {
    fn clone(&self) -> (copy: Self)
        ensures
            copy == *self,
    {
        ServerSideEncryptionCustomer {
            algorithm: cow_clone(&self.algorithm),
            key: self.key.clone(),
            key_md5: self.key_md5.clone(),
        }
    }
}

impl ServerSideEncryptionCustomer {
    /// Each of the three texts can be a header value.
    pub open spec fn spec_valid_headers(&self) -> bool {
        &&& is_header_value(self.algorithm@)
        &&& is_header_value(self.key@)
        &&& is_header_value(self.key_md5@)
    }

    /// The entries with the three SSE-C headers put in: algorithm, key and
    /// the key's digest.
    pub open spec fn spec_with_headers(
        &self,
        entries: Map<Seq<char>, Seq<Seq<u8>>>,
    ) -> Map<Seq<char>, Seq<Seq<u8>>> {
        with_header(
            with_header(
                with_header(
                    entries,
                    "x-bz-server-side-encryption-customer-algorithm"@,
                    self.algorithm@,
                ),
                "x-bz-server-side-encryption-customer-key"@,
                self.key@,
            ),
            "x-bz-server-side-encryption-customer-key-md5"@,
            self.key_md5@,
        )
    }

    /// Whether each of the three texts can be a header value, as
    /// `add_headers` asks.
    pub fn has_valid_headers(&self) -> (valid: bool)
        ensures
            valid == self.spec_valid_headers(),
    {
        takes_header_value(cow_text(&self.algorithm)) && takes_header_value(self.key.as_str())
            && takes_header_value(self.key_md5.as_str())
    }

    /// Puts the SSE-C headers into `headers`.
    pub fn add_headers(&self, headers: &mut HeaderMap<HeaderValue>)
        requires
            self.spec_valid_headers(),
            has_room(header_entries(*old(headers)), 3),
        ensures
            header_entries(*final(headers)) == self.spec_with_headers(
                header_entries(*old(headers)),
            ),
            has_room(header_entries(*final(headers)), 0),
    {
        put_header(
            headers,
            "x-bz-server-side-encryption-customer-algorithm",
            cow_text(&self.algorithm),
            Ghost(2),
        );
        put_header(
            headers,
            "x-bz-server-side-encryption-customer-key",
            self.key.as_str(),
            Ghost(1),
        );
        put_header(
            headers,
            "x-bz-server-side-encryption-customer-key-md5",
            self.key_md5.as_str(),
            Ghost(0),
        );
    }

    /// Creates a new `ServerSideEncryptionCustomer` with the given key,
    /// automatically computing the MD5 digest and encoding.
    pub fn aes256(key: &[u8]) -> (sse_c: Self)
        requires
            base64_fits(key@.len()),
        ensures
            sse_c.algorithm@ == "AES256"@,
            sse_c.key@ == base64_standard(key@),
            sse_c.key_md5@ == base64_standard(md5_of(key@)),
    {
        let digest = md5_digest(key);
        ServerSideEncryptionCustomer {
            algorithm: Cow::Borrowed("AES256"),
            key: base64_encode(key),
            key_md5: base64_encode(digest.as_slice()),
        }
    }
}

/// Server-Side Encryption (SSE) types
///
/// Implements various `From` conversions for easy construction from other types.
#[derive(Default, Debug)]
pub enum ServerSideEncryption {
    /// The default encryption type of the bucket, which will either be SSE-B2 or no encryption.
    #[default]
    Default,
    /// SSE-B2 encryption, the default encryption type.
    Standard {
        /// The algorithm to use when encrypting/decrypting a file using SSE-B2 encryption.
        ///
        /// The only currently supported value is `"AES256"`, which can be
        /// easily constructed using [`ServerSideEncryption::standard_aes256`].
        algorithm: Cow<'static, str>,
    },
    /// SSE-C encryption, allowing the client to provide an encryption key.
    ///
    /// This variant can be easily constructed using [`ServerSideEncryption::customer_aes256`].
    Customer(ServerSideEncryptionCustomer),
}

impl Clone for ServerSideEncryption {
    fn clone(&self) -> (copy: Self)
        ensures
            copy == *self,
    {
        match self {
            ServerSideEncryption::Default => ServerSideEncryption::Default,
            ServerSideEncryption::Standard { algorithm } => ServerSideEncryption::Standard {
                algorithm: cow_clone(algorithm),
            },
            ServerSideEncryption::Customer(sse_c) => ServerSideEncryption::Customer(sse_c.clone()),
        }
    }
}

impl ServerSideEncryption {
    /// Every text that goes into a header can be a header value.
    pub open spec fn spec_valid_headers(&self) -> bool {
        match self {
            ServerSideEncryption::Default => true,
            ServerSideEncryption::Standard { algorithm } => is_header_value(algorithm@),
            ServerSideEncryption::Customer(sse_c) => sse_c.spec_valid_headers(),
        }
    }

    /// The entries with the headers of this encryption put in: none for the
    /// bucket's default, the algorithm for SSE-B2, three for SSE-C.
    pub open spec fn spec_with_headers(
        &self,
        entries: Map<Seq<char>, Seq<Seq<u8>>>,
    ) -> Map<Seq<char>, Seq<Seq<u8>>> {
        match self {
            ServerSideEncryption::Default => entries,
            ServerSideEncryption::Standard { algorithm } => with_header(
                entries,
                "x-bz-server-side-encryption"@,
                algorithm@,
            ),
            ServerSideEncryption::Customer(sse_c) => sse_c.spec_with_headers(entries),
        }
    }

    /// Whether every text that goes into a header can be a header value, as
    /// `add_headers` asks.
    pub fn has_valid_headers(&self) -> (valid: bool)
        ensures
            valid == self.spec_valid_headers(),
    {
        match self {
            ServerSideEncryption::Default => true,
            ServerSideEncryption::Standard { algorithm } => takes_header_value(
                cow_text(algorithm),
            ),
            ServerSideEncryption::Customer(sse_c) => sse_c.has_valid_headers(),
        }
    }

    /// Puts the headers of this encryption into `headers`.
    pub fn add_headers(&self, headers: &mut HeaderMap<HeaderValue>)
        requires
            self.spec_valid_headers(),
            has_room(header_entries(*old(headers)), 3),
        ensures
            header_entries(*final(headers)) == self.spec_with_headers(
                header_entries(*old(headers)),
            ),
            has_room(header_entries(*final(headers)), 0),
    {
        match self {
            ServerSideEncryption::Default => {},
            ServerSideEncryption::Standard { algorithm } => {
                put_header(headers, "x-bz-server-side-encryption", cow_text(algorithm), Ghost(2));
            },
            ServerSideEncryption::Customer(sse_c) => sse_c.add_headers(headers),
        }
    }

    /// Creates a new `ServerSideEncryption` using the default encryption type of the bucket,
    /// which will either be SSE-B2 or no encryption.
    pub fn default() -> (sse: Self)
        ensures
            sse == ServerSideEncryption::Default,
    {
        ServerSideEncryption::Default
    }

    /// Creates a new `ServerSideEncryption` with the default SSE-B2 encryption algorithm of AES256.
    pub fn standard_aes256() -> (sse: Self)
        ensures
            sse matches ServerSideEncryption::Standard { algorithm } && algorithm@ == "AES256"@,
    {
        ServerSideEncryption::Standard { algorithm: Cow::Borrowed("AES256") }
    }

    /// Creates a new `ServerSideEncryption` with the given SSE-C encryption key for the AES256 algorithm.
    pub fn customer_aes256(key: &[u8]) -> (sse: Self)
        requires
            base64_fits(key@.len()),
        ensures
            sse matches ServerSideEncryption::Customer(sse_c) && sse_c.algorithm@ == "AES256"@
                && sse_c.key@ == base64_standard(key@) && sse_c.key_md5@ == base64_standard(
                md5_of(key@),
            ),
    {
        ServerSideEncryption::Customer(ServerSideEncryptionCustomer::aes256(key))
    }

    /// Returns `true` if the encryption type is `Default`.
    pub fn is_default(&self) -> (b: bool)
        ensures
            b == (*self is Default),
    {
        matches!(self, ServerSideEncryption::Default)
    }

    /// Returns `true` if the encryption type is `Standard`.
    pub fn is_standard(&self) -> (b: bool)
        ensures
            b == (*self is Standard),
    {
        matches!(self, ServerSideEncryption::Standard { .. })
    }

    /// Returns `true` if the encryption type is `Customer`.
    pub fn is_customer(&self) -> (b: bool)
        ensures
            b == (*self is Customer),
    {
        matches!(self, ServerSideEncryption::Customer(_))
    }
}

impl From<ServerSideEncryptionCustomer> for ServerSideEncryption {
    fn from(sse_c: ServerSideEncryptionCustomer) -> (sse: Self) {
        ServerSideEncryption::Customer(sse_c)
    }
}

impl FromSpecImpl<ServerSideEncryptionCustomer> for ServerSideEncryption {
    open spec fn obeys_from_spec() -> bool {
        true
    }

    open spec fn from_spec(sse_c: ServerSideEncryptionCustomer) -> Self {
        ServerSideEncryption::Customer(sse_c)
    }
}

impl From<Option<ServerSideEncryptionCustomer>> for ServerSideEncryption {
    fn from(sse_c: Option<ServerSideEncryptionCustomer>) -> (sse: Self) {
        match sse_c {
            Some(sse_c) => ServerSideEncryption::Customer(sse_c),
            None => ServerSideEncryption::Default,
        }
    }
}

impl FromSpecImpl<Option<ServerSideEncryptionCustomer>> for ServerSideEncryption {
    open spec fn obeys_from_spec() -> bool {
        true
    }

    open spec fn from_spec(sse_c: Option<ServerSideEncryptionCustomer>) -> Self {
        match sse_c {
            Some(sse_c) => ServerSideEncryption::Customer(sse_c),
            None => ServerSideEncryption::Default,
        }
    }
}

impl From<Option<ServerSideEncryption>> for ServerSideEncryption {
    fn from(sse: Option<ServerSideEncryption>) -> (chosen: Self) {
        match sse {
            Some(sse) => sse,
            None => ServerSideEncryption::Default,
        }
    }
}

impl FromSpecImpl<Option<ServerSideEncryption>> for ServerSideEncryption {
    open spec fn obeys_from_spec() -> bool {
        true
    }

    open spec fn from_spec(sse: Option<ServerSideEncryption>) -> Self {
        match sse {
            Some(sse) => sse,
            None => ServerSideEncryption::Default,
        }
    }
}

impl From<()> for ServerSideEncryption {
    fn from(unit: ()) -> (sse: Self) {
        ServerSideEncryption::Default
    }
}

impl FromSpecImpl<()> for ServerSideEncryption {
    open spec fn obeys_from_spec() -> bool {
        true
    }

    open spec fn from_spec(unit: ()) -> Self {
        ServerSideEncryption::Default
    }
}

} // verus!
