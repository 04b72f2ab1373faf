//! The state of an authorized client, and the requests that it makes for an
//! upload. Nothing here sends anything: a request is described, and the
//! caller puts it on the wire.

use crate::digest::base64_encode;
use crate::digest::base64_fits;
use crate::digest::base64_standard;
use crate::error::B2Error;
use crate::header::has_room;
use crate::header::lemma_base64_is_header_value;
use crate::header::lemma_fixed_values_are_header_values;
use crate::header::lemma_joined_header_values;
use crate::header::header_entries;
use crate::header::is_header_value;
use crate::header::new_header_map;
use crate::header::no_headers;
use crate::header::put_header;
use crate::header::with_header;
use crate::large_file::LargeFileUpload;
use crate::models::capabilities::B2Capability;
use crate::models::B2Authorized;
use crate::text::id_text;
use crate::text::str_text;
use crate::types::sse::ServerSideEncryptionCustomer;
use crate::types::NewFileInfo;
use crate::types::NewLargeFileInfo;
use crate::types::NewPartInfo;
use crate::upload_url::UploadPartUrl;
use crate::upload_url::UploadTarget;
use crate::upload_url::UploadUrl;
use reqwest::header::HeaderMap;
use reqwest::header::HeaderValue;
use std::borrow::Cow;
use vstd::prelude::*;
use vstd::string::StringExecFns;
use vstd::utf8::encode_utf8;

verus! {

/// The version of the B2 API that the client speaks, as it stands in URLs.
pub const PREFIX: &'static str = "b2api/v3";

/// Number of times that authorizing is tried when none is set.
pub const DEFAULT_MAX_RETRIES: u8 = 5;

/// Seconds to wait before authorizing is tried again.
pub const AUTH_RETRY_DELAY_SECS: u64 = 1;

/// The text of the header that authorizes `b2_authorize_account`: the key's
/// ID and the key, joined by a colon, in base64 after the word `Basic`.
pub open spec fn auth_header_text(key_id: Seq<char>, key: Seq<char>) -> Seq<char> {
    "Basic "@ + base64_standard(encode_utf8(key_id + ":"@ + key))
}

/// Creates the authorization header and token
///
/// **NOTE**: The account ID can be used in place of the master application key ID.
pub fn create_auth_header(key_id: &str, key: &str) -> (header: String)
    requires
        base64_fits(encode_utf8(key_id@ + ":"@ + key@).len()),
    ensures
        header@ == auth_header_text(key_id@, key@),
        is_header_value(header@),
{
    proof {
        lemma_fixed_values_are_header_values();
        lemma_base64_is_header_value(encode_utf8(key_id@ + ":"@ + key@));
        lemma_joined_header_values(
            "Basic "@,
            base64_standard(encode_utf8(key_id@ + ":"@ + key@)),
        );
    }
    let mut pair = String::from_str(key_id);
    pair.append(":");
    pair.append(key);
    let encoded = base64_encode(pair.as_str().as_bytes());
    let mut header = String::from_str("Basic ");
    header.append(encoded.as_str());
    header
}

/// A builder for creating a client
#[derive(Debug)]
pub struct ClientBuilder {
    auth: String,
    ua: Option<Cow<'static, str>>,
    max_retries: u8,
}

impl Clone for ClientBuilder {
    fn clone(&self) -> (copy: Self)
        ensures
            copy == *self,
    {
        proof {
            use_type_invariant(self);
        }
        ClientBuilder {
            auth: self.auth.clone(),
            ua: match &self.ua {
                Some(ua) => Some(crate::text::cow_clone(ua)),
                None => None,
            },
            max_retries: self.max_retries,
        }
    }
}

impl ClientBuilder {
    #[verifier::type_invariant]
    spec fn inv(&self) -> bool {
        is_header_value(self.auth@)
    }

    /// The text of the header that authorizes the account.
    pub closed spec fn spec_auth(&self) -> Seq<char> {
        self.auth@
    }

    /// The `User-Agent` of the client's requests, where one is set.
    pub closed spec fn spec_user_agent(&self) -> Option<Cow<'static, str>> {
        self.ua
    }

    /// Number of times that authorizing is tried.
    pub closed spec fn spec_max_retries(&self) -> u8 {
        self.max_retries
    }

    /// Creates a new client builder with the given key ID and application key.
    pub fn new(key_id: &str, app_key: &str) -> (builder: ClientBuilder)
        requires
            base64_fits(encode_utf8(key_id@ + ":"@ + app_key@).len()),
        ensures
            builder.spec_auth() == auth_header_text(key_id@, app_key@),
            builder.spec_user_agent() is None,
            builder.spec_max_retries() == DEFAULT_MAX_RETRIES,
    {
        ClientBuilder {
            auth: create_auth_header(key_id, app_key),
            ua: None,
            max_retries: DEFAULT_MAX_RETRIES,
        }
    }

    /// Sets the `User-Agent` header to be used for requests.
    pub fn user_agent(self, ua: Cow<'static, str>) -> (builder: Self)
        ensures
            builder.spec_user_agent() == Some(ua),
            builder.spec_auth() == self.spec_auth(),
            builder.spec_max_retries() == self.spec_max_retries(),
    {
        proof {
            use_type_invariant(&self);
        }
        ClientBuilder { auth: self.auth, ua: Some(ua), max_retries: self.max_retries }
    }

    /// Sets the maximum number of times to retry requests if they fail with a 401 Unauthorized error.
    pub fn max_retries(self, max_retries: u8) -> (builder: Self)
        ensures
            builder.spec_max_retries() == max_retries,
            builder.spec_auth() == self.spec_auth(),
            builder.spec_user_agent() == self.spec_user_agent(),
    {
        proof {
            use_type_invariant(&self);
        }
        ClientBuilder { auth: self.auth, ua: self.ua, max_retries }
    }

    /// The text of the header that authorizes the account.
    pub fn auth(&self) -> (auth: &str)
        ensures
            auth@ == self.spec_auth(),
            is_header_value(auth@),
    {
        proof {
            use_type_invariant(self);
        }
        self.auth.as_str()
    }

    /// The request that authorizes the account, by `b2_authorize_account`.
    pub fn authorize(&self) -> (request: ApiRequest)
        ensures
            request.method == Method::Get,
            request.url@ == "https://api.backblazeb2.com/b2api/v3/b2_authorize_account"@,
            header_entries(request.headers) == with_header(
                no_headers(),
                "authorization"@,
                self.spec_auth(),
            ),
            request.query is None,
    {
        let mut headers = new_header_map();
        assert(has_room(header_entries(headers), 1)) by {
            assert(no_headers().dom() =~= Set::<Seq<char>>::empty());
        }
        put_header(&mut headers, "authorization", self.auth(), Ghost(0));
        ApiRequest {
            method: Method::Get,
            url: String::from_str("https://api.backblazeb2.com/b2api/v3/b2_authorize_account"),
            headers,
            query: None,
        }
    }

    /// The `User-Agent` of the client's requests, where one is set.
    pub fn get_user_agent(&self) -> (ua: &Option<Cow<'static, str>>)
        ensures
            *ua == self.spec_user_agent(),
    {
        &self.ua
    }

    /// Number of times that authorizing is tried.
    pub fn get_max_retries(&self) -> (n: u8)
        ensures
            n == self.spec_max_retries(),
    {
        self.max_retries
    }
}

/// The state of a client that the service has authorized.
#[derive(Debug)]
pub struct ClientState {
    /// The builder used to create the client.
    config: ClientBuilder,
    /// The authorization data returned from the B2 API `b2_authorize_account` endpoint
    account: B2Authorized,
}

/// How a request is made.
#[derive(Debug, Clone, Copy, PartialEq, Eq, Structural)]
pub enum Method {
    Get,
    Post,
}

/// A request to the service, ready to be sent.
#[derive(Debug)]
pub struct ApiRequest {
    pub method: Method,
    /// Where the request goes.
    pub url: String,
    /// The headers of the request, the authorization among them.
    pub headers: HeaderMap<HeaderValue>,
    /// The one parameter of the query string, where the call has one.
    pub query: Option<(&'static str, String)>,
}

impl ClientState {
    /// The builder that the client was made with.
    pub closed spec fn spec_config(&self) -> ClientBuilder {
        self.config
    }

    /// What the service said of the account when it authorized it.
    pub closed spec fn spec_account(&self) -> B2Authorized {
        self.account
    }

    /// The URL of the API call `path`: the account's API URL, the API's
    /// version and the call's name, joined by slashes.
    pub open spec fn spec_url(&self, path: Seq<char>) -> Seq<char> {
        self.spec_account().api.storage.api_url@ + "/"@ + PREFIX@ + "/"@ + path
    }

    /// The headers of a call that only authorizes itself.
    pub open spec fn spec_auth_headers(&self) -> Map<Seq<char>, Seq<Seq<u8>>> {
        with_header(no_headers(), "authorization"@, self.spec_account().auth_token@)
    }

    /// The bucket that a call goes to: the one named, or else the one that
    /// the account is restricted to.
    pub open spec fn spec_bucket_id(&self, bucket_id: Option<Seq<char>>) -> Option<Seq<char>> {
        match bucket_id {
            Some(id) => Some(id),
            None => id_text(self.spec_account().api.storage.bucket_id),
        }
    }

    /// The state of a client right after the service has authorized it.
    pub fn new(config: ClientBuilder, account: B2Authorized) -> (state: Self)
        ensures
            state.spec_config() == config,
            state.spec_account() == account,
    {
        ClientState { config, account }
    }

    /// The builder that the client was made with.
    pub fn config(&self) -> (config: &ClientBuilder)
        ensures
            *config == self.spec_config(),
    {
        &self.config
    }

    /// What the service said of the account when it authorized it.
    pub fn account(&self) -> (account: &B2Authorized)
        ensures
            *account == self.spec_account(),
    {
        &self.account
    }

    /// Whether the account's token can stand in a header, as the requests
    /// of the client ask.
    pub fn has_valid_token(&self) -> (valid: bool)
        ensures
            valid == is_header_value(self.spec_account().auth_token@),
    {
        crate::header::takes_header_value(self.account.auth_token.as_str())
    }

    /// Fails with `MissingCapability` unless the account has all of
    /// `capability`.
    pub fn check_capability(&self, capability: B2Capability) -> (result: Result<(), B2Error>)
        ensures
            match result {
                Ok(_) => self.spec_account().spec_allowed(capability),
                Err(e) => !self.spec_account().spec_allowed(capability) && e
                    == B2Error::MissingCapability(capability),
            },
    {
        if !self.account.allowed(capability) {
            return Err(B2Error::MissingCapability(capability));
        }
        Ok(())
    }

    /// The URL of the API call `path`.
    pub fn url(&self, path: &str) -> (url: String)
        ensures
            url@ == self.spec_url(path@),
    {
        let mut url = self.account.api.storage.api_url.clone();
        url.append("/");
        url.append(PREFIX);
        url.append("/");
        url.append(path);
        url
    }

    /// The bucket that a call goes to, or `MissingBucketId` where none is
    /// named and the account is restricted to none.
    pub fn bucket_id<'a>(&'a self, bucket_id: Option<&'a str>) -> (result: Result<&'a str, B2Error>)
        ensures
            match result {
                Ok(id) => self.spec_bucket_id(str_text(bucket_id)) == Some(id@),
                Err(e) => self.spec_bucket_id(str_text(bucket_id)) is None && e
                    == B2Error::MissingBucketId,
            },
    {
        match bucket_id {
            Some(id) => Ok(id),
            None => match &self.account.api.storage.bucket_id {
                Some(id) => Ok(id.as_str()),
                None => Err(B2Error::MissingBucketId),
            },
        }
    }

    /// Headers that hold the account's authorization and nothing else.
    fn auth_headers(&self) -> (headers: HeaderMap<HeaderValue>)
        requires
            is_header_value(self.spec_account().auth_token@),
        ensures
            header_entries(headers) == self.spec_auth_headers(),
            has_room(header_entries(headers), 10),
    {
        let mut headers = new_header_map();
        assert(has_room(header_entries(headers), 11)) by {
            assert(no_headers().dom() =~= Set::<Seq<char>>::empty());
        }
        put_header(&mut headers, "authorization", self.account.auth_token.as_str(), Ghost(10));
        headers
    }

    /// The request for a URL to upload files to, by `b2_get_upload_url`, or
    /// for one to upload parts of the large file `target.id` to, by
    /// `b2_get_upload_part_url`.
    ///
    /// The account needs the capability to write files. A URL for files goes
    /// to the bucket named, or else to the one that the account is
    /// restricted to; one for parts needs its large file named.
    pub fn get_upload_url(&self, target: &UploadTarget) -> (result: Result<ApiRequest, B2Error>)
        requires
            is_header_value(self.spec_account().auth_token@),
        ensures
            match result {
                Ok(request) => {
                    &&& self.spec_account().spec_allows(B2Capability::WRITE_FILES)
                    &&& request.method == Method::Get
                    &&& header_entries(request.headers) == self.spec_auth_headers()
                    &&& request.query matches Some((key, id)) && if target.in_parts {
                        &&& request.url@ == self.spec_url("b2_get_upload_part_url"@)
                        &&& key@ == "fileId"@
                        &&& target.id matches Some(file) && id@ == file@
                    } else {
                        &&& request.url@ == self.spec_url("b2_get_upload_url"@)
                        &&& key@ == "bucketId"@
                        &&& self.spec_bucket_id(id_text(target.id)) == Some(id@)
                    }
                },
                Err(e) => if !self.spec_account().spec_allows(B2Capability::WRITE_FILES) {
                    is_missing_write_files(e)
                } else if target.in_parts {
                    target.id is None && e == B2Error::FileIdMismatch
                } else {
                    self.spec_bucket_id(id_text(target.id)) is None && e
                        == B2Error::MissingBucketId
                },
            },
    {
        match self.check_capability(B2Capability::from_bits_retain(B2Capability::WRITE_FILES)) {
            Err(e) => {
                return Err(e);
            },
            Ok(_) => {},
        }
        let (path, key, id): (&'static str, &'static str, String) = if target.in_parts {
            match &target.id {
                Some(file) => ("b2_get_upload_part_url", "fileId", file.clone()),
                None => {
                    return Err(B2Error::FileIdMismatch);
                },
            }
        } else {
            let named: Option<&str> = match &target.id {
                Some(id) => Some(id.as_str()),
                None => None,
            };
            match self.bucket_id(named) {
                Ok(id) => ("b2_get_upload_url", "bucketId", id.to_owned()),
                Err(e) => {
                    return Err(e);
                },
            }
        };
        Ok(
            ApiRequest {
                method: Method::Get,
                url: self.url(path),
                headers: self.auth_headers(),
                query: Some((key, id)),
            },
        )
    }

    /// The request for a URL to upload parts of `large` to, by
    /// `b2_get_upload_part_url`. The account needs the capability to write
    /// files.
    pub fn get_upload_part_url(&self, large: &LargeFileUpload) -> (result: Result<
        ApiRequest,
        B2Error,
    >)
        requires
            is_header_value(self.spec_account().auth_token@),
        ensures
            match result {
                Ok(request) => {
                    &&& self.spec_account().spec_allows(B2Capability::WRITE_FILES)
                    &&& request.method == Method::Get
                    &&& request.url@ == self.spec_url("b2_get_upload_part_url"@)
                    &&& header_entries(request.headers) == self.spec_auth_headers()
                    &&& request.query matches Some((key, id)) && key@ == "fileId"@ && id@
                        == large.spec_info().file_id@
                },
                Err(e) => !self.spec_account().spec_allows(B2Capability::WRITE_FILES)
                    && is_missing_write_files(e),
            },
    {
        self.get_upload_url(&large.target())
    }

    /// The request for the record of a file, by `b2_get_file_info`. The
    /// account needs the capability to read files.
    pub fn get_file_info(&self, file_id: &str) -> (result: Result<ApiRequest, B2Error>)
        requires
            is_header_value(self.spec_account().auth_token@),
        ensures
            match result {
                Ok(request) => {
                    &&& self.spec_account().spec_allows(B2Capability::READ_FILES)
                    &&& request.method == Method::Get
                    &&& request.url@ == self.spec_url("b2_get_file_info"@)
                    &&& header_entries(request.headers) == self.spec_auth_headers()
                    &&& request.query matches Some((key, id)) && key@ == "fileId"@ && id@
                        == file_id@
                },
                Err(e) => !self.spec_account().spec_allows(B2Capability::READ_FILES)
                    && is_missing_read_files(e),
            },
    {
        match self.check_capability(B2Capability::from_bits_retain(B2Capability::READ_FILES)) {
            Err(e) => {
                return Err(e);
            },
            Ok(_) => {},
        }
        Ok(
            ApiRequest {
                method: Method::Get,
                url: self.url("b2_get_file_info"),
                headers: self.auth_headers(),
                query: Some(("fileId", file_id.to_owned())),
            },
        )
    }

    /// The request that downloads a file, by `b2_download_file_by_id`. The
    /// account needs the capability to read files. `encryption` is only
    /// required if the file is encrypted with a customer-provided key
    /// (SSE-C); its headers then go with the request.
    pub fn download_file_by_id(
        &self,
        file_id: &str,
        encryption: Option<&ServerSideEncryptionCustomer>,
    ) -> (result: Result<ApiRequest, B2Error>)
        requires
            is_header_value(self.spec_account().auth_token@),
            encryption matches Some(sse_c) ==> sse_c.spec_valid_headers(),
        ensures
            match result {
                Ok(request) => {
                    &&& self.spec_account().spec_allows(B2Capability::READ_FILES)
                    &&& request.method == Method::Get
                    &&& request.url@ == self.spec_url("b2_download_file_by_id"@)
                    &&& header_entries(request.headers) == match encryption {
                        Some(sse_c) => sse_c.spec_with_headers(self.spec_auth_headers()),
                        None => self.spec_auth_headers(),
                    }
                    &&& request.query matches Some((key, id)) && key@ == "fileId"@ && id@
                        == file_id@
                },
                Err(e) => !self.spec_account().spec_allows(B2Capability::READ_FILES)
                    && is_missing_read_files(e),
            },
    {
        match self.check_capability(B2Capability::from_bits_retain(B2Capability::READ_FILES)) {
            Err(e) => {
                return Err(e);
            },
            Ok(_) => {},
        }
        let mut headers = self.auth_headers();
        match encryption {
            Some(sse_c) => {
                sse_c.add_headers(&mut headers);
            },
            None => {},
        }
        Ok(
            ApiRequest {
                method: Method::Get,
                url: self.url("b2_download_file_by_id"),
                headers,
                query: Some(("fileId", file_id.to_owned())),
            },
        )
    }

    /// The request that starts a large file, by `b2_start_large_file`. The
    /// account needs the capability to write files.
    pub fn start_large_file(&self, info: &NewLargeFileInfo) -> (result: Result<ApiRequest, B2Error>)
        requires
            is_header_value(self.spec_account().auth_token@),
            info.spec_valid_headers(),
        ensures
            match result {
                Ok(request) => {
                    &&& self.spec_account().spec_allows(B2Capability::WRITE_FILES)
                    &&& request.method == Method::Post
                    &&& request.url@ == self.spec_url("b2_start_large_file"@)
                    &&& header_entries(request.headers) == info.spec_with_headers(
                        self.spec_auth_headers(),
                    )
                    &&& request.query is None
                },
                Err(e) => !self.spec_account().spec_allows(B2Capability::WRITE_FILES) && is_missing_write_files(e),
            },
    {
        match self.check_capability(B2Capability::from_bits_retain(B2Capability::WRITE_FILES)) {
            Err(e) => {
                return Err(e);
            },
            Ok(_) => {},
        }
        let mut headers = self.auth_headers();
        info.add_headers(&mut headers);
        Ok(
            ApiRequest {
                method: Method::Post,
                url: self.url("b2_start_large_file"),
                headers,
                query: None,
            },
        )
    }

    /// The request that makes one file of the parts of a large file, by
    /// `b2_finish_large_file`. Its body is what `LargeFileUpload::finish`
    /// makes of the parts.
    pub fn finish_large_file(&self) -> (request: ApiRequest)
        requires
            is_header_value(self.spec_account().auth_token@),
        ensures
            request.method == Method::Post,
            request.url@ == self.spec_url("b2_finish_large_file"@),
            header_entries(request.headers) == self.spec_auth_headers(),
            request.query is None,
    {
        ApiRequest {
            method: Method::Post,
            url: self.url("b2_finish_large_file"),
            headers: self.auth_headers(),
            query: None,
        }
    }

    /// The request that cancels a large file, by `b2_cancel_large_file`. Its
    /// body is what `LargeFileUpload::cancel` gives.
    pub fn cancel_large_file(&self) -> (request: ApiRequest)
        requires
            is_header_value(self.spec_account().auth_token@),
        ensures
            request.method == Method::Post,
            request.url@ == self.spec_url("b2_cancel_large_file"@),
            header_entries(request.headers) == self.spec_auth_headers(),
            request.query is None,
    {
        ApiRequest {
            method: Method::Post,
            url: self.url("b2_cancel_large_file"),
            headers: self.auth_headers(),
            query: None,
        }
    }
}

/// What one try to authorize the account gave.
#[derive(Debug)]
pub enum AuthOutcome {
    /// The service authorized the account.
    Authorized(B2Authorized),
    /// The try was turned away before it reached the service, by the
    /// breaker that guards the service against a storm of retries.
    Rejected,
    /// The try failed.
    Failed(B2Error),
}

/// What to do after a try to authorize the account.
#[derive(Debug)]
pub enum AuthStep {
    /// The client is authorized.
    Done(ClientState),
    /// Wait `AUTH_RETRY_DELAY_SECS` seconds, then try again.
    RetryAfterDelay(AuthRetry),
    /// Give up with this error.
    Fail(B2Error),
}

/// Counts the tries to authorize an account that were turned away.
#[derive(Debug)]
pub struct AuthRetry {
    config: ClientBuilder,
    attempts: u8,
}

impl AuthRetry {
    #[verifier::type_invariant]
    spec fn inv(&self) -> bool {
        self.attempts == 0 || self.attempts < self.config.max_retries
    }

    /// The builder that the client is made with.
    pub closed spec fn spec_config(&self) -> ClientBuilder {
        self.config
    }

    /// Number of tries that were turned away so far.
    pub closed spec fn spec_attempts(&self) -> u8 {
        self.attempts
    }

    /// Before the first try.
    pub fn new(config: ClientBuilder) -> (retry: Self)
        ensures
            retry.spec_config() == config,
            retry.spec_attempts() == 0,
    {
        AuthRetry { config, attempts: 0 }
    }

    /// The builder that the client is made with.
    pub fn config(&self) -> (config: &ClientBuilder)
        ensures
            *config == self.spec_config(),
    {
        &self.config
    }

    /// Decides on the outcome of one try. Success makes the client's state
    /// of the account that came back, and a failure is returned as it is. A
    /// try that was turned away counts; when as many were turned away as the
    /// builder allows retries, authorizing fails with `Unauthorized`, and
    /// until then the next try follows after a delay.
    pub fn step(self, outcome: AuthOutcome) -> (step: AuthStep)
        ensures
            match outcome {
                AuthOutcome::Authorized(account) => step matches AuthStep::Done(state)
                    && state.spec_config() == self.spec_config() && state.spec_account()
                    == account,
                AuthOutcome::Failed(e) => step == AuthStep::Fail(e),
                AuthOutcome::Rejected => if self.spec_attempts() + 1
                    >= self.spec_config().spec_max_retries() {
                    step == AuthStep::Fail(B2Error::Unauthorized)
                } else {
                    step matches AuthStep::RetryAfterDelay(next) && next.spec_config()
                        == self.spec_config() && next.spec_attempts() == self.spec_attempts() + 1
                },
            },
    {
        proof {
            use_type_invariant(&self);
        }
        match outcome {
            AuthOutcome::Authorized(account) => AuthStep::Done(
                ClientState::new(self.config, account),
            ),
            AuthOutcome::Failed(e) => AuthStep::Fail(e),
            AuthOutcome::Rejected => {
                let attempts: u8 = self.attempts + 1;
                if attempts >= self.config.max_retries {
                    AuthStep::Fail(B2Error::Unauthorized)
                } else {
                    AuthStep::RetryAfterDelay(AuthRetry { config: self.config, attempts })
                }
            },
        }
    }
}

/// The headers of an upload through `url`: the URL's own authorization.
pub open spec fn upload_auth_headers(url: crate::upload_url::RawUploadUrl) -> Map<
    Seq<char>,
    Seq<Seq<u8>>,
> {
    with_header(no_headers(), "authorization"@, url.spec_url().authorization_token@)
}

/// Headers that hold the authorization of an upload URL and nothing else.
fn upload_headers(url: &crate::upload_url::RawUploadUrl) -> (headers: HeaderMap<HeaderValue>)
    requires
        is_header_value(url.spec_url().authorization_token@),
    ensures
        header_entries(headers) == upload_auth_headers(*url),
        has_room(header_entries(headers), 10),
{
    let mut headers = new_header_map();
    assert(has_room(header_entries(headers), 11)) by {
        assert(no_headers().dom() =~= Set::<Seq<char>>::empty());
    }
    put_header(&mut headers, "authorization", url.url().header(), Ghost(10));
    headers
}

impl UploadUrl {
    /// The request that uploads a file to the URL: a `POST` to the URL,
    /// authorized by the URL's token, with the headers that describe the
    /// file. The caller adds the body, made anew for each time that the
    /// request is sent.
    pub fn upload_file(&self, info: &NewFileInfo) -> (request: ApiRequest)
        requires
            is_header_value(self.0.spec_url().authorization_token@),
            info.spec_valid_headers(),
        ensures
            request.method == Method::Post,
            request.url@ == self.0.spec_url().upload_url@,
            header_entries(request.headers) == info.spec_with_headers(upload_auth_headers(self.0)),
            request.query is None,
    {
        let mut headers = upload_headers(&self.0);
        info.add_headers(&mut headers);
        ApiRequest {
            method: Method::Post,
            url: self.0.url().upload_url.clone(),
            headers,
            query: None,
        }
    }
}

impl LargeFileUpload {
    /// The request that uploads a part of the large file to the given
    /// upload URL: a `POST` to the URL, authorized by the URL's token, with
    /// the headers that describe the part. The caller adds the body, made
    /// anew for each time that the request is sent.
    ///
    /// Parts can be uploaded in parallel, so long as each URL is only used
    /// for one part at a time.
    pub fn upload_part(&self, url: &UploadPartUrl, info: &NewPartInfo) -> (request: ApiRequest)
        requires
            is_header_value(url.0.spec_url().authorization_token@),
            info.spec_valid_headers(),
        ensures
            request.method == Method::Post,
            request.url@ == url.0.spec_url().upload_url@,
            header_entries(request.headers) == info.spec_with_headers(upload_auth_headers(url.0)),
            request.query is None,
    {
        let mut headers = upload_headers(&url.0);
        info.add_headers(&mut headers);
        ApiRequest {
            method: Method::Post,
            url: url.0.url().upload_url.clone(),
            headers,
            query: None,
        }
    }

    /// What a URL for the parts of this large file uploads to.
    pub fn target(&self) -> (target: UploadTarget)
        ensures
            target.in_parts,
            target.id matches Some(id) && id@ == self.spec_info().file_id@,
    {
        UploadTarget { in_parts: true, id: Some(self.info().file_id.clone()) }
    }
}

/// The error is that the account lacks the capability to read files.
pub open spec fn is_missing_read_files(e: B2Error) -> bool {
    e matches B2Error::MissingCapability(c) && c@ == B2Capability::READ_FILES
}

/// The error is that the account lacks the capability to write files.
pub open spec fn is_missing_write_files(e: B2Error) -> bool {
    e matches B2Error::MissingCapability(c) && c@ == B2Capability::WRITE_FILES
}

} // verus!
