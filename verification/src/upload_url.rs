//! Upload URLs: short-lived endpoints that take one upload at a time, and
//! the rule by which a call replaces one that has expired.

use crate::error::B2Error;
use crate::models::B2UploadUrl;
use vstd::prelude::*;

verus! {

impl B2UploadUrl {
    /// The value of the `authorization` header for uploads to this URL.
    pub fn header(&self) -> (value: &str)
        ensures
            value@ == self.authorization_token@,
    {
        self.authorization_token.as_str()
    }
}

/// What an upload URL uploads to, by which a fresh URL for the same target is
/// asked for.
#[derive(Debug)]
pub struct UploadTarget {
    /// Whether the URL takes parts of a large file, or whole files.
    pub in_parts: bool,
    /// The large file that the parts belong to, or the bucket that the files
    /// go to. `None` where the service did not name it.
    pub id: Option<String>,
}

/// An upload URL with its authorization, for whole files or for parts.
#[derive(Debug)]
pub struct RawUploadUrl {
    in_parts: bool,
    url: B2UploadUrl,
}

impl RawUploadUrl {
    /// Whether the URL takes parts of a large file.
    pub closed spec fn spec_in_parts(&self) -> bool {
        self.in_parts
    }

    /// The URL and token in use.
    pub closed spec fn spec_url(&self) -> B2UploadUrl {
        self.url
    }

    /// What the URL uploads to: the large file for a URL that takes parts,
    /// the bucket for one that takes whole files.
    pub open spec fn spec_target(&self) -> UploadTarget {
        UploadTarget {
            in_parts: self.spec_in_parts(),
            id: if self.spec_in_parts() {
                self.spec_url().file_id
            } else {
                self.spec_url().bucket_id
            },
        }
    }

    /// Wraps a URL that the service has handed out.
    pub fn new(url: B2UploadUrl, in_parts: bool) -> (raw: Self)
        ensures
            raw.spec_url() == url,
            raw.spec_in_parts() == in_parts,
    {
        RawUploadUrl { in_parts, url }
    }

    /// Whether the URL's token can stand in a header, as the requests for
    /// uploads through the URL ask.
    pub fn has_valid_token(&self) -> (valid: bool)
        ensures
            valid == crate::header::is_header_value(self.spec_url().authorization_token@),
    {
        crate::header::takes_header_value(self.url.authorization_token.as_str())
    }

    /// Whether the URL takes parts of a large file.
    pub fn in_parts(&self) -> (in_parts: bool)
        ensures
            in_parts == self.spec_in_parts(),
    {
        self.in_parts
    }

    /// The URL and token in use.
    pub fn url(&self) -> (url: &B2UploadUrl)
        ensures
            *url == self.spec_url(),
    {
        &self.url
    }

    /// What the URL uploads to.
    pub fn target(&self) -> (target: UploadTarget)
        ensures
            target == self.spec_target(),
    {
        let id = if self.in_parts {
            &self.url.file_id
        } else {
            &self.url.bucket_id
        };
        UploadTarget { in_parts: self.in_parts, id: id.clone() }
    }

    /// Puts a fresh URL and token in the place of the ones in use.
    pub fn replace(&mut self, url: B2UploadUrl)
        ensures
            final(self).spec_url() == url,
            final(self).spec_in_parts() == old(self).spec_in_parts(),
    {
        self.url = url;
    }
}

/// Temporarily acquired URL for uploading single files.
///
/// The URL can be used to upload a file to the B2 API for 24 hours. Only one file can be uploaded to a URL at a time.
/// This is enforced via requiring mutable references to the URL when uploading a file.
#[derive(Debug)]
pub struct UploadUrl(pub RawUploadUrl);

/// Temporarily acquired URL for uploading parts of a large file.
///
/// The URL can be used to upload parts of a large file to the B2 API for 24 hours. Only one part can be uploaded to a URL at a time.
/// This is enforced via requiring mutable references to the URL when uploading a part.
#[derive(Debug)]
pub struct UploadPartUrl(pub RawUploadUrl);

/// The result is the service's word that an authorization has expired.
pub open spec fn is_expiry<T>(result: Result<T, B2Error>) -> bool {
    result matches Err(e) && e.spec_is_expired()
}

/// Where one upload call stands.
#[derive(Debug, Clone, Copy, PartialEq, Eq, Structural)]
pub enum CallPhase {
    /// Nothing was sent yet.
    Ready,
    /// The request is out; its response is awaited.
    Sent,
    /// The URL has expired; a fresh one is awaited.
    Refreshing,
    /// The call has returned.
    Finished,
}

/// What happened since the call's last step.
#[derive(Debug)]
pub enum CallEvent<T> {
    /// The call is started.
    Begin,
    /// The service answered the request.
    Response(Result<T, B2Error>),
    /// The service answered the request for a fresh URL.
    Refreshed(Result<B2UploadUrl, B2Error>),
}

/// What the call's driver does next.
#[derive(Debug)]
pub enum CallAction<T> {
    /// Build the request from the URL and token in use, with a body made
    /// anew, and send it.
    Send,
    /// Ask the service for a fresh URL for this target.
    Refresh(UploadTarget),
    /// Return this to the caller.
    Return(Result<T, B2Error>),
}

/// The next phase of an upload call, the URL that it goes on with, and its
/// driver's next action.
///
/// A response that says the authorization has expired leads to one request
/// for a fresh URL, after which the same upload is sent again. Every other
/// response, and a failure to get a fresh URL, is returned as it is. An event
/// that the phase does not wait for ends the call with `B2Error::Unknown`.
pub open spec fn call_transition<T>(phase: CallPhase, lease: RawUploadUrl, event: CallEvent<T>) -> (
    CallPhase,
    B2UploadUrl,
    CallAction<T>,
) {
    match (phase, event) {
        (CallPhase::Ready, CallEvent::Begin) => (
            CallPhase::Sent,
            lease.spec_url(),
            CallAction::Send,
        ),
        (CallPhase::Sent, CallEvent::Response(Err(e))) => if e.spec_is_expired() {
            (CallPhase::Refreshing, lease.spec_url(), CallAction::Refresh(lease.spec_target()))
        } else {
            (CallPhase::Finished, lease.spec_url(), CallAction::Return(Err(e)))
        },
        (CallPhase::Sent, CallEvent::Response(Ok(t))) => (
            CallPhase::Finished,
            lease.spec_url(),
            CallAction::Return(Ok(t)),
        ),
        (CallPhase::Refreshing, CallEvent::Refreshed(Ok(url))) => (
            CallPhase::Sent,
            url,
            CallAction::Send,
        ),
        (CallPhase::Refreshing, CallEvent::Refreshed(Err(e))) => (
            CallPhase::Finished,
            lease.spec_url(),
            CallAction::Return(Err(e)),
        ),
        (_, _) => (CallPhase::Finished, lease.spec_url(), CallAction::Return(Err(B2Error::Unknown))),
    }
}

/// One upload through an upload URL, from its first request to its return.
#[derive(Debug)]
pub struct UploadCall {
    phase: CallPhase,
}

impl UploadCall {
    /// Where the call stands.
    pub closed spec fn spec_phase(&self) -> CallPhase {
        self.phase
    }

    /// A call that has sent nothing yet.
    pub fn new() -> (call: Self)
        ensures
            call.spec_phase() == CallPhase::Ready,
    {
        UploadCall { phase: CallPhase::Ready }
    }

    /// Where the call stands.
    pub fn phase(&self) -> (phase: CallPhase)
        ensures
            phase == self.spec_phase(),
    {
        self.phase
    }

    /// Takes one event and says what to do next. A fresh URL goes into
    /// `lease` in place of the expired one.
    pub fn step<T>(&mut self, lease: &mut RawUploadUrl, event: CallEvent<T>) -> (action: CallAction<
        T,
    >)
        ensures
            (final(self).spec_phase(), final(lease).spec_url(), action) == call_transition(
                old(self).spec_phase(),
                *old(lease),
                event,
            ),
            final(lease).spec_in_parts() == old(lease).spec_in_parts(),
    {
        let (next, action) = match (self.phase, event) {
            (CallPhase::Ready, CallEvent::Begin) => (CallPhase::Sent, CallAction::Send),
            (CallPhase::Sent, CallEvent::Response(Err(e))) => {
                if e.is_expired() {
                    (CallPhase::Refreshing, CallAction::Refresh(lease.target()))
                } else {
                    (CallPhase::Finished, CallAction::Return(Err(e)))
                }
            },
            (CallPhase::Sent, CallEvent::Response(Ok(t))) => (
                CallPhase::Finished,
                CallAction::Return(Ok(t)),
            ),
            (CallPhase::Refreshing, CallEvent::Refreshed(Ok(url))) => {
                lease.replace(url);
                (CallPhase::Sent, CallAction::Send)
            },
            (CallPhase::Refreshing, CallEvent::Refreshed(Err(e))) => (
                CallPhase::Finished,
                CallAction::Return(Err(e)),
            ),
            (_, _) => (CallPhase::Finished, CallAction::Return(Err(B2Error::Unknown))),
        };
        self.phase = next;
        action
    }
}

/// A fresh URL is asked for exactly when a request that was sent came back
/// with the word that its authorization has expired: once for each such
/// response, and for no other reason.
pub proof fn lemma_refresh_only_on_expiry<T>(
    phase: CallPhase,
    lease: RawUploadUrl,
    event: CallEvent<T>,
)
    ensures
        call_transition(phase, lease, event).2 is Refresh <==> (phase == CallPhase::Sent && (
        event matches CallEvent::Response(response) && is_expiry(response))),
        (call_transition(phase, lease, event).2 matches CallAction::Refresh(target) ==> target
            == lease.spec_target()),
{
}

/// After a fresh URL has come, the call sends the upload again with that URL
/// and asks for no further one; the URL in use changes at no other step.
pub proof fn lemma_refreshed_url_is_used<T>(
    phase: CallPhase,
    lease: RawUploadUrl,
    event: CallEvent<T>,
)
    ensures
        match event {
            CallEvent::Refreshed(Ok(url)) if phase == CallPhase::Refreshing => call_transition(
                phase,
                lease,
                event,
            ) == (CallPhase::Sent, url, CallAction::<T>::Send),
            _ => call_transition(phase, lease, event).1 == lease.spec_url(),
        },
{
}

/// A response that is no expiry ends the call with that response: success is
/// returned, and no other error is tried again.
pub proof fn lemma_other_responses_are_returned<T>(lease: RawUploadUrl, response: Result<T, B2Error>)
    requires
        !is_expiry(response),
    ensures
        call_transition(CallPhase::Sent, lease, CallEvent::Response(response)) == (
            CallPhase::Finished,
            lease.spec_url(),
            CallAction::Return(response),
        ),
{
}

/// Guards one API call against an expired account authorization: the first
/// such failure leads to one reauthorization and a second try, a later one is
/// returned.
#[derive(Debug)]
pub struct ReauthGuard {
    retried: bool,
}

/// What to do with the result of an API call.
#[derive(Debug)]
pub enum ReauthStep<T> {
    /// Return this to the caller.
    Done(Result<T, B2Error>),
    /// Authorize the account again, then make the call once more.
    Reauthorize,
}

impl ReauthGuard {
    /// Whether the call has been made again already.
    pub closed spec fn spec_retried(&self) -> bool {
        self.retried
    }

    /// The guard of a call that has not been tried again.
    pub fn new() -> (guard: Self)
        ensures
            !guard.spec_retried(),
    {
        ReauthGuard { retried: false }
    }

    /// Decides on the result of the call.
    pub fn on_result<T>(&mut self, result: Result<T, B2Error>) -> (step: ReauthStep<T>)
        ensures
            match step {
                ReauthStep::Reauthorize => {
                    &&& !old(self).spec_retried()
                    &&& is_expiry(result)
                    &&& final(self).spec_retried()
                },
                ReauthStep::Done(returned) => {
                    &&& returned == result
                    &&& old(self).spec_retried() || !is_expiry(result)
                    &&& final(self).spec_retried() == old(self).spec_retried()
                },
            },
    {
        match result {
            Err(e) => {
                if !self.retried && e.is_expired() {
                    self.retried = true;
                    ReauthStep::Reauthorize
                } else {
                    ReauthStep::Done(Err(e))
                }
            },
            Ok(t) => ReauthStep::Done(Ok(t)),
        }
    }
}

} // verus!
