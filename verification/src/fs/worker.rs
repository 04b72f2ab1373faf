//! One worker of a large upload: it claims a part, hashes it, streams it,
//! uploads it, and claims the next, until no part is left or a step fails.

use crate::error::B2Error;
use crate::fs::parts::PartAssignment;
use crate::fs::WorkerOutcome;
use crate::models::B2PartInfo;
use crate::ranges::ByteRange;
use crate::types::sse::ServerSideEncryption;
use crate::types::NewPartInfo;
use vstd::prelude::*;

verus! {

/// What is sent along with one part: its number, its length and the digest of
/// its bytes.
#[derive(Debug)]
pub struct PartDescriptor {
    /// The part's number, from 1.
    pub part_number: u32,
    /// The bytes of the file that make up the part.
    pub range: ByteRange,
    /// The SHA-1 digest of those bytes, in lower-case hex.
    pub content_sha1: String,
}

impl Clone for PartDescriptor {
    fn clone(&self) -> (copy: Self)
        ensures
            copy == *self,
    {
        PartDescriptor {
            part_number: self.part_number,
            range: self.range,
            content_sha1: self.content_sha1.clone(),
        }
    }
}

impl PartDescriptor {
    /// The part's info as the upload call takes it: the descriptor's number
    /// and digest, the length of its range, and the given encryption.
    pub fn part_info<'a>(&'a self, encryption: &ServerSideEncryption) -> (info: NewPartInfo<'a>)
        requires
            self.range.wf(),
        ensures
            info.part_number == self.part_number,
            info.content_length == self.range.end - self.range.start,
            info.content_sha1@ == self.content_sha1@,
            info.encryption == *encryption,
    {
        NewPartInfo {
            part_number: self.part_number,
            content_length: self.range.end - self.range.start,
            content_sha1: self.content_sha1.as_str(),
            encryption: encryption.clone(),
        }
    }
}

/// Where a worker stands.
#[derive(Debug)]
pub enum WorkerState {
    /// Not started.
    Idle,
    /// Asking the allocator for a part.
    Claiming,
    /// Computing the digest of the claimed part.
    Hashing(PartAssignment),
    /// Making the body of the part, over the range that was hashed.
    Streaming(PartDescriptor),
    /// Sending the part.
    Uploading(PartDescriptor),
    /// No part was left to claim.
    Done,
    /// A step failed; the worker claims no further part.
    Failed,
}

/// What happened since the worker's last step.
#[derive(Debug)]
pub enum WorkerEvent {
    /// The worker is started.
    Start,
    /// The allocator answered: a part, or none when all are taken.
    Claimed(Option<PartAssignment>),
    /// The digest of the claimed part, in lower-case hex.
    Hashed(String),
    /// The body of the part is ready to be sent.
    BodyReady,
    /// The service took the part.
    Uploaded(B2PartInfo),
    /// The step failed for good.
    Failure(B2Error),
}

/// What the worker's driver does next.
#[derive(Debug)]
pub enum WorkerAction {
    /// Ask the allocator for a part.
    Claim,
    /// Compute the digest of these bytes of the file.
    Hash(ByteRange),
    /// Make a body that streams these bytes of the file.
    Stream(ByteRange),
    /// Send the body with this descriptor.
    Upload(PartDescriptor),
    /// Stop: the worker has nothing more to do.
    Stop,
    /// Stop and report this error.
    Surface(B2Error),
}

/// The worker's next state and its driver's next action, for every state and
/// event. An event that the state does not wait for is a failure of the
/// driver and ends the worker with `B2Error::Unknown`.
pub open spec fn worker_transition(state: WorkerState, event: WorkerEvent) -> (
    WorkerState,
    WorkerAction,
) {
    match (state, event) {
        (WorkerState::Done, _) => (WorkerState::Done, WorkerAction::Stop),
        (WorkerState::Failed, _) => (WorkerState::Failed, WorkerAction::Stop),
        (_, WorkerEvent::Failure(e)) => (WorkerState::Failed, WorkerAction::Surface(e)),
        (WorkerState::Idle, WorkerEvent::Start) => (WorkerState::Claiming, WorkerAction::Claim),
        (WorkerState::Claiming, WorkerEvent::Claimed(None)) => (
            WorkerState::Done,
            WorkerAction::Stop,
        ),
        (WorkerState::Claiming, WorkerEvent::Claimed(Some(part))) => (
            WorkerState::Hashing(part),
            WorkerAction::Hash(part.range),
        ),
        (WorkerState::Hashing(part), WorkerEvent::Hashed(content_sha1)) => (
            WorkerState::Streaming(
                PartDescriptor { part_number: part.part_number, range: part.range, content_sha1 },
            ),
            WorkerAction::Stream(part.range),
        ),
        (WorkerState::Streaming(descriptor), WorkerEvent::BodyReady) => (
            WorkerState::Uploading(descriptor),
            WorkerAction::Upload(descriptor),
        ),
        (WorkerState::Uploading(_), WorkerEvent::Uploaded(_)) => (
            WorkerState::Claiming,
            WorkerAction::Claim,
        ),
        (_, _) => (WorkerState::Failed, WorkerAction::Surface(B2Error::Unknown)),
    }
}

/// The parts that a worker holds after an event: one more when an upload
/// that it was waiting for succeeded, the same otherwise.
pub open spec fn worker_parts_after(
    state: WorkerState,
    event: WorkerEvent,
    parts: Seq<B2PartInfo>,
) -> Seq<B2PartInfo> {
    match (state, event) {
        (WorkerState::Uploading(_), WorkerEvent::Uploaded(part)) => parts.push(part),
        (_, _) => parts,
    }
}

/// A worker of a large upload, with the parts that it has uploaded so far.
#[derive(Debug)]
pub struct PartWorker {
    state: WorkerState,
    parts: Vec<B2PartInfo>,
}

impl PartWorker {
    /// Where the worker stands.
    pub closed spec fn spec_state(&self) -> WorkerState {
        self.state
    }

    /// The parts uploaded so far, in the order in which they were taken.
    pub closed spec fn spec_parts(&self) -> Seq<B2PartInfo> {
        self.parts@
    }

    /// A worker that has not started.
    pub fn new() -> (worker: Self)
        ensures
            worker.spec_state() == WorkerState::Idle,
            worker.spec_parts() == Seq::<B2PartInfo>::empty(),
    {
        PartWorker { state: WorkerState::Idle, parts: Vec::new() }
    }

    /// Where the worker stands.
    pub fn state(&self) -> (state: &WorkerState)
        ensures
            *state == self.spec_state(),
    {
        &self.state
    }

    /// Whether the worker has reached `Done` or `Failed`.
    pub fn is_terminal(&self) -> (terminal: bool)
        ensures
            terminal == (self.spec_state() is Done || self.spec_state() is Failed),
    {
        matches!(self.state, WorkerState::Done | WorkerState::Failed)
    }

    /// Takes one event and says what to do next.
    pub fn step(&mut self, event: WorkerEvent) -> (action: WorkerAction)
        ensures
            (final(self).spec_state(), action) == worker_transition(old(self).spec_state(), event),
            final(self).spec_parts() == worker_parts_after(
                old(self).spec_state(),
                event,
                old(self).spec_parts(),
            ),
    {
        let mut state = WorkerState::Failed;
        std::mem::swap(&mut self.state, &mut state);
        let (next, action) = match (state, event) {
            (WorkerState::Done, _) => (WorkerState::Done, WorkerAction::Stop),
            (WorkerState::Failed, _) => (WorkerState::Failed, WorkerAction::Stop),
            (_, WorkerEvent::Failure(e)) => (WorkerState::Failed, WorkerAction::Surface(e)),
            (WorkerState::Idle, WorkerEvent::Start) => (WorkerState::Claiming, WorkerAction::Claim),
            (WorkerState::Claiming, WorkerEvent::Claimed(None)) => (
                WorkerState::Done,
                WorkerAction::Stop,
            ),
            (WorkerState::Claiming, WorkerEvent::Claimed(Some(part))) => (
                WorkerState::Hashing(part),
                WorkerAction::Hash(part.range),
            ),
            (WorkerState::Hashing(part), WorkerEvent::Hashed(content_sha1)) => (
                WorkerState::Streaming(
                    PartDescriptor {
                        part_number: part.part_number,
                        range: part.range,
                        content_sha1,
                    },
                ),
                WorkerAction::Stream(part.range),
            ),
            (WorkerState::Streaming(descriptor), WorkerEvent::BodyReady) => {
                let copy = descriptor.clone();
                (WorkerState::Uploading(descriptor), WorkerAction::Upload(copy))
            },
            (WorkerState::Uploading(_), WorkerEvent::Uploaded(part)) => {
                self.parts.push(part);
                (WorkerState::Claiming, WorkerAction::Claim)
            },
            (_, _) => (WorkerState::Failed, WorkerAction::Surface(B2Error::Unknown)),
        };
        self.state = next;
        action
    }

    /// The parts that the worker uploaded, in the order in which the service
    /// took them.
    pub fn into_parts(self) -> (parts: Vec<B2PartInfo>)
        ensures
            parts@ == self.spec_parts(),
    {
        self.parts
    }

    /// What the worker ended with: its parts, and the error that it stopped
    /// on, if its driver was told to report one.
    pub fn into_outcome(self, failure: Option<B2Error>) -> (outcome: WorkerOutcome)
        ensures
            outcome.parts@ == self.spec_parts(),
            outcome.failure == failure,
    {
        WorkerOutcome { parts: self.parts, failure }
    }
}

/// The digest that goes with a part is the digest of the bytes that are
/// sent: from the claim of a part to its upload a worker hashes, streams and
/// describes one and the same range, under the number that was claimed.
pub proof fn lemma_worker_sends_what_it_hashed(part: PartAssignment, content_sha1: String)
    ensures
        ({
            let claimed = worker_transition(
                WorkerState::Claiming,
                WorkerEvent::Claimed(Some(part)),
            );
            let hashed = worker_transition(claimed.0, WorkerEvent::Hashed(content_sha1));
            let ready = worker_transition(hashed.0, WorkerEvent::BodyReady);
            let descriptor = PartDescriptor {
                part_number: part.part_number,
                range: part.range,
                content_sha1,
            };
            &&& claimed.1 == WorkerAction::Hash(part.range)
            &&& hashed.1 == WorkerAction::Stream(part.range)
            &&& ready == (WorkerState::Uploading(descriptor), WorkerAction::Upload(descriptor))
        }),
{
}

/// A worker goes on to the next part after each part that the service took,
/// and ends when the allocator has no part left.
pub proof fn lemma_worker_claims_until_parts_run_out(descriptor: PartDescriptor, taken: B2PartInfo)
    ensures
        worker_transition(WorkerState::Uploading(descriptor), WorkerEvent::Uploaded(taken)) == (
            WorkerState::Claiming,
            WorkerAction::Claim,
        ),
        worker_transition(WorkerState::Claiming, WorkerEvent::Claimed(None)) == (
            WorkerState::Done,
            WorkerAction::Stop,
        ),
{
}

/// A failure at any step ends the worker: the error is reported once, and
/// whatever comes after, the worker claims no further part.
pub proof fn lemma_failed_worker_stops(state: WorkerState, error: B2Error, later: WorkerEvent)
    requires
        !(state is Done) && !(state is Failed),
    ensures
        worker_transition(state, WorkerEvent::Failure(error)) == (
            WorkerState::Failed,
            WorkerAction::Surface(error),
        ),
        worker_transition(WorkerState::Failed, later) == (WorkerState::Failed, WorkerAction::Stop),
        worker_transition(WorkerState::Done, later) == (WorkerState::Done, WorkerAction::Stop),
{
}

} // verus!
