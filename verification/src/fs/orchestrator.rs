//! The steps of one upload from a path, in the order in which they are taken:
//! open the file, name it, decide between one piece and parts, and then
//! either hash and upload the whole file, or start a large file, run the
//! workers, put their parts in order and finish.

use crate::error::B2Error;
use crate::fs::collect_parts;
use crate::fs::first_failure;
use crate::fs::joined_parts;
use crate::fs::parts::part_count;
use crate::fs::parts::PartAllocator;
use crate::fs::parts::PartLayout;
use crate::fs::resolve_file_name;
use crate::fs::resolved_file_name;
use crate::fs::simultaneous_uploads;
use crate::fs::spec_upload_failure;
use crate::fs::upload_failure;
use crate::fs::upload_limit;
use crate::fs::upload_mode;
use crate::fs::NewFileFromPath;
use crate::fs::UploadFailure;
use crate::fs::UploadMode;
use crate::fs::WorkerOutcome;
use crate::large_file::first_disorder;
use crate::large_file::sort_parts;
use crate::large_file::strictly_ascending;
use crate::large_file::LargeFileUpload;
use crate::models::B2FileInfo;
use crate::models::B2PartInfo;
use crate::ranges::ByteRange;
use crate::text::id_text;
use crate::text::str_text;
use crate::types::NewFileInfo;
use crate::types::NewLargeFileInfo;
use vstd::prelude::*;

verus! {

/// What is known of a file once it is open.
#[derive(Debug)]
pub struct FileFacts {
    /// Length of the file in bytes.
    pub length: u64,
    /// The part size that the service recommends.
    pub recommended_part_size: u64,
    /// The last component of the file's path, if the path has one.
    pub base_name: Option<String>,
    /// The number of threads that the machine says it can run at one time,
    /// if it says anything.
    pub available_parallelism: Option<usize>,
}

/// Where an upload stands.
#[derive(Debug, Clone, Copy, PartialEq, Eq, Structural)]
pub enum UploadPhase {
    /// The file has not been opened.
    Start,
    /// One piece: an upload URL is awaited.
    AwaitingUrl,
    /// One piece: the digest of the whole file is computed.
    HashingWhole,
    /// One piece: the upload is under way.
    UploadingWhole,
    /// Parts: the large file is being started.
    StartingLargeFile,
    /// Parts: the workers are running.
    RunningWorkers,
    /// Parts: the file is being finished.
    Finishing,
    /// The upload has returned.
    Done,
}

/// What happened since the upload's last step.
#[derive(Debug)]
pub enum UploadEvent {
    /// The file is open, and this is known of it.
    Opened(FileFacts),
    /// An upload URL is at hand.
    UrlReady,
    /// The digest of the whole file, in lower-case hex.
    Hashed(String),
    /// The service has stored the file: the answer to the upload of the
    /// whole file, or to `finish`.
    Stored(B2FileInfo),
    /// The large file is started.
    Started(LargeFileUpload),
    /// Every worker has ended.
    WorkersEnded { large: LargeFileUpload, outcomes: Vec<WorkerOutcome> },
    /// The step failed for good.
    Failure(B2Error),
}

/// What the upload's driver does next.
#[derive(Debug)]
pub enum UploadAction {
    /// Get an upload URL for the bucket.
    GetUploadUrl,
    /// Compute the digest of these bytes, the whole file.
    HashWhole(ByteRange),
    /// Upload these bytes, the whole file, with `whole_file_info`.
    UploadWhole(ByteRange),
    /// Start a large file with `large_file_info`.
    StartLargeFile,
    /// Run `workers` workers, each with a file handle and an upload URL of
    /// its own, on the parts that the allocator hands out, until each has
    /// ended.
    RunWorkers { large: LargeFileUpload, allocator: PartAllocator, workers: usize },
    /// Finish the large file with these parts, which are in order.
    Finish { large: LargeFileUpload, parts: Vec<B2PartInfo> },
    /// Return this to the caller.
    Return(Result<B2FileInfo, UploadFailure>),
}

/// One upload from a path.
#[derive(Debug)]
pub struct UploadOrchestrator<'a> {
    info: &'a NewFileFromPath<'a>,
    has_url: bool,
    phase: UploadPhase,
    file_name: String,
    length: u64,
    content_sha1: String,
    layout: Option<PartLayout>,
    workers: usize,
    uploaded: usize,
    session: Option<LargeFileUpload>,
}

impl<'a> UploadOrchestrator<'a> {
    /// Where the upload stands.
    pub closed spec fn spec_phase(&self) -> UploadPhase {
        self.phase
    }

    /// The file to upload, with its settings.
    pub closed spec fn spec_info(&self) -> NewFileFromPath<'a> {
        *self.info
    }

    /// Whether the caller brought an upload URL of its own.
    pub closed spec fn spec_has_url(&self) -> bool {
        self.has_url
    }

    /// The name under which the file is stored, once it is settled.
    pub closed spec fn spec_file_name(&self) -> Seq<char> {
        self.file_name@
    }

    /// Length of the file in bytes, once it is known.
    pub closed spec fn spec_length(&self) -> u64 {
        self.length
    }

    /// The digest of the whole file, once it is computed.
    pub closed spec fn spec_content_sha1(&self) -> Seq<char> {
        self.content_sha1@
    }

    /// The parts of the file, where it goes in parts.
    pub closed spec fn spec_layout(&self) -> Option<PartLayout> {
        self.layout
    }

    /// Number of workers, where the file goes in parts.
    pub closed spec fn spec_workers(&self) -> usize {
        self.workers
    }

    /// Number of parts that the service has taken, as far as the upload
    /// knows.
    pub closed spec fn spec_uploaded(&self) -> usize {
        self.uploaded
    }

    /// The large file that a failed upload has left open.
    pub closed spec fn spec_session(&self) -> Option<LargeFileUpload> {
        self.session
    }

    /// What was settled when the file was opened stays as it is.
    pub open spec fn spec_same_file(&self, other: &Self) -> bool {
        &&& self.spec_info() == other.spec_info()
        &&& self.spec_has_url() == other.spec_has_url()
        &&& self.spec_file_name() == other.spec_file_name()
        &&& self.spec_length() == other.spec_length()
        &&& self.spec_layout() == other.spec_layout()
        &&& self.spec_workers() == other.spec_workers()
    }

    /// An upload of the file that `info` describes, before its first step.
    /// `has_url` says whether the caller brought an upload URL of its own,
    /// which an upload in one piece then uses.
    pub fn new(info: &'a NewFileFromPath<'a>, has_url: bool) -> (upload: Self)
        ensures
            upload.spec_phase() == UploadPhase::Start,
            upload.spec_info() == *info,
            upload.spec_has_url() == has_url,
            upload.spec_uploaded() == 0,
            upload.spec_session() is None,
            upload.spec_layout() is None,
    {
        UploadOrchestrator {
            info,
            has_url,
            phase: UploadPhase::Start,
            file_name: String::new(),
            length: 0,
            content_sha1: String::new(),
            layout: None,
            workers: 0,
            uploaded: 0,
            session: None,
        }
    }

    /// Where the upload stands.
    pub fn phase(&self) -> (phase: UploadPhase)
        ensures
            phase == self.spec_phase(),
    {
        self.phase
    }

    /// The info with which the whole file is uploaded: its name, length and
    /// digest as they were settled, and the settings that came with the
    /// file.
    pub fn whole_file_info(&self) -> (info: NewFileInfo<'_>)
        ensures
            info.file_name@ == self.spec_file_name(),
            info.content_length == self.spec_length(),
            info.content_sha1@ == self.spec_content_sha1(),
            info.content_type == self.spec_info().content_type,
            info.encryption == self.spec_info().encryption,
            info.retention == self.spec_info().retention,
            info.legal_hold == self.spec_info().legal_hold,
    {
        self.info.whole_file_info(
            self.file_name.as_str(),
            self.length,
            self.content_sha1.as_str(),
        )
    }

    /// The info with which the large file is started: its name as it was
    /// settled, and the settings that came with the file.
    pub fn large_file_info(&self) -> (info: NewLargeFileInfo<'_>)
        ensures
            info.file_name@ == self.spec_file_name(),
            info.content_type == self.spec_info().content_type,
            info.encryption == self.spec_info().encryption,
            info.retention == self.spec_info().retention,
            info.legal_hold == self.spec_info().legal_hold,
    {
        self.info.large_file_info(self.file_name.as_str())
    }

    /// The large file that a failed upload has left open with the service,
    /// if it has started one and not tried to finish it: the caller may look
    /// it up or cancel it.
    pub fn into_session(self) -> (session: Option<LargeFileUpload>)
        ensures
            session == self.spec_session(),
    {
        self.session
    }

    /// Ends the upload with `error`.
    fn fail(&mut self, error: B2Error) -> (action: UploadAction)
        ensures
            final(self).spec_phase() == UploadPhase::Done,
            final(self).spec_same_file(old(self)),
            final(self).spec_uploaded() == old(self).spec_uploaded(),
            final(self).spec_session() == old(self).spec_session(),
            action == UploadAction::Return(
                Err(spec_upload_failure(error, old(self).spec_uploaded())),
            ),
    {
        self.phase = UploadPhase::Done;
        UploadAction::Return(Err(upload_failure(error, self.uploaded)))
    }

    /// Takes one event and says what to do next.
    ///
    /// The file's name is settled before anything is asked of the service. A
    /// file no longer than the recommended part size goes in one piece, with
    /// the digest of the whole file; a longer one goes in parts. The parts
    /// that come back from the workers are put in order, and `finish` is
    /// asked for only with a list that rises strictly. A failure at any step
    /// ends the upload and says how many parts the service has taken; an
    /// event that the phase does not wait for ends it with
    /// `B2Error::Unknown`.
    pub fn step(&mut self, event: UploadEvent) -> (action: UploadAction)
        requires
            event matches UploadEvent::Opened(facts) ==> facts.recommended_part_size > 0
                || facts.length == 0,
        ensures
            upload_step(*old(self), event, *final(self), action),
    {
        match (self.phase, event) {
            (UploadPhase::Done, _) => self.fail(B2Error::Unknown),
            (_, UploadEvent::Failure(error)) => self.fail(error),
            (UploadPhase::Start, UploadEvent::Opened(facts)) => {
                let base_name: Option<&str> = match &facts.base_name {
                    Some(name) => Some(name.as_str()),
                    None => None,
                };
                match resolve_file_name(self.info.file_name, base_name) {
                    Err(error) => self.fail(error),
                    Ok(file_name) => {
                        self.file_name = file_name;
                        self.length = facts.length;
                        match upload_mode(facts.length, facts.recommended_part_size) {
                            UploadMode::Single => {
                                if self.has_url {
                                    self.phase = UploadPhase::HashingWhole;
                                    UploadAction::HashWhole(
                                        ByteRange { start: 0, end: facts.length },
                                    )
                                } else {
                                    self.phase = UploadPhase::AwaitingUrl;
                                    UploadAction::GetUploadUrl
                                }
                            },
                            UploadMode::Large(layout) => {
                                self.workers = simultaneous_uploads(
                                    layout.part_count(),
                                    self.info.max_simultaneous_uploads,
                                    facts.available_parallelism,
                                );
                                self.layout = Some(layout);
                                self.phase = UploadPhase::StartingLargeFile;
                                UploadAction::StartLargeFile
                            },
                        }
                    },
                }
            },
            (UploadPhase::AwaitingUrl, UploadEvent::UrlReady) => {
                self.phase = UploadPhase::HashingWhole;
                UploadAction::HashWhole(ByteRange { start: 0, end: self.length })
            },
            (UploadPhase::HashingWhole, UploadEvent::Hashed(content_sha1)) => {
                self.content_sha1 = content_sha1;
                self.phase = UploadPhase::UploadingWhole;
                UploadAction::UploadWhole(ByteRange { start: 0, end: self.length })
            },
            (UploadPhase::UploadingWhole, UploadEvent::Stored(file)) => {
                self.phase = UploadPhase::Done;
                UploadAction::Return(Ok(file))
            },
            (UploadPhase::StartingLargeFile, UploadEvent::Started(large)) => {
                match self.layout.take() {
                    Some(layout) => {
                        self.phase = UploadPhase::RunningWorkers;
                        UploadAction::RunWorkers {
                            large,
                            allocator: PartAllocator::new(layout),
                            workers: self.workers,
                        }
                    },
                    None => {
                        self.session = Some(large);
                        self.fail(B2Error::Unknown)
                    },
                }
            },
            (UploadPhase::RunningWorkers, UploadEvent::WorkersEnded { large, outcomes }) => {
                match collect_parts(outcomes) {
                    Err(failure) => {
                        self.session = Some(large);
                        self.phase = UploadPhase::Done;
                        UploadAction::Return(Err(failure))
                    },
                    Ok(mut parts) => {
                        sort_parts(&mut parts);
                        self.uploaded = parts.len();
                        match first_disorder(parts.as_slice()) {
                            Some(_) => {
                                self.session = Some(large);
                                self.fail(B2Error::InvalidPartSorting)
                            },
                            None => {
                                self.phase = UploadPhase::Finishing;
                                UploadAction::Finish { large, parts }
                            },
                        }
                    },
                }
            },
            (UploadPhase::Finishing, UploadEvent::Stored(file)) => {
                self.phase = UploadPhase::Done;
                UploadAction::Return(Ok(file))
            },
            (_, _) => self.fail(B2Error::Unknown),
        }
    }
}

/// The upload has ended with `error`, and nothing else has changed.
pub open spec fn upload_failed(
    before: UploadOrchestrator,
    after: UploadOrchestrator,
    action: UploadAction,
    error: B2Error,
) -> bool {
    &&& after.spec_phase() == UploadPhase::Done
    &&& after.spec_same_file(&before)
    &&& after.spec_uploaded() == before.spec_uploaded()
    &&& after.spec_session() == before.spec_session()
    &&& action == UploadAction::Return(Err(spec_upload_failure(error, before.spec_uploaded())))
}

/// The upload has gone on to `phase`, and nothing else has changed.
pub open spec fn upload_moved(
    before: UploadOrchestrator,
    after: UploadOrchestrator,
    phase: UploadPhase,
) -> bool {
    &&& after.spec_phase() == phase
    &&& after.spec_same_file(&before)
    &&& after.spec_content_sha1() == before.spec_content_sha1()
    &&& after.spec_uploaded() == before.spec_uploaded()
    &&& after.spec_session() == before.spec_session()
}

/// What follows when the file has been opened: without a name the upload
/// ends with `MissingFileName`, before anything is asked of the service.
/// With one, a file no longer than the recommended part size goes in one
/// piece, and is hashed at once where the caller brought an upload URL; a
/// longer file goes in parts, with as many workers as may run at one time,
/// but no more than there are parts.
pub open spec fn upload_opened(
    before: UploadOrchestrator,
    facts: FileFacts,
    after: UploadOrchestrator,
    action: UploadAction,
) -> bool {
    match resolved_file_name(str_text(before.spec_info().file_name), id_text(facts.base_name)) {
        None => upload_failed(before, after, action, B2Error::MissingFileName),
        Some(name) => {
            &&& after.spec_info() == before.spec_info()
            &&& after.spec_has_url() == before.spec_has_url()
            &&& after.spec_file_name() == name
            &&& after.spec_length() == facts.length
            &&& after.spec_uploaded() == before.spec_uploaded()
            &&& after.spec_session() == before.spec_session()
            &&& if facts.length <= facts.recommended_part_size {
                &&& after.spec_layout() == before.spec_layout()
                &&& if before.spec_has_url() {
                    &&& after.spec_phase() == UploadPhase::HashingWhole
                    &&& action == UploadAction::HashWhole(
                        ByteRange { start: 0, end: facts.length },
                    )
                } else {
                    &&& after.spec_phase() == UploadPhase::AwaitingUrl
                    &&& action == UploadAction::GetUploadUrl
                }
            } else {
                &&& after.spec_phase() == UploadPhase::StartingLargeFile
                &&& action == UploadAction::StartLargeFile
                &&& after.spec_layout() matches Some(layout)
                &&& layout.wf()
                &&& layout.spec_length() == facts.length
                &&& layout.spec_part_size() == facts.recommended_part_size
                &&& after.spec_workers() == if part_count(
                    facts.length,
                    facts.recommended_part_size,
                ) <= upload_limit(
                    before.spec_info().max_simultaneous_uploads,
                    facts.available_parallelism,
                ) {
                    part_count(facts.length, facts.recommended_part_size)
                } else {
                    upload_limit(
                        before.spec_info().max_simultaneous_uploads,
                        facts.available_parallelism,
                    )
                }
            }
        },
    }
}

/// What follows when every worker has ended. If one failed, the upload ends
/// with the failure of the first that did, and keeps the large file for the
/// caller. Else the parts are put in order: `finish` is asked for with the
/// same parts in an order that rises strictly, or, where no such order is to
/// be had, the upload ends with `InvalidPartSorting` and nothing is sent. A
/// list that holds each part once is finished.
pub open spec fn upload_workers_ended(
    before: UploadOrchestrator,
    large: LargeFileUpload,
    outcomes: Seq<WorkerOutcome>,
    after: UploadOrchestrator,
    action: UploadAction,
) -> bool {
    let taken = joined_parts(outcomes, outcomes.len());
    &&& after.spec_same_file(&before)
    &&& match first_failure(outcomes, outcomes.len()) {
        Some(error) => {
            &&& after.spec_phase() == UploadPhase::Done
            &&& after.spec_session() == Some(large)
            &&& after.spec_uploaded() == before.spec_uploaded()
            &&& taken.len() <= usize::MAX
            &&& action == UploadAction::Return(
                Err(spec_upload_failure(error, taken.len() as usize)),
            )
        },
        None => match action {
            UploadAction::Finish { large: session, parts } => {
                &&& session == large
                &&& parts@.to_multiset() == taken.to_multiset()
                &&& strictly_ascending(parts@)
                &&& after.spec_phase() == UploadPhase::Finishing
                &&& after.spec_uploaded() == parts@.len()
                &&& after.spec_session() == before.spec_session()
            },
            UploadAction::Return(result) => {
                &&& result == Err::<B2FileInfo, UploadFailure>(
                    UploadFailure::InvalidParts(B2Error::InvalidPartSorting),
                )
                &&& !crate::large_file::holds_each_part_once(taken, taken.len())
                &&& after.spec_phase() == UploadPhase::Done
                &&& after.spec_session() == Some(large)
            },
            _ => false,
        },
    }
}

/// One step of an upload: what `after` and `action` are, given `before` and
/// `event`.
pub open spec fn upload_step(
    before: UploadOrchestrator,
    event: UploadEvent,
    after: UploadOrchestrator,
    action: UploadAction,
) -> bool {
    match (before.spec_phase(), event) {
        (UploadPhase::Done, _) => upload_failed(before, after, action, B2Error::Unknown),
        (_, UploadEvent::Failure(error)) => upload_failed(before, after, action, error),
        (UploadPhase::Start, UploadEvent::Opened(facts)) => upload_opened(
            before,
            facts,
            after,
            action,
        ),
        (UploadPhase::AwaitingUrl, UploadEvent::UrlReady) => {
            &&& upload_moved(before, after, UploadPhase::HashingWhole)
            &&& action == UploadAction::HashWhole(
                ByteRange { start: 0, end: before.spec_length() },
            )
        },
        (UploadPhase::HashingWhole, UploadEvent::Hashed(content_sha1)) => {
            &&& after.spec_phase() == UploadPhase::UploadingWhole
            &&& after.spec_same_file(&before)
            &&& after.spec_content_sha1() == content_sha1@
            &&& after.spec_uploaded() == before.spec_uploaded()
            &&& after.spec_session() == before.spec_session()
            &&& action == UploadAction::UploadWhole(
                ByteRange { start: 0, end: before.spec_length() },
            )
        },
        (UploadPhase::UploadingWhole, UploadEvent::Stored(file)) => {
            &&& upload_moved(before, after, UploadPhase::Done)
            &&& action == UploadAction::Return(Ok(file))
        },
        (UploadPhase::StartingLargeFile, UploadEvent::Started(large)) => match before.spec_layout() {
            Some(layout) => {
                &&& after.spec_phase() == UploadPhase::RunningWorkers
                &&& action matches UploadAction::RunWorkers { large: session, allocator, workers }
                &&& session == large
                &&& allocator.spec_layout() == layout
                &&& workers == before.spec_workers()
                &&& after.spec_session() == before.spec_session()
                &&& after.spec_uploaded() == before.spec_uploaded()
            },
            None => {
                &&& after.spec_phase() == UploadPhase::Done
                &&& after.spec_session() == Some(large)
                &&& action == UploadAction::Return(
                    Err(spec_upload_failure(B2Error::Unknown, before.spec_uploaded())),
                )
            },
        },
        (UploadPhase::RunningWorkers, UploadEvent::WorkersEnded { large, outcomes }) => {
            upload_workers_ended(before, large, outcomes@, after, action)
        },
        (UploadPhase::Finishing, UploadEvent::Stored(file)) => {
            &&& upload_moved(before, after, UploadPhase::Done)
            &&& action == UploadAction::Return(Ok(file))
        },
        (_, _) => upload_failed(before, after, action, B2Error::Unknown),
    }
}

/// `finish` is asked for only when the workers have ended without a
/// failure, and only with a list of parts that is sorted by part number and
/// holds no number twice.
pub proof fn lemma_finish_only_with_parts_in_order(
    before: UploadOrchestrator,
    event: UploadEvent,
    after: UploadOrchestrator,
    action: UploadAction,
)
    requires
        upload_step(before, event, after, action),
        action is Finish,
    ensures
        before.spec_phase() == UploadPhase::RunningWorkers,
        event matches UploadEvent::WorkersEnded { outcomes, .. } && first_failure(
            outcomes@,
            outcomes@.len(),
        ) is None,
        action matches UploadAction::Finish { parts, .. } && strictly_ascending(parts@),
{
}

/// Where the workers have ended without a failure and the service has taken
/// each part once, the upload goes on to `finish`, with part 1 first, part 2
/// second and so on.
pub proof fn lemma_complete_parts_are_finished(
    before: UploadOrchestrator,
    large: LargeFileUpload,
    outcomes: Vec<WorkerOutcome>,
    after: UploadOrchestrator,
    action: UploadAction,
)
    requires
        before.spec_phase() == UploadPhase::RunningWorkers,
        upload_step(before, UploadEvent::WorkersEnded { large, outcomes }, after, action),
        first_failure(outcomes@, outcomes@.len()) is None,
        crate::large_file::holds_each_part_once(
            joined_parts(outcomes@, outcomes@.len()),
            joined_parts(outcomes@, outcomes@.len()).len(),
        ),
    ensures
        action matches UploadAction::Finish { parts, .. } && crate::large_file::numbered_in_order(
            parts@,
        ),
{
    let taken = joined_parts(outcomes@, outcomes@.len());
    match action {
        UploadAction::Finish { large: session, parts } => {
            crate::large_file::lemma_reordering_keeps_each_part(taken, parts@, taken.len());
            crate::large_file::lemma_strictly_ascending_is_sorted_and_distinct(parts@);
            crate::large_file::lemma_sorted_parts_are_numbered_in_order(parts@, taken.len());
        },
        _ => {},
    }
}

/// A file for which no name can be had ends the upload when it is opened,
/// before anything is asked of the service.
pub proof fn lemma_nameless_file_asks_nothing(
    before: UploadOrchestrator,
    facts: FileFacts,
    after: UploadOrchestrator,
    action: UploadAction,
)
    requires
        before.spec_phase() == UploadPhase::Start,
        upload_step(before, UploadEvent::Opened(facts), after, action),
        resolved_file_name(str_text(before.spec_info().file_name), id_text(facts.base_name))
            is None,
    ensures
        after.spec_phase() == UploadPhase::Done,
        action == UploadAction::Return(
            Err(spec_upload_failure(B2Error::MissingFileName, before.spec_uploaded())),
        ),
{
}

/// A file no longer than the recommended part size goes in one piece, and a
/// longer one in parts.
pub proof fn lemma_length_decides_the_mode(
    before: UploadOrchestrator,
    facts: FileFacts,
    after: UploadOrchestrator,
    action: UploadAction,
)
    requires
        before.spec_phase() == UploadPhase::Start,
        upload_step(before, UploadEvent::Opened(facts), after, action),
        resolved_file_name(str_text(before.spec_info().file_name), id_text(facts.base_name))
            is Some,
    ensures
        facts.length <= facts.recommended_part_size <==> (action is GetUploadUrl
            || action is HashWhole),
        facts.length > facts.recommended_part_size <==> action is StartLargeFile,
{
}

} // verus!
