//! Uploading a file from the local file system: whether it goes in one piece
//! or in parts, with how many workers, and what becomes of their results.

pub mod hasher;
pub mod orchestrator;
pub mod parts;
pub mod streamer;
mod tickets;
pub mod worker;

use crate::error::B2Error;
use crate::fs::parts::PartLayout;
use crate::models::B2PartInfo;
use crate::text::str_text;
use crate::types::sse::ServerSideEncryption;
use crate::types::FileRetention;
use crate::types::NewFileInfo;
use crate::types::NewLargeFileInfo;
use vstd::prelude::*;

verus! {

/// Number of bytes read from a file at a time, for hashing and for streaming.
pub const DEFAULT_BUF_SIZE: usize = 8 * 1024;

/// The most uploads that run at one time when their number is left to the
/// machine.
pub const MAX_DETECTED_UPLOADS: usize = 4;

/// Information for a new file to be uploaded.
#[derive(Debug)]
pub struct NewFileFromPath<'a> {
    /// Where the file lies on the local file system.
    pub path: &'a str,
    /// The name of the new file.
    ///
    /// If not provided, the file name will be the same as the file
    /// name on the local file system.
    pub file_name: Option<&'a str>,
    /// The MIME type of the file.
    pub content_type: Option<&'a str>,
    /// The maximum number of connections to use when uploading the file.
    ///
    /// If set to 0, the default number of connections will be used.
    ///
    /// The default is currently a maximum of 4 connections,
    /// depending on the number of available threads.
    pub max_simultaneous_uploads: u8,
    /// The server-side encryption to use when uploading the file.
    pub encryption: ServerSideEncryption,
    /// The file retention settings to apply to the file.
    pub retention: Option<FileRetention>,
    /// Whether to apply a legal hold to the file.
    pub legal_hold: Option<bool>,
}

/// How a file is uploaded.
#[derive(Debug)]
pub enum UploadMode {
    /// In one request, as a single file.
    Single,
    /// As a large file, in the parts of this layout.
    Large(PartLayout),
}

/// The name under which a file is stored: the one given, or else the base
/// name of its path; `None` where neither is there or the name is empty.
pub open spec fn resolved_file_name(explicit: Option<Seq<char>>, base_name: Option<Seq<char>>) -> Option<
    Seq<char>,
> {
    let name = match explicit {
        Some(name) => Some(name),
        None => base_name,
    };
    match name {
        Some(name) if name.len() > 0 => Some(name),
        _ => None,
    }
}

/// The name under which a file is stored, or `MissingFileName` where none can
/// be had. `base_name` is the last component of the file's path, if the path
/// has one.
pub fn resolve_file_name(explicit: Option<&str>, base_name: Option<&str>) -> (result: Result<
    String,
    B2Error,
>)
    ensures
        match result {
            Ok(name) => resolved_file_name(str_text(explicit), str_text(base_name)) == Some(
                name@,
            ),
            Err(e) => resolved_file_name(str_text(explicit), str_text(base_name)) is None && e
                == B2Error::MissingFileName,
        },
{
    let name: &str = match explicit {
        Some(name) => name,
        None => match base_name {
            Some(name) => name,
            None => {
                return Err(B2Error::MissingFileName);
            },
        },
    };
    if name.is_empty() {
        return Err(B2Error::MissingFileName);
    }
    Ok(name.to_owned())
}

/// Decides how a file of `length` bytes is uploaded when the service
/// recommends parts of `recommended_part_size` bytes: in one piece if it is
/// no longer than one part, else in `ceil(length / recommended_part_size)`
/// parts.
pub fn upload_mode(length: u64, recommended_part_size: u64) -> (mode: UploadMode)
    requires
        recommended_part_size > 0 || length == 0,
    ensures
        match mode {
            UploadMode::Single => length <= recommended_part_size,
            UploadMode::Large(layout) => {
                &&& length > recommended_part_size
                &&& layout.wf()
                &&& layout.spec_length() == length
                &&& layout.spec_part_size() == recommended_part_size
                &&& layout.spec_part_count() == crate::fs::parts::part_count(
                    length,
                    recommended_part_size,
                )
                &&& layout.spec_part_count() >= 2
            },
        },
{
    if length <= recommended_part_size {
        return UploadMode::Single;
    }
    let layout = PartLayout::new(length, recommended_part_size);
    proof {
        crate::ranges::lemma_tile_count_is_ceiling(length as nat, recommended_part_size as nat);
        let n = layout.spec_part_count();
        if n < 2 {
            assert(n * recommended_part_size <= recommended_part_size) by (nonlinear_arith)
                requires
                    n <= 1,
                    recommended_part_size > 0,
            ;
        }
    }
    UploadMode::Large(layout)
}

/// The number of uploads that run at one time when the caller asks for
/// `max_simultaneous_uploads`: that number, or, where it is 0, the machine's
/// parallelism up to `MAX_DETECTED_UPLOADS`, or 1 where that is not known.
pub open spec fn upload_limit(max_simultaneous_uploads: u8, available_parallelism: Option<usize>) -> nat {
    if max_simultaneous_uploads != 0 {
        max_simultaneous_uploads as nat
    } else {
        match available_parallelism {
            Some(threads) => if threads <= MAX_DETECTED_UPLOADS {
                threads as nat
            } else {
                MAX_DETECTED_UPLOADS as nat
            },
            None => 1,
        }
    }
}

/// The number of workers that upload a large file of `num_parts` parts: as
/// many as may run at one time, but no more than there are parts.
/// `available_parallelism` is the number of threads that the machine says it
/// can run at one time, if it says anything.
pub fn simultaneous_uploads(
    num_parts: u64,
    max_simultaneous_uploads: u8,
    available_parallelism: Option<usize>,
) -> (workers: usize)
    ensures
        workers == if num_parts <= upload_limit(max_simultaneous_uploads, available_parallelism) {
            num_parts as nat
        } else {
            upload_limit(max_simultaneous_uploads, available_parallelism)
        },
        workers <= 255,
{
    let limit: usize = if max_simultaneous_uploads != 0 {
        max_simultaneous_uploads as usize
    } else {
        match available_parallelism {
            Some(threads) => if threads <= MAX_DETECTED_UPLOADS {
                threads
            } else {
                MAX_DETECTED_UPLOADS
            },
            None => 1,
        }
    };
    if num_parts <= limit as u64 {
        num_parts as usize
    } else {
        limit
    }
}

impl<'a> NewFileFromPath<'a> {
    /// The info of the upload when the file goes in one piece: the name
    /// under which it is stored, its length and digest, and the settings
    /// that came with the file.
    pub fn whole_file_info<'b>(
        &self,
        file_name: &'b str,
        content_length: u64,
        content_sha1: &'b str,
    ) -> (info: NewFileInfo<'b>)
        where 'a: 'b
        ensures
            info.file_name@ == file_name@,
            info.content_length == content_length,
            info.content_sha1@ == content_sha1@,
            info.content_type == self.content_type,
            info.encryption == self.encryption,
            info.retention == self.retention,
            info.legal_hold == self.legal_hold,
    {
        NewFileInfo {
            file_name,
            content_length,
            content_type: self.content_type,
            content_sha1,
            encryption: self.encryption.clone(),
            retention: self.retention,
            legal_hold: self.legal_hold,
        }
    }

    /// The info that starts the upload when the file goes in parts: the name
    /// under which it is stored and the settings that came with the file.
    pub fn large_file_info<'b>(&self, file_name: &'b str) -> (info: NewLargeFileInfo<'b>)
        where 'a: 'b
        ensures
            info.file_name@ == file_name@,
            info.content_type == self.content_type,
            info.encryption == self.encryption,
            info.retention == self.retention,
            info.legal_hold == self.legal_hold,
    {
        NewLargeFileInfo {
            file_name,
            content_type: self.content_type,
            encryption: self.encryption.clone(),
            retention: self.retention,
            legal_hold: self.legal_hold,
        }
    }
}

/// What one worker of a large upload ended with.
#[derive(Debug)]
pub struct WorkerOutcome {
    /// The parts that the service took from the worker.
    pub parts: Vec<B2PartInfo>,
    /// The error that the worker stopped on, if it did not run out of parts.
    pub failure: Option<B2Error>,
}

/// Why an upload failed, and what it left with the service.
#[derive(Debug)]
pub enum UploadFailure {
    /// No byte of the file was taken by the service.
    NothingUploaded(B2Error),
    /// The service took `parts` parts of a large file, but the file was
    /// never finished: it is still open, and may be looked up or cancelled.
    Unfinished { parts: usize, error: B2Error },
    /// The list of parts did not pass the check that comes before `finish`;
    /// nothing was sent.
    InvalidParts(B2Error),
}

impl UploadFailure {
    /// The error behind the failure.
    pub open spec fn spec_error(&self) -> B2Error {
        match self {
            UploadFailure::NothingUploaded(error) => *error,
            UploadFailure::Unfinished { error, .. } => *error,
            UploadFailure::InvalidParts(error) => *error,
        }
    }

    /// The error behind the failure.
    pub fn into_error(self) -> (error: B2Error)
        ensures
            error == self.spec_error(),
    {
        match self {
            UploadFailure::NothingUploaded(error) => error,
            UploadFailure::Unfinished { error, .. } => error,
            UploadFailure::InvalidParts(error) => error,
        }
    }
}

/// The failure of an upload that stopped on `error` after the service had
/// taken `parts` parts.
pub open spec fn spec_upload_failure(error: B2Error, parts: usize) -> UploadFailure {
    if error is InvalidPartSorting {
        UploadFailure::InvalidParts(error)
    } else if parts == 0 {
        UploadFailure::NothingUploaded(error)
    } else {
        UploadFailure::Unfinished { parts, error }
    }
}

/// Says what an upload that stopped on `error` left behind, when the service
/// had taken `parts` parts by then: a list of parts that was refused before
/// anything was sent, nothing at all, or an unfinished large file.
pub fn upload_failure(error: B2Error, parts: usize) -> (failure: UploadFailure)
    ensures
        failure == spec_upload_failure(error, parts),
{
    if matches!(error, B2Error::InvalidPartSorting) {
        UploadFailure::InvalidParts(error)
    } else if parts == 0 {
        UploadFailure::NothingUploaded(error)
    } else {
        UploadFailure::Unfinished { parts, error }
    }
}

/// The parts of the first `n` workers, one worker's after the other's.
pub open spec fn joined_parts(outcomes: Seq<WorkerOutcome>, n: nat) -> Seq<B2PartInfo>
    decreases n,
{
    if n == 0 {
        Seq::empty()
    } else {
        joined_parts(outcomes, (n - 1) as nat) + outcomes[n - 1].parts@
    }
}

/// The error of the first of the first `n` workers that failed, if one did.
pub open spec fn first_failure(outcomes: Seq<WorkerOutcome>, n: nat) -> Option<B2Error>
    decreases n,
{
    if n == 0 {
        None
    } else {
        match first_failure(outcomes, (n - 1) as nat) {
            Some(error) => Some(error),
            None => outcomes[n - 1].failure,
        }
    }
}

/// Gathers what the workers of a large upload ended with, once every one of
/// them has ended. If no worker failed, the parts of all workers come back in
/// one list, not yet in order. Else the upload fails with the error of the
/// first worker in the list that failed, and the failure says how many parts
/// the service has taken all the same.
pub fn collect_parts(outcomes: Vec<WorkerOutcome>) -> (result: Result<
    Vec<B2PartInfo>,
    UploadFailure,
>)
    ensures
        match result {
            Ok(parts) => {
                &&& first_failure(outcomes@, outcomes@.len()) is None
                &&& parts@ == joined_parts(outcomes@, outcomes@.len())
            },
            Err(failure) => {
                &&& first_failure(outcomes@, outcomes@.len()) matches Some(error)
                &&& joined_parts(outcomes@, outcomes@.len()).len() <= usize::MAX
                &&& failure == spec_upload_failure(
                    error,
                    joined_parts(outcomes@, outcomes@.len()).len() as usize,
                )
            },
        },
{
    let mut parts: Vec<B2PartInfo> = Vec::new();
    let mut failure: Option<B2Error> = None;
    let ghost all = outcomes@;
    for outcome in it: outcomes
        invariant
            it.seq() == all,
            failure == first_failure(all, it.index() as nat),
            parts@ == joined_parts(all, it.index() as nat),
    {
        let WorkerOutcome { parts: mut more, failure: stopped } = outcome;
        parts.append(&mut more);
        if failure.is_none() {
            failure = stopped;
        }
    }
    match failure {
        Some(error) => Err(upload_failure(error, parts.len())),
        None => Ok(parts),
    }
}

} // verus!
