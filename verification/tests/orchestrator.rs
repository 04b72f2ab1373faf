use b2_client::fs::orchestrator::FileFacts;
use b2_client::fs::orchestrator::UploadAction;
use b2_client::fs::orchestrator::UploadEvent;
use b2_client::fs::orchestrator::UploadOrchestrator;
use b2_client::fs::orchestrator::UploadPhase;
use b2_client::fs::NewFileFromPath;
use b2_client::fs::UploadFailure;
use b2_client::fs::WorkerOutcome;
use b2_client::models::B2FileInfo;
use b2_client::models::B2PartInfo;
use b2_client::models::B2ServerSideEncryption;
use b2_client::ranges::ByteRange;
use b2_client::B2Error;
use b2_client::LargeFileUpload;
use b2_client::ServerSideEncryption;

fn file(file_name: Option<&'static str>, max_simultaneous_uploads: u8) -> NewFileFromPath<'static> {
    NewFileFromPath {
        path: "dir/data.bin",
        file_name,
        content_type: Some("application/x-data"),
        max_simultaneous_uploads,
        encryption: ServerSideEncryption::default(),
        retention: None,
        legal_hold: Some(true),
    }
}

fn facts(length: u64, part_size: u64) -> FileFacts {
    FileFacts {
        length,
        recommended_part_size: part_size,
        base_name: Some("data.bin".to_owned()),
        available_parallelism: Some(16),
    }
}

fn stored(name: &str) -> B2FileInfo {
    B2FileInfo { file_id: "stored".to_owned(), file_name: name.to_owned(), ..B2FileInfo::default() }
}

fn session() -> LargeFileUpload {
    LargeFileUpload::new(B2FileInfo { file_id: "large-1".to_owned(), ..B2FileInfo::default() })
}

fn outcome(numbers: &[u64], failure: Option<B2Error>) -> WorkerOutcome {
    WorkerOutcome {
        parts: numbers
            .iter()
            .map(|n| B2PartInfo {
                file_id: "large-1".to_owned(),
                part_number: *n,
                content_length: 100,
                content_sha1: format!("sha-{n}"),
                server_side_encryption: B2ServerSideEncryption::default(),
                upload_timestamp: 0,
            })
            .collect(),
        failure,
    }
}

#[test]
fn empty_file_goes_in_one_piece_with_the_digest_of_nothing() {
    let info = file(None, 0);
    let mut upload = UploadOrchestrator::new(&info, false);
    assert_eq!(upload.phase(), UploadPhase::Start);
    assert!(matches!(upload.step(UploadEvent::Opened(facts(0, 100))), UploadAction::GetUploadUrl));
    assert_eq!(upload.phase(), UploadPhase::AwaitingUrl);
    match upload.step(UploadEvent::UrlReady) {
        UploadAction::HashWhole(range) => assert_eq!(range, ByteRange { start: 0, end: 0 }),
        _ => panic!("the whole file is hashed once a URL is there"),
    }
    let digest = b2_client::fs::hasher::hash_chunk(&[], 0, 0);
    match upload.step(UploadEvent::Hashed(digest)) {
        UploadAction::UploadWhole(range) => assert_eq!(range, ByteRange { start: 0, end: 0 }),
        _ => panic!("the whole file is uploaded once it is hashed"),
    }
    assert_eq!(upload.phase(), UploadPhase::UploadingWhole);
    let whole = upload.whole_file_info();
    assert_eq!(whole.file_name, "data.bin");
    assert_eq!(whole.content_length, 0);
    assert_eq!(whole.content_sha1, "da39a3ee5e6b4b0d3255bfef95601890afd80709");
    assert_eq!(whole.content_type, Some("application/x-data"));
    assert_eq!(whole.legal_hold, Some(true));
    match upload.step(UploadEvent::Stored(stored("data.bin"))) {
        UploadAction::Return(Ok(file)) => assert_eq!(file.file_name, "data.bin"),
        _ => panic!("the upload returns what the service stored"),
    }
    assert_eq!(upload.phase(), UploadPhase::Done);
    assert!(upload.into_session().is_none());
}

#[test]
fn file_of_one_part_size_uses_the_url_that_was_brought() {
    let info = file(Some("given.bin"), 0);
    let mut upload = UploadOrchestrator::new(&info, true);
    match upload.step(UploadEvent::Opened(facts(100, 100))) {
        UploadAction::HashWhole(range) => assert_eq!(range, ByteRange { start: 0, end: 100 }),
        _ => panic!("with a URL at hand the file is hashed at once"),
    }
    assert_eq!(upload.phase(), UploadPhase::HashingWhole);
    upload.step(UploadEvent::Hashed("00".to_owned()));
    assert_eq!(upload.whole_file_info().file_name, "given.bin");
    assert_eq!(upload.whole_file_info().content_length, 100);
}

#[test]
fn file_without_a_name_fails_before_anything_is_asked() {
    let info = file(None, 0);
    let mut upload = UploadOrchestrator::new(&info, false);
    let nameless = FileFacts { base_name: None, ..facts(1000, 100) };
    assert!(matches!(
        upload.step(UploadEvent::Opened(nameless)),
        UploadAction::Return(Err(UploadFailure::NothingUploaded(B2Error::MissingFileName)))
    ));
    assert_eq!(upload.phase(), UploadPhase::Done);
}

#[test]
fn file_that_cannot_be_opened_fails_with_nothing_uploaded() {
    let info = file(None, 0);
    let mut upload = UploadOrchestrator::new(&info, false);
    assert!(matches!(
        upload.step(UploadEvent::Failure(B2Error::Unauthorized)),
        UploadAction::Return(Err(UploadFailure::NothingUploaded(B2Error::Unauthorized)))
    ));
    assert!(matches!(
        upload.step(UploadEvent::UrlReady),
        UploadAction::Return(Err(UploadFailure::NothingUploaded(B2Error::Unknown)))
    ));
}

#[test]
fn long_file_goes_in_parts_and_is_finished_in_order() {
    let info = file(None, 0);
    let mut upload = UploadOrchestrator::new(&info, true);
    assert!(matches!(
        upload.step(UploadEvent::Opened(facts(250, 100))),
        UploadAction::StartLargeFile
    ));
    assert_eq!(upload.phase(), UploadPhase::StartingLargeFile);
    let large_info = upload.large_file_info();
    assert_eq!(large_info.file_name, "data.bin");
    assert_eq!(large_info.content_type, Some("application/x-data"));

    let (large, allocator, workers) = match upload.step(UploadEvent::Started(session())) {
        UploadAction::RunWorkers { large, allocator, workers } => (large, allocator, workers),
        _ => panic!("the workers run once the large file is started"),
    };
    assert_eq!(workers, 3);
    assert_eq!(allocator.layout().part_count(), 3);
    assert_eq!(allocator.layout().length(), 250);
    assert_eq!(upload.phase(), UploadPhase::RunningWorkers);

    let outcomes = vec![outcome(&[3], None), outcome(&[1], None), outcome(&[2], None)];
    let (large, parts) = match upload.step(UploadEvent::WorkersEnded { large, outcomes }) {
        UploadAction::Finish { large, parts } => (large, parts),
        _ => panic!("the file is finished once the workers have ended"),
    };
    assert_eq!(parts.iter().map(|p| p.part_number).collect::<Vec<u64>>(), vec![1, 2, 3]);
    assert_eq!(large.finish(&parts).unwrap().part_sha1_array, vec!["sha-1", "sha-2", "sha-3"]);
    assert_eq!(upload.phase(), UploadPhase::Finishing);

    assert!(matches!(
        upload.step(UploadEvent::Stored(stored("data.bin"))),
        UploadAction::Return(Ok(_))
    ));
    assert_eq!(upload.phase(), UploadPhase::Done);
}

#[test]
fn workers_are_no_more_than_the_caller_allows() {
    for (max, expected) in [(0u8, 4usize), (2, 2), (200, 10)] {
        let info = file(None, max);
        let mut upload = UploadOrchestrator::new(&info, false);
        upload.step(UploadEvent::Opened(facts(1000, 100)));
        match upload.step(UploadEvent::Started(session())) {
            UploadAction::RunWorkers { workers, .. } => assert_eq!(workers, expected),
            _ => panic!("the workers run once the large file is started"),
        }
    }
}

#[test]
fn failed_worker_leaves_the_large_file_open() {
    let info = file(None, 2);
    let mut upload = UploadOrchestrator::new(&info, false);
    upload.step(UploadEvent::Opened(facts(250, 100)));
    let large = match upload.step(UploadEvent::Started(session())) {
        UploadAction::RunWorkers { large, .. } => large,
        _ => panic!("the workers run once the large file is started"),
    };
    let outcomes = vec![outcome(&[1, 3], None), outcome(&[], Some(B2Error::Unauthorized))];
    match upload.step(UploadEvent::WorkersEnded { large, outcomes }) {
        UploadAction::Return(Err(UploadFailure::Unfinished { parts, error })) => {
            assert_eq!(parts, 2);
            assert!(matches!(error, B2Error::Unauthorized));
        }
        _ => panic!("the upload fails with the worker's error"),
    }
    assert_eq!(upload.into_session().unwrap().info().file_id, "large-1");
}

#[test]
fn duplicate_part_is_refused_before_finish() {
    let info = file(None, 2);
    let mut upload = UploadOrchestrator::new(&info, false);
    upload.step(UploadEvent::Opened(facts(250, 100)));
    let large = match upload.step(UploadEvent::Started(session())) {
        UploadAction::RunWorkers { large, .. } => large,
        _ => panic!("the workers run once the large file is started"),
    };
    let outcomes = vec![outcome(&[1, 2], None), outcome(&[2], None)];
    assert!(matches!(
        upload.step(UploadEvent::WorkersEnded { large, outcomes }),
        UploadAction::Return(Err(UploadFailure::InvalidParts(B2Error::InvalidPartSorting)))
    ));
    assert!(upload.into_session().is_some());
}

#[test]
fn failed_finish_says_how_many_parts_were_taken() {
    let info = file(None, 1);
    let mut upload = UploadOrchestrator::new(&info, false);
    upload.step(UploadEvent::Opened(facts(250, 100)));
    let large = match upload.step(UploadEvent::Started(session())) {
        UploadAction::RunWorkers { large, .. } => large,
        _ => panic!("the workers run once the large file is started"),
    };
    let outcomes = vec![outcome(&[1, 2, 3], None)];
    assert!(matches!(
        upload.step(UploadEvent::WorkersEnded { large, outcomes }),
        UploadAction::Finish { .. }
    ));
    match upload.step(UploadEvent::Failure(B2Error::Unknown)) {
        UploadAction::Return(Err(UploadFailure::Unfinished { parts, error })) => {
            assert_eq!(parts, 3);
            assert!(matches!(error, B2Error::Unknown));
        }
        _ => panic!("a failed finish leaves the parts with the service"),
    }
    assert!(upload.into_session().is_none());
}

#[test]
fn failed_start_uploads_nothing() {
    let info = file(None, 1);
    let mut upload = UploadOrchestrator::new(&info, false);
    upload.step(UploadEvent::Opened(facts(250, 100)));
    assert!(matches!(
        upload.step(UploadEvent::Failure(B2Error::MissingBucketId)),
        UploadAction::Return(Err(UploadFailure::NothingUploaded(B2Error::MissingBucketId)))
    ));
}

#[test]
fn upload_event_out_of_turn_ends_the_upload() {
    let info = file(None, 1);
    let mut upload = UploadOrchestrator::new(&info, false);
    assert!(matches!(
        upload.step(UploadEvent::Stored(stored("x"))),
        UploadAction::Return(Err(UploadFailure::NothingUploaded(B2Error::Unknown)))
    ));
    let mut upload = UploadOrchestrator::new(&info, false);
    upload.step(UploadEvent::Opened(facts(250, 100)));
    assert!(matches!(
        upload.step(UploadEvent::Hashed("00".to_owned())),
        UploadAction::Return(Err(UploadFailure::NothingUploaded(B2Error::Unknown)))
    ));
}
