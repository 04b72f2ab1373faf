use b2_client::fs::collect_parts;
use b2_client::fs::upload_failure;
use b2_client::fs::UploadFailure;
use b2_client::fs::WorkerOutcome;
use b2_client::large_file::first_disorder;
use b2_client::large_file::sort_parts;
use b2_client::models::B2FileInfo;
use b2_client::models::B2PartInfo;
use b2_client::models::B2ServerSideEncryption;
use b2_client::B2Error;
use b2_client::LargeFileUpload;

fn part(part_number: u64) -> B2PartInfo {
    B2PartInfo {
        file_id: "file-1".to_owned(),
        part_number,
        content_length: 10 * part_number,
        content_sha1: format!("sha-{part_number}"),
        server_side_encryption: B2ServerSideEncryption::default(),
        upload_timestamp: 0,
    }
}

fn parts(numbers: &[u64]) -> Vec<B2PartInfo> {
    numbers.iter().map(|n| part(*n)).collect()
}

fn numbers(parts: &[B2PartInfo]) -> Vec<u64> {
    parts.iter().map(|p| p.part_number).collect()
}

fn session() -> LargeFileUpload {
    LargeFileUpload::new(B2FileInfo { file_id: "file-1".to_owned(), ..B2FileInfo::default() })
}

#[test]
fn finish_takes_parts_in_rising_order() {
    let list = parts(&[1, 2, 3]);
    let body = session().finish(&list).unwrap();
    assert_eq!(body.file_id, "file-1");
    assert_eq!(body.part_sha1_array, vec!["sha-1", "sha-2", "sha-3"]);
}

#[test]
fn finish_takes_an_empty_list_and_a_single_part() {
    let body = session().finish(&[]).unwrap();
    assert_eq!(body.file_id, "file-1");
    assert!(body.part_sha1_array.is_empty());
    let one = parts(&[7]);
    assert_eq!(session().finish(&one).unwrap().part_sha1_array, vec!["sha-7"]);
}

#[test]
fn finish_refuses_parts_out_of_order() {
    let list = parts(&[1, 3, 2]);
    assert!(matches!(session().finish(&list), Err(B2Error::InvalidPartSorting)));
    let list = parts(&[2, 1]);
    assert!(matches!(session().finish(&list), Err(B2Error::InvalidPartSorting)));
}

#[test]
fn finish_refuses_a_duplicate_part() {
    let list = parts(&[1, 2, 2, 3]);
    assert!(matches!(session().finish(&list), Err(B2Error::InvalidPartSorting)));
    let list = parts(&[5, 5]);
    assert!(matches!(session().finish(&list), Err(B2Error::InvalidPartSorting)));
}

#[test]
fn finish_does_not_ask_for_parts_without_gap() {
    let list = parts(&[2, 5, 9]);
    assert_eq!(session().finish(&list).unwrap().part_sha1_array, vec!["sha-2", "sha-5", "sha-9"]);
}

#[test]
fn first_disorder_is_the_first_place_that_does_not_rise() {
    assert_eq!(first_disorder(&parts(&[])), None);
    assert_eq!(first_disorder(&parts(&[4])), None);
    assert_eq!(first_disorder(&parts(&[1, 2, 3, 4])), None);
    assert_eq!(first_disorder(&parts(&[1, 2, 2, 1])), Some(1));
    assert_eq!(first_disorder(&parts(&[3, 1, 2])), Some(0));
    assert_eq!(first_disorder(&parts(&[1, 2, 3, 0])), Some(2));
}

#[test]
fn cancel_names_the_file() {
    assert_eq!(session().cancel().file_id, "file-1");
    assert_eq!(session().info().file_id, "file-1");
}

#[test]
fn sorting_orders_parts_by_number_and_keeps_them_all() {
    let mut list = parts(&[4, 1, 3, 5, 2]);
    sort_parts(&mut list);
    assert_eq!(numbers(&list), vec![1, 2, 3, 4, 5]);
    let digests: Vec<&str> = list.iter().map(|p| p.content_sha1.as_str()).collect();
    assert_eq!(digests, vec!["sha-1", "sha-2", "sha-3", "sha-4", "sha-5"]);
    assert_eq!(session().finish(&list).unwrap().part_sha1_array, digests);
}

#[test]
fn sorting_keeps_duplicates_which_finish_then_refuses() {
    let mut list = parts(&[2, 1, 2]);
    sort_parts(&mut list);
    assert_eq!(numbers(&list), vec![1, 2, 2]);
    assert!(matches!(session().finish(&list), Err(B2Error::InvalidPartSorting)));
}

fn outcome(numbers: &[u64], failure: Option<B2Error>) -> WorkerOutcome {
    WorkerOutcome { parts: parts(numbers), failure }
}

#[test]
fn collecting_joins_the_parts_of_all_workers() {
    let outcomes = vec![outcome(&[1, 4], None), outcome(&[], None), outcome(&[3, 2], None)];
    let all = collect_parts(outcomes).unwrap();
    assert_eq!(numbers(&all), vec![1, 4, 3, 2]);
    assert!(collect_parts(Vec::new()).unwrap().is_empty());
}

#[test]
fn collecting_surfaces_the_first_failure() {
    let outcomes = vec![
        outcome(&[1], None),
        outcome(&[3], Some(B2Error::MissingBucketId)),
        outcome(&[2], None),
        outcome(&[], Some(B2Error::Unauthorized)),
    ];
    match collect_parts(outcomes) {
        Err(UploadFailure::Unfinished { parts, error: B2Error::MissingBucketId }) => {
            assert_eq!(parts, 3)
        }
        _ => panic!("three parts were taken before the upload failed"),
    }
}

#[test]
fn failure_without_a_part_left_nothing_behind() {
    let outcomes = vec![outcome(&[], None), outcome(&[], Some(B2Error::Unknown))];
    assert!(matches!(
        collect_parts(outcomes),
        Err(UploadFailure::NothingUploaded(B2Error::Unknown))
    ));
}

#[test]
fn failures_say_what_was_left_behind() {
    assert!(matches!(
        upload_failure(B2Error::Unauthorized, 0),
        UploadFailure::NothingUploaded(B2Error::Unauthorized)
    ));
    assert!(matches!(
        upload_failure(B2Error::Unauthorized, 7),
        UploadFailure::Unfinished { parts: 7, error: B2Error::Unauthorized }
    ));
    assert!(matches!(
        upload_failure(B2Error::InvalidPartSorting, 7),
        UploadFailure::InvalidParts(B2Error::InvalidPartSorting)
    ));
    assert!(matches!(
        upload_failure(B2Error::InvalidPartSorting, 0),
        UploadFailure::InvalidParts(B2Error::InvalidPartSorting)
    ));
    assert!(matches!(
        upload_failure(B2Error::MissingFileName, 2).into_error(),
        B2Error::MissingFileName
    ));
    assert!(matches!(
        upload_failure(B2Error::MissingFileName, 0).into_error(),
        B2Error::MissingFileName
    ));
    assert!(matches!(
        upload_failure(B2Error::InvalidPartSorting, 1).into_error(),
        B2Error::InvalidPartSorting
    ));
}
