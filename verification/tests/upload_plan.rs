use b2_client::fs::parts::PartAllocator;
use b2_client::fs::parts::PartAssignment;
use b2_client::fs::parts::PartLayout;
use b2_client::fs::resolve_file_name;
use b2_client::fs::simultaneous_uploads;
use b2_client::fs::upload_mode;
use b2_client::fs::NewFileFromPath;
use b2_client::fs::UploadMode;
use b2_client::ranges::div_ceil;
use b2_client::ranges::ByteRange;
use b2_client::types::FileRetention;
use b2_client::B2Error;
use b2_client::ServerSideEncryption;

fn range(start: u64, end: u64) -> ByteRange {
    ByteRange { start, end }
}

#[test]
fn empty_file_is_a_single_upload() {
    assert!(matches!(upload_mode(0, 100), UploadMode::Single));
    assert!(matches!(upload_mode(0, 0), UploadMode::Single));
}

#[test]
fn file_of_one_part_size_is_a_single_upload() {
    assert!(matches!(upload_mode(100, 100), UploadMode::Single));
    assert!(matches!(upload_mode(99, 100), UploadMode::Single));
}

#[test]
fn file_longer_than_a_part_goes_in_parts() {
    match upload_mode(101, 100) {
        UploadMode::Large(layout) => {
            assert_eq!(layout.part_count(), 2);
            assert_eq!(layout.part_range(1), Some(range(0, 100)));
            assert_eq!(layout.part_range(2), Some(range(100, 101)));
        }
        UploadMode::Single => panic!("a file longer than a part must go in parts"),
    }
}

#[test]
fn file_of_250_bytes_has_three_parts_of_100() {
    let layout = match upload_mode(250, 100) {
        UploadMode::Large(layout) => layout,
        UploadMode::Single => panic!("250 bytes are more than one part of 100"),
    };
    assert_eq!(layout.length(), 250);
    assert_eq!(layout.part_size(), 100);
    assert_eq!(layout.part_count(), 3);
    assert_eq!(layout.part_range(1), Some(range(0, 100)));
    assert_eq!(layout.part_range(2), Some(range(100, 200)));
    assert_eq!(layout.part_range(3), Some(range(200, 250)));
    assert_eq!(layout.part_range(0), None);
    assert_eq!(layout.part_range(4), None);

    let allocator = PartAllocator::new(layout);
    assert_eq!(allocator.claim(), Some(PartAssignment { part_number: 1, range: range(0, 100) }));
    assert_eq!(allocator.claim(), Some(PartAssignment { part_number: 2, range: range(100, 200) }));
    assert_eq!(allocator.claim(), Some(PartAssignment { part_number: 3, range: range(200, 250) }));
    assert_eq!(allocator.claim(), None);
    assert_eq!(allocator.claim(), None);
}

#[test]
fn part_count_is_the_ceiling_of_the_quotient() {
    assert_eq!(div_ceil(0, 100), 0);
    assert_eq!(div_ceil(1, 100), 1);
    assert_eq!(div_ceil(100, 100), 1);
    assert_eq!(div_ceil(101, 100), 2);
    assert_eq!(div_ceil(u64::MAX, 1), u64::MAX);
    assert_eq!(div_ceil(u64::MAX, u64::MAX), 1);
    assert_eq!(div_ceil(u64::MAX, 2), 1 << 63);
}

#[test]
fn parts_cover_the_file_without_gap_or_overlap() {
    for (length, part_size) in [(1u64, 1u64), (7, 3), (9, 3), (10, 3), (1000, 1), (12345, 100)] {
        let layout = PartLayout::new(length, part_size);
        let count = layout.part_count();
        assert_eq!(count, (length + part_size - 1) / part_size);
        let mut next = 0;
        let mut total = 0;
        for part in 1..=count {
            let r = layout.part_range(part).unwrap();
            assert_eq!(r.start, next);
            assert_eq!(r.start, (part - 1) * part_size);
            assert!(r.start < r.end);
            assert!(r.end - r.start <= part_size);
            if part < count {
                assert_eq!(r.end - r.start, part_size);
            }
            total += r.len();
            next = r.end;
        }
        assert_eq!(next, length);
        assert_eq!(total, length);
    }
}

#[test]
fn last_part_of_a_huge_file_does_not_overflow() {
    let layout = PartLayout::new(u64::MAX, u64::MAX - 1);
    assert_eq!(layout.part_count(), 2);
    assert_eq!(layout.part_range(1), Some(range(0, u64::MAX - 1)));
    assert_eq!(layout.part_range(2), Some(range(u64::MAX - 1, u64::MAX)));
}

#[test]
fn tickets_map_to_parts_one_to_one() {
    let layout = PartLayout::new(1000, 100);
    for ticket in 0..10u32 {
        let assigned = layout.assignment(ticket).unwrap();
        assert_eq!(assigned.part_number, ticket + 1);
        assert_eq!(Some(assigned.range), layout.part_range((ticket + 1) as u64));
    }
    assert_eq!(layout.assignment(10), None);
    assert_eq!(layout.assignment(u32::MAX), None);
}

#[test]
fn byte_range_length_and_emptiness() {
    assert_eq!(range(3, 10).len(), 7);
    assert!(!range(3, 10).is_empty());
    assert!(range(5, 5).is_empty());
    assert_eq!(range(5, 5).len(), 0);
}

#[test]
fn workers_are_no_more_than_parts_or_limit() {
    assert_eq!(simultaneous_uploads(10, 0, Some(8)), 4);
    assert_eq!(simultaneous_uploads(10, 0, Some(2)), 2);
    assert_eq!(simultaneous_uploads(10, 0, None), 1);
    assert_eq!(simultaneous_uploads(3, 0, Some(8)), 3);
    assert_eq!(simultaneous_uploads(10, 6, Some(2)), 6);
    assert_eq!(simultaneous_uploads(2, 6, None), 2);
    assert_eq!(simultaneous_uploads(u64::MAX, 255, None), 255);
}

#[test]
fn file_name_is_the_given_one_or_the_base_name() {
    assert_eq!(resolve_file_name(Some("a.txt"), Some("b.txt")).unwrap(), "a.txt");
    assert_eq!(resolve_file_name(None, Some("b.txt")).unwrap(), "b.txt");
    assert!(matches!(resolve_file_name(None, None), Err(B2Error::MissingFileName)));
    assert!(matches!(resolve_file_name(Some(""), Some("b.txt")), Err(B2Error::MissingFileName)));
    assert!(matches!(resolve_file_name(None, Some("")), Err(B2Error::MissingFileName)));
}

#[test]
fn upload_infos_carry_the_settings_of_the_file() {
    let file = NewFileFromPath {
        path: "dir/report.pdf",
        file_name: None,
        content_type: Some("application/pdf"),
        max_simultaneous_uploads: 0,
        encryption: ServerSideEncryption::standard_aes256(),
        retention: Some(FileRetention::governance().retain_until_timestamp(Some(17))),
        legal_hold: Some(true),
    };
    let whole = file.whole_file_info("report.pdf", 0, "da39a3ee5e6b4b0d3255bfef95601890afd80709");
    assert_eq!(whole.file_name, "report.pdf");
    assert_eq!(whole.content_length, 0);
    assert_eq!(whole.content_sha1, "da39a3ee5e6b4b0d3255bfef95601890afd80709");
    assert_eq!(whole.content_type, Some("application/pdf"));
    assert!(whole.encryption.is_standard());
    assert_eq!(whole.retention, file.retention);
    assert_eq!(whole.legal_hold, Some(true));

    let large = file.large_file_info("report.pdf");
    assert_eq!(large.file_name, "report.pdf");
    assert_eq!(large.content_type, Some("application/pdf"));
    assert!(large.encryption.is_standard());
    assert_eq!(large.retention, file.retention);
    assert_eq!(large.legal_hold, Some(true));
}
