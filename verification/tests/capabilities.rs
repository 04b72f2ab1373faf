use b2_client::models::capabilities::find_capability;
use b2_client::models::capabilities::name_of_capability;
use b2_client::models::capabilities::B2CapabilitiesStringSet;
use b2_client::models::capabilities::B2Capability;
use b2_client::models::capabilities::ALL_CAPABILITY_BITS;
use b2_client::models::capabilities::CAPABILITY_COUNT;
use b2_client::models::B2BucketType;
use b2_client::types::ListBuckets;

fn caps(bits: u32) -> B2Capability {
    B2Capability::from_bits_retain(bits)
}

#[test]
fn capability_bits_are_one_each() {
    let all = [
        B2Capability::LIST_KEYS,
        B2Capability::WRITE_KEYS,
        B2Capability::DELETE_KEYS,
        B2Capability::LIST_ALL_BUCKET_NAMES,
        B2Capability::LIST_BUCKETS,
        B2Capability::READ_BUCKETS,
        B2Capability::WRITE_BUCKETS,
        B2Capability::DELETE_BUCKETS,
        B2Capability::READ_BUCKET_RETENTIONS,
        B2Capability::WRITE_BUCKET_RETENTIONS,
        B2Capability::READ_BUCKET_ENCRYPTION,
        B2Capability::WRITE_BUCKET_ENCRYPTION,
        B2Capability::LIST_FILES,
        B2Capability::READ_FILES,
        B2Capability::SHARE_FILES,
        B2Capability::WRITE_FILES,
        B2Capability::DELETE_FILES,
        B2Capability::READ_FILE_LEGAL_HOLDS,
        B2Capability::WRITE_FILE_LEGAL_HOLDS,
        B2Capability::READ_FILE_RETENTIONS,
        B2Capability::WRITE_FILE_RETENTIONS,
        B2Capability::BYPASS_GOVERNANCE,
        B2Capability::READ_BUCKET_REPLICATIONS,
        B2Capability::WRITE_BUCKET_REPLICATIONS,
    ];
    assert_eq!(all.len(), CAPABILITY_COUNT);
    let mut union = 0u32;
    for (i, bit) in all.iter().enumerate() {
        assert_eq!(*bit, 1u32 << i);
        union |= bit;
    }
    assert_eq!(union, ALL_CAPABILITY_BITS);
    assert_eq!(B2Capability::all().bits(), ALL_CAPABILITY_BITS);
    let allowed = B2Capability::LIST_ALL_BUCKET_NAMES
        | B2Capability::LIST_BUCKETS
        | B2Capability::READ_BUCKETS
        | B2Capability::READ_BUCKET_ENCRYPTION
        | B2Capability::WRITE_BUCKET_ENCRYPTION
        | B2Capability::READ_BUCKET_RETENTIONS
        | B2Capability::WRITE_BUCKET_RETENTIONS
        | B2Capability::LIST_FILES
        | B2Capability::READ_FILES
        | B2Capability::SHARE_FILES
        | B2Capability::WRITE_FILES
        | B2Capability::DELETE_FILES
        | B2Capability::READ_FILE_LEGAL_HOLDS
        | B2Capability::WRITE_FILE_LEGAL_HOLDS
        | B2Capability::READ_FILE_RETENTIONS
        | B2Capability::WRITE_FILE_RETENTIONS
        | B2Capability::BYPASS_GOVERNANCE;
    assert_eq!(B2Capability::ALLOWED_CAPABILITIES_IN_BUCKET_KEY, allowed);
}

#[test]
fn capability_sets_join_and_meet() {
    let read = caps(B2Capability::READ_FILES);
    let write = caps(B2Capability::WRITE_FILES);
    let both = read.union(write);
    assert_eq!(both.bits(), B2Capability::READ_FILES | B2Capability::WRITE_FILES);
    assert!(both.contains(read) && both.contains(write) && both.contains(both));
    assert!(!read.contains(both) && !read.contains(write));
    assert!(read.contains(B2Capability::empty()));
    assert_eq!(both.intersection(read), read);
    assert_eq!(read.intersection(write), B2Capability::empty());
    assert!(B2Capability::empty().is_empty() && !read.is_empty());
    assert_eq!(B2Capability::default(), B2Capability::empty());
    assert_eq!(B2Capability::from_bits_truncate(u32::MAX).bits(), ALL_CAPABILITY_BITS);
    assert_eq!(B2Capability::from_bits_retain(u32::MAX).bits(), u32::MAX);
    let mut set = read;
    set.insert(write);
    assert_eq!(set, both);
}

#[test]
fn cond_union_joins_only_on_the_condition() {
    let read = caps(B2Capability::READ_FILES);
    let write = caps(B2Capability::WRITE_FILES);
    assert_eq!(read.cond_union(true, write), read.union(write));
    assert_eq!(read.cond_union(false, write), read);
    assert_eq!(B2Capability::empty().cond_union(true, write), write);
}

#[test]
fn capability_names_are_those_of_the_service() {
    let names: Vec<&str> = (0..CAPABILITY_COUNT).map(name_of_capability).collect();
    assert_eq!(
        names,
        vec![
            "listKeys",
            "writeKeys",
            "deleteKeys",
            "listAllBucketNames",
            "listBuckets",
            "readBuckets",
            "writeBuckets",
            "deleteBuckets",
            "readBucketRetentions",
            "writeBucketRetentions",
            "readBucketEncryption",
            "writeBucketEncryption",
            "listFiles",
            "readFiles",
            "shareFiles",
            "writeFiles",
            "deleteFiles",
            "readFileLegalHolds",
            "writeFileLegalHolds",
            "readFileRetentions",
            "writeFileRetentions",
            "bypassGovernance",
            "readBucketReplications",
            "writeBucketReplications",
        ]
    );
}

#[test]
fn set_is_written_as_names_by_rising_bit() {
    let set = B2CapabilitiesStringSet::new(caps(
        B2Capability::WRITE_FILES | B2Capability::LIST_KEYS | B2Capability::READ_FILES,
    ));
    assert_eq!(set.to_names(), vec!["listKeys", "readFiles", "writeFiles"]);
    assert!(B2CapabilitiesStringSet::default().to_names().is_empty());
    assert_eq!(B2CapabilitiesStringSet::new(B2Capability::all()).to_names().len(), 24);
    assert_eq!(
        B2CapabilitiesStringSet::new(caps(u32::MAX)).to_names().len(),
        24
    );
}

#[test]
fn names_are_read_without_regard_to_case() {
    let set =
        B2CapabilitiesStringSet::from_names(&vec!["LISTKEYS", "readfiles", "writeFiles"]).unwrap();
    assert_eq!(
        set.capabilities().bits(),
        B2Capability::LIST_KEYS | B2Capability::READ_FILES | B2Capability::WRITE_FILES
    );
    let twice = B2CapabilitiesStringSet::from_names(&vec!["listKeys", "ListKeys"]).unwrap();
    assert_eq!(twice.capabilities().bits(), B2Capability::LIST_KEYS);
    assert_eq!(B2CapabilitiesStringSet::from_names(&Vec::new()).unwrap(), B2CapabilitiesStringSet::default());
}

#[test]
fn unknown_name_is_refused_with_its_place() {
    assert_eq!(B2CapabilitiesStringSet::from_names(&vec!["listKeys", "flyToTheMoon"]), Err(1));
    assert_eq!(B2CapabilitiesStringSet::from_names(&vec!["", "listKeys"]), Err(0));
    assert_eq!(B2CapabilitiesStringSet::from_names(&vec!["listKeys "]), Err(0));
    assert_eq!(B2CapabilitiesStringSet::from_names(&vec!["l\u{131}stKeys"]), Err(0));
    assert_eq!(find_capability("writeBucketReplications"), Some(23));
    assert_eq!(find_capability("WRITEBUCKETREPLICATIONS"), Some(23));
    assert_eq!(find_capability("writeBucketReplication"), None);
}

#[test]
fn names_and_sets_go_back_and_forth() {
    for bits in [0u32, 1, 0x8000, 0x00ff_ffff, 0x0055_aaaa, 0x0012_3456] {
        let set = B2CapabilitiesStringSet::new(caps(bits));
        let names = set.to_names();
        assert_eq!(names.len() as u32, bits.count_ones());
        assert_eq!(B2CapabilitiesStringSet::from_names(&names), Ok(set));
    }
    let mut set = B2CapabilitiesStringSet::default();
    set.insert(caps(B2Capability::SHARE_FILES));
    assert!(set.contains(caps(B2Capability::SHARE_FILES)));
    assert!(!set.contains(caps(B2Capability::LIST_FILES)));
}

#[test]
fn bucket_type_filter_holds_each_type_once() {
    let mut list = ListBuckets::new();
    assert!(list.bucket_types.is_empty());
    list.bucket_type(B2BucketType::AllPublic);
    list.bucket_type(B2BucketType::Snapshot);
    list.bucket_type(B2BucketType::AllPublic);
    assert_eq!(list.bucket_types.as_slice(), &[B2BucketType::AllPublic, B2BucketType::Snapshot]);
    list.bucket_types(&[
        B2BucketType::All,
        B2BucketType::Snapshot,
        B2BucketType::Shared,
        B2BucketType::All,
        B2BucketType::Restricted,
        B2BucketType::AllPrivate,
        B2BucketType::AllPublic,
    ]);
    assert_eq!(
        list.bucket_types.as_slice(),
        &[
            B2BucketType::AllPublic,
            B2BucketType::Snapshot,
            B2BucketType::All,
            B2BucketType::Shared,
            B2BucketType::Restricted,
            B2BucketType::AllPrivate,
        ]
    );
    assert!(list.bucket_types.is_full());
    list.bucket_type(B2BucketType::Shared);
    assert_eq!(list.bucket_types.len(), 6);
    assert_eq!(list.bucket_id, None);
    assert_eq!(list.bucket_name, None);
}
