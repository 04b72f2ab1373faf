//! Parameters of the calls on buckets.

use crate::models::B2BucketType;
use crate::models::B2CorsRule;
use crate::models::B2LifecycleRule;
use crate::models::B2ReplicationConfiguration;
use crate::types::sse::ServerSideEncryption;
use arrayvec::ArrayVec;
use std::collections::HashMap;
use vstd::prelude::*;

verus! {

/// `arrayvec::ArrayVec`, a vector of at most `CAP` items that lives in the
/// value itself.
#[verifier::external_type_specification]
#[verifier::external_body]
#[verifier::reject_recursive_types(T)]
pub struct ExArrayVec<T, const CAP: usize>(ArrayVec<T, CAP>);

/// Number of bucket types, and so the most that a filter can hold.
pub const BUCKET_TYPE_COUNT: usize = 6;

/// The bucket types that a filter holds, in the order in which they were
/// added.
pub uninterp spec fn bucket_type_items(list: ArrayVec<B2BucketType, 6>) -> Seq<B2BucketType>;

/// `ArrayVec::new`: a vector without items.
#[verifier::external_body]
pub(crate) fn new_bucket_types() -> (list: ArrayVec<B2BucketType, 6>)
    ensures
        bucket_type_items(list) == Seq::<B2BucketType>::empty(),
{
    ArrayVec::new()
}

/// `contains` on the vector's slice: whether one of the items equals `item`.
#[verifier::external_body]
pub(crate) fn holds_bucket_type(list: &ArrayVec<B2BucketType, 6>, item: B2BucketType) -> (found:
    bool)
    ensures
        found == bucket_type_items(*list).contains(item),
{
    list.contains(&item)
}

/// `ArrayVec::push`: the item goes to the end. The crate panics on a vector
/// that is full.
#[verifier::external_body]
pub(crate) fn push_bucket_type(list: &mut ArrayVec<B2BucketType, 6>, item: B2BucketType)
    requires
        bucket_type_items(*old(list)).len() < BUCKET_TYPE_COUNT,
    ensures
        bucket_type_items(*final(list)) == bucket_type_items(*old(list)).push(item),
{
    list.push(item)
}

/// A list that holds no bucket type twice and lacks one has fewer items than
/// there are bucket types.
pub proof fn lemma_room_for_missing_bucket_type(items: Seq<B2BucketType>, missing: B2BucketType)
    requires
        items.no_duplicates(),
        !items.contains(missing),
    ensures
        items.len() < BUCKET_TYPE_COUNT,
{
    if items.len() >= BUCKET_TYPE_COUNT {
        assert(items[0] != missing && items[1] != missing && items[2] != missing && items[3]
            != missing && items[4] != missing && items[5] != missing) by {
            assert(items.contains(items[0]));
            assert(items.contains(items[1]));
            assert(items.contains(items[2]));
            assert(items.contains(items[3]));
            assert(items.contains(items[4]));
            assert(items.contains(items[5]));
        }
        lemma_six_ranks_are_all(
            bucket_type_rank(items[0]),
            bucket_type_rank(items[1]),
            bucket_type_rank(items[2]),
            bucket_type_rank(items[3]),
            bucket_type_rank(items[4]),
            bucket_type_rank(items[5]),
            bucket_type_rank(missing),
        );
    }
}

/// The place of a bucket type among the bucket types.
pub open spec fn bucket_type_rank(bucket_type: B2BucketType) -> int {
    match bucket_type {
        B2BucketType::All => 0,
        B2BucketType::AllPublic => 1,
        B2BucketType::AllPrivate => 2,
        B2BucketType::Restricted => 3,
        B2BucketType::Shared => 4,
        B2BucketType::Snapshot => 5,
    }
}

/// Six different numbers from 0 to 5 are all the numbers from 0 to 5: a
/// seventh is one of them.
proof fn lemma_six_ranks_are_all(a: int, b: int, c: int, d: int, e: int, f: int, g: int)
    requires
        0 <= a < 6,
        0 <= b < 6,
        0 <= c < 6,
        0 <= d < 6,
        0 <= e < 6,
        0 <= f < 6,
        0 <= g < 6,
        a != b && a != c && a != d && a != e && a != f,
        b != c && b != d && b != e && b != f,
        c != d && c != e && c != f,
        d != e && d != f,
        e != f,
    ensures
        g == a || g == b || g == c || g == d || g == e || g == f,
{
}

/// Parameters for listing B2 Buckets.
///
/// When using an authorization token that is restricted to a bucket,
/// you must include the `bucket_id` or `bucket_name` of that bucket in
/// the request, or the request will be denied.
#[derive(Debug)]
pub struct ListBuckets<'a> {
    /// When a bucket id is specified, the result will be a list containing just this bucket,
    /// if it's present in the account, or no buckets if the account does not have a bucket with this ID.
    pub bucket_id: Option<&'a str>,
    /// When a bucket name is specified, the result will be a list containing just this bucket,
    /// if it's present in the account, or no buckets if the account does not have a bucket with this name.
    pub bucket_name: Option<&'a str>,
    /// If present, B2 will use it as a filter for bucket types returned in the list buckets response.
    ///
    /// If not present, only buckets with bucket types `allPublic`, `allPrivate`
    /// and `snapshot` will be returned.
    /// A special filter value of `All` will return all bucket types.
    pub bucket_types: ArrayVec<B2BucketType, 6>,
}

impl<'a> ListBuckets<'a> {
    /// The filter holds no bucket type twice.
    pub open spec fn wf(&self) -> bool {
        bucket_type_items(self.bucket_types).no_duplicates()
    }

    /// The bucket types of the filter, in the order in which they were added.
    pub open spec fn spec_bucket_types(&self) -> Seq<B2BucketType> {
        bucket_type_items(self.bucket_types)
    }

    /// Parameters that name no bucket and filter by no type.
    pub fn new() -> (list: Self)
        ensures
            list.wf(),
            list.bucket_id is None,
            list.bucket_name is None,
            list.spec_bucket_types() == Seq::<B2BucketType>::empty(),
    {
        ListBuckets { bucket_id: None, bucket_name: None, bucket_types: new_bucket_types() }
    }

    /// Add a bucket type to the filter. A type that the filter holds already
    /// is not added again.
    pub fn bucket_type(&mut self, bucket_type: B2BucketType)
        requires
            old(self).wf(),
        ensures
            final(self).wf(),
            final(self).bucket_id == old(self).bucket_id,
            final(self).bucket_name == old(self).bucket_name,
            final(self).spec_bucket_types() == if old(self).spec_bucket_types().contains(
                bucket_type,
            ) {
                old(self).spec_bucket_types()
            } else {
                old(self).spec_bucket_types().push(bucket_type)
            },
    {
        if !holds_bucket_type(&self.bucket_types, bucket_type) {
            let ghost before = bucket_type_items(self.bucket_types);
            proof {
                lemma_room_for_missing_bucket_type(before, bucket_type);
            }
            push_bucket_type(&mut self.bucket_types, bucket_type);
            assert(before.push(bucket_type).no_duplicates()) by {
                let after = before.push(bucket_type);
                assert forall|i: int, j: int|
                    0 <= i < after.len() && 0 <= j < after.len() && i != j implies after[i]
                    != after[j] by {
                    if i < before.len() && j < before.len() {
                        assert(before[i] != before[j]);
                    } else if i < before.len() {
                        assert(before.contains(before[i]));
                    } else {
                        assert(before.contains(before[j]));
                    }
                }
            }
        }
    }

    /// Add multiple bucket types to the filter, each as `bucket_type` adds
    /// it.
    pub fn bucket_types(&mut self, bucket_types: &[B2BucketType])
        requires
            old(self).wf(),
        ensures
            final(self).wf(),
            final(self).bucket_id == old(self).bucket_id,
            final(self).bucket_name == old(self).bucket_name,
            final(self).spec_bucket_types() == with_bucket_types(
                old(self).spec_bucket_types(),
                bucket_types@,
                bucket_types@.len(),
            ),
    {
        let mut i: usize = 0;
        while i < bucket_types.len()
            invariant
                i <= bucket_types@.len(),
                self.wf(),
                self.bucket_id == old(self).bucket_id,
                self.bucket_name == old(self).bucket_name,
                self.spec_bucket_types() == with_bucket_types(
                    old(self).spec_bucket_types(),
                    bucket_types@,
                    i as nat,
                ),
            decreases bucket_types@.len() - i,
        {
            self.bucket_type(bucket_types[i]);
            i = i + 1;
        }
    }
}

/// The filter after the first `n` of `more` were added to it one by one, each
/// only if the filter did not hold it yet.
pub open spec fn with_bucket_types(items: Seq<B2BucketType>, more: Seq<B2BucketType>, n: nat) -> Seq<
    B2BucketType,
>
    decreases n,
{
    if n == 0 {
        items
    } else {
        let before = with_bucket_types(items, more, (n - 1) as nat);
        if before.contains(more[n - 1]) {
            before
        } else {
            before.push(more[n - 1])
        }
    }
}

/// Parameters for creating a new bucket.
#[derive(Debug)]
pub struct CreateBucket<'a> {
    /// The name of the new bucket.
    pub bucket_name: &'a str,
    /// If true the bucket will be public, otherwise it will be private.
    pub public: bool,
    pub bucket_info: Option<HashMap<String, String>>,
    pub cors_rules: Option<Vec<B2CorsRule>>,
    pub default_retention: Option<&'a str>,
    pub default_server_side_encryption: Option<ServerSideEncryption>,
    pub lifecycle_rules: Option<Vec<B2LifecycleRule>>,
    pub replication: Option<B2ReplicationConfiguration>,
    /// If present, the Boolean value specifies whether the bucket has Object Lock enabled.
    ///
    /// Once Object Lock is enabled on a bucket, it cannot be disabled.
    pub file_lock_enabled: Option<bool>,
}

#[derive(Debug)]
pub struct UpdateBucket<'a> {
    pub if_revision_is: Option<u64>,
    pub bucket_id: &'a str,
    pub bucket_type: Option<B2BucketType>,
    pub bucket_info: Option<HashMap<String, String>>,
    pub cors_rules: Option<Vec<B2CorsRule>>,
    pub default_retention: Option<&'a str>,
    pub default_server_side_encryption: Option<ServerSideEncryption>,
    pub default_lifetime: Option<B2LifecycleRule>,
    /// If present, the Boolean value specifies whether the bucket has Object Lock enabled.
    ///
    /// Once Object Lock is enabled on a bucket, it cannot be disabled.
    ///
    /// A value of true will be accepted if you have `writeBucketRetentions` capability.
    /// But you cannot enable Object Lock on a restricted bucket (e.g. share buckets, snapshot)
    /// or on a bucket that contains source replication configuration.
    pub file_lock_enabled: Option<bool>,
}

} // verus!
