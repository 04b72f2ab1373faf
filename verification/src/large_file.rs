//! A large file that is being uploaded in parts, and the step that makes one
//! file of the parts.

use crate::error::B2Error;
use crate::models::B2FileInfo;
use crate::models::B2PartInfo;
use vstd::prelude::*;

verus! {

/// The body of a `b2_finish_large_file` call.
#[derive(Debug)]
pub struct B2FinishLargeFile<'a> {
    /// The large file to finish.
    pub file_id: String,
    /// The digest of each part, by rising part number.
    pub part_sha1_array: Vec<&'a str>,
}

/// The body of a `b2_cancel_large_file` call.
#[derive(Debug)]
pub struct B2CancelLargeFile {
    /// The large file to cancel.
    pub file_id: String,
}

/// The part numbers rise along the list: it is sorted and no number occurs
/// twice.
pub open spec fn strictly_ascending(parts: Seq<B2PartInfo>) -> bool {
    forall|i: int, j: int|
        0 <= i < j < parts.len() ==> (#[trigger] parts[i]).part_number < (
        #[trigger] parts[j]).part_number
}

/// The part numbers do not fall from any part to a later one.
pub open spec fn ascending(parts: Seq<B2PartInfo>) -> bool {
    forall|i: int, j: int|
        0 <= i <= j < parts.len() ==> (#[trigger] parts[i]).part_number <= (
        #[trigger] parts[j]).part_number
}

/// No part number occurs twice.
pub open spec fn distinct_part_numbers(parts: Seq<B2PartInfo>) -> bool {
    forall|i: int, j: int|
        0 <= i < j < parts.len() ==> (#[trigger] parts[i]).part_number != (
        #[trigger] parts[j]).part_number
}

/// The digests of the parts, in the order of the list.
pub open spec fn part_digests(parts: Seq<B2PartInfo>) -> Seq<Seq<char>> {
    parts.map_values(|part: B2PartInfo| part.content_sha1@)
}

/// The first place at which the part number does not rise from one part to
/// the next, if there is one.
pub fn first_disorder(parts: &[B2PartInfo]) -> (place: Option<usize>)
    ensures
        match place {
            Some(i) => {
                &&& i + 1 < parts@.len()
                &&& parts@[i as int].part_number >= parts@[i + 1].part_number
                &&& strictly_ascending(parts@.subrange(0, i + 1))
            },
            None => strictly_ascending(parts@),
        },
{
    let n: usize = parts.len();
    if n < 2 {
        return None;
    }
    let mut i: usize = 0;
    while i < n - 1
        invariant
            n == parts@.len(),
            n >= 2,
            i <= n - 1,
            strictly_ascending(parts@.subrange(0, i + 1)),
        decreases n - i,
    {
        if parts[i].part_number >= parts[i + 1].part_number {
            return Some(i);
        }
        let ghost head = parts@.subrange(0, i + 1);
        let ghost longer = parts@.subrange(0, i + 2);
        assert forall|a: int, b: int| 0 <= a < b < longer.len() implies (
        #[trigger] longer[a]).part_number < (#[trigger] longer[b]).part_number by {
            if b < i + 1 {
                assert(head[a].part_number < head[b].part_number);
            } else if a < i {
                assert(head[a].part_number < head[i as int].part_number);
            }
        }
        i = i + 1;
    }
    assert(parts@.subrange(0, n as int) =~= parts@);
    None
}

/// A large file that is being uploaded in parts.
///
/// Any upload part URL can be used to upload a part of the file. Once all
/// parts have been uploaded, `finish` completes the upload. Both `finish` and
/// `cancel` take the session by value: it ends with either.
#[derive(Debug)]
pub struct LargeFileUpload {
    info: B2FileInfo,
}

impl LargeFileUpload {
    /// The record of the file as `b2_start_large_file` returned it.
    pub closed spec fn spec_info(&self) -> B2FileInfo {
        self.info
    }

    /// The session for the large file that `b2_start_large_file` has started.
    pub fn new(info: B2FileInfo) -> (large: Self)
        ensures
            large.spec_info() == info,
    {
        LargeFileUpload { info }
    }

    /// The record of the file as `b2_start_large_file` returned it.
    pub fn info(&self) -> (info: &B2FileInfo)
        ensures
            *info == self.spec_info(),
    {
        &self.info
    }

    /// Converts the parts that have been uploaded into a single B2 file: the
    /// body of the call that does so.
    ///
    /// `parts` must be sorted by `part_number`, with no number twice. A list
    /// that is not is refused here, before anything is sent.
    pub fn finish<'a>(self, parts: &'a [B2PartInfo]) -> (result: Result<
        B2FinishLargeFile<'a>,
        B2Error,
    >)
        ensures
            match result {
                Ok(body) => {
                    &&& strictly_ascending(parts@)
                    &&& body.file_id@ == self.spec_info().file_id@
                    &&& body.part_sha1_array@.map_values(|s: &str| s@) == part_digests(parts@)
                },
                Err(e) => !strictly_ascending(parts@) && e == B2Error::InvalidPartSorting,
            },
    {
        match first_disorder(parts) {
            Some(i) => {
                assert(parts@[i as int].part_number >= parts@[i + 1].part_number);
                return Err(B2Error::InvalidPartSorting);
            },
            None => {},
        }
        let mut part_sha1_array: Vec<&'a str> = Vec::new();
        let mut i: usize = 0;
        while i < parts.len()
            invariant
                i <= parts@.len(),
                part_sha1_array@.len() == i,
                forall|k: int|
                    0 <= k < i ==> (#[trigger] part_sha1_array@[k])@ == parts@[k].content_sha1@,
            decreases parts@.len() - i,
        {
            part_sha1_array.push(parts[i].content_sha1.as_str());
            i = i + 1;
        }
        assert(part_sha1_array@.map_values(|s: &str| s@) =~= part_digests(parts@));
        Ok(B2FinishLargeFile { file_id: self.info.file_id, part_sha1_array })
    }

    /// Cancels the upload of a large file, and deletes all of the parts that
    /// have been uploaded: the body of the call that does so.
    pub fn cancel(self) -> (body: B2CancelLargeFile)
        ensures
            body.file_id@ == self.spec_info().file_id@,
    {
        B2CancelLargeFile { file_id: self.info.file_id }
    }
}

/// `sort_unstable_by_key` on the parts, by part number: std leaves the same
/// parts in the list, ordered so that the key never falls. Parts with equal
/// numbers may come in any order among themselves.
#[verifier::external_body]
pub(crate) fn sort_by_part_number(parts: &mut Vec<B2PartInfo>)
    ensures
        final(parts)@.to_multiset() == old(parts)@.to_multiset(),
        ascending(final(parts)@),
{
    parts.sort_unstable_by_key(|part| part.part_number)
}

/// A list passes the check that `finish` makes exactly when it is sorted and
/// holds no part number twice: a duplicate or a part out of order fails it.
pub proof fn lemma_strictly_ascending_is_sorted_and_distinct(parts: Seq<B2PartInfo>)
    ensures
        strictly_ascending(parts) <==> ascending(parts) && distinct_part_numbers(parts),
{
    if ascending(parts) && distinct_part_numbers(parts) {
        assert forall|i: int, j: int| 0 <= i < j < parts.len() implies (
        #[trigger] parts[i]).part_number < (#[trigger] parts[j]).part_number by {
            assert(parts[i].part_number <= parts[j].part_number);
            assert(parts[i].part_number != parts[j].part_number);
        }
    }
    if strictly_ascending(parts) {
        assert forall|i: int, j: int| 0 <= i <= j < parts.len() implies (
        #[trigger] parts[i]).part_number <= (#[trigger] parts[j]).part_number by {
            if i < j {
                assert(parts[i].part_number < parts[j].part_number);
            }
        }
    }
}

/// The list holds `n` parts, and every number from 1 to `n` is the number of
/// one of them: each part of the file was uploaded once.
pub open spec fn holds_each_part_once(parts: Seq<B2PartInfo>, n: nat) -> bool {
    &&& parts.len() == n
    &&& forall|p: int| 1 <= p <= n ==> has_part(parts, p)
}

/// Some part of the list has number `p`.
pub open spec fn has_part(parts: Seq<B2PartInfo>, p: int) -> bool {
    exists|i: int| 0 <= i < parts.len() && (#[trigger] parts[i]).part_number == p
}

/// The part at place `i` has number `i + 1`, for every place of the list.
pub open spec fn numbered_in_order(parts: Seq<B2PartInfo>) -> bool {
    forall|i: int| 0 <= i < parts.len() ==> (#[trigger] parts[i]).part_number == i + 1
}

/// A place of the list that holds part `p`.
spec fn place_of(parts: Seq<B2PartInfo>, p: int) -> int {
    choose|i: int| 0 <= i < parts.len() && (#[trigger] parts[i]).part_number == p
}

/// In a sorted list that holds each part once, part `p` stands at or after
/// place `p - 1`.
proof fn lemma_place_from_below(parts: Seq<B2PartInfo>, n: nat, p: int)
    requires
        ascending(parts),
        holds_each_part_once(parts, n),
        1 <= p <= n,
    ensures
        0 <= place_of(parts, p) < n,
        parts[place_of(parts, p)].part_number == p,
        place_of(parts, p) >= p - 1,
    decreases p,
{
    assert(has_part(parts, p));
    if p > 1 {
        lemma_place_from_below(parts, n, p - 1);
        let a = place_of(parts, p - 1);
        let b = place_of(parts, p);
        if b <= a {
            assert(parts[b].part_number <= parts[a].part_number);
        }
    }
}

/// In a sorted list that holds each part once, part `p` stands at or before
/// place `p - 1`.
proof fn lemma_place_from_above(parts: Seq<B2PartInfo>, n: nat, p: int)
    requires
        ascending(parts),
        holds_each_part_once(parts, n),
        1 <= p <= n,
    ensures
        0 <= place_of(parts, p) < n,
        parts[place_of(parts, p)].part_number == p,
        place_of(parts, p) <= p - 1,
    decreases n - p,
{
    assert(has_part(parts, p));
    if p < n {
        lemma_place_from_above(parts, n, p + 1);
        let a = place_of(parts, p);
        let b = place_of(parts, p + 1);
        if b <= a {
            assert(parts[b].part_number <= parts[a].part_number);
        }
    }
}

/// Sorted, a list that holds each part once has part 1 first, part 2 second
/// and so on: it rises strictly, without a gap.
pub proof fn lemma_sorted_parts_are_numbered_in_order(parts: Seq<B2PartInfo>, n: nat)
    requires
        ascending(parts),
        holds_each_part_once(parts, n),
    ensures
        numbered_in_order(parts),
        strictly_ascending(parts),
{
    assert forall|i: int| 0 <= i < parts.len() implies (#[trigger] parts[i]).part_number == i
        + 1 by {
        lemma_place_from_below(parts, n, i + 1);
        lemma_place_from_above(parts, n, i + 1);
    }
}

/// Putting the parts in another order neither loses a part nor adds one.
pub proof fn lemma_reordering_keeps_each_part(
    before: Seq<B2PartInfo>,
    after: Seq<B2PartInfo>,
    n: nat,
)
    requires
        before.to_multiset() == after.to_multiset(),
        holds_each_part_once(before, n),
    ensures
        holds_each_part_once(after, n),
{
    before.to_multiset_ensures();
    after.to_multiset_ensures();
    assert forall|p: int| 1 <= p <= n implies has_part(after, p) by {
        assert(has_part(before, p));
        let i = choose|i: int| 0 <= i < before.len() && (#[trigger] before[i]).part_number == p;
        assert(before.contains(before[i]));
        assert(before.to_multiset().count(before[i]) > 0);
        assert(after.to_multiset().count(before[i]) > 0);
        assert(after.contains(before[i]));
        let j = choose|j: int| 0 <= j < after.len() && after[j] == before[i];
        assert(after[j].part_number == p);
    }
}

/// Sorts the parts by part number, as the last step before `finish`. The
/// parts are the same, in an order in which the number never falls. Where the
/// list holds each of the parts 1 to `n` once, the sorted list has part `i + 1`
/// at place `i`, and `finish` takes it.
pub fn sort_parts(parts: &mut Vec<B2PartInfo>)
    ensures
        final(parts)@.to_multiset() == old(parts)@.to_multiset(),
        ascending(final(parts)@),
        forall|n: nat| #[trigger]
            holds_each_part_once(old(parts)@, n) ==> holds_each_part_once(final(parts)@, n)
                && numbered_in_order(final(parts)@) && strictly_ascending(final(parts)@),
{
    let ghost before = parts@;
    sort_by_part_number(parts);
    proof {
        let after = parts@;
        assert forall|n: nat| #[trigger] holds_each_part_once(before, n) implies holds_each_part_once(
            after,
            n,
        ) && numbered_in_order(after) && strictly_ascending(after) by {
            lemma_reordering_keeps_each_part(before, after, n);
            lemma_sorted_parts_are_numbered_in_order(after, n);
        }
    }
}

} // verus!
