//! Capabilities of an application key, kept as a set of bits.

use vstd::prelude::*;

verus! {

/// A set of B2 capabilities. Bit `i` stands for the capability whose name is
/// `capability_name(i)`; the view is the word of bits.
#[derive(Debug, Clone, Copy, PartialEq, Eq, Structural, Hash)]
pub struct B2Capability {
    bits: u32,
}

/// Number of capabilities that have a name.
pub const CAPABILITY_COUNT: usize = 24;

/// The bits of every named capability.
pub const ALL_CAPABILITY_BITS: u32 = 0x00ff_ffff;

impl View for B2Capability {
    type V = u32;

    closed spec fn view(&self) -> u32 {
        self.bits
    }
}

/// Whether bit `i` is set in `bits`.
pub open spec fn has_bit(bits: u32, i: u32) -> bool {
    (bits >> i) & 1 == 1
}

/// The name under which capability `i` goes over the wire.
pub open spec fn capability_name(i: int) -> Seq<char> {
    if i == 0 {
        "listKeys"@
    } else if i == 1 {
        "writeKeys"@
    } else if i == 2 {
        "deleteKeys"@
    } else if i == 3 {
        "listAllBucketNames"@
    } else if i == 4 {
        "listBuckets"@
    } else if i == 5 {
        "readBuckets"@
    } else if i == 6 {
        "writeBuckets"@
    } else if i == 7 {
        "deleteBuckets"@
    } else if i == 8 {
        "readBucketRetentions"@
    } else if i == 9 {
        "writeBucketRetentions"@
    } else if i == 10 {
        "readBucketEncryption"@
    } else if i == 11 {
        "writeBucketEncryption"@
    } else if i == 12 {
        "listFiles"@
    } else if i == 13 {
        "readFiles"@
    } else if i == 14 {
        "shareFiles"@
    } else if i == 15 {
        "writeFiles"@
    } else if i == 16 {
        "deleteFiles"@
    } else if i == 17 {
        "readFileLegalHolds"@
    } else if i == 18 {
        "writeFileLegalHolds"@
    } else if i == 19 {
        "readFileRetentions"@
    } else if i == 20 {
        "writeFileRetentions"@
    } else if i == 21 {
        "bypassGovernance"@
    } else if i == 22 {
        "readBucketReplications"@
    } else {
        "writeBucketReplications"@
    }
}

/// The names of the capabilities among the first `n` whose bit is set in
/// `bits`, by rising bit.
pub open spec fn names_of(bits: u32, n: nat) -> Seq<Seq<char>>
    decreases n,
{
    if n == 0 {
        Seq::empty()
    } else if has_bit(bits, (n - 1) as u32) {
        names_of(bits, (n - 1) as nat).push(capability_name(n - 1))
    } else {
        names_of(bits, (n - 1) as nat)
    }
}

/// Lower case of an ASCII letter; any other character is left as it is.
pub open spec fn ascii_lower(c: char) -> char {
    if 'A' <= c && c <= 'Z' {
        ((c as u8) + 32) as char
    } else {
        c
    }
}

/// Two texts are the same but for the case of their ASCII letters.
pub open spec fn same_ignoring_ascii_case(a: Seq<char>, b: Seq<char>) -> bool {
    &&& a.len() == b.len()
    &&& forall|i: int| 0 <= i < a.len() ==> ascii_lower(#[trigger] a[i]) == ascii_lower(b[i])
}

/// `name` names capability `i`, in any mix of upper and lower case.
pub open spec fn names_capability(name: Seq<char>, i: int) -> bool {
    0 <= i < CAPABILITY_COUNT && same_ignoring_ascii_case(capability_name(i), name)
}

/// `name` names one of the capabilities.
pub open spec fn is_capability_name(name: Seq<char>) -> bool {
    exists|i: int| names_capability(name, i)
}

/// The bits of the capabilities that the first `n` names stand for: for each
/// name, the bit of the first capability that it names.
pub open spec fn bits_of_names(names: Seq<Seq<char>>, n: nat) -> u32
    decreases n,
{
    if n == 0 {
        0
    } else {
        bits_of_names(names, (n - 1) as nat) | (1u32 << (first_named(names[n - 1], 0) as u32))
    }
}

/// The first capability at or after `from` that `name` names, or
/// `CAPABILITY_COUNT` if there is none.
pub open spec fn first_named(name: Seq<char>, from: nat) -> nat
    decreases CAPABILITY_COUNT - from,
{
    if from >= CAPABILITY_COUNT {
        CAPABILITY_COUNT as nat
    } else if same_ignoring_ascii_case(capability_name(from as int), name) {
        from
    } else {
        first_named(name, from + 1)
    }
}

/// The wire name of capability `i`.
pub fn name_of_capability(i: usize) -> (name: &'static str)
    requires
        i < CAPABILITY_COUNT,
    ensures
        name@ == capability_name(i as int),
{
    if i == 0 {
        "listKeys"
    } else if i == 1 {
        "writeKeys"
    } else if i == 2 {
        "deleteKeys"
    } else if i == 3 {
        "listAllBucketNames"
    } else if i == 4 {
        "listBuckets"
    } else if i == 5 {
        "readBuckets"
    } else if i == 6 {
        "writeBuckets"
    } else if i == 7 {
        "deleteBuckets"
    } else if i == 8 {
        "readBucketRetentions"
    } else if i == 9 {
        "writeBucketRetentions"
    } else if i == 10 {
        "readBucketEncryption"
    } else if i == 11 {
        "writeBucketEncryption"
    } else if i == 12 {
        "listFiles"
    } else if i == 13 {
        "readFiles"
    } else if i == 14 {
        "shareFiles"
    } else if i == 15 {
        "writeFiles"
    } else if i == 16 {
        "deleteFiles"
    } else if i == 17 {
        "readFileLegalHolds"
    } else if i == 18 {
        "writeFileLegalHolds"
    } else if i == 19 {
        "readFileRetentions"
    } else if i == 20 {
        "writeFileRetentions"
    } else if i == 21 {
        "bypassGovernance"
    } else if i == 22 {
        "readBucketReplications"
    } else {
        "writeBucketReplications"
    }
}

/// `str::eq_ignore_ascii_case`: std compares the two texts byte by byte after
/// lowering ASCII letters. The bytes of a character outside ASCII are all
/// above 127, so this is the same comparison character by character.
#[verifier::external_body]
pub(crate) fn text_eq_ignore_ascii_case(a: &str, b: &str) -> (same: bool)
    ensures
        same == same_ignoring_ascii_case(a@, b@),
{
    a.eq_ignore_ascii_case(b)
}

impl B2Capability {
    pub const LIST_KEYS: u32 = 1 << 0;

    pub const WRITE_KEYS: u32 = 1 << 1;

    pub const DELETE_KEYS: u32 = 1 << 2;

    pub const LIST_ALL_BUCKET_NAMES: u32 = 1 << 3;

    pub const LIST_BUCKETS: u32 = 1 << 4;

    pub const READ_BUCKETS: u32 = 1 << 5;

    pub const WRITE_BUCKETS: u32 = 1 << 6;

    pub const DELETE_BUCKETS: u32 = 1 << 7;

    pub const READ_BUCKET_RETENTIONS: u32 = 1 << 8;

    pub const WRITE_BUCKET_RETENTIONS: u32 = 1 << 9;

    pub const READ_BUCKET_ENCRYPTION: u32 = 1 << 10;

    pub const WRITE_BUCKET_ENCRYPTION: u32 = 1 << 11;

    pub const LIST_FILES: u32 = 1 << 12;

    pub const READ_FILES: u32 = 1 << 13;

    pub const SHARE_FILES: u32 = 1 << 14;

    pub const WRITE_FILES: u32 = 1 << 15;

    pub const DELETE_FILES: u32 = 1 << 16;

    pub const READ_FILE_LEGAL_HOLDS: u32 = 1 << 17;

    pub const WRITE_FILE_LEGAL_HOLDS: u32 = 1 << 18;

    pub const READ_FILE_RETENTIONS: u32 = 1 << 19;

    pub const WRITE_FILE_RETENTIONS: u32 = 1 << 20;

    pub const BYPASS_GOVERNANCE: u32 = 1 << 21;

    pub const READ_BUCKET_REPLICATIONS: u32 = 1 << 22;

    pub const WRITE_BUCKET_REPLICATIONS: u32 = 1 << 23;

    /// The capabilities that a key restricted to one bucket may have: all but
    /// those on keys, on writing and deleting buckets, and on replication.
    pub const ALLOWED_CAPABILITIES_IN_BUCKET_KEY: u32 = 0x003f_ff38;

    /// The set with no capability.
    pub fn empty() -> (caps: Self)
        ensures
            caps@ == 0,
    {
        B2Capability { bits: 0 }
    }

    /// The set with every named capability.
    pub fn all() -> (caps: Self)
        ensures
            caps@ == ALL_CAPABILITY_BITS,
    {
        B2Capability { bits: ALL_CAPABILITY_BITS }
    }

    /// The set with exactly the given bits, named or not.
    pub fn from_bits_retain(bits: u32) -> (caps: Self)
        ensures
            caps@ == bits,
    {
        B2Capability { bits }
    }

    /// The set with the named ones among the given bits.
    pub fn from_bits_truncate(bits: u32) -> (caps: Self)
        ensures
            caps@ == bits & ALL_CAPABILITY_BITS,
    {
        B2Capability { bits: bits & ALL_CAPABILITY_BITS }
    }

    /// The word of bits.
    pub fn bits(&self) -> (bits: u32)
        ensures
            bits == self@,
    {
        self.bits
    }

    /// Whether the set holds no capability.
    pub fn is_empty(&self) -> (b: bool)
        ensures
            b == (self@ == 0),
    {
        self.bits == 0
    }

    /// Whether every capability of `other` is in this set.
    pub fn contains(&self, other: Self) -> (b: bool)
        ensures
            b == (self@ & other@ == other@),
    {
        self.bits & other.bits == other.bits
    }

    /// The capabilities that are in either set.
    pub fn union(self, other: Self) -> (caps: Self)
        ensures
            caps@ == self@ | other@,
    {
        B2Capability { bits: self.bits | other.bits }
    }

    /// The capabilities that are in both sets.
    pub fn intersection(self, other: Self) -> (caps: Self)
        ensures
            caps@ == self@ & other@,
    {
        B2Capability { bits: self.bits & other.bits }
    }

    /// Takes the union of two sets of capabilities only if the condition is true.
    pub fn cond_union(self, cond: bool, other: Self) -> (caps: Self)
        ensures
            caps@ == (if cond {
                self@ | other@
            } else {
                self@
            }),
    {
        if cond {
            self.union(other)
        } else {
            self
        }
    }

    /// Adds the capabilities of `other` to this set.
    pub fn insert(&mut self, other: Self)
        ensures
            final(self)@ == old(self)@ | other@,
    {
        self.bits = self.bits | other.bits;
    }
}

impl Default for B2Capability {
    fn default() -> (caps: Self)
        ensures
            caps@ == 0,
    {
        B2Capability { bits: 0 }
    }
}

/// A set of B2 capabilities that goes over the wire as a list of names.
#[derive(Debug, Clone, Copy, PartialEq, Eq, Structural, Hash)]
pub struct B2CapabilitiesStringSet {
    caps: B2Capability,
}

impl View for B2CapabilitiesStringSet {
    type V = u32;

    closed spec fn view(&self) -> u32 {
        self.caps@
    }
}

impl Default for B2CapabilitiesStringSet {
    fn default() -> (set: Self)
        ensures
            set@ == 0,
    {
        B2CapabilitiesStringSet { caps: B2Capability::empty() }
    }
}

impl B2CapabilitiesStringSet {
    /// The set of exactly these capabilities.
    pub fn new(caps: B2Capability) -> (set: Self)
        ensures
            set@ == caps@,
    {
        B2CapabilitiesStringSet { caps }
    }

    /// The capabilities in the set.
    pub fn capabilities(&self) -> (caps: B2Capability)
        ensures
            caps@ == self@,
    {
        self.caps
    }

    /// Whether every capability of `other` is in this set.
    pub fn contains(&self, other: B2Capability) -> (b: bool)
        ensures
            b == (self@ & other@ == other@),
    {
        self.caps.contains(other)
    }

    /// Adds the capabilities of `other` to this set.
    pub fn insert(&mut self, other: B2Capability)
        ensures
            final(self)@ == old(self)@ | other@,
    {
        self.caps.insert(other);
    }

    /// The names of the capabilities in the set, by rising bit: the list that
    /// goes over the wire.
    pub fn to_names(&self) -> (names: Vec<&'static str>)
        ensures
            names@.map_values(|s: &'static str| s@) == names_of(self@, CAPABILITY_COUNT as nat),
    {
        let mut names: Vec<&'static str> = Vec::new();
        let bits: u32 = self.caps.bits();
        let mut i: usize = 0;
        while i < CAPABILITY_COUNT
            invariant
                i <= CAPABILITY_COUNT,
                bits == self@,
                names@.map_values(|s: &'static str| s@) == names_of(bits, i as nat),
            decreases CAPABILITY_COUNT - i,
        {
            let ghost before = names@;
            let shift: u32 = i as u32;
            if (bits >> shift) & 1 == 1 {
                let name = name_of_capability(i);
                names.push(name);
                assert(names@.map_values(|s: &'static str| s@) =~= before.map_values(
                    |s: &'static str| s@,
                ).push(name@));
            }
            i = i + 1;
        }
        names
    }

    /// Reads a list of names back into a set. Each name is matched without
    /// regard to the case of ASCII letters. The result is `Err(i)` for the
    /// first index `i` whose name is no capability's.
    pub fn from_names(names: &Vec<&str>) -> (result: Result<Self, usize>)
        ensures
            match result {
                Ok(set) => {
                    &&& forall|k: int| 0 <= k < names.len() ==> is_capability_name(#[trigger] names[k]@)
                    &&& set@ == bits_of_names(names@.map_values(|s: &str| s@), names.len() as nat)
                },
                Err(i) => {
                    &&& i < names.len()
                    &&& !is_capability_name(names[i as int]@)
                    &&& forall|k: int| 0 <= k < i ==> is_capability_name(#[trigger] names[k]@)
                },
            },
    {
        let mut bits: u32 = 0;
        let mut k: usize = 0;
        let ghost texts = names@.map_values(|s: &str| s@);
        while k < names.len()
            invariant
                k <= names.len(),
                texts == names@.map_values(|s: &str| s@),
                forall|j: int| 0 <= j < k ==> is_capability_name(#[trigger] names[j]@),
                bits == bits_of_names(texts, k as nat),
            decreases names.len() - k,
        {
            let name: &str = names[k];
            match find_capability(name) {
                Some(i) => {
                    let shift: u32 = i as u32;
                    bits = bits | (1u32 << shift);
                    assert(texts[k as int] == name@);
                    assert(names_capability(name@, i as int));
                },
                None => {
                    return Err(k);
                },
            }
            k = k + 1;
        }
        Ok(B2CapabilitiesStringSet { caps: B2Capability::from_bits_retain(bits) })
    }
}

/// The first capability that `name` names, if it names one.
pub fn find_capability(name: &str) -> (found: Option<usize>)
    ensures
        match found {
            Some(i) => names_capability(name@, i as int) && i == first_named(name@, 0),
            None => !is_capability_name(name@),
        },
{
    let mut i: usize = 0;
    while i < CAPABILITY_COUNT
        invariant
            i <= CAPABILITY_COUNT,
            first_named(name@, 0) == first_named(name@, i as nat),
            forall|j: int| 0 <= j < i ==> !names_capability(name@, j),
        decreases CAPABILITY_COUNT - i,
    {
        if text_eq_ignore_ascii_case(name_of_capability(i), name) {
            return Some(i);
        }
        i = i + 1;
    }
    None
}

} // verus!
