//! Digests and their encodings, as the upload protocol asks for them:
//! SHA-1 in lower-case hex for content, MD5 in base64 for encryption keys.

use base64::Engine;
use sha1::Digest;
use vstd::prelude::*;

verus! {

/// Number of bytes of a SHA-1 digest.
pub const SHA1_LEN: usize = 20;

/// Number of bytes of an MD5 digest.
pub const MD5_LEN: usize = 16;

/// Number of input bytes up to which a SHA-1 accumulator counts bits without
/// overflow: `2^61`.
pub const SHA1_INPUT_LIMIT: u64 = 0x2000_0000_0000_0000;

/// The SHA-1 digest of a sequence of bytes, as the `sha1` crate computes it.
pub uninterp spec fn sha1_of(input: Seq<u8>) -> Seq<u8>;

/// The MD5 digest of a sequence of bytes, as the `md-5` crate computes it.
pub uninterp spec fn md5_of(input: Seq<u8>) -> Seq<u8>;

/// The bytes that a SHA-1 accumulator has taken in so far, in order.
pub uninterp spec fn sha1_input(state: Sha1State) -> Seq<u8>;

/// A running SHA-1 computation of the `sha1` crate.
#[verifier::external_body]
pub struct Sha1State {
    inner: sha1::Sha1,
}

/// `Sha1::new`: an accumulator that has taken in nothing.
#[verifier::external_body]
pub(crate) fn sha1_new() -> (state: Sha1State)
    ensures
        sha1_input(state) == Seq::<u8>::empty(),
{
    Sha1State { inner: sha1::Sha1::new() }
}

/// `Digest::update` on `Sha1`: the accumulator takes in `data` after what it
/// holds already.
#[verifier::external_body]
pub(crate) fn sha1_update(state: &mut Sha1State, data: &[u8])
    requires
        sha1_input(*old(state)).len() + data@.len() < SHA1_INPUT_LIMIT,
    ensures
        sha1_input(*final(state)) == sha1_input(*old(state)) + data@,
{
    state.inner.update(data)
}

/// `Digest::finalize` on `Sha1`: the 20 bytes of the digest of all that the
/// accumulator took in.
#[verifier::external_body]
pub(crate) fn sha1_finalize(state: Sha1State) -> (digest: Vec<u8>)
    requires
        sha1_input(state).len() < SHA1_INPUT_LIMIT,
    ensures
        digest@ == sha1_of(sha1_input(state)),
        digest@.len() == SHA1_LEN,
{
    state.inner.finalize().to_vec()
}

/// `Digest::digest` on `Md5`: the 16 bytes of the digest of `data`.
#[verifier::external_body]
pub(crate) fn md5_digest(data: &[u8]) -> (digest: Vec<u8>)
    ensures
        digest@ == md5_of(data@),
        digest@.len() == MD5_LEN,
{
    md5::Md5::digest(data).to_vec()
}

/// The lower-case hex digit of a number below 16.
pub open spec fn hex_digit(n: int) -> char {
    if n < 10 {
        ((48 + n) as u8) as char
    } else {
        ((87 + n) as u8) as char
    }
}

/// Lower-case hex: two digits for each byte, the high half first.
pub open spec fn hex_lower(bytes: Seq<u8>) -> Seq<char> {
    Seq::new(
        2 * bytes.len(),
        |i: int|
            if i % 2 == 0 {
                hex_digit(bytes[i / 2] as int / 16)
            } else {
                hex_digit(bytes[i / 2] as int % 16)
            },
    )
}

/// `hex::encode`: each byte becomes two lower-case hex digits, the high half
/// first.
#[verifier::external_body]
pub(crate) fn hex_encode(bytes: &[u8]) -> (text: String)
    ensures
        text@ == hex_lower(bytes@),
{
    hex::encode(bytes)
}

/// The character that stands for a number below 64 in the standard base64
/// alphabet: `A`..`Z`, `a`..`z`, `0`..`9`, `+`, `/`.
pub open spec fn base64_symbol(v: int) -> char {
    if v < 26 {
        ((65 + v) as u8) as char
    } else if v < 52 {
        ((97 + v - 26) as u8) as char
    } else if v < 62 {
        ((48 + v - 52) as u8) as char
    } else if v == 62 {
        '+'
    } else {
        '/'
    }
}

/// Byte `i` of `bytes`, or 0 past the end.
pub open spec fn byte_or_zero(bytes: Seq<u8>, i: int) -> int {
    if 0 <= i < bytes.len() {
        bytes[i] as int
    } else {
        0
    }
}

/// Standard base64 with padding: every three bytes become four symbols of six
/// bits each; a last group of one or two bytes is filled up with `=`.
pub open spec fn base64_standard(bytes: Seq<u8>) -> Seq<char> {
    Seq::new(
        (bytes.len() + 2) / 3 * 4,
        |i: int|
            {
                let g = 3 * (i / 4);
                let b0 = byte_or_zero(bytes, g);
                let b1 = byte_or_zero(bytes, g + 1);
                let b2 = byte_or_zero(bytes, g + 2);
                if i % 4 == 0 {
                    base64_symbol(b0 / 4)
                } else if i % 4 == 1 {
                    base64_symbol((b0 % 4) * 16 + b1 / 16)
                } else if i % 4 == 2 {
                    if g + 1 < bytes.len() {
                        base64_symbol((b1 % 16) * 4 + b2 / 64)
                    } else {
                        '='
                    }
                } else {
                    if g + 2 < bytes.len() {
                        base64_symbol(b2 % 64)
                    } else {
                        '='
                    }
                }
            },
    )
}

/// The encoded length of `len` bytes fits `usize`.
pub open spec fn base64_fits(len: nat) -> bool {
    (len + 2) / 3 * 4 <= usize::MAX
}

/// Whether `len` bytes can be encoded: whether the length of their base64
/// text fits `usize`.
pub fn fits_base64(len: usize) -> (fits: bool)
    ensures
        fits == base64_fits(len as nat),
{
    let groups: usize = len / 3 + if len % 3 > 0 {
        1
    } else {
        0
    };
    assert(groups == (len + 2) / 3);
    groups <= usize::MAX / 4
}

/// `Engine::encode` on `STANDARD`: base64 with the standard alphabet and
/// padding. The crate panics where the encoded length does not fit `usize`.
#[verifier::external_body]
pub(crate) fn base64_encode(bytes: &[u8]) -> (text: String)
    requires
        base64_fits(bytes@.len()),
    ensures
        text@ == base64_standard(bytes@),
{
    base64::engine::general_purpose::STANDARD.encode(bytes)
}

/// The SHA-1 digest of `bytes` in lower-case hex, the form in which the
/// upload protocol carries a content digest.
pub open spec fn sha1_hex(bytes: Seq<u8>) -> Seq<char> {
    hex_lower(sha1_of(bytes))
}

/// A character that a hex digest is made of.
pub open spec fn is_hex_char(c: char) -> bool {
    ('0' <= c && c <= '9') || ('a' <= c && c <= 'f')
}

/// A hex encoding is twice as long as its input and holds only the digits
/// `0`..`9` and `a`..`f`.
pub proof fn lemma_hex_lower_shape(bytes: Seq<u8>)
    ensures
        hex_lower(bytes).len() == 2 * bytes.len(),
        forall|i: int| 0 <= i < hex_lower(bytes).len() ==> is_hex_char(#[trigger] hex_lower(bytes)[i]),
{
    assert forall|i: int| 0 <= i < hex_lower(bytes).len() implies is_hex_char(
        #[trigger] hex_lower(bytes)[i],
    ) by {
        let b = bytes[i / 2] as int;
        assert(0 <= b / 16 < 16 && 0 <= b % 16 < 16);
    }
}

} // verus!
