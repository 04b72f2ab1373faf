//! Request headers: the names that the upload protocol uses, what may stand
//! in a value, and the map that carries them.

use crate::digest::base64_standard;
use crate::digest::hex_lower;
use crate::digest::lemma_hex_lower_shape;
use crate::text::decimal_digits;
use reqwest::header::HeaderMap;
use reqwest::header::HeaderName;
use reqwest::header::HeaderValue;
use vstd::prelude::*;
use vstd::utf8::encode_utf8;

verus! {

/// `reqwest::header::HeaderMap`, the multimap of header names and values.
#[verifier::external_type_specification]
#[verifier::external_body]
#[verifier::reject_recursive_types(T)]
pub struct ExHeaderMap<T>(HeaderMap<T>);

/// `reqwest::header::HeaderValue`, the bytes of one header value.
#[verifier::external_type_specification]
#[verifier::external_body]
pub struct ExHeaderValue(HeaderValue);

/// `reqwest::header::HeaderName`, the name of a header.
#[verifier::external_type_specification]
#[verifier::external_body]
pub struct ExHeaderName(HeaderName);

/// The text of a header name, which is in lower case.
pub uninterp spec fn header_name_text(name: HeaderName) -> Seq<char>;

/// The bytes of a header value.
pub uninterp spec fn header_value_bytes(value: HeaderValue) -> Seq<u8>;

/// What a header map holds: for each name, in lower case, the values under
/// it, each as its bytes, in the order in which they were added.
pub uninterp spec fn header_entries(headers: HeaderMap<HeaderValue>) -> Map<Seq<char>, Seq<Seq<u8>>>;

/// Number of names up to which a header map takes a further name without
/// growing past its greatest size.
pub const HEADER_MAP_ROOM: usize = 4096;

/// The header names that the upload protocol uses. Each is made of lower-case
/// letters, digits and hyphens.
pub open spec fn is_header_name(name: Seq<char>) -> bool {
    ||| name == "authorization"@
    ||| name == "content-length"@
    ||| name == "content-type"@
    ||| name == "x-bz-content-sha1"@
    ||| name == "x-bz-file-legal-hold"@
    ||| name == "x-bz-file-name"@
    ||| name == "x-bz-file-retention-mode"@
    ||| name == "x-bz-file-retention-retain-until-timestamp"@
    ||| name == "x-bz-part-number"@
    ||| name == "x-bz-server-side-encryption"@
    ||| name == "x-bz-server-side-encryption-customer-algorithm"@
    ||| name == "x-bz-server-side-encryption-customer-key"@
    ||| name == "x-bz-server-side-encryption-customer-key-md5"@
}

/// A character that may stand in a header value: a tab, or any character
/// from the space on but for DEL.
pub open spec fn is_header_value_char(c: char) -> bool {
    (c as u32 >= 32 && c as u32 != 127) || c as u32 == 9
}

/// A text that can be a header value: it holds no control character but tabs.
pub open spec fn is_header_value(value: Seq<char>) -> bool {
    forall|i: int| 0 <= i < value.len() ==> is_header_value_char(#[trigger] value[i])
}

/// The entries of a map that holds nothing.
pub open spec fn no_headers() -> Map<Seq<char>, Seq<Seq<u8>>> {
    Map::empty()
}

/// The map has room for `n` further names.
pub open spec fn has_room(entries: Map<Seq<char>, Seq<Seq<u8>>>, n: nat) -> bool {
    entries.dom().finite() && entries.dom().len() + n <= HEADER_MAP_ROOM
}

/// The entries after `value` was put under `name` in place of whatever stood
/// there.
pub open spec fn with_header(
    entries: Map<Seq<char>, Seq<Seq<u8>>>,
    name: Seq<char>,
    value: Seq<char>,
) -> Map<Seq<char>, Seq<Seq<u8>>> {
    entries.insert(name, seq![encode_utf8(value)])
}

/// `HeaderMap::new`: a map without entries.
#[verifier::external_body]
pub(crate) fn new_header_map() -> (headers: HeaderMap<HeaderValue>)
    ensures
        header_entries(headers) == no_headers(),
{
    HeaderMap::new()
}

/// `HeaderName::from_static`: the name as a header name. It panics on an
/// empty name and on a character that is no lower-case letter, digit or one
/// of a few signs, the hyphen among them.
#[verifier::external_body]
pub(crate) fn static_header_name(name: &'static str) -> (header: HeaderName)
    requires
        is_header_name(name@),
    ensures
        header_name_text(header) == name@,
{
    HeaderName::from_static(name)
}

/// `HeaderValue::from_str`: the text as a header value, unless it holds a
/// byte below 32 other than tab, or 127. The bytes of a character outside
/// ASCII are all above 127, so the test on bytes is the test on characters.
#[verifier::external_body]
pub(crate) fn header_value(value: &str) -> (header: Option<HeaderValue>)
    ensures
        match header {
            Some(header) => is_header_value(value@) && header_value_bytes(header) == encode_utf8(
                value@,
            ),
            None => !is_header_value(value@),
        },
{
    HeaderValue::from_str(value).ok()
}

/// `HeaderMap::insert`: the value stands alone under the name afterwards, and
/// the other names keep what they had. It panics only when the map outgrows
/// its greatest size, which it does not do below some thousands of names.
#[verifier::external_body]
pub(crate) fn insert_header(headers: &mut HeaderMap<HeaderValue>, name: HeaderName, value: HeaderValue)
    requires
        has_room(header_entries(*old(headers)), 1),
    ensures
        header_entries(*final(headers)) == header_entries(*old(headers)).insert(
            header_name_text(name),
            seq![header_value_bytes(value)],
        ),
{
    headers.insert(name, value);
}

/// Whether a text can be a header value.
pub(crate) fn takes_header_value(value: &str) -> (taken: bool)
    ensures
        taken == is_header_value(value@),
{
    header_value(value).is_some()
}

/// Puts one header into a map that has room for `n + 1` names.
pub(crate) fn put_header(
    headers: &mut HeaderMap<HeaderValue>,
    name: &'static str,
    value: &str,
    Ghost(n): Ghost<nat>,
)
    requires
        is_header_name(name@),
        is_header_value(value@),
        has_room(header_entries(*old(headers)), n + 1),
    ensures
        header_entries(*final(headers)) == with_header(
            header_entries(*old(headers)),
            name@,
            value@,
        ),
        has_room(header_entries(*final(headers)), n),
{
    proof {
        lemma_with_header_room(header_entries(*headers), name@, value@, n);
    }
    let name = static_header_name(name);
    match header_value(value) {
        Some(value) => {
            insert_header(headers, name, value);
        },
        None => {},
    }
}

/// Putting a header into a map with room for `n + 1` names leaves room for
/// `n`.
pub proof fn lemma_with_header_room(
    entries: Map<Seq<char>, Seq<Seq<u8>>>,
    name: Seq<char>,
    value: Seq<char>,
    n: nat,
)
    requires
        has_room(entries, n + 1),
    ensures
        has_room(with_header(entries, name, value), n),
{
    assert(with_header(entries, name, value).dom() =~= entries.dom().insert(name));
}

/// A number in decimal can be a header value.
pub proof fn lemma_decimal_is_header_value(n: nat)
    ensures
        is_header_value(decimal_digits(n)),
    decreases n,
{
    if n >= 10 {
        lemma_decimal_is_header_value(n / 10);
    }
}

/// A digest in lower-case hex can be a header value.
pub proof fn lemma_hex_is_header_value(bytes: Seq<u8>)
    ensures
        is_header_value(hex_lower(bytes)),
{
    lemma_hex_lower_shape(bytes);
}

/// A base64 text can be a header value.
pub proof fn lemma_base64_is_header_value(bytes: Seq<u8>)
    ensures
        is_header_value(base64_standard(bytes)),
{
    assert forall|i: int| 0 <= i < base64_standard(bytes).len() implies is_header_value_char(
        #[trigger] base64_standard(bytes)[i],
    ) by {
        let g = 3 * (i / 4);
        let b0 = crate::digest::byte_or_zero(bytes, g);
        let b1 = crate::digest::byte_or_zero(bytes, g + 1);
        let b2 = crate::digest::byte_or_zero(bytes, g + 2);
        assert(0 <= b0 / 4 < 64);
        assert(0 <= (b0 % 4) * 16 + b1 / 16 < 64);
        assert(0 <= (b1 % 16) * 4 + b2 / 64 < 64);
        assert(0 <= b2 % 64 < 64);
    }
}

/// Two header values, one after the other, are a header value.
pub proof fn lemma_joined_header_values(a: Seq<char>, b: Seq<char>)
    requires
        is_header_value(a),
        is_header_value(b),
    ensures
        is_header_value(a + b),
{
    assert forall|i: int| 0 <= i < (a + b).len() implies is_header_value_char(
        #[trigger] (a + b)[i],
    ) by {
        if i < a.len() {
            assert((a + b)[i] == a[i]);
        } else {
            assert((a + b)[i] == b[i - a.len()]);
        }
    }
}

/// The fixed texts that the library puts into headers can be header values.
pub proof fn lemma_fixed_values_are_header_values()
    ensures
        is_header_value("application/octet-stream"@),
        is_header_value("on"@),
        is_header_value("off"@),
        is_header_value("governance"@),
        is_header_value("compliance"@),
        is_header_value("Basic "@),
        is_header_value("AES256"@),
{
    reveal_strlit("Basic ");
    reveal_strlit("AES256");
    reveal_strlit("application/octet-stream");
    reveal_strlit("on");
    reveal_strlit("off");
    reveal_strlit("governance");
    reveal_strlit("compliance");
}

} // verus!
