//! The canonical UUID value and its hyphenated text form.

use std::hash::{Hash, Hasher};
use uuid::Uuid;
use vstd::prelude::*;
use vstd::string::*;
use vstd::utf8::{encode_utf8, is_ascii_chars, is_ascii_chars_encode_utf8};

use crate::error::{yields, ParseError};
use crate::guid::{nil_bytes, ShortGuid};

verus! {

/// The UUID type of the `uuid` crate.
#[verifier::external_type_specification]
#[verifier::external_body]
pub struct ExUuid(Uuid);

/// The error type of the `uuid` crate.
#[verifier::external_type_specification]
#[verifier::external_body]
pub struct ExUuidError(uuid::Error);

/// The sixteen bytes that a UUID holds, in big-endian order.
pub uninterp spec fn uuid_octets(uuid: Uuid) -> Seq<u8>;

/// The error with which the UUID library rejects `bytes` as a UUID.
pub uninterp spec fn slice_rejection(bytes: Seq<u8>) -> uuid::Error;

/// The sentence with which the UUID library describes its error.
pub uninterp spec fn uuid_error_text(error: uuid::Error) -> Seq<char>;

/// Whether `c` is a hexadecimal digit, in either case.
pub open spec fn is_hex_digit(c: char) -> bool {
    ('0' <= c && c <= '9') || ('a' <= c && c <= 'f') || ('A' <= c && c <= 'F')
}

/// The number that the hexadecimal digit `c` stands for.
pub open spec fn hex_value(c: char) -> int
    recommends
        is_hex_digit(c),
{
    if '0' <= c && c <= '9' {
        c as int - '0' as int
    } else if 'a' <= c && c <= 'f' {
        c as int - 'a' as int + 10
    } else {
        c as int - 'A' as int + 10
    }
}

/// The lower-case hexadecimal digit for a number below sixteen.
pub open spec fn lower_hex_digit(v: int) -> char
    recommends
        0 <= v < 16,
{
    if v < 10 {
        ('0' as int + v) as u8 as char
    } else {
        ('a' as int + v - 10) as u8 as char
    }
}

/// The number of hyphens that stand before position `i` of the hyphenated
/// form.
pub open spec fn hyphens_before(i: int) -> int {
    if i <= 8 {
        0
    } else if i <= 13 {
        1
    } else if i <= 18 {
        2
    } else if i <= 23 {
        3
    } else {
        4
    }
}

/// Whether position `i` of the hyphenated form holds a hyphen.
pub open spec fn is_hyphen_position(i: int) -> bool {
    i == 8 || i == 13 || i == 18 || i == 23
}

/// Where the first of the two digits of byte `k` stands in the hyphenated
/// form: the groups hold 4, 2, 2, 2 and 6 bytes.
pub open spec fn digit_position(k: int) -> int {
    2 * k + if k < 4 {
        0int
    } else if k < 6 {
        1int
    } else if k < 8 {
        2int
    } else if k < 10 {
        3int
    } else {
        4int
    }
}

/// Whether `text` is a UUID in hyphenated form: 36 characters, a hyphen after
/// the groups of 8, 4, 4 and 4 hexadecimal digits, and 12 more digits.
pub open spec fn is_canonical(text: Seq<char>) -> bool {
    &&& text.len() == 36
    &&& forall|i: int|
        0 <= i < 36 ==> if is_hyphen_position(i) {
            #[trigger] text[i] == '-'
        } else {
            is_hex_digit(text[i])
        }
}

/// The sixteen bytes that a hyphenated UUID denotes: each byte from its two
/// digits, the first digit being the high half.
pub open spec fn canonical_value(text: Seq<char>) -> Seq<u8>
    recommends
        is_canonical(text),
{
    Seq::new(
        16,
        |k: int|
            {
                let high = hex_value(text[digit_position(k)]);
                let low = hex_value(text[digit_position(k) + 1]);
                (16 * high + low) as u8
            },
    )
}

/// The hyphenated form of sixteen bytes, in lower case.
pub open spec fn canonical_text(bytes: Seq<u8>) -> Seq<char>
    recommends
        bytes.len() == 16,
{
    Seq::new(
        36,
        |i: int|
            if is_hyphen_position(i) {
                '-'
            } else {
                let d = i - hyphens_before(i);
                if d % 2 == 0 {
                    lower_hex_digit(bytes[d / 2] as int / 16)
                } else {
                    lower_hex_digit(bytes[d / 2] as int % 16)
                }
            },
    )
}

/// `Uuid::as_bytes` borrows the array that the UUID wraps.
pub assume_specification[ Uuid::as_bytes ](uuid: &Uuid) -> (bytes: &uuid::Bytes)
    ensures
        bytes@ == uuid_octets(*uuid),
;

/// `Uuid::from_bytes_ref` reinterprets the borrowed array as a UUID.
pub assume_specification[ Uuid::from_bytes_ref ](bytes: &uuid::Bytes) -> (uuid: &Uuid)
    ensures
        uuid_octets(*uuid) == bytes@,
;

/// `Uuid::from_slice` accepts exactly the slices of sixteen bytes, and wraps
/// them as they are; the error for any other slice depends on the slice alone.
pub assume_specification[ Uuid::from_slice ](b: &[u8]) -> (outcome: Result<Uuid, uuid::Error>)
    ensures
        match outcome {
            Ok(uuid) => b@.len() == 16 && uuid_octets(uuid) == b@,
            Err(error) => b@.len() != 16 && error == slice_rejection(b@),
        },
;

/// `Uuid::try_parse`, as far as this library relies on it: an input of 36
/// bytes is parsed as the hyphenated form and as nothing else. (Inputs of
/// other lengths may be accepted in other forms; nothing is said of them.)
pub assume_specification[ Uuid::try_parse ](input: &str) -> (outcome: Result<Uuid, uuid::Error>)
    ensures
        input.spec_bytes().len() == 36 ==> match outcome {
            Ok(uuid) => is_canonical(input@) && uuid_octets(uuid) == canonical_value(input@),
            Err(_) => !is_canonical(input@),
        },
;

/// `Uuid::new_v4` draws 122 random bits and sets the other six: the version
/// is 4 and the variant is the one of RFC 4122. It panics if the system's
/// random source fails.
pub assume_specification[ Uuid::new_v4 ]() -> (uuid: Uuid)
    ensures
        uuid_octets(uuid)[6] / 16 == 4,
        uuid_octets(uuid)[8] / 64 == 2,
;

/// `Display` of `Uuid`, through `to_string`: the hyphenated form in lower
/// case.
#[verifier::external_body]
fn hyphenated(uuid: &Uuid) -> (text: String)
    ensures
        text@ == canonical_text(uuid_octets(*uuid)),
{
    uuid.to_string()
}

/// `Hash` of `Uuid`, which feeds the sixteen bytes to the hasher.
#[verifier::external_body]
fn hash_uuid<H: Hasher>(uuid: &Uuid, state: &mut H) {
    uuid.hash(state)
}

impl Hash for ShortGuid {
    /// Hashes the identifier as the UUID with its bytes is hashed, so that
    /// an identifier can be looked up by its UUID.
    fn hash<H: Hasher>(&self, state: &mut H) {
        hash_uuid(self.as_uuid(), state)
    }
}

/// `Display` of `uuid::Error`, through `to_string`.
#[verifier::external_body]
pub(crate) fn describe_uuid_error(error: &uuid::Error) -> (text: String)
    ensures
        text@ == uuid_error_text(*error),
{
    error.to_string()
}

/// A text in hyphenated form is ASCII, so it is 36 bytes long.
pub proof fn canonical_is_ascii(text: Seq<char>)
    requires
        is_canonical(text),
    ensures
        is_ascii_chars(text),
        encode_utf8(text).len() == 36,
{
    assert forall|i: int| 0 <= i < text.len() implies '\0' <= #[trigger] text[i] <= '\u{7f}' by {
        if is_hyphen_position(i) {
            assert(text[i] == '-');
        }
    }
    is_ascii_chars_encode_utf8(text);
}

/// A lower-case digit is a hexadecimal digit and stands for its number.
pub proof fn lower_hex_digit_is_read_back(v: int)
    requires
        0 <= v < 16,
    ensures
        is_hex_digit(lower_hex_digit(v)),
        hex_value(lower_hex_digit(v)) == v,
{
}

/// The hyphenated form of sixteen bytes is in hyphenated form, and denotes
/// those bytes.
pub proof fn canonical_text_is_read_back(bytes: Seq<u8>)
    requires
        bytes.len() == 16,
    ensures
        is_canonical(canonical_text(bytes)),
        canonical_value(canonical_text(bytes)) == bytes,
{
    let text = canonical_text(bytes);
    assert forall|i: int| 0 <= i < 36 implies if is_hyphen_position(i) {
        #[trigger] text[i] == '-'
    } else {
        is_hex_digit(text[i])
    } by {
        if !is_hyphen_position(i) {
            let d = i - hyphens_before(i);
            lower_hex_digit_is_read_back(bytes[d / 2] as int / 16);
            lower_hex_digit_is_read_back(bytes[d / 2] as int % 16);
        }
    }
    assert forall|k: int| 0 <= k < 16 implies canonical_value(text)[k] == bytes[k] by {
        let p = digit_position(k);
        assert(p - hyphens_before(p) == 2 * k);
        assert(p + 1 - hyphens_before(p + 1) == 2 * k + 1);
        lower_hex_digit_is_read_back(bytes[k] as int / 16);
        lower_hex_digit_is_read_back(bytes[k] as int % 16);
    }
    assert(canonical_value(text) =~= bytes);
}

/// What `from_slice` makes of `bytes`.
pub open spec fn slice_outcome(bytes: Seq<u8>) -> Result<Seq<u8>, ParseError> {
    if bytes.len() == 16 {
        Ok(bytes)
    } else {
        Err(ParseError::InvalidSlice(slice_rejection(bytes)))
    }
}

impl ShortGuid {
    /// A new identifier from a random UUID of version 4.
    ///
    /// Whatever the random source gives, the version and variant bits are set,
    /// so the identifier is never nil.
    pub fn new_random() -> (guid: ShortGuid)
        ensures
            guid@[6] / 16 == 4,
            guid@[8] / 64 == 2,
            guid@ != nil_bytes(),
    {
        let uuid = Uuid::new_v4();
        let guid = ShortGuid::new_from_uuid(uuid);
        assert(nil_bytes()[6] == 0);
        guid
    }

    /// The identifier with the bytes of `uuid`.
    pub fn new_from_uuid(uuid: Uuid) -> (guid: ShortGuid)
        ensures
            guid@ == uuid_octets(uuid),
    {
        ShortGuid::from_bytes(uuid.as_bytes())
    }

    /// The identifier with the bytes of the slice, which must be sixteen.
    pub fn from_slice(bytes: &[u8]) -> (result: Result<ShortGuid, ParseError>)
        ensures
            yields(result, slice_outcome(bytes@)),
    {
        match Uuid::from_slice(bytes) {
            Ok(uuid) => Ok(ShortGuid::new_from_uuid(uuid)),
            Err(error) => Err(ParseError::InvalidSlice(error)),
        }
    }

    /// Reads the hyphenated form: the identifier that `value` denotes, if
    /// `value` is in that form.
    pub(crate) fn parse_canonical(value: &str) -> (parsed: Option<ShortGuid>)
        ensures
            match parsed {
                Some(guid) => is_canonical(value@) && guid@ == canonical_value(value@),
                None => !is_canonical(value@),
            },
    {
        proof {
            if is_canonical(value@) {
                canonical_is_ascii(value@);
            }
        }
        if value.as_bytes().len() != 36 {
            return None;
        }
        match Uuid::try_parse(value) {
            Ok(uuid) => Some(ShortGuid::new_from_uuid(uuid)),
            Err(_) => None,
        }
    }

    /// Borrows the identifier as a UUID: the same bytes, nothing changed.
    pub fn as_uuid(&self) -> (uuid: &Uuid)
        ensures
            uuid_octets(*uuid) == self@,
    {
        Uuid::from_bytes_ref(self.as_bytes())
    }

    /// The identifier in the hyphenated form, in lower case.
    ///
    /// The text is in hyphenated form and denotes the identifier.
    pub fn to_canonical_string(&self) -> (text: String)
        ensures
            text@ == canonical_text(self@),
            is_canonical(text@),
            canonical_value(text@) == self@,
    {
        proof {
            self.has_sixteen_bytes();
            canonical_text_is_read_back(self@);
        }
        hyphenated(self.as_uuid())
    }
}

} // verus!
