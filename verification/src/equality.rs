//! Comparing an identifier with UUIDs, texts and byte buffers.

use uuid::Uuid;
use vstd::prelude::*;
use vstd::std_specs::cmp::PartialEqSpec;
use vstd::string::*;

use crate::canonical::{canonical_text, canonical_value, is_canonical, uuid_octets};
use crate::compact::decode_outcome;
use crate::guid::ShortGuid;
use crate::text::{canonical_text_parses, parse_outcome};

verus! {

/// The bytes that `text` denotes when an identifier is compared with it: the
/// compact form is tried first, then the hyphenated form. A text in neither
/// form denotes nothing.
pub open spec fn text_value(text: Seq<char>) -> Option<Seq<u8>> {
    match decode_outcome(text) {
        Ok(bytes) => Some(bytes),
        Err(_) => if is_canonical(text) {
            Some(canonical_value(text))
        } else {
            None
        },
    }
}

/// Comparing with a text and parsing it agree on what the text denotes,
/// though they try the two forms in opposite order.
pub proof fn comparing_agrees_with_parsing(text: Seq<char>)
    ensures
        text_value(text) == match parse_outcome(text) {
            Ok(bytes) => Some(bytes),
            Err(_) => None,
        },
{
}

/// An identifier equals a text exactly if the text parses to it.
pub proof fn equal_to_text_iff_parsed(guid: ShortGuid, text: &str)
    ensures
        guid.eq_spec(text) <==> (parse_outcome(text@) matches Ok(bytes) && bytes == guid@),
{
    comparing_agrees_with_parsing(text@);
}

/// An identifier equals its own hyphenated form.
pub proof fn equal_to_own_canonical_text(guid: ShortGuid)
    ensures
        text_value(canonical_text(guid@)) == Some(guid@),
{
    guid.has_sixteen_bytes();
    canonical_text_parses(guid@);
    comparing_agrees_with_parsing(canonical_text(guid@));
}

/// Two identifiers that equal the same text are equal.
pub proof fn equal_to_same_text(a: ShortGuid, b: ShortGuid, text: &str)
    requires
        a.eq_spec(text),
        b.eq_spec(text),
    ensures
        a.eq_spec(&b),
{
}

/// Equality of identifiers is equality of their bytes, and so it is
/// reflexive, symmetric and transitive.
pub proof fn equality_is_an_equivalence(a: ShortGuid, b: ShortGuid, c: ShortGuid)
    ensures
        a.eq_spec(&b) <==> a == b,
        a.eq_spec(&a),
        a.eq_spec(&b) ==> b.eq_spec(&a),
        a.eq_spec(&b) && b.eq_spec(&c) ==> a.eq_spec(&c),
{
    if a@ == b@ {
        a.same_bytes_same_identifier(b);
    }
}

/// What equals one of two equal identifiers equals the other, whether it is
/// a text, a byte buffer or a UUID.
pub proof fn equal_identifiers_compare_alike(
    a: ShortGuid,
    b: ShortGuid,
    text: &str,
    bytes: Vec<u8>,
    uuid: Uuid,
)
    requires
        a.eq_spec(&b),
    ensures
        a.eq_spec(text) == b.eq_spec(text),
        a.eq_spec(&bytes) == b.eq_spec(&bytes),
        a.eq_spec(&uuid) == b.eq_spec(&uuid),
{
}

/// A byte buffer whose length is not sixteen equals no identifier.
pub proof fn other_lengths_never_equal(guid: ShortGuid, buffer: Vec<u8>, slice: &[u8])
    ensures
        buffer@.len() != 16 ==> !guid.eq_spec(&buffer),
        slice@.len() != 16 ==> !guid.eq_spec(&slice),
{
    guid.has_sixteen_bytes();
}

impl PartialEq<Uuid> for ShortGuid {
    fn eq(&self, other: &Uuid) -> (equal: bool) {
        let theirs = ShortGuid::new_from_uuid(*other);
        *self == theirs
    }
}

impl vstd::std_specs::cmp::PartialEqSpecImpl<Uuid> for ShortGuid {
    open spec fn obeys_eq_spec() -> bool {
        true
    }

    open spec fn eq_spec(&self, other: &Uuid) -> bool {
        self@ == uuid_octets(*other)
    }
}

impl PartialEq<str> for ShortGuid {
    fn eq(&self, other: &str) -> (equal: bool) {
        if let Ok(theirs) = ShortGuid::try_decode(other) {
            return *self == theirs;
        }
        if let Some(theirs) = ShortGuid::parse_canonical(other) {
            return *self == theirs;
        }
        false
    }
}

impl vstd::std_specs::cmp::PartialEqSpecImpl<str> for ShortGuid {
    open spec fn obeys_eq_spec() -> bool {
        true
    }

    open spec fn eq_spec(&self, other: &str) -> bool {
        text_value(other@) == Some(self@)
    }
}

impl<'a> PartialEq<&'a str> for ShortGuid {
    fn eq(&self, other: &&'a str) -> (equal: bool) {
        *self == **other
    }
}

impl<'a> vstd::std_specs::cmp::PartialEqSpecImpl<&'a str> for ShortGuid {
    open spec fn obeys_eq_spec() -> bool {
        true
    }

    open spec fn eq_spec(&self, other: &&'a str) -> bool {
        text_value(other@) == Some(self@)
    }
}

impl PartialEq<String> for ShortGuid {
    fn eq(&self, other: &String) -> (equal: bool) {
        *self == *other.as_str()
    }
}

impl vstd::std_specs::cmp::PartialEqSpecImpl<String> for ShortGuid {
    open spec fn obeys_eq_spec() -> bool {
        true
    }

    open spec fn eq_spec(&self, other: &String) -> bool {
        text_value(other@) == Some(self@)
    }
}

impl PartialEq<Vec<u8>> for ShortGuid {
    fn eq(&self, other: &Vec<u8>) -> (equal: bool) {
        self.has_bytes(other.as_slice())
    }
}

impl vstd::std_specs::cmp::PartialEqSpecImpl<Vec<u8>> for ShortGuid {
    open spec fn obeys_eq_spec() -> bool {
        true
    }

    open spec fn eq_spec(&self, other: &Vec<u8>) -> bool {
        other@ == self@
    }
}

impl<'a> PartialEq<&'a [u8]> for ShortGuid {
    fn eq(&self, other: &&'a [u8]) -> (equal: bool) {
        self.has_bytes(*other)
    }
}

impl<'a> vstd::std_specs::cmp::PartialEqSpecImpl<&'a [u8]> for ShortGuid {
    open spec fn obeys_eq_spec() -> bool {
        true
    }

    open spec fn eq_spec(&self, other: &&'a [u8]) -> bool {
        other@ == self@
    }
}

impl PartialEq<[u8; 16]> for ShortGuid {
    fn eq(&self, other: &[u8; 16]) -> (equal: bool) {
        self.has_bytes(other.as_slice())
    }
}

impl vstd::std_specs::cmp::PartialEqSpecImpl<[u8; 16]> for ShortGuid {
    open spec fn obeys_eq_spec() -> bool {
        true
    }

    open spec fn eq_spec(&self, other: &[u8; 16]) -> bool {
        other@ == self@
    }
}

impl<'a> PartialEq<&'a [u8; 16]> for ShortGuid {
    fn eq(&self, other: &&'a [u8; 16]) -> (equal: bool) {
        self.has_bytes(other.as_slice())
    }
}

impl<'a> vstd::std_specs::cmp::PartialEqSpecImpl<&'a [u8; 16]> for ShortGuid {
    open spec fn obeys_eq_spec() -> bool {
        true
    }

    open spec fn eq_spec(&self, other: &&'a [u8; 16]) -> bool {
        other@ == self@
    }
}

} // verus!
