//! Conversions between identifiers, UUIDs and text.

use std::borrow::Borrow;
use uuid::Uuid;
use vstd::prelude::*;
use vstd::std_specs::convert::{FromSpecImpl, TryFromSpecImpl};
use vstd::string::*;

use crate::canonical::uuid_octets;
use crate::error::{yields, ParseError};
use crate::guid::ShortGuid;
use crate::text::parse_outcome;

verus! {

/// The result of parsing `text`, as a value: the identifier with the parsed
/// bytes, or the error.
pub open spec fn parsed(text: Seq<char>) -> Result<ShortGuid, ParseError> {
    match parse_outcome(text) {
        Ok(bytes) => Ok(ShortGuid::with_bytes(bytes)),
        Err(error) => Err(error),
    }
}

impl From<Uuid> for ShortGuid {
    /// The identifier with the bytes of the UUID.
    fn from(value: Uuid) -> (guid: ShortGuid)
        ensures
            guid@ == uuid_octets(value),
    {
        let guid = ShortGuid::new_from_uuid(value);
        proof {
            guid.is_with_its_bytes();
        }
        guid
    }
}

impl FromSpecImpl<Uuid> for ShortGuid {
    open spec fn obeys_from_spec() -> bool {
        true
    }

    open spec fn from_spec(value: Uuid) -> ShortGuid {
        ShortGuid::with_bytes(uuid_octets(value))
    }
}

impl From<ShortGuid> for Uuid {
    /// The UUID with the bytes of the identifier.
    fn from(value: ShortGuid) -> (uuid: Uuid)
        ensures
            uuid_octets(uuid) == value@,
    {
        *value.as_uuid()
    }
}

/// A UUID is known here only by its bytes, so this conversion states its
/// result in the `ensures` of `from` and makes no claim through `from_spec`.
impl FromSpecImpl<ShortGuid> for Uuid {
    open spec fn obeys_from_spec() -> bool {
        false
    }

    open spec fn from_spec(value: ShortGuid) -> Uuid {
        choose|uuid: Uuid| uuid_octets(uuid) == value@
    }
}

impl<'a> TryFrom<&'a str> for ShortGuid {
    type Error = ParseError;

    /// Parses the text, as `try_parse` does.
    fn try_from(value: &'a str) -> (result: Result<ShortGuid, ParseError>)
        ensures
            yields(result, parse_outcome(value@)),
    {
        let result = ShortGuid::try_parse(value);
        proof {
            if let Ok(guid) = result {
                guid.is_with_its_bytes();
            }
        }
        result
    }
}

impl<'a> TryFromSpecImpl<&'a str> for ShortGuid {
    open spec fn obeys_try_from_spec() -> bool {
        true
    }

    open spec fn try_from_spec(value: &'a str) -> Result<ShortGuid, ParseError> {
        parsed(value@)
    }
}

impl TryFrom<String> for ShortGuid {
    type Error = ParseError;

    /// Parses the text, as `try_parse` does.
    fn try_from(value: String) -> (result: Result<ShortGuid, ParseError>)
        ensures
            yields(result, parse_outcome(value@)),
    {
        let result = ShortGuid::try_parse(value.as_str());
        proof {
            if let Ok(guid) = result {
                guid.is_with_its_bytes();
            }
        }
        result
    }
}

impl TryFromSpecImpl<String> for ShortGuid {
    open spec fn obeys_try_from_spec() -> bool {
        true
    }

    open spec fn try_from_spec(value: String) -> Result<ShortGuid, ParseError> {
        parsed(value@)
    }
}

impl core::str::FromStr for ShortGuid {
    type Err = ParseError;

    /// Parses the text, as `try_parse` does.
    fn from_str(s: &str) -> (result: Result<ShortGuid, ParseError>)
        ensures
            yields(result, parse_outcome(s@)),
    {
        ShortGuid::try_parse(s)
    }
}

impl Borrow<Uuid> for ShortGuid {
    fn borrow(&self) -> (uuid: &Uuid)
        ensures
            uuid_octets(*uuid) == self@,
    {
        self.as_uuid()
    }
}

impl AsRef<Uuid> for ShortGuid {
    fn as_ref(&self) -> (uuid: &Uuid)
        ensures
            uuid_octets(*uuid) == self@,
    {
        self.as_uuid()
    }
}

impl AsRef<[u8]> for ShortGuid {
    fn as_ref(&self) -> (bytes: &[u8])
        ensures
            <[u8]>::view(bytes) == self@,
    {
        self.as_bytes().as_slice()
    }
}

} // verus!
