//! Reading an identifier from text in either form, and writing it out.

use vstd::prelude::*;
use vstd::string::*;

use crate::canonical::{
    canonical_text, canonical_text_is_read_back, canonical_value, is_canonical,
};
use crate::compact::{compact_encoding, decode_outcome, is_compact_text};
use crate::equality::{comparing_agrees_with_parsing, text_value};
use crate::error::{yields, ParseError};
use crate::guid::ShortGuid;

verus! {

/// What parsing makes of `text`: the hyphenated form is tried first, then the
/// compact form.
pub open spec fn parse_outcome(text: Seq<char>) -> Result<Seq<u8>, ParseError> {
    if is_canonical(text) {
        Ok(canonical_value(text))
    } else {
        decode_outcome(text)
    }
}

/// Only three shapes of text are accepted: the empty text, a text of 22
/// characters, and the hyphenated form, which has 36.
pub proof fn accepted_shapes(text: Seq<char>)
    requires
        parse_outcome(text) is Ok,
    ensures
        text.len() == 0 || text.len() == 22 || (is_canonical(text) && text.len() == 36),
        parse_outcome(text)->Ok_0.len() == 16,
{
}

/// A text that is not empty, not in hyphenated form and not 22 characters
/// long is rejected for its length, with the number of its characters.
pub proof fn other_lengths_are_rejected(text: Seq<char>)
    requires
        text.len() != 0,
        text.len() != 22,
        !is_canonical(text),
    ensures
        parse_outcome(text) matches Err(ParseError::InvalidLength(length)) && length
            == text.len() as usize,
{
}

/// The hyphenated form of sixteen bytes parses to those bytes.
pub proof fn canonical_text_parses(bytes: Seq<u8>)
    requires
        bytes.len() == 16,
    ensures
        parse_outcome(canonical_text(bytes)) matches Ok(parsed) && parsed == bytes,
{
    canonical_text_is_read_back(bytes);
}

impl ShortGuid {
    /// Reads an identifier from its hyphenated or its compact form.
    pub fn try_parse(value: &str) -> (result: Result<ShortGuid, ParseError>)
        ensures
            yields(result, parse_outcome(value@)),
    {
        if let Some(guid) = ShortGuid::parse_canonical(value) {
            return Ok(guid);
        }
        ShortGuid::try_decode(value)
    }

    /// The short form for people: the compact encoding alone.
    ///
    /// The text parses back to the identifier, and the identifier equals it.
    pub fn to_string(&self) -> (text: String)
        ensures
            text@ == compact_encoding(self@),
            text@.len() == 22,
            is_compact_text(text@),
            parse_outcome(text@) matches Ok(bytes) && bytes == self@,
            text_value(text@) == Some(self@),
    {
        let text = ShortGuid::encode(self);
        proof {
            comparing_agrees_with_parsing(text@);
        }
        text
    }

    /// The long form for diagnostics: the compact encoding, then the
    /// hyphenated form in parentheses.
    pub fn to_debug_string(&self) -> (text: String)
        ensures
            text@ == compact_encoding(self@) + " ("@ + canonical_text(self@) + ")"@,
    {
        let mut text = ShortGuid::encode(self);
        text.append(" (");
        let long = self.to_canonical_string();
        text.append(long.as_str());
        text.append(")");
        text
    }
}

} // verus!
