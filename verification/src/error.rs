//! Why a text or a byte slice was not accepted as an identifier.

use base64::DecodeError;
use vstd::prelude::*;
use vstd::std_specs::convert::FromSpecImpl;
use vstd::string::*;

use crate::canonical::{describe_uuid_error, uuid_error_text};
use crate::compact::{decode_error_text, describe_decode_error};
use crate::guid::ShortGuid;

verus! {

/// A parsing error.
#[derive(Debug, PartialEq, Eq)]
pub enum ParseError {
    /// The input had the wrong length; the value is the length that was seen.
    InvalidLength(usize),
    /// The input had the length of the compact form but is no valid
    /// URL-safe base64; the value is the decoder's error.
    InvalidFormat(DecodeError),
    /// A byte slice did not hold exactly sixteen bytes; the value is the
    /// UUID library's error.
    InvalidSlice(uuid::Error),
}

/// Whether `result` is what `outcome` describes: the identifier with those
/// bytes, or that error.
pub open spec fn yields(
    result: Result<ShortGuid, ParseError>,
    outcome: Result<Seq<u8>, ParseError>,
) -> bool {
    match outcome {
        Ok(bytes) => result matches Ok(guid) && guid@ == bytes,
        Err(error) => result matches Err(e) && e == error,
    }
}

/// The character of the decimal digit `d`.
pub open spec fn digit(d: nat) -> char
    recommends
        d < 10,
{
    ('0' as nat + d) as u8 as char
}

/// The decimal digits of `n`, most significant first, without leading zeros.
pub open spec fn decimal(n: nat) -> Seq<char>
    decreases n,
{
    if n < 10 {
        seq![digit(n)]
    } else {
        decimal(n / 10).push(digit(n % 10))
    }
}

/// The one-character text of a decimal digit.
fn digit_text(d: usize) -> (text: &'static str)
    requires
        d < 10,
    ensures
        text@ == seq![digit(d as nat)],
{
    proof {
        reveal_strlit("0123456789");
    }
    let text = "0123456789".substring_ascii(d, d + 1);
    assert(text@ =~= seq![digit(d as nat)]);
    text
}

/// Writes `n` in decimal.
fn decimal_text(n: usize) -> (text: String)
    ensures
        text@ == decimal(n as nat),
    decreases n,
{
    if n < 10 {
        digit_text(n).to_owned()
    } else {
        let mut text = decimal_text(n / 10);
        text.append(digit_text(n % 10));
        assert(text@ =~= decimal(n as nat));
        text
    }
}

impl From<DecodeError> for ParseError {
    /// The decoder's error as a format error.
    fn from(value: DecodeError) -> (error: ParseError) {
        ParseError::InvalidFormat(value)
    }
}

impl FromSpecImpl<DecodeError> for ParseError {
    open spec fn obeys_from_spec() -> bool {
        true
    }

    open spec fn from_spec(value: DecodeError) -> ParseError {
        ParseError::InvalidFormat(value)
    }
}

impl ParseError {
    /// The sentence that describes this error.
    pub open spec fn message(self) -> Seq<char> {
        match self {
            ParseError::InvalidLength(len) => "Invalid ID length; expected 22 characters, but got "@
                + decimal(len as nat),
            ParseError::InvalidFormat(error) => "Invalid ID format: "@ + decode_error_text(error),
            ParseError::InvalidSlice(error) => "Invalid slice: "@ + uuid_error_text(error),
        }
    }

    /// Renders the error as a sentence: its kind, then the detail.
    pub fn to_string(&self) -> (text: String)
        ensures
            text@ == self.message(),
    {
        match self {
            ParseError::InvalidLength(len) => {
                let mut text = "Invalid ID length; expected 22 characters, but got ".to_owned();
                let digits = decimal_text(*len);
                text.append(digits.as_str());
                text
            },
            ParseError::InvalidFormat(error) => {
                let mut text = "Invalid ID format: ".to_owned();
                let detail = describe_decode_error(error);
                text.append(detail.as_str());
                text
            },
            ParseError::InvalidSlice(error) => {
                let mut text = "Invalid slice: ".to_owned();
                let detail = describe_uuid_error(error);
                text.append(detail.as_str());
                text
            },
        }
    }
}

} // verus!
