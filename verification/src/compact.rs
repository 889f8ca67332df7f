//! The compact text form: twenty-two symbols of URL-safe base64, unpadded.

use base64::DecodeError;
use base64::Engine;
use vstd::prelude::*;
use vstd::string::*;
use vstd::utf8::is_ascii_chars;

use crate::error::{yields, ParseError};
use crate::guid::{nil_bytes, ShortGuid};
use crate::text::parse_outcome;

verus! {

/// The decoder's error, carried through as it comes.
#[verifier::external_type_specification]
#[verifier::external_body]
pub struct ExDecodeError(DecodeError);

/// The text that the URL-safe, unpadded base64 engine produces for `bytes`.
pub uninterp spec fn compact_encoding(bytes: Seq<u8>) -> Seq<char>;

/// What the URL-safe, unpadded base64 engine makes of `text`: the decoded
/// bytes, or its error.
pub uninterp spec fn compact_decoding(text: Seq<char>) -> Result<Seq<u8>, DecodeError>;

/// The sentence with which the decoder describes its error.
pub uninterp spec fn decode_error_text(error: DecodeError) -> Seq<char>;

/// Whether `c` is one of the 64 symbols of the URL-safe alphabet: a letter, a
/// digit, `-` or `_`.
pub open spec fn is_compact_symbol(c: char) -> bool {
    ('A' <= c && c <= 'Z') || ('a' <= c && c <= 'z') || ('0' <= c && c <= '9') || c == '-' || c
        == '_'
}

/// Whether `text` holds symbols of the URL-safe alphabet only.
pub open spec fn is_compact_text(text: Seq<char>) -> bool {
    forall|i: int| 0 <= i < text.len() ==> is_compact_symbol(#[trigger] text[i])
}

/// Whether the engine decodes `text` without error, to exactly `bytes`.
pub open spec fn decodes_to(text: Seq<char>, bytes: Seq<u8>) -> bool {
    compact_decoding(text) matches Ok(decoded) && decoded == bytes
}

/// `Engine::decode` of `base64::engine::general_purpose::URL_SAFE_NO_PAD`.
///
/// The contract only names the outcome: the same text always decodes to the
/// same bytes or fails with the same error.
#[verifier::external_body]
fn base64_decode(text: &str) -> (outcome: Result<Vec<u8>, DecodeError>)
    ensures
        match outcome {
            Ok(bytes) => compact_decoding(text@) matches Ok(decoded) && decoded == bytes@,
            Err(e) => compact_decoding(text@) matches Err(error) && error == e,
        },
{
    base64::engine::general_purpose::URL_SAFE_NO_PAD.decode(text)
}

/// `Engine::encode` of `base64::engine::general_purpose::URL_SAFE_NO_PAD`, on
/// sixteen bytes.
///
/// Beside naming the text, the contract states three facts about it: sixteen
/// bytes encode to twenty-two symbols, every symbol is of the URL-safe
/// alphabet, and the engine decodes its own output back to the input.
#[verifier::external_body]
fn base64_encode(bytes: &[u8; 16]) -> (text: String)
    ensures
        text@ == compact_encoding(bytes@),
        text@.len() == 22,
        is_compact_text(text@),
        decodes_to(text@, bytes@),
{
    base64::engine::general_purpose::URL_SAFE_NO_PAD.encode(bytes)
}

/// `Display` of `base64::DecodeError`, through `to_string`.
#[verifier::external_body]
pub(crate) fn describe_decode_error(error: &DecodeError) -> (text: String)
    ensures
        text@ == decode_error_text(*error),
{
    error.to_string()
}

/// What becomes of the bytes that the engine decoded: sixteen bytes are an
/// identifier, any other number is reported as a wrong length.
pub open spec fn accepted(bytes: Seq<u8>) -> Result<Seq<u8>, ParseError> {
    if bytes.len() == 16 {
        Ok(bytes)
    } else {
        Err(ParseError::InvalidLength(bytes.len() as usize))
    }
}

/// What decoding the compact form makes of `text`.
///
/// The empty text stands for the nil identifier. Any other text must have 22
/// characters and be valid URL-safe base64 without padding, and must decode
/// to sixteen bytes. A text of another length is rejected with the number of
/// its characters.
pub open spec fn decode_outcome(text: Seq<char>) -> Result<Seq<u8>, ParseError> {
    if text.len() == 0 {
        Ok(nil_bytes())
    } else if text.len() != 22 {
        Err(ParseError::InvalidLength(text.len() as usize))
    } else {
        match compact_decoding(text) {
            Err(error) => Err(ParseError::InvalidFormat(error)),
            Ok(bytes) => accepted(bytes),
        }
    }
}

/// A text of symbols of the URL-safe alphabet is ASCII.
pub proof fn compact_text_is_ascii(text: Seq<char>)
    requires
        is_compact_text(text),
    ensures
        is_ascii_chars(text),
{
    assert forall|i: int| 0 <= i < text.len() implies '\0' <= #[trigger] text[i] <= '\u{7f}' by {
        assert(is_compact_symbol(text[i]));
    }
}

/// A text that is neither empty nor 22 characters long is rejected for its
/// length, and the error carries the number of its characters.
pub proof fn wrong_length_is_reported(text: Seq<char>)
    requires
        text.len() != 0,
        text.len() != 22,
    ensures
        decode_outcome(text) matches Err(ParseError::InvalidLength(length)) && length
            == text.len() as usize,
{
}

/// Only a text of 22 characters can be rejected for its format, and only a
/// text that the engine does not decode.
pub proof fn format_error_needs_right_length(text: Seq<char>)
    requires
        decode_outcome(text) matches Err(ParseError::InvalidFormat(_)),
    ensures
        text.len() == 22,
        compact_decoding(text) is Err,
{
}

/// Whatever is decoded has sixteen bytes.
pub proof fn decoded_has_sixteen_bytes(text: Seq<char>)
    requires
        decode_outcome(text) is Ok,
    ensures
        decode_outcome(text)->Ok_0.len() == 16,
{
}

/// Copies sixteen decoded bytes into an array.
fn sixteen(bytes: &Vec<u8>) -> (array: [u8; 16])
    requires
        bytes@.len() == 16,
    ensures
        array@ == bytes@,
{
    let mut array = [0u8; 16];
    let mut i: usize = 0;
    while i < 16
        invariant
            i <= 16,
            bytes@.len() == 16,
            forall|k: int| 0 <= k < i ==> array@[k] == bytes@[k],
        decreases 16 - i,
    {
        array[i] = bytes[i];
        i += 1;
    }
    assert(array@ =~= bytes@);
    array
}

impl ShortGuid {
    /// Decodes the compact form.
    ///
    /// The empty text is accepted and gives the nil identifier.
    pub fn try_decode(value: &str) -> (result: Result<ShortGuid, ParseError>)
        ensures
            yields(result, decode_outcome(value@)),
    {
        if value.is_empty() {
            return Ok(ShortGuid::default());
        }
        let length = value.unicode_len();
        if length != 22 {
            return Err(ParseError::InvalidLength(length));
        }
        ShortGuid::from_decoded(base64_decode(value))
    }

    /// Judges what the base64 engine made of a text of the right length.
    ///
    /// An error of the engine is a format error. Decoded bytes are accepted
    /// only if they are sixteen: that is checked here again, whatever the
    /// text was.
    pub fn from_decoded(decoded: Result<Vec<u8>, DecodeError>) -> (result: Result<
        ShortGuid,
        ParseError,
    >)
        ensures
            match decoded {
                Ok(bytes) => yields(result, accepted(bytes@)),
                Err(error) => yields(result, Err(ParseError::InvalidFormat(error))),
            },
    {
        match decoded {
            Err(error) => Err(ParseError::InvalidFormat(error)),
            Ok(bytes) => {
                if bytes.len() != 16 {
                    return Err(ParseError::InvalidLength(bytes.len()));
                }
                let array = sixteen(&bytes);
                Ok(ShortGuid::from_bytes(&array))
            },
        }
    }

    /// Encodes the identifier in the compact form.
    ///
    /// The text always has 22 symbols of the URL-safe alphabet, and decoding
    /// it gives the identifier back.
    pub fn encode(value: &ShortGuid) -> (text: String)
        ensures
            text@ == compact_encoding(value@),
            text@.len() == 22,
            is_compact_text(text@),
            decode_outcome(text@) matches Ok(bytes) && bytes == value@,
            parse_outcome(text@) matches Ok(bytes) && bytes == value@,
    {
        base64_encode(value.as_bytes())
    }
}

} // verus!
