//! What an identifier looks like to a serializer, and how it is read back.
//!
//! A format that people read gets the compact text; a binary format gets the
//! sixteen bytes. On reading, a text may be in either form, a byte slice must
//! hold sixteen bytes, and a sequence is read element by element.

use vstd::prelude::*;
use vstd::string::*;

use crate::canonical::{is_canonical, slice_outcome};
use crate::compact::compact_encoding;
use crate::error::{decimal, ParseError};
use crate::guid::ShortGuid;
use crate::text::parse_outcome;

verus! {

/// The form in which an identifier is handed to a serializer.
#[derive(Debug, PartialEq, Eq)]
pub enum Serialized {
    /// For a format that people read: the compact text.
    Text(String),
    /// For a binary format: the sixteen bytes.
    Bytes([u8; 16]),
}

/// The message with which a rejected input is reported to a deserializer.
pub open spec fn failure_text(error: ParseError) -> Seq<char> {
    "ShortGuid parsing failed: "@ + error.message()
}

/// Whether `result` is what `outcome` describes: the identifier with those
/// bytes, or the message for that error.
pub open spec fn reads_as(
    result: Result<ShortGuid, String>,
    outcome: Result<Seq<u8>, ParseError>,
) -> bool {
    match outcome {
        Ok(bytes) => result matches Ok(guid) && guid@ == bytes,
        Err(error) => result matches Err(message) && message@ == failure_text(error),
    }
}

/// A text of a wrong length is reported with the sentence of the length
/// error, which names the number of characters that was seen.
pub proof fn wrong_length_is_named(text: Seq<char>)
    requires
        text.len() != 0,
        text.len() != 22,
        !is_canonical(text),
    ensures
        parse_outcome(text) matches Err(error) && failure_text(error)
            == "ShortGuid parsing failed: "@ + (
        "Invalid ID length; expected 22 characters, but got "@ + decimal(
            text.len() as usize as nat,
        )),
{
}

/// Reports `error` as a deserializer's message.
pub fn failure_message(error: &ParseError) -> (message: String)
    ensures
        message@ == failure_text(*error),
{
    let mut message = "ShortGuid parsing failed: ".to_owned();
    let detail = error.to_string();
    message.append(detail.as_str());
    message
}

/// How many elements a sequence must hold to be read as an identifier.
pub const SEQUENCE_LENGTH: usize = 16;

/// The elements of a sequence that have been read so far: fewer than sixteen.
#[derive(Debug)]
pub struct SequenceReader {
    bytes: [u8; 16],
    filled: usize,
}

/// What follows from one more element of a sequence, or from its end.
#[derive(Debug)]
pub enum SequenceStep {
    /// The element was taken; the sequence is to be read on.
    More(SequenceReader),
    /// The element was the sixteenth: the identifier is complete.
    Done(ShortGuid),
    /// The sequence ended early; the value is the length that was expected.
    TooShort(usize),
}

impl View for SequenceReader {
    type V = Seq<u8>;

    closed spec fn view(&self) -> Seq<u8> {
        self.bytes@.take(self.filled as int)
    }
}

impl SequenceReader {
    #[verifier::type_invariant]
    closed spec fn fits(self) -> bool {
        self.filled < 16
    }

    /// A reader that has read nothing yet.
    pub fn new() -> (reader: SequenceReader)
        ensures
            reader@ == Seq::<u8>::empty(),
    {
        SequenceReader { bytes: [0u8; 16], filled: 0 }
    }

    /// Takes the next element of the sequence, or its end.
    ///
    /// The sixteenth element completes the identifier, whose bytes are the
    /// elements in the order in which they came. The end of the sequence
    /// before that is an error.
    pub fn accept(self, element: Option<u8>) -> (step: SequenceStep)
        ensures
            self@.len() < 16,
            match element {
                None => step == SequenceStep::TooShort(SEQUENCE_LENGTH),
                Some(byte) => if self@.len() == 15 {
                    step matches SequenceStep::Done(guid) && guid@ == self@.push(byte)
                } else {
                    step matches SequenceStep::More(reader) && reader@ == self@.push(byte)
                },
            },
    {
        proof {
            use_type_invariant(&self);
        }
        match element {
            None => SequenceStep::TooShort(SEQUENCE_LENGTH),
            Some(byte) => {
                let mut bytes = self.bytes;
                bytes[self.filled] = byte;
                assert(bytes@.take(self.filled + 1) =~= self@.push(byte));
                if self.filled == 15 {
                    assert(bytes@.take(16) =~= bytes@);
                    SequenceStep::Done(ShortGuid::from_bytes(&bytes))
                } else {
                    SequenceStep::More(SequenceReader { bytes, filled: self.filled + 1 })
                }
            },
        }
    }
}

impl ShortGuid {
    /// The form in which the identifier is serialized.
    ///
    /// Either form reads back as the identifier: the text through
    /// `from_serialized_text`, the bytes through `from_serialized_bytes`.
    pub fn serialized(&self, human_readable: bool) -> (form: Serialized)
        ensures
            match form {
                Serialized::Text(text) => {
                    &&& human_readable
                    &&& text@ == compact_encoding(self@)
                    &&& parse_outcome(text@) matches Ok(read) && read == self@
                },
                Serialized::Bytes(bytes) => {
                    &&& !human_readable
                    &&& bytes@ == self@
                    &&& slice_outcome(bytes@) matches Ok(read) && read == self@
                },
            },
    {
        if human_readable {
            Serialized::Text(self.to_string())
        } else {
            Serialized::Bytes(*self.as_bytes())
        }
    }

    /// Reads an identifier from a serialized text, in either text form.
    pub fn from_serialized_text(value: &str) -> (result: Result<ShortGuid, String>)
        ensures
            reads_as(result, parse_outcome(value@)),
    {
        match ShortGuid::try_parse(value) {
            Ok(guid) => Ok(guid),
            Err(error) => Err(failure_message(&error)),
        }
    }

    /// Reads an identifier from serialized bytes, which must be sixteen.
    pub fn from_serialized_bytes(value: &[u8]) -> (result: Result<ShortGuid, String>)
        ensures
            reads_as(result, slice_outcome(value@)),
    {
        match ShortGuid::from_slice(value) {
            Ok(guid) => Ok(guid),
            Err(error) => Err(failure_message(&error)),
        }
    }
}

} // verus!
