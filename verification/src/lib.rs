//! Short, URL-safe identifiers: a 128-bit value with a compact text form.
//!
//! A [`ShortGuid`] holds the sixteen bytes of a UUID. It is written as 22
//! symbols of URL-safe base64 and read from that form or from the hyphenated
//! form of a UUID. It compares with UUIDs, with texts in either form and with
//! byte buffers.
//!
//! Every function states what it returns over the bytes of the identifier
//! (`guid@`, a `Seq<u8>` of length sixteen) and the characters of a text.
//! The base64 engine and the UUID library are called, not rebuilt: what they
//! return is either stated from their documentation or given a name, and the
//! items that Verus takes on trust each say so in their comment.
//!
//! - [`guid`]: the value, its bytes and its little-endian layout.
//! - [`compact`]: the compact form, through the `base64` crate.
//! - [`canonical`]: UUIDs and the hyphenated form, through the `uuid` crate.
//! - [`text`]: parsing either form, and the two renderings.
//! - [`equality`]: comparison with UUIDs, texts and byte buffers.
//! - [`order`]: the order of identifiers.
//! - [`convert`]: the standard conversion traits.
//! - [`error`]: the parsing error and its sentence.
//! - [`serial`]: the forms for serializers, and reading them back.

pub mod canonical;
pub mod compact;
pub mod convert;
pub mod equality;
pub mod error;
pub mod guid;
pub mod order;
pub mod serial;
pub mod text;

pub use error::ParseError;
pub use guid::ShortGuid;
