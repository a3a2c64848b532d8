//! Decode failures. Inbound buffers come from a network peer, so every
//! decoder surfaces malformed input as a typed error instead of panicking.

use vstd::prelude::*;

verus! {

/// The ways a byte buffer can fail to decode.
#[derive(Debug, Clone, Copy, PartialEq, Eq, Structural)]
pub enum IppError {
    /// Too few bytes remain for a declared length or a fixed-size field.
    MalformedBuffer,
    /// A tag byte matches no known value tag or delimiter tag.
    InvalidTag,
    /// A payload breaks its own encoding rules: a string that is not UTF-8,
    /// or a boolean byte other than 0x00 and 0x01.
    InvalidEncoding,
    /// A 16-bit operation field carries no known operation-id. Decoding never
    /// reports this — unknown identifiers round-trip as raw integers — but
    /// callers that insist on a known operation can.
    UnknownOperation,
}

/// Failure to parse an attribute name. The name vocabulary has an
/// `Unsupported` fallback, so parsing in fact always succeeds; the type
/// remains for callers that want to treat the fallback as an error.
#[derive(Debug)]
pub struct AttributeNameParseError {
    pub message: String,
}

} // verus!
