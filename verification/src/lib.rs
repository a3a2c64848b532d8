//! An encoder and decoder for the Internet Printing Protocol (IPP) wire
//! format of RFC 8010/8011, together with the request dispatch logic of a
//! small IPP printer.
//!
//! The heart of the crate is the codec: `Operation`, `AttributeGroupTable`,
//! `Attribute` and the primitive value types each know how to turn
//! themselves into the tag-length-value wire form (`to_ipp`), to compute the
//! encoded length (`ipp_len`), and to read themselves back out of a byte
//! buffer (`from_ipp`). Every encoder and decoder is specified against a
//! mathematical byte-sequence model, and decoding is proved to be the exact
//! inverse of encoding for well-formed values.

pub mod attribute;
pub mod attribute_group;
pub mod attribute_value;
pub mod datetime;
pub mod error;
pub mod keywords;
pub mod names;
pub mod operation;
pub mod primitives;
pub mod printer;
pub mod status;
pub mod tags;
pub mod text_with_lang;
pub mod traits;
pub mod wire;

pub use attribute::Attribute;
pub use attribute_group::{AttributeGroup, AttributeGroupTable};
pub use attribute_value::AttributeValue;
pub use datetime::IppDateTime;
pub use error::{AttributeNameParseError, IppError};
pub use keywords::{CompressionSupportedKeyword, PdlOverrideSupportedKeyword,
    PrinterStateReasonKeyword, UriAuthenticationSupportedKeyword, UriSecuritySupportedKeyword};
pub use names::{AttributeName, JobAttribute, JobTemplateAttribute, OperationAttribute,
    PrinterAttribute};
pub use operation::{IppVersion, Operation};
pub use printer::IppPrinter;
pub use status::{JobState, OperationID, PrinterState, StatusCode};
pub use tags::{DelimiterTag, ValueTag};
pub use text_with_lang::TextWithLang;
pub use traits::IppEncode;
