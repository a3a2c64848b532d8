//! The one-byte tags of the IPP wire format: delimiter tags, which open an
//! attribute group or end the attribute section, and value tags, which give
//! the syntax of the value that follows.

use vstd::prelude::*;

verus! {

/// Group markers of RFC 8010 section 3.5.1. A delimiter tag byte either
/// begins an attribute group or, for `EndOfAttributes`, terminates the
/// attribute section of a message.
#[derive(Debug, Clone, Copy, PartialEq, Eq, Structural, Hash)]
pub enum DelimiterTag {
    OperationAttributes,
    JobAttributes,
    EndOfAttributes,
    PrinterAttributes,
    UnsupportedAttributes,
}

/// Value syntax tags of RFC 8010 section 3.5.2.
#[derive(Debug, Clone, Copy, PartialEq, Eq, Structural, Hash)]
pub enum ValueTag {
    Unsupported,
    Unknown,
    NoValue,
    Integer,
    Boolean,
    Enum,
    OctetStringUnspecified,
    DateTime,
    Resolution,
    RangeOfInteger,
    BegCollection,
    TextWithLanguage,
    NameWithLanguage,
    EndCollection,
    TextWithoutLanguage,
    NameWithoutLanguage,
    Keyword,
    Uri,
    UriScheme,
    Charset,
    NaturalLanguage,
    MimeMediaType,
    MemberAttrName,
}

impl DelimiterTag {
    /// The wire byte of this delimiter tag.
    pub open spec fn spec_code(self) -> u8 {
        match self {
            DelimiterTag::OperationAttributes => 0x01,
            DelimiterTag::JobAttributes => 0x02,
            DelimiterTag::EndOfAttributes => 0x03,
            DelimiterTag::PrinterAttributes => 0x04,
            DelimiterTag::UnsupportedAttributes => 0x05,
        }
    }

    /// The delimiter tag a wire byte stands for, if any.
    pub open spec fn spec_from_code(code: u8) -> Option<DelimiterTag> {
        if code == 0x01 {
            Some(DelimiterTag::OperationAttributes)
        } else if code == 0x02 {
            Some(DelimiterTag::JobAttributes)
        } else if code == 0x03 {
            Some(DelimiterTag::EndOfAttributes)
        } else if code == 0x04 {
            Some(DelimiterTag::PrinterAttributes)
        } else if code == 0x05 {
            Some(DelimiterTag::UnsupportedAttributes)
        } else {
            None
        }
    }

    #[verifier::when_used_as_spec(spec_code)]
    pub fn code(self) -> (r: u8)
        ensures
            r == self.spec_code(),
    {
        match self {
            DelimiterTag::OperationAttributes => 0x01,
            DelimiterTag::JobAttributes => 0x02,
            DelimiterTag::EndOfAttributes => 0x03,
            DelimiterTag::PrinterAttributes => 0x04,
            DelimiterTag::UnsupportedAttributes => 0x05,
        }
    }

    pub fn from_code(code: u8) -> (r: Option<DelimiterTag>)
        ensures
            r == DelimiterTag::spec_from_code(code),
    {
        if code == 0x01 {
            Some(DelimiterTag::OperationAttributes)
        } else if code == 0x02 {
            Some(DelimiterTag::JobAttributes)
        } else if code == 0x03 {
            Some(DelimiterTag::EndOfAttributes)
        } else if code == 0x04 {
            Some(DelimiterTag::PrinterAttributes)
        } else if code == 0x05 {
            Some(DelimiterTag::UnsupportedAttributes)
        } else {
            None
        }
    }
}

/// The two tag spaces do not overlap: delimiter tags live below 0x06 and
/// value tags at 0x10 and above, so one peeked byte decides whether an
/// attribute record or a group boundary follows.
pub proof fn lemma_tag_spaces_disjoint(code: u8)
    ensures
        DelimiterTag::spec_from_code(code) is Some ==> ValueTag::spec_from_code(code) is None,
        ValueTag::spec_from_code(code) is Some ==> DelimiterTag::spec_from_code(code) is None,
{
}

impl ValueTag {
    /// The wire byte of this value tag.
    pub open spec fn spec_code(self) -> u8 {
        match self {
            ValueTag::Unsupported => 0x10,
            ValueTag::Unknown => 0x12,
            ValueTag::NoValue => 0x13,
            ValueTag::Integer => 0x21,
            ValueTag::Boolean => 0x22,
            ValueTag::Enum => 0x23,
            ValueTag::OctetStringUnspecified => 0x30,
            ValueTag::DateTime => 0x31,
            ValueTag::Resolution => 0x32,
            ValueTag::RangeOfInteger => 0x33,
            ValueTag::BegCollection => 0x34,
            ValueTag::TextWithLanguage => 0x35,
            ValueTag::NameWithLanguage => 0x36,
            ValueTag::EndCollection => 0x37,
            ValueTag::TextWithoutLanguage => 0x41,
            ValueTag::NameWithoutLanguage => 0x42,
            ValueTag::Keyword => 0x44,
            ValueTag::Uri => 0x45,
            ValueTag::UriScheme => 0x46,
            ValueTag::Charset => 0x47,
            ValueTag::NaturalLanguage => 0x48,
            ValueTag::MimeMediaType => 0x49,
            ValueTag::MemberAttrName => 0x4a,
        }
    }

    /// The value tag a wire byte stands for, if any.
    pub open spec fn spec_from_code(code: u8) -> Option<ValueTag> {
        if code == 0x10 {
            Some(ValueTag::Unsupported)
        } else if code == 0x12 {
            Some(ValueTag::Unknown)
        } else if code == 0x13 {
            Some(ValueTag::NoValue)
        } else if code == 0x21 {
            Some(ValueTag::Integer)
        } else if code == 0x22 {
            Some(ValueTag::Boolean)
        } else if code == 0x23 {
            Some(ValueTag::Enum)
        } else if code == 0x30 {
            Some(ValueTag::OctetStringUnspecified)
        } else if code == 0x31 {
            Some(ValueTag::DateTime)
        } else if code == 0x32 {
            Some(ValueTag::Resolution)
        } else if code == 0x33 {
            Some(ValueTag::RangeOfInteger)
        } else if code == 0x34 {
            Some(ValueTag::BegCollection)
        } else if code == 0x35 {
            Some(ValueTag::TextWithLanguage)
        } else if code == 0x36 {
            Some(ValueTag::NameWithLanguage)
        } else if code == 0x37 {
            Some(ValueTag::EndCollection)
        } else if code == 0x41 {
            Some(ValueTag::TextWithoutLanguage)
        } else if code == 0x42 {
            Some(ValueTag::NameWithoutLanguage)
        } else if code == 0x44 {
            Some(ValueTag::Keyword)
        } else if code == 0x45 {
            Some(ValueTag::Uri)
        } else if code == 0x46 {
            Some(ValueTag::UriScheme)
        } else if code == 0x47 {
            Some(ValueTag::Charset)
        } else if code == 0x48 {
            Some(ValueTag::NaturalLanguage)
        } else if code == 0x49 {
            Some(ValueTag::MimeMediaType)
        } else if code == 0x4a {
            Some(ValueTag::MemberAttrName)
        } else {
            None
        }
    }

    #[verifier::when_used_as_spec(spec_code)]
    pub fn code(self) -> (r: u8)
        ensures
            r == self.spec_code(),
    {
        match self {
            ValueTag::Unsupported => 0x10,
            ValueTag::Unknown => 0x12,
            ValueTag::NoValue => 0x13,
            ValueTag::Integer => 0x21,
            ValueTag::Boolean => 0x22,
            ValueTag::Enum => 0x23,
            ValueTag::OctetStringUnspecified => 0x30,
            ValueTag::DateTime => 0x31,
            ValueTag::Resolution => 0x32,
            ValueTag::RangeOfInteger => 0x33,
            ValueTag::BegCollection => 0x34,
            ValueTag::TextWithLanguage => 0x35,
            ValueTag::NameWithLanguage => 0x36,
            ValueTag::EndCollection => 0x37,
            ValueTag::TextWithoutLanguage => 0x41,
            ValueTag::NameWithoutLanguage => 0x42,
            ValueTag::Keyword => 0x44,
            ValueTag::Uri => 0x45,
            ValueTag::UriScheme => 0x46,
            ValueTag::Charset => 0x47,
            ValueTag::NaturalLanguage => 0x48,
            ValueTag::MimeMediaType => 0x49,
            ValueTag::MemberAttrName => 0x4a,
        }
    }

    pub fn from_code(code: u8) -> (r: Option<ValueTag>)
        ensures
            r == ValueTag::spec_from_code(code),
    {
        if code == 0x10 {
            Some(ValueTag::Unsupported)
        } else if code == 0x12 {
            Some(ValueTag::Unknown)
        } else if code == 0x13 {
            Some(ValueTag::NoValue)
        } else if code == 0x21 {
            Some(ValueTag::Integer)
        } else if code == 0x22 {
            Some(ValueTag::Boolean)
        } else if code == 0x23 {
            Some(ValueTag::Enum)
        } else if code == 0x30 {
            Some(ValueTag::OctetStringUnspecified)
        } else if code == 0x31 {
            Some(ValueTag::DateTime)
        } else if code == 0x32 {
            Some(ValueTag::Resolution)
        } else if code == 0x33 {
            Some(ValueTag::RangeOfInteger)
        } else if code == 0x34 {
            Some(ValueTag::BegCollection)
        } else if code == 0x35 {
            Some(ValueTag::TextWithLanguage)
        } else if code == 0x36 {
            Some(ValueTag::NameWithLanguage)
        } else if code == 0x37 {
            Some(ValueTag::EndCollection)
        } else if code == 0x41 {
            Some(ValueTag::TextWithoutLanguage)
        } else if code == 0x42 {
            Some(ValueTag::NameWithoutLanguage)
        } else if code == 0x44 {
            Some(ValueTag::Keyword)
        } else if code == 0x45 {
            Some(ValueTag::Uri)
        } else if code == 0x46 {
            Some(ValueTag::UriScheme)
        } else if code == 0x47 {
            Some(ValueTag::Charset)
        } else if code == 0x48 {
            Some(ValueTag::NaturalLanguage)
        } else if code == 0x49 {
            Some(ValueTag::MimeMediaType)
        } else if code == 0x4a {
            Some(ValueTag::MemberAttrName)
        } else {
            None
        }
    }
}

/// Reading a wire byte back from a tag's code recovers the tag.
pub proof fn lemma_delimiter_code_round_trip(t: DelimiterTag)
    ensures
        DelimiterTag::spec_from_code(t.spec_code()) == Some(t),
{
}

/// Reading a wire byte back from a tag's code recovers the tag.
pub proof fn lemma_value_code_round_trip(t: ValueTag)
    ensures
        ValueTag::spec_from_code(t.spec_code()) == Some(t),
{
}

} // verus!
