//! The generalized attribute value and its tag-directed codec: a value tag
//! selects which primitive decoder reads the bytes, while encoding
//! dispatches on the value's own variant.

use vstd::prelude::*;
use crate::datetime::{dec_datetime, enc_datetime, wf_datetime, zero_decisecond, IppDateTime};
use crate::error::IppError;
use crate::primitives::{dec_bool, dec_i32, dec_string, enc_bool, enc_i32, enc_string, wf_string};
use crate::tags::ValueTag;
use crate::text_with_lang::{dec_twl, enc_twl, wf_twl, TextWithLang, TextWithLangView};
use crate::traits::IppEncode;

verus! {

/// An attribute value: exactly one of the five primitive shapes.
#[derive(Debug, Clone, PartialEq)]
pub enum AttributeValue {
    TextWithoutLang(String),
    Number(i32),
    Boolean(bool),
    TextWithLang(TextWithLang),
    DateTime(IppDateTime),
}

/// The model of an attribute value; strings appear as character sequences.
#[verifier::ext_equal]
pub enum ValueView {
    TextWithoutLang(Seq<char>),
    Number(i32),
    Boolean(bool),
    TextWithLang(TextWithLangView),
    DateTime(IppDateTime),
}

/// The wire form of a value, chosen by the value's own variant.
pub open spec fn enc_value(v: ValueView) -> Seq<u8> {
    match v {
        ValueView::TextWithoutLang(s) => enc_string(s),
        ValueView::Number(n) => enc_i32(n),
        ValueView::Boolean(b) => enc_bool(b),
        ValueView::TextWithLang(t) => enc_twl(t),
        ValueView::DateTime(d) => enc_datetime(d),
    }
}

/// The primitive decoder a value tag selects: integers and enums read a
/// number, booleans a boolean, and the two composite tags their own shapes;
/// every other tag reads a plain string.
pub open spec fn dec_value(tag: ValueTag, b: Seq<u8>, off: int) -> Result<
    (int, ValueView),
    IppError,
> {
    match tag {
        ValueTag::Integer | ValueTag::Enum => match dec_i32(b, off) {
            Ok((n, v)) => Ok((n, ValueView::Number(v))),
            Err(e) => Err(e),
        },
        ValueTag::Boolean => match dec_bool(b, off) {
            Ok((n, v)) => Ok((n, ValueView::Boolean(v))),
            Err(e) => Err(e),
        },
        ValueTag::TextWithLanguage => match dec_twl(b, off) {
            Ok((n, v)) => Ok((n, ValueView::TextWithLang(v))),
            Err(e) => Err(e),
        },
        ValueTag::DateTime => match dec_datetime(b, off) {
            Ok((n, v)) => Ok((n, ValueView::DateTime(v))),
            Err(e) => Err(e),
        },
        _ => match dec_string(b, off) {
            Ok((n, v)) => Ok((n, ValueView::TextWithoutLang(v))),
            Err(e) => Err(e),
        },
    }
}

/// Whether a value's variant is the one the tag's decoder produces, so that
/// encoding under this tag reads back as the same variant.
pub open spec fn tag_matches(tag: ValueTag, v: ValueView) -> bool {
    match v {
        ValueView::Number(_) => tag == ValueTag::Integer || tag == ValueTag::Enum,
        ValueView::Boolean(_) => tag == ValueTag::Boolean,
        ValueView::TextWithLang(_) => tag == ValueTag::TextWithLanguage,
        ValueView::DateTime(_) => tag == ValueTag::DateTime,
        ValueView::TextWithoutLang(_) => tag != ValueTag::Integer && tag != ValueTag::Enum && tag
            != ValueTag::Boolean && tag != ValueTag::TextWithLanguage && tag != ValueTag::DateTime,
    }
}

/// The value with its sub-second component dropped, as encoding drops it.
pub open spec fn zero_ds_value(v: ValueView) -> ValueView {
    match v {
        ValueView::DateTime(d) => ValueView::DateTime(zero_decisecond(d)),
        _ => v,
    }
}

/// A value encodes faithfully when its payload fits its length fields.
pub open spec fn wf_value(v: ValueView) -> bool {
    match v {
        ValueView::TextWithoutLang(s) => wf_string(s),
        ValueView::Number(_) => true,
        ValueView::Boolean(_) => true,
        ValueView::TextWithLang(t) => wf_twl(t),
        ValueView::DateTime(d) => wf_datetime(d),
    }
}

impl AttributeValue {
    /// The model of this value.
    pub open spec fn model(&self) -> ValueView {
        match self {
            AttributeValue::TextWithoutLang(s) => ValueView::TextWithoutLang(s@),
            AttributeValue::Number(n) => ValueView::Number(*n),
            AttributeValue::Boolean(b) => ValueView::Boolean(*b),
            AttributeValue::TextWithLang(t) => ValueView::TextWithLang(
                TextWithLangView { lang: t.lang@, text: t.text@ },
            ),
            AttributeValue::DateTime(d) => ValueView::DateTime(*d),
        }
    }

    /// Decodes one value at `offset` with the decoder `value_tag` selects.
    pub fn from_ipp(bytes: &[u8], offset: usize, value_tag: ValueTag) -> (r: Result<
        (usize, AttributeValue),
        IppError,
    >)
        ensures
            r matches Ok(p) ==> dec_value(value_tag, bytes@, offset as int) == Ok::<
                (int, ValueView),
                IppError,
            >((p.0 as int, p.1.model())) && offset + p.0 <= bytes@.len(),
            r matches Err(e) ==> dec_value(value_tag, bytes@, offset as int) == Err::<
                (int, ValueView),
                IppError,
            >(e),
    {
        match value_tag {
            ValueTag::Integer | ValueTag::Enum => match i32::from_ipp(bytes, offset) {
                Ok((n, v)) => Ok((n, AttributeValue::Number(v))),
                Err(e) => Err(e),
            },
            ValueTag::Boolean => match bool::from_ipp(bytes, offset) {
                Ok((n, v)) => Ok((n, AttributeValue::Boolean(v))),
                Err(e) => Err(e),
            },
            ValueTag::TextWithLanguage => match TextWithLang::from_ipp(bytes, offset) {
                Ok((n, v)) => Ok((n, AttributeValue::TextWithLang(v))),
                Err(e) => Err(e),
            },
            ValueTag::DateTime => match IppDateTime::from_ipp(bytes, offset) {
                Ok((n, v)) => Ok((n, AttributeValue::DateTime(v))),
                Err(e) => Err(e),
            },
            _ => match String::from_ipp(bytes, offset) {
                Ok((n, v)) => Ok((n, AttributeValue::TextWithoutLang(v))),
                Err(e) => Err(e),
            },
        }
    }

    /// Encodes this value, dispatching on its own variant.
    pub fn to_ipp(&self) -> (r: Vec<u8>)
        ensures
            r@ == enc_value(self.model()),
    {
        match self {
            AttributeValue::TextWithoutLang(s) => s.to_ipp(),
            AttributeValue::Number(n) => n.to_ipp(),
            AttributeValue::Boolean(b) => b.to_ipp(),
            AttributeValue::TextWithLang(t) => t.to_ipp(),
            AttributeValue::DateTime(d) => d.to_ipp(),
        }
    }

    /// The encoded length of this value.
    pub fn ipp_len(&self) -> (r: usize)
        requires
            wf_value(self.model()),
        ensures
            r == enc_value(self.model()).len(),
    {
        match self {
            AttributeValue::TextWithoutLang(s) => s.ipp_len(),
            AttributeValue::Number(n) => n.ipp_len(),
            AttributeValue::Boolean(b) => b.ipp_len(),
            AttributeValue::TextWithLang(t) => t.ipp_len(),
            AttributeValue::DateTime(d) => d.ipp_len(),
        }
    }
}

/// A decoded value consumes at least its length field and stays in bounds.
pub proof fn lemma_dec_value_bounds(tag: ValueTag, b: Seq<u8>, off: int)
    ensures
        dec_value(tag, b, off) matches Ok((n, _)) ==> 2 <= n && 0 <= off && off + n <= b.len(),
{
}

/// Every value encoding is at least a 2-byte length field long.
pub proof fn lemma_enc_value_min_len(v: ValueView)
    ensures
        enc_value(v).len() >= 2,
{
}

/// Decoding the encoding of a value under a matching tag recovers it, up to
/// the dropped sub-second component of a date-time.
pub proof fn lemma_value_round_trip(tag: ValueTag, v: ValueView, b: Seq<u8>, off: int)
    requires
        wf_value(v),
        tag_matches(tag, v),
        0 <= off,
        off + enc_value(v).len() <= b.len(),
        b.subrange(off, off + enc_value(v).len()) == enc_value(v),
    ensures
        dec_value(tag, b, off) == Ok::<(int, ValueView), IppError>(
            (enc_value(v).len() as int, zero_ds_value(v)),
        ),
{
    match v {
        ValueView::TextWithoutLang(s) => {
            crate::primitives::lemma_string_round_trip(s, b, off);
        },
        ValueView::Number(n) => {
            crate::primitives::lemma_i32_round_trip(n, b, off);
        },
        ValueView::Boolean(x) => {
            crate::primitives::lemma_bool_round_trip(x, b, off);
        },
        ValueView::TextWithLang(t) => {
            crate::text_with_lang::lemma_twl_round_trip(t, b, off);
        },
        ValueView::DateTime(d) => {
            crate::datetime::lemma_datetime_round_trip(d, b, off);
        },
    }
}

} // verus!
