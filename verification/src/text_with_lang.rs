//! Language-tagged text: a language code and a text, each length-prefixed,
//! wrapped in one outer value-length field that covers both.

use vstd::prelude::*;
use vstd::utf8::encode_utf8;
use crate::error::IppError;
use crate::traits::IppEncode;
use crate::wire::{be16, push_be16};
use crate::primitives::{dec_string, enc_string, wf_string};

verus! {

/// A text together with its natural-language code.
#[derive(Debug, Clone, PartialEq)]
pub struct TextWithLang {
    pub lang: String,
    pub text: String,
}

/// The mathematical model of a `TextWithLang`: both strings as character
/// sequences.
#[verifier::ext_equal]
pub struct TextWithLangView {
    pub lang: Seq<char>,
    pub text: Seq<char>,
}

/// The outer value-length field: the combined size of the two nested
/// length-prefixed strings, reduced to 16 bits the way the encoder does.
pub open spec fn twl_combined_len(m: TextWithLangView) -> u16 {
    ((enc_string(m.lang).len() as u16) as int + (enc_string(m.text).len() as u16) as int) as u16
}

/// The wire form: combined length, then the language string, then the text
/// string, each with its own nested length field.
pub open spec fn enc_twl(m: TextWithLangView) -> Seq<u8> {
    be16(twl_combined_len(m)) + enc_string(m.lang) + enc_string(m.text)
}

/// Decoding language-tagged text: the outer length field is skipped (its
/// value is not inspected), then the two nested strings are read in order.
pub open spec fn dec_twl(b: Seq<u8>, off: int) -> Result<(int, TextWithLangView), IppError> {
    if 0 <= off && off + 2 <= b.len() {
        match dec_string(b, off + 2) {
            Err(e) => Err(e),
            Ok((n1, lang)) => match dec_string(b, off + 2 + n1) {
                Err(e) => Err(e),
                Ok((n2, text)) => Ok((2 + n1 + n2, TextWithLangView { lang, text })),
            },
        }
    } else {
        Err(IppError::MalformedBuffer)
    }
}

/// Faithful encoding needs each nested string and the combined field to fit
/// 16 bits.
pub open spec fn wf_twl(m: TextWithLangView) -> bool {
    &&& wf_string(m.lang)
    &&& wf_string(m.text)
    &&& 4 + encode_utf8(m.lang).len() + encode_utf8(m.text).len() <= 0xFFFF
}

impl IppEncode for TextWithLang {
    type Model = TextWithLangView;

    open spec fn model(&self) -> TextWithLangView {
        TextWithLangView { lang: self.lang@, text: self.text@ }
    }

    open spec fn wf(&self) -> bool {
        wf_twl(self.model())
    }

    open spec fn wire(&self) -> Seq<u8> {
        enc_twl(self.model())
    }

    open spec fn dec(b: Seq<u8>, off: int) -> Result<(int, TextWithLangView), IppError> {
        dec_twl(b, off)
    }

    fn from_ipp(bytes: &[u8], offset: usize) -> (r: Result<(usize, TextWithLang), IppError>) {
        let len = bytes.len();
        if offset > len || len - offset < 2 {
            return Err(IppError::MalformedBuffer);
        }
        let (n1, lang) = match String::from_ipp(bytes, offset + 2) {
            Ok(p) => p,
            Err(e) => {
                return Err(e);
            },
        };
        let (n2, text) = match String::from_ipp(bytes, offset + 2 + n1) {
            Ok(p) => p,
            Err(e) => {
                return Err(e);
            },
        };
        Ok((2 + n1 + n2, TextWithLang { lang, text }))
    }

    fn to_ipp(&self) -> (r: Vec<u8>) {
        let mut lang_bytes = self.lang.to_ipp();
        let mut text_bytes = self.text.to_ipp();
        let combined = #[verifier::truncate] (((#[verifier::truncate] (lang_bytes.len()
            as u16)) as u32 + (#[verifier::truncate] (text_bytes.len() as u16)) as u32) as u16);
        let mut out: Vec<u8> = Vec::new();
        push_be16(&mut out, combined);
        out.append(&mut lang_bytes);
        out.append(&mut text_bytes);
        assert(out@ =~= enc_twl(self.model()));
        out
    }

    fn ipp_len(&self) -> (r: usize) {
        2 + self.lang.ipp_len() + self.text.ipp_len()
    }
}

/// Decoding the encoding of language-tagged text recovers both strings.
pub proof fn lemma_twl_round_trip(m: TextWithLangView, b: Seq<u8>, off: int)
    requires
        wf_twl(m),
        0 <= off,
        off + enc_twl(m).len() <= b.len(),
        b.subrange(off, off + enc_twl(m).len()) == enc_twl(m),
    ensures
        dec_twl(b, off) == Ok::<(int, TextWithLangView), IppError>((enc_twl(m).len() as int, m)),
{
    let w = enc_twl(m);
    let e1 = enc_string(m.lang);
    let e2 = enc_string(m.text);
    assert(w.len() == 2 + e1.len() + e2.len());
    assert forall|k: int| 0 <= k < w.len() implies b[off + k] == w[k] by {
        assert(b.subrange(off, off + w.len())[k] == b[off + k]);
    }
    assert(b.subrange(off + 2, off + 2 + e1.len()) =~= e1) by {
        assert forall|k: int| 0 <= k < e1.len() implies b[off + 2 + k] == e1[k] by {
            assert(b[off + (2 + k)] == w[2 + k]);
        }
    }
    crate::primitives::lemma_string_round_trip(m.lang, b, off + 2);
    let n1 = e1.len() as int;
    assert(b.subrange(off + 2 + n1, off + 2 + n1 + e2.len()) =~= e2) by {
        assert forall|k: int| 0 <= k < e2.len() implies b[off + 2 + n1 + k] == e2[k] by {
            assert(b[off + (2 + n1 + k)] == w[2 + n1 + k]);
        }
    }
    crate::primitives::lemma_string_round_trip(m.text, b, off + 2 + n1);
    assert(dec_twl(b, off) == Ok::<(int, TextWithLangView), IppError>((w.len() as int, m)));
}

} // verus!
