//! Wire forms of the atomic value types: 32-bit integers, booleans and
//! UTF-8 strings. Every primitive is preceded by a 2-byte big-endian
//! value-length field that counts the payload bytes after it.

use vstd::prelude::*;
use vstd::utf8::{decode_utf8, encode_utf8, valid_utf8};
use crate::error::IppError;
use crate::traits::IppEncode;
use crate::wire::{be16, be32, dec_u16_at, dec_u32_at, lemma_be16_round_trip,
    lemma_be32_round_trip, push_be16, push_be32, push_str_bytes, read_bytes, read_u16, read_u32,
    string_from_utf8};

verus! {

/// The wire form of an integer: length field 4, then 4 big-endian bytes of
/// the two's-complement value.
pub open spec fn enc_i32(v: i32) -> Seq<u8> {
    be16(4) + be32(v as u32)
}

/// Decoding an integer at `off`: 6 bytes are consumed. The declared length
/// field is not inspected; the payload size of an integer is fixed.
pub open spec fn dec_i32(b: Seq<u8>, off: int) -> Result<(int, i32), IppError> {
    if 0 <= off && off + 6 <= b.len() {
        Ok((6, dec_u32_at(b, off + 2) as i32))
    } else {
        Err(IppError::MalformedBuffer)
    }
}

/// The wire form of a boolean: length field 1, then 0x00 or 0x01.
pub open spec fn enc_bool(v: bool) -> Seq<u8> {
    be16(1) + seq![if v { 1u8 } else { 0u8 }]
}

/// Decoding a boolean at `off`: 3 bytes are consumed, and a payload byte
/// outside {0x00, 0x01} is an invalid encoding.
pub open spec fn dec_bool(b: Seq<u8>, off: int) -> Result<(int, bool), IppError> {
    if 0 <= off && off + 3 <= b.len() {
        if b[off + 2] == 0u8 {
            Ok((3, false))
        } else if b[off + 2] == 1u8 {
            Ok((3, true))
        } else {
            Err(IppError::InvalidEncoding)
        }
    } else {
        Err(IppError::MalformedBuffer)
    }
}

/// The wire form of a string: a length field counting the UTF-8 bytes, then
/// those bytes.
pub open spec fn enc_string(s: Seq<char>) -> Seq<u8> {
    be16(encode_utf8(s).len() as u16) + encode_utf8(s)
}

/// Decoding a string at `off`: the declared number of payload bytes must be
/// present and must be valid UTF-8.
pub open spec fn dec_string(b: Seq<u8>, off: int) -> Result<(int, Seq<char>), IppError> {
    if 0 <= off && off + 2 <= b.len() {
        let n = dec_u16_at(b, off) as int;
        if off + 2 + n <= b.len() {
            let payload = b.subrange(off + 2, off + 2 + n);
            if valid_utf8(payload) {
                Ok((2 + n, decode_utf8(payload)))
            } else {
                Err(IppError::InvalidEncoding)
            }
        } else {
            Err(IppError::MalformedBuffer)
        }
    } else {
        Err(IppError::MalformedBuffer)
    }
}

/// A string is encodable faithfully when its UTF-8 form fits the 16-bit
/// length field.
pub open spec fn wf_string(s: Seq<char>) -> bool {
    encode_utf8(s).len() <= 0xFFFF
}

impl IppEncode for i32 {
    type Model = i32;

    open spec fn model(&self) -> i32 {
        *self
    }

    open spec fn wf(&self) -> bool {
        true
    }

    open spec fn wire(&self) -> Seq<u8> {
        enc_i32(*self)
    }

    open spec fn dec(b: Seq<u8>, off: int) -> Result<(int, i32), IppError> {
        dec_i32(b, off)
    }

    fn from_ipp(bytes: &[u8], offset: usize) -> (r: Result<(usize, i32), IppError>) {
        let len = bytes.len();
        if offset > len || len - offset < 6 {
            return Err(IppError::MalformedBuffer);
        }
        let raw = read_u32(bytes, offset + 2);
        Ok((6, #[verifier::truncate] (raw as i32)))
    }

    fn to_ipp(&self) -> (r: Vec<u8>) {
        let mut out: Vec<u8> = Vec::new();
        push_be16(&mut out, 4);
        push_be32(&mut out, #[verifier::truncate] (*self as u32));
        assert(out@ =~= enc_i32(*self));
        out
    }

    fn ipp_len(&self) -> (r: usize) {
        6
    }
}

impl IppEncode for bool {
    type Model = bool;

    open spec fn model(&self) -> bool {
        *self
    }

    open spec fn wf(&self) -> bool {
        true
    }

    open spec fn wire(&self) -> Seq<u8> {
        enc_bool(*self)
    }

    open spec fn dec(b: Seq<u8>, off: int) -> Result<(int, bool), IppError> {
        dec_bool(b, off)
    }

    fn from_ipp(bytes: &[u8], offset: usize) -> (r: Result<(usize, bool), IppError>) {
        let len = bytes.len();
        if offset > len || len - offset < 3 {
            return Err(IppError::MalformedBuffer);
        }
        let byte = bytes[offset + 2];
        if byte == 0 {
            Ok((3, false))
        } else if byte == 1 {
            Ok((3, true))
        } else {
            Err(IppError::InvalidEncoding)
        }
    }

    fn to_ipp(&self) -> (r: Vec<u8>) {
        let mut out: Vec<u8> = Vec::new();
        push_be16(&mut out, 1);
        out.push(if *self { 1u8 } else { 0u8 });
        assert(out@ =~= enc_bool(*self));
        out
    }

    fn ipp_len(&self) -> (r: usize) {
        3
    }
}

impl IppEncode for String {
    type Model = Seq<char>;

    open spec fn model(&self) -> Seq<char> {
        self@
    }

    open spec fn wf(&self) -> bool {
        wf_string(self@)
    }

    open spec fn wire(&self) -> Seq<u8> {
        enc_string(self@)
    }

    open spec fn dec(b: Seq<u8>, off: int) -> Result<(int, Seq<char>), IppError> {
        dec_string(b, off)
    }

    fn from_ipp(bytes: &[u8], offset: usize) -> (r: Result<(usize, String), IppError>) {
        let len = bytes.len();
        if offset > len || len - offset < 2 {
            return Err(IppError::MalformedBuffer);
        }
        let n = read_u16(bytes, offset) as usize;
        if len - (offset + 2) < n {
            return Err(IppError::MalformedBuffer);
        }
        let payload = read_bytes(bytes, offset + 2, n);
        match string_from_utf8(payload) {
            Some(s) => Ok((2 + n, s)),
            None => Err(IppError::InvalidEncoding),
        }
    }

    fn to_ipp(&self) -> (r: Vec<u8>) {
        let mut out: Vec<u8> = Vec::new();
        let data = self.as_str();
        push_be16(&mut out, #[verifier::truncate] (data.as_bytes().len() as u16));
        push_str_bytes(&mut out, data);
        assert(out@ =~= enc_string(self@));
        out
    }

    fn ipp_len(&self) -> (r: usize) {
        2 + self.as_str().as_bytes().len()
    }
}

/// Decoding the encoding of an integer, in any buffer that carries it,
/// consumes its six bytes and recovers the value.
pub proof fn lemma_i32_round_trip(x: i32, b: Seq<u8>, off: int)
    requires
        0 <= off,
        off + 6 <= b.len(),
        b.subrange(off, off + 6) == enc_i32(x),
    ensures
        dec_i32(b, off) == Ok::<(int, i32), IppError>((6, x)),
{
    let w = enc_i32(x);
    assert forall|k: int| 0 <= k < 6 implies b[off + k] == w[k] by {
        assert(b.subrange(off, off + 6)[k] == b[off + k]);
    }
    let v = #[verifier::truncate] (x as u32);
    assert forall|k: int| 0 <= k < 4 implies b[off + 2 + k] == be32(v)[k] by {
        assert(b[off + (2 + k)] == w[2 + k]);
    }
    lemma_be32_round_trip(v, b, off + 2);
    assert((x as u32) as i32 == x) by (bit_vector);
}

/// Decoding the encoding of a boolean recovers the value in three bytes.
pub proof fn lemma_bool_round_trip(x: bool, b: Seq<u8>, off: int)
    requires
        0 <= off,
        off + 3 <= b.len(),
        b.subrange(off, off + 3) == enc_bool(x),
    ensures
        dec_bool(b, off) == Ok::<(int, bool), IppError>((3, x)),
{
    let w = enc_bool(x);
    assert forall|k: int| 0 <= k < 3 implies b[off + k] == w[k] by {
        assert(b.subrange(off, off + 3)[k] == b[off + k]);
    }
    assert(b[off + 2] == w[2]);
    assert(w[2] == (if x { 1u8 } else { 0u8 }));
}

/// Decoding the encoding of a string recovers exactly its characters.
pub proof fn lemma_string_round_trip(s: Seq<char>, b: Seq<u8>, off: int)
    requires
        wf_string(s),
        0 <= off,
        off + enc_string(s).len() <= b.len(),
        b.subrange(off, off + enc_string(s).len()) == enc_string(s),
    ensures
        dec_string(b, off) == Ok::<(int, Seq<char>), IppError>((enc_string(s).len() as int, s)),
{
    let u = encode_utf8(s);
    let n = u.len() as int;
    let w = enc_string(s);
    assert(w.len() == 2 + n);
    assert forall|k: int| 0 <= k < 2 + n implies b[off + k] == w[k] by {
        assert(b.subrange(off, off + (2 + n))[k] == b[off + k]);
    }
    assert(b[off] == w[0] && w[0] == be16(n as u16)[0]);
    assert(b[off + 1] == w[1] && w[1] == be16(n as u16)[1]);
    lemma_be16_round_trip(n as u16, b, off);
    assert(dec_u16_at(b, off) as int == n);
    let payload = b.subrange(off + 2, off + 2 + n);
    assert(payload =~= u) by {
        assert forall|k: int| 0 <= k < n implies payload[k] == u[k] by {
            assert(b[off + 2 + k] == w[2 + k]);
        }
    }
    vstd::utf8::encode_utf8_valid_utf8(s);
    vstd::utf8::encode_utf8_decode_utf8(s);
}

} // verus!
