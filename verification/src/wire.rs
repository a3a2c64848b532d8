//! Byte-level building blocks of the wire format: big-endian 16- and 32-bit
//! fields, buffer reads with explicit bounds, and the bridge between Rust
//! strings and their UTF-8 bytes.

use vstd::prelude::*;
use vstd::utf8::{decode_utf8, encode_utf8, valid_utf8};

verus! {

/// The two big-endian bytes of a 16-bit value.
pub open spec fn be16(x: u16) -> Seq<u8> {
    seq![(x >> 8) as u8, x as u8]
}

/// The four big-endian bytes of a 32-bit value.
pub open spec fn be32(x: u32) -> Seq<u8> {
    seq![(x >> 24) as u8, (x >> 16) as u8, (x >> 8) as u8, x as u8]
}

/// The 16-bit value read big-endian at `off`; meaningful when
/// `off + 2 <= b.len()`.
pub open spec fn dec_u16_at(b: Seq<u8>, off: int) -> u16 {
    ((b[off] as int) * 0x100 + (b[off + 1] as int)) as u16
}

/// The 32-bit value read big-endian at `off`; meaningful when
/// `off + 4 <= b.len()`.
pub open spec fn dec_u32_at(b: Seq<u8>, off: int) -> u32 {
    ((b[off] as int) * 0x1000000 + (b[off + 1] as int) * 0x10000 + (b[off + 2] as int) * 0x100
        + (b[off + 3] as int)) as u32
}

/// Reading back the two big-endian bytes of a 16-bit value recovers it.
pub proof fn lemma_be16_round_trip(x: u16, b: Seq<u8>, off: int)
    requires
        0 <= off,
        off + 2 <= b.len(),
        b[off] == (x >> 8) as u8,
        b[off + 1] == x as u8,
    ensures
        dec_u16_at(b, off) == x,
{
    assert(((x >> 8) as u8 as int) * 0x100 + (x as u8 as int) == x as int) by (bit_vector);
}

/// Reading back the four big-endian bytes of a 32-bit value recovers it.
pub proof fn lemma_be32_round_trip(x: u32, b: Seq<u8>, off: int)
    requires
        0 <= off,
        off + 4 <= b.len(),
        b[off] == (x >> 24) as u8,
        b[off + 1] == (x >> 16) as u8,
        b[off + 2] == (x >> 8) as u8,
        b[off + 3] == x as u8,
    ensures
        dec_u32_at(b, off) == x,
{
    assert(((x >> 24) as u8 as int) * 0x1000000 + ((x >> 16) as u8 as int) * 0x10000 + ((x
        >> 8) as u8 as int) * 0x100 + (x as u8 as int) == x as int) by (bit_vector);
}

/// Appends the big-endian bytes of `x`.
pub fn push_be16(out: &mut Vec<u8>, x: u16)
    ensures
        final(out)@ == old(out)@ + be16(x),
{
    proof {
        assert(x >> 8 < 0x100) by (bit_vector);
    }
    out.push((x >> 8) as u8);
    out.push(#[verifier::truncate] (x as u8));
    assert(out@ =~= old(out)@ + be16(x));
}

/// Appends the big-endian bytes of `x`.
pub fn push_be32(out: &mut Vec<u8>, x: u32)
    ensures
        final(out)@ == old(out)@ + be32(x),
{
    proof {
        assert(x >> 24 < 0x100 && x >> 16 < 0x10000 && x >> 8 < 0x1000000) by (bit_vector);
    }
    out.push((x >> 24) as u8);
    out.push(#[verifier::truncate] ((x >> 16) as u8));
    out.push(#[verifier::truncate] ((x >> 8) as u8));
    out.push(#[verifier::truncate] (x as u8));
    assert(out@ =~= old(out)@ + be32(x));
}

/// Reads the big-endian 16-bit field at `offset`.
pub fn read_u16(bytes: &[u8], offset: usize) -> (r: u16)
    requires
        offset + 2 <= bytes@.len(),
    ensures
        r == dec_u16_at(bytes@, offset as int),
{
    let hi = bytes[offset] as u16;
    let lo = bytes[offset + 1] as u16;
    hi * 0x100 + lo
}

/// Reads the big-endian 32-bit field at `offset`.
pub fn read_u32(bytes: &[u8], offset: usize) -> (r: u32)
    requires
        offset + 4 <= bytes@.len(),
    ensures
        r == dec_u32_at(bytes@, offset as int),
{
    let b0 = bytes[offset] as u32;
    let b1 = bytes[offset + 1] as u32;
    let b2 = bytes[offset + 2] as u32;
    let b3 = bytes[offset + 3] as u32;
    b0 * 0x1000000 + b1 * 0x10000 + b2 * 0x100 + b3
}

/// Copies `bytes[offset .. offset + n]` into a fresh vector.
pub fn read_bytes(bytes: &[u8], offset: usize, n: usize) -> (r: Vec<u8>)
    requires
        offset + n <= bytes@.len(),
    ensures
        r@ == bytes@.subrange(offset as int, offset + n),
{
    let total = bytes.len();
    let mut r: Vec<u8> = Vec::new();
    let mut i: usize = 0;
    while i < n
        invariant
            offset + n <= total == bytes@.len(),
            i <= n,
            r@ == bytes@.subrange(offset as int, offset + i),
        decreases n - i,
    {
        r.push(bytes[offset + i]);
        assert(r@ =~= bytes@.subrange(offset as int, offset + i + 1));
        i = i + 1;
    }
    r
}

/// Whether `a` equals `b` at every index; for byte slices this is the same
/// as equality of the views.
pub fn bytes_eq(a: &[u8], b: &[u8]) -> (r: bool)
    ensures
        r == (a@ == b@),
{
    if a.len() != b.len() {
        assert(a@ !~= b@);
        return false;
    }
    let n = a.len();
    let mut i: usize = 0;
    while i < n
        invariant
            n == a@.len() == b@.len(),
            i <= n,
            forall|j: int| 0 <= j < i ==> a@[j] == b@[j],
        decreases n - i,
    {
        if a[i] != b[i] {
            return false;
        }
        i = i + 1;
    }
    assert(a@ =~= b@);
    true
}

/// Whether two string slices hold the same characters. Equal UTF-8 bytes
/// mean equal characters, because decoding inverts encoding.
pub fn str_eq(a: &str, b: &str) -> (r: bool)
    ensures
        r == (a@ == b@),
{
    proof {
        vstd::utf8::encode_utf8_decode_utf8(a@);
        vstd::utf8::encode_utf8_decode_utf8(b@);
    }
    bytes_eq(a.as_bytes(), b.as_bytes())
}

/// A buffer that carries `w` at `off` carries every piece of `w` at the
/// matching position.
pub proof fn lemma_subrange_of_match(b: Seq<u8>, off: int, w: Seq<u8>, p: int, q: int)
    requires
        0 <= off,
        off + w.len() <= b.len(),
        b.subrange(off, off + w.len()) == w,
        0 <= p <= q <= w.len(),
    ensures
        b.subrange(off + p, off + q) == w.subrange(p, q),
{
    assert(b.subrange(off + p, off + q) =~= w.subrange(p, q)) by {
        assert forall|k: int| 0 <= k < q - p implies b.subrange(off + p, off + q)[k] == w.subrange(
            p,
            q,
        )[k] by {
            assert(b.subrange(off, off + w.len())[p + k] == b[off + p + k]);
        }
    }
}

/// Relies on `String::from_utf8`: it returns a string exactly when the input
/// bytes are valid UTF-8, and the returned string holds the characters those
/// bytes encode.
#[verifier::external_body]
pub fn string_from_utf8(v: Vec<u8>) -> (r: Option<String>)
    ensures
        r is Some <==> valid_utf8(v@),
        r matches Some(s) ==> s@ == decode_utf8(v@),
{
    String::from_utf8(v).ok()
}

/// Appends the UTF-8 bytes of `s`.
pub fn push_str_bytes(out: &mut Vec<u8>, s: &str)
    ensures
        final(out)@ == old(out)@ + encode_utf8(s@),
{
    out.extend_from_slice(s.as_bytes());
}

} // verus!
