//! The common shape of every IPP encoder and decoder.

use vstd::prelude::*;
use crate::error::IppError;

verus! {

/// A type with an IPP wire form.
///
/// Each implementation supplies a mathematical model of its values
/// (`Model`, reached by `model()`), the byte sequence a value encodes to
/// (`wire`), and a total description of decoding (`dec`). The executable
/// methods are then pinned to those functions exactly:
///
/// - `to_ipp` returns precisely `wire()`;
/// - `ipp_len` returns its length;
/// - `from_ipp` agrees with `dec` on every buffer and offset, both on
///   success (consumed bytes and decoded model) and on the error reported.
pub trait IppEncode: Sized {
    /// The mathematical model of a decoded value; strings appear as
    /// character sequences, collections as sequences or maps.
    type Model;

    /// The model of this value.
    spec fn model(&self) -> Self::Model;

    /// Values whose wire form is faithful: every length field fits the
    /// 16-bit slot that carries it, and field invariants hold.
    spec fn wf(&self) -> bool;

    /// The bytes this value encodes to.
    spec fn wire(&self) -> Seq<u8>;

    /// What decoding at `off` yields: bytes consumed and the decoded model,
    /// or the error.
    spec fn dec(b: Seq<u8>, off: int) -> Result<(int, Self::Model), IppError>;

    /// Decodes one value at `offset`, returning the bytes consumed and the
    /// value, exactly as `dec` describes.
    fn from_ipp(bytes: &[u8], offset: usize) -> (r: Result<(usize, Self), IppError>)
        ensures
            r matches Ok(p) ==> Self::dec(bytes@, offset as int) == Ok::<(int, Self::Model),
                IppError,
            >((p.0 as int, p.1.model())) && offset + p.0 <= bytes@.len(),
            r matches Err(e) ==> Self::dec(bytes@, offset as int) == Err::<(int, Self::Model),
                IppError,
            >(e),
    ;

    /// Encodes this value, length fields included.
    fn to_ipp(&self) -> (r: Vec<u8>)
        ensures
            r@ == self.wire(),
    ;

    /// The encoded length in bytes, computed without building the bytes.
    fn ipp_len(&self) -> (r: usize)
        requires
            self.wf(),
            self.wire().len() <= usize::MAX,
        ensures
            r == self.wire().len(),
    ;
}

} // verus!
