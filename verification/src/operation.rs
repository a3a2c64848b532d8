//! The operation envelope: version, the 16-bit field that carries an
//! operation-id in a request and a status-code in a response, the request
//! id, the attribute-group table, and the opaque trailing data.

use vstd::prelude::*;
use crate::attribute_group::{canonical_table, dec_table, enc_table, wf_table, zero_ds_table,
    AttributeGroupTable, GroupView};
use crate::error::IppError;
use crate::status::{OperationID, StatusCode};
use crate::tags::DelimiterTag;
use crate::traits::IppEncode;
use crate::wire::{be16, be32, dec_u16_at, dec_u32_at, push_be16, push_be32, read_bytes, read_u16,
    read_u32};

verus! {

/// The two-byte protocol version of a message.
#[derive(Debug, Clone, Copy, PartialEq, Eq, Structural)]
pub struct IppVersion {
    pub major: u8,
    pub minor: u8,
}

/// An operation request or response.
#[derive(Debug, Clone, PartialEq)]
pub struct Operation {
    pub version: IppVersion,
    /// An operation-id in a request, a status-code in a response; which one
    /// depends on context, not on the bytes.
    pub operation_id_or_status_code: u16,
    pub request_id: u32,
    pub attribute_groups: AttributeGroupTable,
    /// Opaque trailing bytes after the end-of-attributes tag, carried
    /// verbatim; print submissions put the document here.
    pub data: Vec<u8>,
}

/// The model of an operation.
#[verifier::ext_equal]
pub struct OperationView {
    pub major: u8,
    pub minor: u8,
    pub operation_id_or_status_code: u16,
    pub request_id: u32,
    pub attribute_groups: Map<DelimiterTag, GroupView>,
    pub data: Seq<u8>,
}

/// The wire form of an operation: the fixed 8-byte header, the group table,
/// and the trailing data verbatim.
pub open spec fn enc_op(o: OperationView) -> Seq<u8> {
    seq![o.major, o.minor] + be16(o.operation_id_or_status_code) + be32(o.request_id) + enc_table(
        o.attribute_groups,
    ) + o.data
}

/// Decoding an operation at `off`: the header must be whole; everything
/// after the group table is the trailing data. The bytes consumed count the
/// header and the table, not the data.
pub open spec fn dec_op(b: Seq<u8>, off: int) -> Result<(int, OperationView), IppError> {
    if 0 <= off && off + 8 <= b.len() {
        match dec_table(b, off + 8) {
            Err(e) => Err(e),
            Ok((n, groups)) => Ok(
                (
                    8 + n,
                    OperationView {
                        major: b[off],
                        minor: b[off + 1],
                        operation_id_or_status_code: dec_u16_at(b, off + 2),
                        request_id: dec_u32_at(b, off + 4),
                        attribute_groups: groups,
                        data: b.subrange(off + 8 + n, b.len() as int),
                    },
                ),
            ),
        }
    } else {
        Err(IppError::MalformedBuffer)
    }
}

/// An operation encodes faithfully when its table does.
pub open spec fn wf_op(o: OperationView) -> bool {
    wf_table(o.attribute_groups)
}

/// The conditions under which an operation survives a round trip.
pub open spec fn canonical_op(o: OperationView) -> bool {
    canonical_table(o.attribute_groups)
}

/// The operation as a round trip reproduces it: date-times to the second.
pub open spec fn zero_ds_op(o: OperationView) -> OperationView {
    OperationView { attribute_groups: zero_ds_table(o.attribute_groups), ..o }
}

impl Operation {
    /// The operation-id this message carries, when the 16-bit field holds a
    /// known one; meaningful for requests.
    pub fn operation_id(&self) -> (r: Option<OperationID>)
        ensures
            r == OperationID::spec_from_code(self.operation_id_or_status_code),
    {
        OperationID::from_code(self.operation_id_or_status_code)
    }

    /// The status code this message carries, when the 16-bit field holds a
    /// known one; meaningful for responses.
    pub fn status_code(&self) -> (r: Option<StatusCode>)
        ensures
            r == StatusCode::spec_from_code(self.operation_id_or_status_code),
    {
        StatusCode::from_code(self.operation_id_or_status_code)
    }
}

impl IppEncode for Operation {
    type Model = OperationView;

    open spec fn model(&self) -> OperationView {
        OperationView {
            major: self.version.major,
            minor: self.version.minor,
            operation_id_or_status_code: self.operation_id_or_status_code,
            request_id: self.request_id,
            attribute_groups: self.attribute_groups.model(),
            data: self.data@,
        }
    }

    open spec fn wf(&self) -> bool {
        wf_op(self.model())
    }

    open spec fn wire(&self) -> Seq<u8> {
        enc_op(self.model())
    }

    open spec fn dec(b: Seq<u8>, off: int) -> Result<(int, OperationView), IppError> {
        dec_op(b, off)
    }

    fn from_ipp(bytes: &[u8], offset: usize) -> (r: Result<(usize, Operation), IppError>) {
        let blen = bytes.len();
        if offset > blen || blen - offset < 8 {
            return Err(IppError::MalformedBuffer);
        }
        let major = bytes[offset];
        let minor = bytes[offset + 1];
        let operation_id_or_status_code = read_u16(bytes, offset + 2);
        let request_id = read_u32(bytes, offset + 4);
        let (n, attribute_groups) = match AttributeGroupTable::from_ipp(bytes, offset + 8) {
            Ok(p) => p,
            Err(e) => {
                return Err(e);
            },
        };
        let data = read_bytes(bytes, offset + 8 + n, blen - (offset + 8 + n));
        Ok(
            (
                8 + n,
                Operation {
                    version: IppVersion { major, minor },
                    operation_id_or_status_code,
                    request_id,
                    attribute_groups,
                    data,
                },
            ),
        )
    }

    fn to_ipp(&self) -> (r: Vec<u8>) {
        let mut out: Vec<u8> = Vec::new();
        out.push(self.version.major);
        out.push(self.version.minor);
        push_be16(&mut out, self.operation_id_or_status_code);
        push_be32(&mut out, self.request_id);
        let mut table_bytes = self.attribute_groups.to_ipp();
        out.append(&mut table_bytes);
        out.extend_from_slice(self.data.as_slice());
        assert(out@ =~= enc_op(self.model()));
        out
    }

    fn ipp_len(&self) -> (r: usize) {
        proof {
            assert(enc_table(self.attribute_groups.model()).len() <= enc_op(self.model()).len());
            assert(self.data@.len() <= enc_op(self.model()).len());
        }
        let table_len = self.attribute_groups.ipp_len();
        8 + table_len + self.data.len()
    }
}

/// Round trip: decoding the encoding of a canonical operation, laid down as
/// the whole buffer, consumes the header and table and yields the operation
/// back — version, identifiers, groups and trailing data — except that every
/// date-time value returns with a zero decisecond.
pub proof fn lemma_operation_round_trip(o: OperationView, b: Seq<u8>, off: int)
    requires
        canonical_op(o),
        0 <= off,
        off + enc_op(o).len() == b.len(),
        b.subrange(off, b.len() as int) == enc_op(o),
    ensures
        dec_op(b, off) == Ok::<(int, OperationView), IppError>(
            (8 + enc_table(o.attribute_groups).len() as int, zero_ds_op(o)),
        ),
{
    let w = enc_op(o);
    let head = seq![o.major, o.minor] + be16(o.operation_id_or_status_code) + be32(o.request_id);
    let tw = enc_table(o.attribute_groups);
    assert(w == head + tw + o.data);
    assert(head.len() == 8);
    assert forall|k: int| 0 <= k < w.len() implies b[off + k] == w[k] by {
        assert(b.subrange(off, off + w.len())[k] == b[off + k]);
    }
    assert forall|k: int| 0 <= k < 8 implies w[k] == head[k] by {
        assert(((head + tw) + o.data)[k] == (head + tw)[k]);
        assert((head + tw)[k] == head[k]);
    }
    assert(b[off] == o.major && b[off + 1] == o.minor) by {
        assert(head[0] == o.major && head[1] == o.minor);
    }
    assert(b[off + 2] == be16(o.operation_id_or_status_code)[0] && b[off + 3] == be16(
        o.operation_id_or_status_code,
    )[1]) by {
        assert(head[2] == be16(o.operation_id_or_status_code)[0]);
        assert(head[3] == be16(o.operation_id_or_status_code)[1]);
    }
    crate::wire::lemma_be16_round_trip(o.operation_id_or_status_code, b, off + 2);
    assert forall|k: int| 0 <= k < 4 implies b[off + 4 + k] == be32(o.request_id)[k] by {
        assert(w[4 + k] == head[4 + k]);
        assert(head[4 + k] == be32(o.request_id)[k]);
    }
    crate::wire::lemma_be32_round_trip(o.request_id, b, off + 4);
    assert(b.subrange(off + 8, off + 8 + tw.len()) == tw) by {
        crate::wire::lemma_subrange_of_match(b, off, w, 8, 8 + tw.len() as int);
        assert(w.subrange(8, 8 + tw.len() as int) =~= tw) by {
            assert forall|k: int| 0 <= k < tw.len() implies w[8 + k] == tw[k] by {
                assert(((head + tw) + o.data)[8 + k] == (head + tw)[8 + k]);
                assert((head + tw)[8 + k] == tw[k]);
            }
        }
    }
    crate::attribute_group::lemma_table_round_trip(o.attribute_groups, b, off + 8);
    assert(b.subrange(off + 8 + tw.len(), b.len() as int) =~= o.data) by {
        assert forall|k: int| 0 <= k < o.data.len() implies b[off + 8 + tw.len() + k]
            == o.data[k] by {
            assert(w[8 + tw.len() + k] == o.data[k]) by {
                assert(((head + tw) + o.data)[(head + tw).len() + k] == o.data[k]);
            }
        }
    }
    assert(zero_ds_op(o) =~= OperationView {
        major: o.major,
        minor: o.minor,
        operation_id_or_status_code: o.operation_id_or_status_code,
        request_id: o.request_id,
        attribute_groups: zero_ds_table(o.attribute_groups),
        data: o.data,
    });
}


} // verus!
