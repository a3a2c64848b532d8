//! One named attribute with its ordered values. On the wire an attribute is
//! a leading record carrying the name, followed by zero or more
//! additional-value records whose name-length field is zero — the sentinel
//! that marks them as further values of the same attribute rather than a new
//! attribute.

use vstd::prelude::*;
use crate::attribute_value::{dec_value, enc_value, tag_matches, wf_value, zero_ds_value,
    AttributeValue, ValueView};
use crate::error::IppError;
use crate::names::{canonical_name, enc_name, name_of, name_text, wf_name, AttributeName,
    NameView};
use crate::primitives::{dec_string, enc_string};
use crate::tags::{DelimiterTag, ValueTag};
use crate::traits::IppEncode;
use crate::wire::{be16, lemma_subrange_of_match, push_be16};

verus! {

/// A named attribute: one value tag, one name, and the values in wire order.
#[derive(Debug, Clone, PartialEq)]
pub struct Attribute {
    pub tag: ValueTag,
    pub name: AttributeName,
    pub values: Vec<AttributeValue>,
}

/// The model of an attribute.
#[verifier::ext_equal]
pub struct AttributeView {
    pub tag: ValueTag,
    pub name: NameView,
    pub values: Seq<ValueView>,
}

/// A value sequence with every date-time's sub-second component dropped.
pub open spec fn zero_ds_values(s: Seq<ValueView>) -> Seq<ValueView> {
    s.map_values(|v: ValueView| zero_ds_value(v))
}

/// The attribute as a round trip reproduces it: values to the second only.
pub open spec fn zero_ds_attr(a: AttributeView) -> AttributeView {
    AttributeView { values: zero_ds_values(a.values), ..a }
}

/// The wire form of record `i`: the value tag, then the full name for the
/// leading record but only a zero name-length field for additional values,
/// then the value.
pub open spec fn enc_record(a: AttributeView, i: int) -> Seq<u8> {
    seq![a.tag.spec_code()] + (if i == 0 {
        enc_name(a.name)
    } else {
        be16(0)
    }) + enc_value(a.values[i])
}

/// The wire form of records `i` onward.
pub open spec fn enc_records_from(a: AttributeView, i: int) -> Seq<u8>
    decreases a.values.len() - i,
{
    if i < 0 || i >= a.values.len() {
        Seq::empty()
    } else {
        enc_record(a, i) + enc_records_from(a, i + 1)
    }
}

/// The wire form of an attribute: one record per value. An attribute with
/// no values encodes to nothing at all.
pub open spec fn enc_attr(a: AttributeView) -> Seq<u8> {
    enc_records_from(a, 0)
}

/// Decoding one record at `off`. A delimiter tag byte — or an exhausted
/// buffer — is a boundary, reported as `None` with nothing consumed. The
/// flag reports whether the record's name field was non-empty.
pub open spec fn dec_one(b: Seq<u8>, off: int) -> Result<
    Option<(int, bool, AttributeView)>,
    IppError,
> {
    if off < 0 || off >= b.len() {
        Ok(None)
    } else if DelimiterTag::spec_from_code(b[off]) is Some {
        Ok(None)
    } else {
        match ValueTag::spec_from_code(b[off]) {
            None => Err(IppError::InvalidTag),
            Some(tag) => match dec_string(b, off + 1) {
                Err(e) => Err(e),
                Ok((n1, raw)) => match dec_value(tag, b, off + 1 + n1) {
                    Err(e) => Err(e),
                    Ok((n2, v)) => Ok(
                        Some(
                            (
                                1 + n1 + n2,
                                raw.len() > 0,
                                AttributeView { tag, name: name_of(raw), values: seq![v] },
                            ),
                        ),
                    ),
                },
            },
        }
    }
}

/// Decoding the run of additional-value records at `off`: records are
/// consumed while they carry an empty name; a named record or a boundary
/// stops the run unconsumed. The bound re-check keeps the recursion
/// well-founded; a decoded record always consumes at least one byte within
/// the buffer, so it never fires.
pub open spec fn dec_additional(b: Seq<u8>, off: int) -> Result<(int, Seq<ValueView>), IppError>
    decreases b.len() - off,
{
    match dec_one(b, off) {
        Err(e) => Err(e),
        Ok(None) => Ok((0, Seq::empty())),
        Ok(Some((n, has_name, rec))) => {
            if has_name {
                Ok((0, Seq::empty()))
            } else if 1 <= n && off + n <= b.len() {
                match dec_additional(b, off + n) {
                    Err(e) => Err(e),
                    Ok((m, vs)) => Ok((n + m, seq![rec.values[0]] + vs)),
                }
            } else {
                Err(IppError::MalformedBuffer)
            }
        },
    }
}

/// Decoding one whole attribute at `off`: the leading record, then the run
/// of its additional values. A boundary at `off` means no attribute starts
/// here; nothing is consumed.
pub open spec fn dec_attr(b: Seq<u8>, off: int) -> Result<(int, Option<AttributeView>), IppError> {
    match dec_one(b, off) {
        Err(e) => Err(e),
        Ok(None) => Ok((0, None)),
        Ok(Some((n, _, first))) => match dec_additional(b, off + n) {
            Err(e) => Err(e),
            Ok((m, vs)) => Ok(
                (n + m, Some(AttributeView { values: first.values + vs, ..first })),
            ),
        },
    }
}

/// An attribute encodes faithfully when its name and every value do.
pub open spec fn wf_attr(a: AttributeView) -> bool {
    &&& wf_name(a.name)
    &&& forall|i: int| 0 <= i < a.values.len() ==> wf_value(#[trigger] a.values[i])
}

/// The conditions under which an attribute survives a round trip: it is
/// well-formed, has at least one value, every value has the shape its tag
/// decodes to, and its name resolves back to itself.
pub open spec fn canonical_attr(a: AttributeView) -> bool {
    &&& wf_attr(a)
    &&& a.values.len() >= 1
    &&& canonical_name(a.name)
    &&& forall|i: int| 0 <= i < a.values.len() ==> tag_matches(a.tag, #[trigger] a.values[i])
}

/// Decoding stops at position `i`: a boundary (delimiter tag or end of
/// buffer) or a record that starts a new, named attribute.
pub open spec fn stops_at(b: Seq<u8>, i: int) -> bool {
    ||| dec_one(b, i) == Ok::<Option<(int, bool, AttributeView)>, IppError>(None)
    ||| (dec_one(b, i) matches Ok(Some((n, true, rec))))
}

/// A decoded record consumes at least its three framing fields and stays in
/// bounds, and carries exactly one value.
pub proof fn lemma_dec_one_bounds(b: Seq<u8>, off: int)
    ensures
        dec_one(b, off) matches Ok(Some(p)) ==> 5 <= p.0 && 0 <= off && off + p.0 <= b.len()
            && p.2.values.len() == 1,
{
    if 0 <= off && off < b.len() {
        match ValueTag::spec_from_code(b[off]) {
            Some(tag) => match dec_string(b, off + 1) {
                Ok((n1, _)) => {
                    crate::attribute_value::lemma_dec_value_bounds(tag, b, off + 1 + n1);
                },
                Err(_) => {},
            },
            None => {},
        }
    }
}

impl Attribute {
    /// The model of this attribute.
    pub open spec fn model(&self) -> AttributeView {
        AttributeView {
            tag: self.tag,
            name: self.name.model(),
            values: self.values@.map_values(|v: AttributeValue| v.model()),
        }
    }

    /// Decodes one record at `offset`: the value consumed, whether the name
    /// field was non-empty, and the record as a one-value attribute; `None`
    /// at a group boundary or the end of the buffer.
    fn decode_one(bytes: &[u8], offset: usize) -> (r: Result<
        Option<(usize, bool, Attribute)>,
        IppError,
    >)
        ensures
            r matches Ok(Some(p)) ==> dec_one(bytes@, offset as int) == Ok::<
                Option<(int, bool, AttributeView)>,
                IppError,
            >(Some((p.0 as int, p.1, p.2.model()))) && offset + p.0 <= bytes@.len(),
            r matches Ok(None) ==> dec_one(bytes@, offset as int) == Ok::<
                Option<(int, bool, AttributeView)>,
                IppError,
            >(None),
            r matches Err(e) ==> dec_one(bytes@, offset as int) == Err::<
                Option<(int, bool, AttributeView)>,
                IppError,
            >(e),
    {
        let len = bytes.len();
        if offset >= len {
            return Ok(None);
        }
        let byte = bytes[offset];
        if DelimiterTag::from_code(byte).is_some() {
            return Ok(None);
        }
        let tag = match ValueTag::from_code(byte) {
            Some(t) => t,
            None => {
                return Err(IppError::InvalidTag);
            },
        };
        let (n1, raw) = match String::from_ipp(bytes, offset + 1) {
            Ok(p) => p,
            Err(e) => {
                return Err(e);
            },
        };
        let has_name = !raw.as_str().is_empty();
        let name = match AttributeName::from_str(raw.as_str()) {
            Ok(n) => n,
            Err(_) => {
                return Err(IppError::InvalidEncoding);
            },
        };
        let (n2, value) = match AttributeValue::from_ipp(bytes, offset + 1 + n1, tag) {
            Ok(p) => p,
            Err(e) => {
                return Err(e);
            },
        };
        let rec = Attribute { tag, name, values: vec![value] };
        assert(rec.model().values =~= seq![value.model()]);
        Ok(Some((1 + n1 + n2, has_name, rec)))
    }

    /// Decodes one whole attribute at `offset`: its leading record and the
    /// run of additional-value records that follow it. `Ok((0, None))` means
    /// a boundary stands at `offset` and nothing was consumed.
    /// What remains true while the additional-value loop runs: however the
    /// run of records at `off + consumed` decodes, the whole attribute at
    /// `off` decodes to the values collected so far plus that run.
    spec fn loop_inv(
        b: Seq<u8>,
        off: int,
        consumed: int,
        tag: ValueTag,
        name: NameView,
        acc: Seq<ValueView>,
    ) -> bool {
        match dec_additional(b, off + consumed) {
            Ok((m, vs)) => dec_attr(b, off) == Ok::<(int, Option<AttributeView>), IppError>(
                (consumed + m, Some(AttributeView { tag, name, values: acc + vs })),
            ),
            Err(e) => dec_attr(b, off) == Err::<(int, Option<AttributeView>), IppError>(e),
        }
    }

    /// One step of the additional-value loop: consuming one more nameless
    /// record extends the collected values and keeps the invariant.
    proof fn lemma_loop_step(
        b: Seq<u8>,
        off: int,
        consumed: int,
        tag: ValueTag,
        name: NameView,
        acc: Seq<ValueView>,
        n: int,
        v: ValueView,
    )
        requires
            Self::loop_inv(b, off, consumed, tag, name, acc),
            dec_one(b, off + consumed) matches Ok(Some(p)) && p.0 == n && !p.1 && p.2.values
                =~= seq![v],
            1 <= n,
            off + consumed + n <= b.len(),
        ensures
            Self::loop_inv(b, off, consumed + n, tag, name, acc + seq![v]),
    {
        match dec_additional(b, off + consumed + n) {
            Ok((m, vs)) => {
                assert(dec_additional(b, off + consumed) == Ok::<(int, Seq<ValueView>), IppError>(
                    (n + m, seq![v] + vs),
                ));
                assert(acc + (seq![v] + vs) =~= (acc + seq![v]) + vs);
            },
            Err(_) => {
                assert(dec_additional(b, off + consumed) == dec_additional(b, off + consumed + n));
            },
        }
    }

    #[verifier::rlimit(100)]
    pub fn from_ipp(bytes: &[u8], offset: usize) -> (r: Result<
        (usize, Option<Attribute>),
        IppError,
    >)
        ensures
            r matches Ok((n, Some(a))) ==> dec_attr(bytes@, offset as int) == Ok::<
                (int, Option<AttributeView>),
                IppError,
            >((n as int, Some(a.model()))) && offset + n <= bytes@.len(),
            r matches Ok((n, None)) ==> n == 0 && dec_attr(bytes@, offset as int) == Ok::<
                (int, Option<AttributeView>),
                IppError,
            >((0, None)),
            r matches Err(e) ==> dec_attr(bytes@, offset as int) == Err::<
                (int, Option<AttributeView>),
                IppError,
            >(e),
    {
        let first = match Self::decode_one(bytes, offset) {
            Ok(o) => o,
            Err(e) => {
                return Err(e);
            },
        };
        let (n0, mut attr) = match first {
            None => {
                return Ok((0, None));
            },
            Some((n0, _, attr)) => (n0, attr),
        };
        proof {
            lemma_dec_one_bounds(bytes@, offset as int);
        }
        let blen = bytes.len();
        let ghost ftag = attr.model().tag;
        let ghost fname = attr.model().name;
        let mut consumed: usize = n0;
        loop
            invariant
                n0 <= consumed,
                blen == bytes@.len(),
                offset + consumed <= bytes@.len(),
                attr.model().tag == ftag,
                attr.model().name == fname,
                Self::loop_inv(
                    bytes@,
                    offset as int,
                    consumed as int,
                    ftag,
                    fname,
                    attr.model().values,
                ),
            ensures
                offset + consumed <= bytes@.len(),
                dec_attr(bytes@, offset as int) == Ok::<(int, Option<AttributeView>), IppError>(
                    (
                        consumed as int,
                        Some(
                            AttributeView { tag: ftag, name: fname, values: attr.model().values },
                        ),
                    ),
                ),
            decreases bytes@.len() - offset - consumed,
        {
            let next = match Self::decode_one(bytes, offset + consumed) {
                Ok(o) => o,
                Err(e) => {
                    assert(dec_additional(bytes@, offset + consumed) == Err::<
                        (int, Seq<ValueView>),
                        IppError,
                    >(e));
                    return Err(e);
                },
            };
            match next {
                None => {
                    assert(attr.model().values + Seq::<ValueView>::empty() =~= attr.model().values);
                    break;
                },
                Some((n, has_name, mut rec)) => {
                    if has_name {
                        assert(attr.model().values + Seq::<ValueView>::empty()
                            =~= attr.model().values);
                        break;
                    }
                    proof {
                        lemma_dec_one_bounds(bytes@, (offset + consumed) as int);
                    }
                    let ghost old_values = attr.model().values;
                    let ghost rec_value = rec.model().values[0];
                    proof {
                        assert(rec.model().values =~= seq![rec_value]);
                        Self::lemma_loop_step(
                            bytes@,
                            offset as int,
                            consumed as int,
                            ftag,
                            fname,
                            old_values,
                            n as int,
                            rec_value,
                        );
                    }
                    attr.values.append(&mut rec.values);
                    assert(attr.model().values =~= old_values + seq![rec_value]);
                    consumed = consumed + n;
                },
            }
        }
        Ok((consumed, Some(attr)))
    }

    /// Encodes this attribute: the full name on the first record, a
    /// zero-length name field on every later one. No values, no bytes.
    pub fn to_ipp(&self) -> (r: Vec<u8>)
        ensures
            r@ == enc_attr(self.model()),
    {
        let mut out: Vec<u8> = Vec::new();
        let n = self.values.len();
        let mut i: usize = 0;
        assert(out@ + enc_records_from(self.model(), 0) =~= enc_attr(self.model()));
        while i < n
            invariant
                i <= n,
                n == self.values@.len(),
                out@ + enc_records_from(self.model(), i as int) == enc_attr(self.model()),
            decreases n - i,
        {
            let ghost before = out@;
            out.push(self.tag.code());
            if i == 0 {
                let mut name_bytes = self.name.to_ipp();
                out.append(&mut name_bytes);
            } else {
                push_be16(&mut out, 0);
            }
            let mut value_bytes = self.values[i].to_ipp();
            out.append(&mut value_bytes);
            proof {
                assert(out@ =~= before + enc_record(self.model(), i as int));
                assert(enc_records_from(self.model(), i as int) == enc_record(
                    self.model(),
                    i as int,
                ) + enc_records_from(self.model(), i as int + 1));
                assert(out@ + enc_records_from(self.model(), i as int + 1) =~= before
                    + enc_records_from(self.model(), i as int));
            }
            i = i + 1;
        }
        out
    }

    /// The encoded length: one tag byte per value, the name bytes once plus
    /// a 2-byte zero name-length field for each later value, and each
    /// value's own encoded length.
    pub fn ipp_len(&self) -> (r: usize)
        requires
            wf_attr(self.model()),
            enc_attr(self.model()).len() <= usize::MAX,
        ensures
            r == enc_attr(self.model()).len(),
    {
        let n = self.values.len();
        let mut total: usize = 0;
        let mut i: usize = 0;
        while i < n
            invariant
                i <= n,
                n == self.values@.len(),
                wf_attr(self.model()),
                enc_attr(self.model()).len() <= usize::MAX,
                total + enc_records_from(self.model(), i as int).len() == enc_attr(
                    self.model(),
                ).len(),
            decreases n - i,
        {
            proof {
                assert(enc_records_from(self.model(), i as int) == enc_record(
                    self.model(),
                    i as int,
                ) + enc_records_from(self.model(), i as int + 1));
            }
            let name_len: usize = if i == 0 {
                self.name.ipp_len()
            } else {
                2
            };
            let value_len = self.values[i].ipp_len();
            total = total + 1 + name_len + value_len;
            i = i + 1;
        }
        total
    }
}

/// A decoded run of additional values stays within the buffer.
pub proof fn lemma_dec_additional_bounds(b: Seq<u8>, off: int)
    ensures
        dec_additional(b, off) matches Ok(p) ==> 0 <= p.0 && (off <= b.len() ==> off + p.0
            <= b.len()),
    decreases b.len() - off,
{
    match dec_one(b, off) {
        Err(_) => {},
        Ok(None) => {},
        Ok(Some((n, has_name, _))) => {
            if !has_name && 1 <= n && off + n <= b.len() {
                lemma_dec_additional_bounds(b, off + n);
            }
        },
    }
}

/// A decoded attribute consumes at least one record and stays in bounds.
pub proof fn lemma_dec_attr_bounds(b: Seq<u8>, off: int)
    ensures
        dec_attr(b, off) matches Ok(p) ==> 0 <= p.0 && (p.1 is Some ==> 5 <= p.0) && (p.1 is None
            ==> p.0 == 0) && (0 <= off <= b.len() ==> off + p.0 <= b.len()),
{
    lemma_dec_one_bounds(b, off);
    match dec_one(b, off) {
        Err(_) => {},
        Ok(None) => {},
        Ok(Some((n, _, _))) => {
            lemma_dec_additional_bounds(b, off + n);
        },
    }
}

/// The encoding of an attribute with at least one value is at least one
/// whole record: five bytes or more.
pub proof fn lemma_enc_attr_min_len(a: AttributeView)
    requires
        a.values.len() >= 1,
    ensures
        enc_attr(a).len() >= 5,
{
    crate::attribute_value::lemma_enc_value_min_len(a.values[0]);
}

/// Decoding the encoding of record `i` of an attribute reads back a
/// one-value record: named for the leading record, nameless otherwise.
pub proof fn lemma_record_round_trip(a: AttributeView, i: int, b: Seq<u8>, off: int)
    requires
        canonical_attr(a),
        0 <= i < a.values.len(),
        0 <= off,
        off + enc_record(a, i).len() <= b.len(),
        b.subrange(off, off + enc_record(a, i).len()) == enc_record(a, i),
    ensures
        dec_one(b, off) == Ok::<Option<(int, bool, AttributeView)>, IppError>(
            Some(
                (
                    enc_record(a, i).len() as int,
                    i == 0 && name_text(a.name).len() > 0,
                    AttributeView {
                        tag: a.tag,
                        name: if i == 0 {
                            a.name
                        } else {
                            name_of(Seq::empty())
                        },
                        values: seq![zero_ds_value(a.values[i])],
                    },
                ),
            ),
        ),
{
    let w = enc_record(a, i);
    let namepart = if i == 0 {
        enc_name(a.name)
    } else {
        be16(0)
    };
    let valpart = enc_value(a.values[i]);
    assert(w == seq![a.tag.spec_code()] + namepart + valpart);
    let n1 = namepart.len() as int;
    let n2 = valpart.len() as int;
    assert(w.len() == 1 + n1 + n2);
    assert(b[off] == a.tag.spec_code()) by {
        assert(b.subrange(off, off + w.len())[0] == b[off]);
        assert(w[0] == (seq![a.tag.spec_code()] + namepart)[0]);
    }
    crate::tags::lemma_value_code_round_trip(a.tag);
    crate::tags::lemma_tag_spaces_disjoint(a.tag.spec_code());
    assert(b.subrange(off + 1, off + 1 + n1) == namepart) by {
        lemma_subrange_of_match(b, off, w, 1, 1 + n1);
        assert(w.subrange(1, 1 + n1) =~= namepart) by {
            assert forall|k: int| 0 <= k < n1 implies w[1 + k] == namepart[k] by {
                assert((seq![a.tag.spec_code()] + namepart)[1 + k] == namepart[k]);
            }
        }
    }
    if i == 0 {
        crate::primitives::lemma_string_round_trip(name_text(a.name), b, off + 1);
        assert(dec_string(b, off + 1) == Ok::<(int, Seq<char>), IppError>(
            (n1, name_text(a.name)),
        ));
    } else {
        vstd::utf8::encode_utf8_valid_utf8(Seq::<char>::empty());
        assert(vstd::utf8::encode_utf8(Seq::<char>::empty()) =~= Seq::<u8>::empty());
        assert(enc_string(Seq::<char>::empty()) =~= be16(0));
        crate::primitives::lemma_string_round_trip(Seq::<char>::empty(), b, off + 1);
        assert(dec_string(b, off + 1) == Ok::<(int, Seq<char>), IppError>(
            (2, Seq::<char>::empty()),
        ));
    }
    assert(b.subrange(off + 1 + n1, off + 1 + n1 + n2) == valpart) by {
        lemma_subrange_of_match(b, off, w, 1 + n1, 1 + n1 + n2);
        assert(w.subrange(1 + n1, 1 + n1 + n2) =~= valpart) by {
            assert forall|k: int| 0 <= k < n2 implies w[1 + n1 + k] == valpart[k] by {
                assert((seq![a.tag.spec_code()] + namepart + valpart)[(1 + n1) + k] == valpart[k]);
            }
        }
    }
    crate::attribute_value::lemma_value_round_trip(a.tag, a.values[i], b, off + 1 + n1);
    if i == 0 {
        assert(name_of(name_text(a.name)) == a.name);
    }
}

/// Decoding the encodings of records `i` onward, for `i >= 1`, collects
/// exactly the remaining values, provided decoding stops where they end.
pub proof fn lemma_additional_round_trip(a: AttributeView, i: int, b: Seq<u8>, pos: int)
    requires
        canonical_attr(a),
        1 <= i <= a.values.len(),
        0 <= pos,
        pos + enc_records_from(a, i).len() <= b.len(),
        b.subrange(pos, pos + enc_records_from(a, i).len()) == enc_records_from(a, i),
        stops_at(b, pos + enc_records_from(a, i).len()),
    ensures
        dec_additional(b, pos) == Ok::<(int, Seq<ValueView>), IppError>(
            (enc_records_from(a, i).len() as int, zero_ds_values(a.values.skip(i))),
        ),
    decreases a.values.len() - i,
{
    if i == a.values.len() {
        assert(enc_records_from(a, i).len() == 0);
        assert(zero_ds_values(a.values.skip(i)) =~= Seq::<ValueView>::empty());
    } else {
        let w = enc_records_from(a, i);
        let rec = enc_record(a, i);
        let rest = enc_records_from(a, i + 1);
        assert(w == rec + rest);
        assert(b.subrange(pos, pos + rec.len()) == rec) by {
            lemma_subrange_of_match(b, pos, w, 0, rec.len() as int);
            assert(w.subrange(0, rec.len() as int) =~= rec);
        }
        lemma_record_round_trip(a, i, b, pos);
        lemma_dec_one_bounds(b, pos);
        assert(b.subrange(pos + rec.len(), pos + rec.len() + rest.len()) == rest) by {
            lemma_subrange_of_match(b, pos, w, rec.len() as int, w.len() as int);
            assert(w.subrange(rec.len() as int, w.len() as int) =~= rest) by {
                assert forall|k: int| 0 <= k < rest.len() implies w[rec.len() + k] == rest[k] by {
                    assert((rec + rest)[rec.len() + k] == rest[k]);
                }
            }
        }
        lemma_additional_round_trip(a, i + 1, b, pos + rec.len());
        assert(zero_ds_values(a.values.skip(i)) =~= seq![zero_ds_value(a.values[i])]
            + zero_ds_values(a.values.skip(i + 1))) by {
            assert forall|k: int| 0 <= k < a.values.len() - i implies zero_ds_values(
                a.values.skip(i),
            )[k] == (seq![zero_ds_value(a.values[i])] + zero_ds_values(a.values.skip(i + 1)))[k]
            by {
                if k > 0 {
                    assert(a.values.skip(i)[k] == a.values.skip(i + 1)[k - 1]);
                }
            }
        }
    }
}

/// Round trip: decoding the encoding of a canonical attribute, placed
/// anywhere a boundary or a new named attribute follows it, consumes exactly
/// its bytes and yields the attribute back — except that date-time values
/// return with a zero decisecond.
pub proof fn lemma_attr_round_trip(a: AttributeView, b: Seq<u8>, off: int)
    requires
        canonical_attr(a),
        0 <= off,
        off + enc_attr(a).len() <= b.len(),
        b.subrange(off, off + enc_attr(a).len()) == enc_attr(a),
        stops_at(b, off + enc_attr(a).len()),
    ensures
        dec_attr(b, off) == Ok::<(int, Option<AttributeView>), IppError>(
            (enc_attr(a).len() as int, Some(zero_ds_attr(a))),
        ),
{
    let w = enc_attr(a);
    let rec = enc_record(a, 0);
    let rest = enc_records_from(a, 1);
    assert(w == rec + rest);
    assert(b.subrange(off, off + rec.len()) == rec) by {
        lemma_subrange_of_match(b, off, w, 0, rec.len() as int);
        assert(w.subrange(0, rec.len() as int) =~= rec);
    }
    lemma_record_round_trip(a, 0, b, off);
    assert(b.subrange(off + rec.len(), off + rec.len() + rest.len()) == rest) by {
        lemma_subrange_of_match(b, off, w, rec.len() as int, w.len() as int);
        assert(w.subrange(rec.len() as int, w.len() as int) =~= rest) by {
            assert forall|k: int| 0 <= k < rest.len() implies w[rec.len() + k] == rest[k] by {
                assert((rec + rest)[rec.len() + k] == rest[k]);
            }
        }
    }
    lemma_additional_round_trip(a, 1, b, off + rec.len());
    assert(seq![zero_ds_value(a.values[0])] + zero_ds_values(a.values.skip(1)) =~= zero_ds_values(
        a.values,
    )) by {
        assert forall|k: int| 0 <= k < a.values.len() implies (seq![zero_ds_value(a.values[0])]
            + zero_ds_values(a.values.skip(1)))[k] == zero_ds_values(a.values)[k] by {
            if k > 0 {
                assert(a.values.skip(1)[k - 1] == a.values[k]);
            }
        }
    }
    assert(zero_ds_attr(a) =~= AttributeView {
        tag: a.tag,
        name: a.name,
        values: zero_ds_values(a.values),
    });
}

} // verus!
