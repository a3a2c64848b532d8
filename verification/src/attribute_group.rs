//! Attribute groups and the group table of a message. A group is a
//! delimiter tag followed by its attributes; the table is the sequence of
//! groups, terminated by the end-of-attributes tag. The table encodes its
//! groups in one fixed canonical order, whatever order they are held in.

use vstd::prelude::*;
use crate::attribute::{canonical_attr, dec_attr, enc_attr, stops_at, zero_ds_attr, Attribute,
    AttributeView};
use crate::error::IppError;
use crate::names::{name_text, NameView};
use crate::tags::DelimiterTag;
use crate::traits::IppEncode;

verus! {

/// One attribute group: its delimiter tag and its attributes. A name occurs
/// at most once; a repeated name on the wire overwrites the earlier entry.
#[derive(Debug, Clone, PartialEq)]
pub struct AttributeGroup {
    pub tag: DelimiterTag,
    pub attributes: Vec<Attribute>,
}

/// The model of a group: the delimiter tag and the attributes in held order.
#[verifier::ext_equal]
pub struct GroupView {
    pub tag: DelimiterTag,
    pub attributes: Seq<AttributeView>,
}

/// The attribute-group table of a message, at most one group per delimiter
/// tag. Its model is the mapping from delimiter tag to group.
#[derive(Debug, Clone, PartialEq)]
pub struct AttributeGroupTable {
    pub groups: Vec<AttributeGroup>,
}

/// The models of a held sequence of attributes.
pub open spec fn attrs_model(s: Seq<Attribute>) -> Seq<AttributeView> {
    s.map_values(|a: Attribute| a.model())
}

/// The models of a held sequence of groups.
pub open spec fn groups_model(s: Seq<AttributeGroup>) -> Seq<GroupView> {
    s.map_values(|g: AttributeGroup| g.model())
}

/// The first index holding an attribute of this name, or -1.
pub open spec fn find_name(s: Seq<AttributeView>, n: NameView) -> int
    decreases s.len(),
{
    if s.len() == 0 {
        -1
    } else if s[0].name == n {
        0
    } else {
        let r = find_name(s.skip(1), n);
        if r == -1 {
            -1
        } else {
            1 + r
        }
    }
}

/// What `find_name` finds is the first occurrence.
pub proof fn lemma_find_name(s: Seq<AttributeView>, n: NameView)
    ensures
        find_name(s, n) == -1 ==> forall|i: int| 0 <= i < s.len() ==> (#[trigger] s[i]).name != n,
        find_name(s, n) != -1 ==> {
            let r = find_name(s, n);
            &&& 0 <= r < s.len()
            &&& s[r].name == n
            &&& forall|i: int| 0 <= i < r ==> (#[trigger] s[i]).name != n
        },
    decreases s.len(),
{
    if s.len() != 0 && s[0].name != n {
        lemma_find_name(s.skip(1), n);
        assert forall|i: int| 1 <= i < s.len() implies s[i] == s.skip(1)[i - 1] by {}
    }
}

/// Inserting an attribute: a same-named entry is removed and the attribute
/// appended, so the newest occurrence wins and sits last.
pub open spec fn upsert_attr(s: Seq<AttributeView>, a: AttributeView) -> Seq<AttributeView> {
    let r = find_name(s, a.name);
    if r == -1 {
        s.push(a)
    } else {
        s.remove(r).push(a)
    }
}

/// Decoding a run of attributes at `off` into `acc`: attributes are read
/// and inserted until a boundary stops the run. The bound re-check keeps the
/// recursion well-founded; a decoded attribute always consumes at least one
/// byte within the buffer, so it never fires.
pub open spec fn dec_attrs_into(b: Seq<u8>, off: int, acc: Seq<AttributeView>) -> Result<
    (int, Seq<AttributeView>),
    IppError,
>
    decreases b.len() - off,
{
    match dec_attr(b, off) {
        Err(e) => Err(e),
        Ok((_, None)) => Ok((0, acc)),
        Ok((n, Some(a))) => {
            if 1 <= n && off + n <= b.len() {
                match dec_attrs_into(b, off + n, upsert_attr(acc, a)) {
                    Err(e) => Err(e),
                    Ok((m, s)) => Ok((n + m, s)),
                }
            } else {
                Err(IppError::MalformedBuffer)
            }
        },
    }
}

/// The wire form of attributes `i` onward of a group.
pub open spec fn enc_attrs_from(g: GroupView, i: int) -> Seq<u8>
    decreases g.attributes.len() - i,
{
    if i < 0 || i >= g.attributes.len() {
        Seq::empty()
    } else {
        enc_attr(g.attributes[i]) + enc_attrs_from(g, i + 1)
    }
}

/// The wire form of a group: its delimiter tag byte, then its attributes.
pub open spec fn enc_group(g: GroupView) -> Seq<u8> {
    seq![g.tag.spec_code()] + enc_attrs_from(g, 0)
}

/// The group of tag `t`, encoded, if the table holds one; nothing otherwise.
pub open spec fn enc_group_opt(m: Map<DelimiterTag, GroupView>, t: DelimiterTag) -> Seq<u8> {
    if m.contains_key(t) {
        enc_group(m[t])
    } else {
        Seq::empty()
    }
}

/// The wire form of a group table: the groups present, in the fixed
/// canonical order — operation, unsupported, printer, job — and then the
/// end-of-attributes tag, which is always written.
pub open spec fn enc_table(m: Map<DelimiterTag, GroupView>) -> Seq<u8> {
    enc_group_opt(m, DelimiterTag::OperationAttributes) + enc_group_opt(
        m,
        DelimiterTag::UnsupportedAttributes,
    ) + enc_group_opt(m, DelimiterTag::PrinterAttributes) + enc_group_opt(
        m,
        DelimiterTag::JobAttributes,
    ) + seq![DelimiterTag::EndOfAttributes.spec_code()]
}

/// Decoding a group table at `off`: delimiter-tagged groups are read until
/// the end-of-attributes tag or the end of the buffer; a byte that is no
/// delimiter tag where one is due is an invalid tag. A repeated group tag
/// keeps only the later group.
pub open spec fn dec_table(b: Seq<u8>, off: int) -> Result<
    (int, Map<DelimiterTag, GroupView>),
    IppError,
>
    decreases b.len() - off,
{
    if off < 0 || off > b.len() {
        Err(IppError::MalformedBuffer)
    } else if off == b.len() {
        Ok((0, Map::empty()))
    } else {
        match DelimiterTag::spec_from_code(b[off]) {
            None => Err(IppError::InvalidTag),
            Some(DelimiterTag::EndOfAttributes) => Ok((1, Map::empty())),
            Some(t) => match dec_attrs_into(b, off + 1, Seq::empty()) {
                Err(e) => Err(e),
                Ok((n, attrs)) => {
                    if 0 <= n && off + 1 + n <= b.len() {
                        match dec_table(b, off + 1 + n) {
                            Err(e) => Err(e),
                            Ok((m, rest)) => Ok(
                                (
                                    1 + n + m,
                                    if rest.contains_key(t) {
                                        rest
                                    } else {
                                        rest.insert(t, GroupView { tag: t, attributes: attrs })
                                    },
                                ),
                            ),
                        }
                    } else {
                        Err(IppError::MalformedBuffer)
                    }
                },
            },
        }
    }
}

/// The mapping a held sequence of groups stands for: later entries win.
pub open spec fn groups_map(s: Seq<GroupView>) -> Map<DelimiterTag, GroupView>
    decreases s.len(),
{
    if s.len() == 0 {
        Map::empty()
    } else {
        groups_map(s.drop_last()).insert(s.last().tag, s.last())
    }
}

/// A group encodes faithfully when it is no end marker and its attributes do.
pub open spec fn wf_group(g: GroupView) -> bool {
    &&& g.tag != DelimiterTag::EndOfAttributes
    &&& forall|i: int|
        0 <= i < g.attributes.len() ==> crate::attribute::wf_attr(#[trigger] g.attributes[i])
}

/// The conditions under which a group survives a round trip: well-formed,
/// every attribute canonical with at least one value, names non-empty and
/// distinct.
pub open spec fn canonical_group(g: GroupView) -> bool {
    &&& g.tag != DelimiterTag::EndOfAttributes
    &&& forall|i: int| 0 <= i < g.attributes.len() ==> canonical_attr(#[trigger] g.attributes[i])
    &&& forall|i: int|
        0 <= i < g.attributes.len() ==> name_text((#[trigger] g.attributes[i]).name).len() > 0
    &&& forall|i: int, j: int|
        0 <= i < j < g.attributes.len() ==> (#[trigger] g.attributes[i]).name != (
        #[trigger] g.attributes[j]).name
}

/// A group with every attribute's date-times cut to the second.
pub open spec fn zero_ds_group(g: GroupView) -> GroupView {
    GroupView { tag: g.tag, attributes: g.attributes.map_values(|a: AttributeView| zero_ds_attr(a)) }
}

/// A table whose groups all sit under their own tag, well-formed.
pub open spec fn wf_table(m: Map<DelimiterTag, GroupView>) -> bool {
    forall|t: DelimiterTag|
        m.contains_key(t) ==> wf_group(#[trigger] m[t]) && m[t].tag == t
}

/// The conditions under which a table survives a round trip.
pub open spec fn canonical_table(m: Map<DelimiterTag, GroupView>) -> bool {
    forall|t: DelimiterTag|
        m.contains_key(t) ==> canonical_group(#[trigger] m[t]) && m[t].tag == t
}

/// A table with every date-time cut to the second.
pub open spec fn zero_ds_table(m: Map<DelimiterTag, GroupView>) -> Map<DelimiterTag, GroupView> {
    Map::new(|t: DelimiterTag| m.contains_key(t), |t: DelimiterTag| zero_ds_group(m[t]))
}

impl AttributeGroup {
    /// The model of this group.
    pub open spec fn model(&self) -> GroupView {
        GroupView { tag: self.tag, attributes: attrs_model(self.attributes@) }
    }

    /// The first attribute of this name, if the group holds one.
    pub fn get_attribute(&self, n: &crate::names::AttributeName) -> (r: Option<&Attribute>)
        ensures
            ({
                let idx = find_name(self.model().attributes, n.model());
                match r {
                    Some(a) => idx != -1 && a.model() == self.model().attributes[idx],
                    None => idx == -1,
                }
            }),
    {
        proof {
            lemma_find_name(self.model().attributes, n.model());
        }
        let len = self.attributes.len();
        let mut i: usize = 0;
        while i < len
            invariant
                i <= len,
                len == self.attributes@.len(),
                forall|j: int|
                    0 <= j < i ==> (#[trigger] self.model().attributes[j]).name != n.model(),
            decreases len - i,
        {
            if self.attributes[i].name == *n {
                proof {
                    let s = self.model().attributes;
                    assert(s[i as int] == self.attributes@[i as int].model());
                    assert(s[i as int].name == n.model());
                    lemma_find_name(s, n.model());
                    let idx = find_name(s, n.model());
                    assert(idx != -1);
                    assert(idx == i as int);
                }
                return Some(&self.attributes[i]);
            }
            i = i + 1;
        }
        None
    }
}

/// Inserts an attribute into a group's vector with newest-wins semantics:
/// an entry of the same name is removed and the new attribute appended.
#[verifier::rlimit(50)]
fn upsert_into(attrs: &mut Vec<Attribute>, a: Attribute)
    ensures
        attrs_model(final(attrs)@) == upsert_attr(
            attrs_model(old(attrs)@),
            a.model(),
        ),
{
    let ghost s = attrs_model(attrs@);
    proof {
        lemma_find_name(s, a.model().name);
    }
    let n = attrs.len();
    let mut i: usize = 0;
    while i < n
        invariant
            i <= n,
            n == attrs@.len(),
            s == attrs_model(attrs@),
            s == attrs_model(old(attrs)@),
            forall|j: int| 0 <= j < i ==> (#[trigger] s[j]).name != a.model().name,
        decreases n - i,
    {
        if attrs[i].name == a.name {
            proof {
                assert(s[i as int].name == a.model().name);
                lemma_find_name(s, a.model().name);
                assert(find_name(s, a.model().name) == i as int);
            }
            attrs.remove(i);
            assert(attrs_model(attrs@) =~= s.remove(i as int));
            attrs.push(a);
            assert(attrs_model(attrs@) =~= s.remove(i as int).push(
                a.model(),
            ));
            return ;
        }
        i = i + 1;
    }
    proof {
        lemma_find_name(s, a.model().name);
        assert(find_name(s, a.model().name) == -1);
    }
    attrs.push(a);
    assert(attrs_model(attrs@) =~= s.push(a.model()));
}

/// What remains true while the attribute-run loop walks a group's records.
spec fn attrs_loop_inv(b: Seq<u8>, off: int, consumed: int, acc: Seq<AttributeView>) -> bool {
    match dec_attrs_into(b, off + consumed, acc) {
        Ok((m, s)) => dec_attrs_into(b, off, Seq::empty()) == Ok::<
            (int, Seq<AttributeView>),
            IppError,
        >((consumed + m, s)),
        Err(e) => dec_attrs_into(b, off, Seq::empty()) == Err::<(int, Seq<AttributeView>), IppError>(
            e,
        ),
    }
}

/// One step of the attribute-run loop: consuming one more attribute and
/// inserting it keeps the invariant.
#[verifier::rlimit(50)]
proof fn lemma_attrs_loop_step(
    b: Seq<u8>,
    off: int,
    consumed: int,
    acc: Seq<AttributeView>,
    n: int,
    av: AttributeView,
)
    requires
        attrs_loop_inv(b, off, consumed, acc),
        dec_attr(b, off + consumed) == Ok::<(int, Option<AttributeView>), IppError>(
            (n, Some(av)),
        ),
        1 <= n,
        off + consumed + n <= b.len(),
    ensures
        attrs_loop_inv(b, off, consumed + n, upsert_attr(acc, av)),
{
    match dec_attrs_into(b, off + consumed + n, upsert_attr(acc, av)) {
        Ok((m, s)) => {
            assert(dec_attrs_into(b, off + consumed, acc) == Ok::<
                (int, Seq<AttributeView>),
                IppError,
            >((n + m, s)));
        },
        Err(_) => {
            assert(dec_attrs_into(b, off + consumed, acc) == dec_attrs_into(
                b,
                off + consumed + n,
                upsert_attr(acc, av),
            ));
        },
    }
}

/// Decodes the run of attributes of one group, inserting each in turn.
#[verifier::rlimit(100)]
fn decode_attributes(bytes: &[u8], offset: usize) -> (r: Result<(usize, Vec<Attribute>), IppError>)
    requires
        offset <= bytes@.len(),
    ensures
        r matches Ok(p) ==> dec_attrs_into(bytes@, offset as int, Seq::empty()) == Ok::<
            (int, Seq<AttributeView>),
            IppError,
        >((p.0 as int, attrs_model(p.1@))) && offset + p.0 <= bytes@.len(),
        r matches Err(e) ==> dec_attrs_into(bytes@, offset as int, Seq::empty()) == Err::<
            (int, Seq<AttributeView>),
            IppError,
        >(e),
{
    let blen = bytes.len();
    let mut attrs: Vec<Attribute> = Vec::new();
    let mut consumed: usize = 0;
    assert(attrs_model(attrs@) =~= Seq::<AttributeView>::empty());
    loop
        invariant
            blen == bytes@.len(),
            offset + consumed <= blen,
            attrs_loop_inv(
                bytes@,
                offset as int,
                consumed as int,
                attrs_model(attrs@),
            ),
        ensures
            offset + consumed <= blen,
            dec_attrs_into(bytes@, offset as int, Seq::empty()) == Ok::<
                (int, Seq<AttributeView>),
                IppError,
            >((consumed as int, attrs_model(attrs@))),
        decreases blen - offset - consumed,
    {
        let next = match Attribute::from_ipp(bytes, offset + consumed) {
            Ok(o) => o,
            Err(e) => {
                return Err(e);
            },
        };
        match next {
            (_, None) => {
                break ;
            },
            (n, Some(a)) => {
                proof {
                    crate::attribute::lemma_dec_attr_bounds(bytes@, (offset + consumed) as int);
                    lemma_attrs_loop_step(
                        bytes@,
                        offset as int,
                        consumed as int,
                        attrs_model(attrs@),
                        n as int,
                        a.model(),
                    );
                }
                upsert_into(&mut attrs, a);
                consumed = consumed + n;
            },
        }
    }
    Ok((consumed, attrs))
}

impl AttributeGroupTable {
    /// The model of this table: the mapping its groups stand for, the
    /// latest-held group winning for each tag.
    pub open spec fn model(&self) -> Map<DelimiterTag, GroupView> {
        groups_map(groups_model(self.groups@))
    }

    /// The group under this tag, if the table holds one: the latest held.
    pub fn get(&self, t: DelimiterTag) -> (r: Option<&AttributeGroup>)
        ensures
            r matches Some(g) ==> self.model().contains_key(t) && g.model() == self.model()[t],
            r is None ==> !self.model().contains_key(t),
    {
        let ghost s = groups_model(self.groups@);
        let mut i: usize = self.groups.len();
        while i > 0
            invariant
                i <= self.groups@.len(),
                s == groups_model(self.groups@),
                forall|j: int| i <= j < s.len() ==> (#[trigger] s[j]).tag != t,
            decreases i,
        {
            i = i - 1;
            if self.groups[i].tag == t {
                proof {
                    lemma_groups_map_found(s, t, i as int);
                }
                return Some(&self.groups[i]);
            }
        }
        proof {
            lemma_groups_map_absent(s, t);
        }
        None
    }
}

/// When position `i` holds the last group of tag `t`, the map the sequence
/// stands for holds that group under `t`.
pub proof fn lemma_groups_map_found(s: Seq<GroupView>, t: DelimiterTag, i: int)
    requires
        0 <= i < s.len(),
        s[i].tag == t,
        forall|j: int| i < j < s.len() ==> (#[trigger] s[j]).tag != t,
    ensures
        groups_map(s).contains_key(t),
        groups_map(s)[t] == s[i],
    decreases s.len(),
{
    if i == s.len() - 1 {
    } else {
        lemma_groups_map_found(s.drop_last(), t, i);
    }
}

/// When no group carries tag `t`, the map the sequence stands for has no
/// entry under `t`.
pub proof fn lemma_groups_map_absent(s: Seq<GroupView>, t: DelimiterTag)
    requires
        forall|j: int| 0 <= j < s.len() ==> (#[trigger] s[j]).tag != t,
    ensures
        !groups_map(s).contains_key(t),
    decreases s.len(),
{
    if s.len() > 0 {
        lemma_groups_map_absent(s.drop_last(), t);
    }
}


/// Pushing a group onto the held sequence inserts it into the mapping the
/// sequence stands for.
pub proof fn lemma_table_push(s: Seq<AttributeGroup>, g: AttributeGroup)
    ensures
        groups_map(groups_model(s.push(g))) == groups_map(groups_model(s)).insert(
            g.model().tag,
            g.model(),
        ),
{
    assert(groups_model(s.push(g)).drop_last() =~= groups_model(s));
    assert(groups_model(s.push(g)).last() == g.model());
}

/// Holds one more group in the table: the mapping gains it under its tag.
fn insert_group(table: &mut AttributeGroupTable, g: AttributeGroup)
    ensures
        final(table).model() == old(table).model().insert(g.model().tag, g.model()),
{
    proof {
        lemma_table_push(table.groups@, g);
    }
    table.groups.push(g);
}

impl IppEncode for AttributeGroupTable {
    type Model = Map<DelimiterTag, GroupView>;

    open spec fn model(&self) -> Map<DelimiterTag, GroupView> {
        AttributeGroupTable::model(self)
    }

    open spec fn wf(&self) -> bool {
        wf_table(AttributeGroupTable::model(self))
    }

    open spec fn wire(&self) -> Seq<u8> {
        enc_table(AttributeGroupTable::model(self))
    }

    open spec fn dec(b: Seq<u8>, off: int) -> Result<
        (int, Map<DelimiterTag, GroupView>),
        IppError,
    > {
        dec_table(b, off)
    }

    fn from_ipp(bytes: &[u8], offset: usize) -> (r: Result<(usize, AttributeGroupTable), IppError>)
        decreases bytes@.len() - offset,
    {
        let blen = bytes.len();
        if offset > blen {
            return Err(IppError::MalformedBuffer);
        }
        if offset == blen {
            let table = AttributeGroupTable { groups: Vec::new() };
            assert(groups_model(table.groups@) =~= Seq::<GroupView>::empty());
            assert(table.model() =~= Map::<DelimiterTag, GroupView>::empty());
            return Ok((0, table));
        }
        let byte = bytes[offset];
        let t = match DelimiterTag::from_code(byte) {
            None => {
                return Err(IppError::InvalidTag);
            },
            Some(t) => t,
        };
        if let DelimiterTag::EndOfAttributes = t {
            let table = AttributeGroupTable { groups: Vec::new() };
            assert(groups_model(table.groups@) =~= Seq::<GroupView>::empty());
            assert(table.model() =~= Map::<DelimiterTag, GroupView>::empty());
            return Ok((1, table));
        }
        let (n, attrs) = match decode_attributes(bytes, offset + 1) {
            Ok(p) => p,
            Err(e) => {
                return Err(e);
            },
        };
        let (m, mut rest) = match Self::from_ipp(bytes, offset + 1 + n) {
            Ok(p) => p,
            Err(e) => {
                return Err(e);
            },
        };
        let present = rest.get(t).is_some();
        if !present {
            let group = AttributeGroup { tag: t, attributes: attrs };
            proof {
                assert(group.model() =~= GroupView {
                    tag: t,
                    attributes: attrs_model(group.attributes@),
                });
            }
            insert_group(&mut rest, group);
        }
        Ok((1 + n + m, rest))
    }

    fn to_ipp(&self) -> (r: Vec<u8>) {
        let mut out: Vec<u8> = Vec::new();
        self.append_group(&mut out, DelimiterTag::OperationAttributes);
        self.append_group(&mut out, DelimiterTag::UnsupportedAttributes);
        self.append_group(&mut out, DelimiterTag::PrinterAttributes);
        self.append_group(&mut out, DelimiterTag::JobAttributes);
        out.push(DelimiterTag::EndOfAttributes.code());
        assert(out@ =~= enc_table(AttributeGroupTable::model(self)));
        out
    }

    fn ipp_len(&self) -> (r: usize) {
        let a = self.group_len(DelimiterTag::OperationAttributes);
        let b = self.group_len(DelimiterTag::UnsupportedAttributes);
        let c = self.group_len(DelimiterTag::PrinterAttributes);
        let d = self.group_len(DelimiterTag::JobAttributes);
        a + b + c + d + 1
    }
}

/// The bytes of the attributes `i` onward never outgrow the whole run.
pub proof fn lemma_enc_attrs_from_mono(g: GroupView, i: int)
    requires
        0 <= i <= g.attributes.len(),
    ensures
        enc_attrs_from(g, i).len() <= enc_attrs_from(g, 0).len(),
    decreases i,
{
    if i > 0 {
        lemma_enc_attrs_from_mono(g, i - 1);
    }
}

impl AttributeGroupTable {
    /// Appends the encoding of the group under `t`, if the table holds one.
    fn append_group(&self, out: &mut Vec<u8>, t: DelimiterTag)
        ensures
            final(out)@ == old(out)@ + enc_group_opt(AttributeGroupTable::model(self), t),
    {
        let g = match self.get(t) {
            None => {
                assert(old(out)@ + enc_group_opt(AttributeGroupTable::model(self), t) =~= old(
                    out,
                )@);
                return ;
            },
            Some(g) => g,
        };
        let ghost gv = AttributeGroupTable::model(self)[t];
        out.push(g.tag.code());
        let n = g.attributes.len();
        let mut i: usize = 0;
        assert(out@ + enc_attrs_from(gv, 0) =~= old(out)@ + enc_group_opt(
            AttributeGroupTable::model(self),
            t,
        ));
        while i < n
            invariant
                i <= n,
                n == g.attributes@.len(),
                gv == g.model(),
                out@ + enc_attrs_from(gv, i as int) == old(out)@ + enc_group_opt(
                    AttributeGroupTable::model(self),
                    t,
                ),
            decreases n - i,
        {
            let ghost before = out@;
            let mut attr_bytes = g.attributes[i].to_ipp();
            out.append(&mut attr_bytes);
            proof {
                assert(gv.attributes[i as int] == g.attributes@[i as int].model());
                assert(out@ =~= before + enc_attr(gv.attributes[i as int]));
                assert(enc_attrs_from(gv, i as int) == enc_attr(gv.attributes[i as int])
                    + enc_attrs_from(gv, i as int + 1));
                assert(out@ + enc_attrs_from(gv, i as int + 1) =~= before + enc_attrs_from(
                    gv,
                    i as int,
                ));
            }
            i = i + 1;
        }
    }

    /// The encoded length of the group under `t`, or zero without one.
    fn group_len(&self, t: DelimiterTag) -> (r: usize)
        requires
            wf_table(AttributeGroupTable::model(self)),
            enc_group_opt(AttributeGroupTable::model(self), t).len() <= usize::MAX,
        ensures
            r == enc_group_opt(AttributeGroupTable::model(self), t).len(),
    {
        let g = match self.get(t) {
            None => {
                return 0;
            },
            Some(g) => g,
        };
        let ghost gv = AttributeGroupTable::model(self)[t];
        let n = g.attributes.len();
        let mut total: usize = 1;
        let mut i: usize = 0;
        while i < n
            invariant
                i <= n,
                n == g.attributes@.len(),
                gv == g.model(),
                wf_group(gv),
                enc_group(gv).len() <= usize::MAX,
                total + enc_attrs_from(gv, i as int).len() == enc_group(gv).len(),
            decreases n - i,
        {
            proof {
                assert(enc_attrs_from(gv, i as int) == enc_attr(gv.attributes[i as int])
                    + enc_attrs_from(gv, i as int + 1));
                assert(gv.attributes[i as int] == g.attributes@[i as int].model());
            }
            let attr_len = g.attributes[i].ipp_len();
            total = total + attr_len;
            i = i + 1;
        }
        total
    }
}



/// Whether a delimiter-tag byte stands at `i`.
pub open spec fn delimiter_at(b: Seq<u8>, i: int) -> bool {
    0 <= i < b.len() && DelimiterTag::spec_from_code(b[i]) is Some
}

/// A delimiter byte is a boundary: no record decodes there.
pub proof fn lemma_delimiter_stops(b: Seq<u8>, i: int)
    requires
        delimiter_at(b, i),
    ensures
        crate::attribute::dec_one(b, i) == Ok::<
            Option<(int, bool, AttributeView)>,
            IppError,
        >(None),
        stops_at(b, i),
{
}

/// Decoding the encodings of attributes `i` onward of a canonical group,
/// with the earlier attributes already collected, collects them all,
/// provided a delimiter byte closes the run.
pub proof fn lemma_group_attrs_round_trip(g: GroupView, i: int, b: Seq<u8>, pos: int)
    requires
        canonical_group(g),
        0 <= i <= g.attributes.len(),
        0 <= pos,
        pos + enc_attrs_from(g, i).len() <= b.len(),
        b.subrange(pos, pos + enc_attrs_from(g, i).len()) == enc_attrs_from(g, i),
        delimiter_at(b, pos + enc_attrs_from(g, i).len()),
    ensures
        dec_attrs_into(b, pos, zero_ds_group(g).attributes.take(i)) == Ok::<
            (int, Seq<AttributeView>),
            IppError,
        >((enc_attrs_from(g, i).len() as int, zero_ds_group(g).attributes)),
    decreases g.attributes.len() - i,
{
    let zs = zero_ds_group(g).attributes;
    if i == g.attributes.len() {
        lemma_delimiter_stops(b, pos);
        assert(dec_attr(b, pos) == Ok::<(int, Option<AttributeView>), IppError>((0, None)));
        assert(zs.take(i) =~= zs);
    } else {
        let a = g.attributes[i];
        let w = enc_attrs_from(g, i);
        let first = enc_attr(a);
        let rest = enc_attrs_from(g, i + 1);
        assert(w == first + rest);
        assert(b.subrange(pos, pos + first.len()) == first) by {
            crate::wire::lemma_subrange_of_match(b, pos, w, 0, first.len() as int);
            assert(w.subrange(0, first.len() as int) =~= first);
        }
        assert(b.subrange(pos + first.len(), pos + first.len() + rest.len()) == rest) by {
            crate::wire::lemma_subrange_of_match(b, pos, w, first.len() as int, w.len() as int);
            assert(w.subrange(first.len() as int, w.len() as int) =~= rest) by {
                assert forall|k: int| 0 <= k < rest.len() implies w[first.len() + k] == rest[k] by {
                    assert((first + rest)[first.len() + k] == rest[k]);
                }
            }
        }
        // whatever follows attribute i stops its additional-value run
        let after = pos + first.len();
        if i + 1 == g.attributes.len() {
            assert(rest.len() == 0);
            lemma_delimiter_stops(b, after);
        } else {
            let nxt = g.attributes[i + 1];
            let nxt_rec = crate::attribute::enc_record(nxt, 0);
            assert(enc_attr(nxt) == nxt_rec + crate::attribute::enc_records_from(nxt, 1));
            assert(rest == enc_attr(nxt) + enc_attrs_from(g, i + 2));
            assert(b.subrange(after, after + nxt_rec.len()) == nxt_rec) by {
                crate::wire::lemma_subrange_of_match(
                    b,
                    pos + first.len(),
                    rest,
                    0,
                    nxt_rec.len() as int,
                );
                assert(rest.subrange(0, nxt_rec.len() as int) =~= nxt_rec) by {
                    assert forall|k: int| 0 <= k < nxt_rec.len() implies rest[k] == nxt_rec[k] by {
                        assert((enc_attr(nxt) + enc_attrs_from(g, i + 2))[k] == enc_attr(nxt)[k]);
                        assert((nxt_rec + crate::attribute::enc_records_from(nxt, 1))[k]
                            == nxt_rec[k]);
                    }
                }
            }
            crate::attribute::lemma_record_round_trip(nxt, 0, b, after);
            assert(name_text(nxt.name).len() > 0);
            assert(stops_at(b, after));
        }
        crate::attribute::lemma_attr_round_trip(a, b, pos);
        crate::attribute::lemma_enc_attr_min_len(a);
        // the new attribute carries a fresh name, so it is simply appended
        let acc = zs.take(i);
        let za = zero_ds_attr(a);
        assert(za.name == a.name);
        lemma_find_name(acc, za.name);
        assert forall|j: int| 0 <= j < i implies (#[trigger] acc[j]).name != za.name by {
            assert(acc[j] == zs[j]);
            assert(zs[j] == zero_ds_attr(g.attributes[j]));
        }
        assert(find_name(acc, za.name) == -1);
        assert(upsert_attr(acc, za) == acc.push(za));
        assert(acc.push(za) =~= zs.take(i + 1)) by {
            assert(zs[i] == za);
        }
        lemma_group_attrs_round_trip(g, i + 1, b, pos + first.len());
        assert(dec_attrs_into(b, pos, acc) == Ok::<(int, Seq<AttributeView>), IppError>(
            (w.len() as int, zs),
        ));
    }
}

/// The canonical order of group tags on the wire.
pub open spec fn canon_tags() -> Seq<DelimiterTag> {
    seq![
        DelimiterTag::OperationAttributes,
        DelimiterTag::UnsupportedAttributes,
        DelimiterTag::PrinterAttributes,
        DelimiterTag::JobAttributes,
    ]
}

/// The wire form of the groups under the canonical tags `i` onward, closed
/// by the end-of-attributes byte.
pub open spec fn enc_table_from(m: Map<DelimiterTag, GroupView>, i: int) -> Seq<u8>
    decreases 4 - i,
{
    if i < 0 || i >= 4 {
        seq![DelimiterTag::EndOfAttributes.spec_code()]
    } else {
        enc_group_opt(m, canon_tags()[i]) + enc_table_from(m, i + 1)
    }
}

/// What decoding the canonical tail from `i` yields: the groups present
/// under the canonical tags `i` onward, to the second.
pub open spec fn table_map_from(m: Map<DelimiterTag, GroupView>, i: int) -> Map<
    DelimiterTag,
    GroupView,
>
    decreases 4 - i,
{
    if i < 0 || i >= 4 {
        Map::empty()
    } else {
        let rest = table_map_from(m, i + 1);
        if m.contains_key(canon_tags()[i]) {
            rest.insert(canon_tags()[i], zero_ds_group(m[canon_tags()[i]]))
        } else {
            rest
        }
    }
}

/// The canonical tail always begins with a delimiter byte and is non-empty.
pub proof fn lemma_enc_table_from_head(m: Map<DelimiterTag, GroupView>, i: int)
    requires
        canonical_table(m),
    ensures
        enc_table_from(m, i).len() >= 1,
        DelimiterTag::spec_from_code(enc_table_from(m, i)[0]) is Some,
    decreases 4 - i,
{
    if i < 0 || i >= 4 {
        crate::tags::lemma_delimiter_code_round_trip(DelimiterTag::EndOfAttributes);
    } else {
        let t = canon_tags()[i];
        if m.contains_key(t) {
            crate::tags::lemma_delimiter_code_round_trip(m[t].tag);
            assert(enc_table_from(m, i)[0] == enc_group(m[t])[0]);
            assert(enc_group(m[t])[0] == m[t].tag.spec_code());
        } else {
            lemma_enc_table_from_head(m, i + 1);
            assert(enc_table_from(m, i) =~= enc_table_from(m, i + 1));
        }
    }
}

/// Whatever the canonical tail decodes to sits under a tag at `i` or later.
pub proof fn lemma_table_map_from_dom(m: Map<DelimiterTag, GroupView>, i: int, t: DelimiterTag)
    ensures
        table_map_from(m, i).contains_key(t) ==> (exists|j: int|
            i <= j < 4 && #[trigger] canon_tags()[j] == t) && m.contains_key(t),
    decreases 4 - i,
{
    if 0 <= i < 4 {
        lemma_table_map_from_dom(m, i + 1, t);
        if table_map_from(m, i).contains_key(t) {
            if m.contains_key(canon_tags()[i]) && t == canon_tags()[i] {
                assert(i <= i < 4 && canon_tags()[i] == t);
            }
        }
    }
}

/// Decoding the canonical tail from `i` recovers exactly the groups present
/// under the canonical tags `i` onward.
#[verifier::rlimit(100)]
pub proof fn lemma_table_from_step(m: Map<DelimiterTag, GroupView>, i: int, b: Seq<u8>, pos: int)
    requires
        canonical_table(m),
        0 <= i < 4,
        m.contains_key(canon_tags()[i]),
        0 <= pos,
        pos + enc_table_from(m, i).len() <= b.len(),
        b.subrange(pos, pos + enc_table_from(m, i).len()) == enc_table_from(m, i),
    ensures
        dec_table(b, pos) == Ok::<(int, Map<DelimiterTag, GroupView>), IppError>(
            (enc_table_from(m, i).len() as int, table_map_from(m, i)),
        ),
    decreases 4 - i, 0int,
{
    let w = enc_table_from(m, i);
    {
        {
            let t = canon_tags()[i];
            let g = m[t];
            let gw = enc_group(g);
            let rest = enc_table_from(m, i + 1);
            assert(w == gw + rest);
            assert forall|k: int| 0 <= k < w.len() implies b[pos + k] == w[k] by {
                assert(b.subrange(pos, pos + w.len())[k] == b[pos + k]);
            }
            assert(b[pos] == gw[0] && gw[0] == g.tag.spec_code()) by {
                assert((gw + rest)[0] == gw[0]);
                assert((seq![g.tag.spec_code()] + enc_attrs_from(g, 0))[0] == g.tag.spec_code());
            }
            crate::tags::lemma_delimiter_code_round_trip(g.tag);
            assert(g.tag == t && t != DelimiterTag::EndOfAttributes);
            // the group body: its attributes, closed by the next tail's head byte
            let ga = enc_attrs_from(g, 0);
            assert(b.subrange(pos + 1, pos + 1 + ga.len()) == ga) by {
                crate::wire::lemma_subrange_of_match(b, pos, w, 1, 1 + ga.len() as int);
                assert(w.subrange(1, 1 + ga.len() as int) =~= ga) by {
                    assert forall|k: int| 0 <= k < ga.len() implies w[1 + k] == ga[k] by {
                        assert((gw + rest)[1 + k] == gw[1 + k]);
                        assert((seq![g.tag.spec_code()] + ga)[1 + k] == ga[k]);
                    }
                }
            }
            lemma_enc_table_from_head(m, i + 1);
            assert(delimiter_at(b, pos + 1 + ga.len())) by {
                assert(b[pos + (1 + ga.len() as int)] == w[1 + ga.len() as int]);
                assert(w[1 + ga.len() as int] == rest[0]) by {
                    assert((gw + rest)[gw.len() as int] == rest[0]);
                    assert(gw.len() == 1 + ga.len());
                }
            }
            assert(zero_ds_group(g).attributes.take(0) =~= Seq::<AttributeView>::empty());
            lemma_group_attrs_round_trip(g, 0, b, pos + 1);
            assert(dec_attrs_into(b, pos + 1, Seq::empty()) == Ok::<
                (int, Seq<AttributeView>),
                IppError,
            >((ga.len() as int, zero_ds_group(g).attributes)));
            assert(b.subrange(pos + 1 + ga.len(), pos + 1 + ga.len() + rest.len()) == rest) by {
                crate::wire::lemma_subrange_of_match(b, pos, w, 1 + ga.len() as int, w.len() as int);
                assert(w.subrange(1 + ga.len() as int, w.len() as int) =~= rest) by {
                    assert forall|k: int| 0 <= k < rest.len() implies w[1 + ga.len() as int + k]
                        == rest[k] by {
                        assert((gw + rest)[gw.len() + k] == rest[k]);
                        assert(gw.len() == 1 + ga.len());
                    }
                }
            }
            lemma_table_from_round_trip(m, i + 1, b, pos + 1 + ga.len());
            lemma_table_map_from_dom(m, i + 1, t);
            assert(!table_map_from(m, i + 1).contains_key(t)) by {
                if table_map_from(m, i + 1).contains_key(t) {
                    let j = choose|j: int| i + 1 <= j < 4 && #[trigger] canon_tags()[j] == t;
                    assert(canon_tags()[i] != canon_tags()[j]);
                }
            }
            assert(GroupView { tag: t, attributes: zero_ds_group(g).attributes }
                =~= zero_ds_group(g));
            assert(dec_table(b, pos) == Ok::<(int, Map<DelimiterTag, GroupView>), IppError>(
                (w.len() as int, table_map_from(m, i)),
            ));
        }
    }
}

/// Decoding the canonical tail from `i` recovers exactly the groups present
/// under the canonical tags `i` onward.
pub proof fn lemma_table_from_round_trip(
    m: Map<DelimiterTag, GroupView>,
    i: int,
    b: Seq<u8>,
    pos: int,
)
    requires
        canonical_table(m),
        0 <= i <= 4,
        0 <= pos,
        pos + enc_table_from(m, i).len() <= b.len(),
        b.subrange(pos, pos + enc_table_from(m, i).len()) == enc_table_from(m, i),
    ensures
        dec_table(b, pos) == Ok::<(int, Map<DelimiterTag, GroupView>), IppError>(
            (enc_table_from(m, i).len() as int, table_map_from(m, i)),
        ),
    decreases 4 - i, 1int,
{
    let w = enc_table_from(m, i);
    if i >= 4 {
        assert(b[pos] == DelimiterTag::EndOfAttributes.spec_code()) by {
            assert(b.subrange(pos, pos + 1)[0] == b[pos]);
        }
        crate::tags::lemma_delimiter_code_round_trip(DelimiterTag::EndOfAttributes);
    } else if !m.contains_key(canon_tags()[i]) {
        assert(w =~= enc_table_from(m, i + 1));
        lemma_table_from_round_trip(m, i + 1, b, pos);
    } else {
        lemma_table_from_step(m, i, b, pos);
    }
}

/// The four-part table encoding, unrolled along the canonical tags.
pub proof fn lemma_enc_table_unroll(m: Map<DelimiterTag, GroupView>)
    ensures
        enc_table(m) == enc_table_from(m, 0),
{
    reveal_with_fuel(enc_table_from, 5);
    assert(canon_tags()[0] == DelimiterTag::OperationAttributes);
    assert(canon_tags()[1] == DelimiterTag::UnsupportedAttributes);
    assert(canon_tags()[2] == DelimiterTag::PrinterAttributes);
    assert(canon_tags()[3] == DelimiterTag::JobAttributes);
    assert(enc_table(m) =~= enc_table_from(m, 0));
}

/// Decoding the whole canonical tail yields the whole table, to the second.
#[verifier::rlimit(100)]
pub proof fn lemma_table_map_from_full(m: Map<DelimiterTag, GroupView>)
    requires
        canonical_table(m),
    ensures
        table_map_from(m, 0) == zero_ds_table(m),
{
    assert(table_map_from(m, 0) =~= zero_ds_table(m)) by {
        assert forall|t: DelimiterTag| #[trigger]
            zero_ds_table(m).contains_key(t) implies table_map_from(m, 0).contains_key(t)
            && table_map_from(m, 0)[t] == zero_ds_table(m)[t] by {
            reveal_with_fuel(table_map_from, 5);
            assert(m[t].tag == t);
            match t {
                DelimiterTag::OperationAttributes => {
                    assert(canon_tags()[0] == t);
                },
                DelimiterTag::UnsupportedAttributes => {
                    assert(canon_tags()[1] == t);
                },
                DelimiterTag::PrinterAttributes => {
                    assert(canon_tags()[2] == t);
                },
                DelimiterTag::JobAttributes => {
                    assert(canon_tags()[3] == t);
                },
                DelimiterTag::EndOfAttributes => {},
            }
        }
        assert forall|t: DelimiterTag| #[trigger]
            table_map_from(m, 0).contains_key(t) implies zero_ds_table(m).contains_key(t) by {
            lemma_table_map_from_dom(m, 0, t);
        }
    }
}

/// Round trip for a whole group table: decoding the encoding of a canonical
/// table yields the same mapping, every date-time cut to the second. In
/// particular the held order of the groups is immaterial: only the mapping
/// enters the wire form.
pub proof fn lemma_table_round_trip(m: Map<DelimiterTag, GroupView>, b: Seq<u8>, off: int)
    requires
        canonical_table(m),
        0 <= off,
        off + enc_table(m).len() <= b.len(),
        b.subrange(off, off + enc_table(m).len()) == enc_table(m),
    ensures
        dec_table(b, off) == Ok::<(int, Map<DelimiterTag, GroupView>), IppError>(
            (enc_table(m).len() as int, zero_ds_table(m)),
        ),
{
    lemma_enc_table_unroll(m);
    lemma_table_from_round_trip(m, 0, b, off);
    lemma_table_map_from_full(m);
}


/// Canonical group order: whatever order a table holds its groups in, the
/// encoded bytes of an operation-attributes group stand strictly before the
/// bytes of a printer-attributes group, with only the unsupported-attributes
/// group possibly between them and the job-attributes group and the
/// end-of-attributes tag after.
pub proof fn lemma_canonical_group_order(m: Map<DelimiterTag, GroupView>)
    requires
        m.contains_key(DelimiterTag::OperationAttributes),
        m.contains_key(DelimiterTag::PrinterAttributes),
    ensures
        enc_table(m) == enc_group(m[DelimiterTag::OperationAttributes]) + enc_group_opt(
            m,
            DelimiterTag::UnsupportedAttributes,
        ) + enc_group(m[DelimiterTag::PrinterAttributes]) + enc_group_opt(
            m,
            DelimiterTag::JobAttributes,
        ) + seq![DelimiterTag::EndOfAttributes.spec_code()],
{
}



/// Boundary: a buffer whose very first byte is the end-of-attributes tag
/// decodes to the empty group table and consumes exactly that one byte.
pub proof fn lemma_end_tag_boundary(b: Seq<u8>, off: int)
    requires
        0 <= off < b.len(),
        b[off] == DelimiterTag::EndOfAttributes.spec_code(),
    ensures
        dec_table(b, off) == Ok::<(int, Map<DelimiterTag, GroupView>), IppError>(
            (1, Map::empty()),
        ),
{
    crate::tags::lemma_delimiter_code_round_trip(DelimiterTag::EndOfAttributes);
}


} // verus!
