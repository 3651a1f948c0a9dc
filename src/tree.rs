use vstd::prelude::*;

use vstd::utf8::{decode_utf8, valid_utf8};

use crate::codec::{
    be_value, float_bits_of, int_value, uint_value, vint_at, vint_width, ElementData, FloatBits,
};
use crate::error::EbmlError;
use crate::registry::{kind_of, ElementKind, EBML_HEADER_ID};

verus! {

/// An element as the contracts see it.
pub struct ElementView {
    pub id: u64,
    /// The declared size: payload octets, or the span of the children.
    pub size: u64,
    /// Octets taken by the identifier and the size field together.
    pub header_len: nat,
    pub kind: ElementKind,
    /// The payload octets; empty for a container.
    pub payload: Seq<u8>,
}

/// A node of the element tree as the contracts see it.
pub struct NodeView {
    pub element: ElementView,
    pub children: Seq<NodeView>,
}

/// One decoded element.
pub struct Element {
    pub id: u64,
    pub size: u64,
    pub header_len: u64,
    pub kind: ElementKind,
    pub data: ElementData,
}

impl View for Element {
    type V = ElementView;

    open spec fn view(&self) -> ElementView {
        ElementView {
            id: self.id,
            size: self.size,
            header_len: self.header_len as nat,
            kind: self.kind,
            payload: self.data@,
        }
    }
}

impl Clone for Element {
    fn clone(&self) -> (r: Self)
        ensures
            r@ == self@,
    {
        Element {
            id: self.id,
            size: self.size,
            header_len: self.header_len,
            kind: self.kind,
            data: self.data.clone(),
        }
    }
}

/// The payload of an element decoded as its kind says.
pub enum ElementValue {
    /// A container: its data are its children.
    Children,
    Text(String),
    Unsigned(u64),
    Signed(i64),
    Float(FloatBits),
    /// Opaque octets: binary and unknown kinds, and text that is not UTF-8.
    Bytes(Vec<u8>),
}

impl Element {
    /// Decodes the payload by the element's kind: text kinds as UTF-8,
    /// integer kinds as numbers (dates signed), floats as their bit pattern,
    /// and anything else, or text that does not decode, as raw octets.
    pub fn value(&self) -> (r: ElementValue)
        ensures
            match self.kind {
                ElementKind::Master => r is Children,
                ElementKind::String | ElementKind::UTF8 => if valid_utf8(self.data@) {
                    r matches ElementValue::Text(t) && t@ == decode_utf8(self.data@)
                } else {
                    r matches ElementValue::Bytes(b) && b@ == self.data@
                },
                ElementKind::UInt => r == ElementValue::Unsigned(uint_value(self.data@) as u64),
                ElementKind::SInt | ElementKind::Date => r == ElementValue::Signed(
                    int_value(self.data@) as i64,
                ),
                ElementKind::Float => r == ElementValue::Float(float_bits_of(self.data@)),
                ElementKind::Binary | ElementKind::Unknown => r matches ElementValue::Bytes(b)
                    && b@ == self.data@,
            },
    {
        match self.kind {
            ElementKind::Master => ElementValue::Children,
            ElementKind::String | ElementKind::UTF8 => match self.data.into_string() {
                Some(t) => ElementValue::Text(t),
                None => ElementValue::Bytes(self.data.into_vec()),
            },
            ElementKind::UInt => ElementValue::Unsigned(self.data.into_uint()),
            ElementKind::SInt | ElementKind::Date => ElementValue::Signed(self.data.into_int()),
            ElementKind::Float => ElementValue::Float(self.data.into_float_bits()),
            ElementKind::Binary | ElementKind::Unknown => ElementValue::Bytes(self.data.into_vec()),
        }
    }
}

/// An element with the elements nested in it, in stream order.
pub struct Node {
    pub element: Element,
    pub children: Vec<Node>,
}

pub open spec fn node_view(n: Node) -> NodeView
    decreases n, 0nat,
{
    NodeView { element: n.element@, children: children_view(n.children@, n.children@.len()) }
}

/// Views of the first `k` nodes of `cs`.
pub open spec fn children_view(cs: Seq<Node>, k: nat) -> Seq<NodeView>
    decreases cs, k,
{
    if k == 0 || k > cs.len() {
        seq![]
    } else {
        children_view(cs, (k - 1) as nat).push(node_view(cs[k - 1]))
    }
}

impl View for Node {
    type V = NodeView;

    open spec fn view(&self) -> NodeView {
        node_view(*self)
    }
}

/// Views of a sequence of nodes.
pub open spec fn views_of(cs: Seq<Node>) -> Seq<NodeView> {
    cs.map_values(|c: Node| c@)
}

pub proof fn lemma_children_view(cs: Seq<Node>, k: nat)
    requires
        k <= cs.len(),
    ensures
        children_view(cs, k) == views_of(cs.subrange(0, k as int)),
    decreases k,
{
    if k > 0 {
        lemma_children_view(cs, (k - 1) as nat);
    }
    assert(children_view(cs, k) =~= views_of(cs.subrange(0, k as int)));
}

/// The view of a node lists the views of its children.
pub proof fn lemma_node_children(n: Node)
    ensures
        n@.children == views_of(n.children@),
{
    lemma_children_view(n.children@, n.children@.len());
    assert(n.children@.subrange(0, n.children@.len() as int) =~= n.children@);
}

impl Clone for Node {
    fn clone(&self) -> (r: Self)
        ensures
            r@ == self@,
        decreases self,
    {
        let mut cs: Vec<Node> = Vec::new();
        let mut i: usize = 0;
        while i < self.children.len()
            invariant
                i <= self.children@.len(),
                cs@.len() == i,
                forall|j: int| 0 <= j < i ==> #[trigger] cs@[j]@ == self.children@[j]@,
            decreases self.children@.len() - i,
        {
            cs.push(self.children[i].clone());
            i = i + 1;
        }
        let r = Node { element: self.element.clone(), children: cs };
        proof {
            lemma_node_children(r);
            lemma_node_children(*self);
            assert(views_of(cs@) =~= views_of(self.children@));
        }
        r
    }
}

impl Node {
    pub fn get_element(&self) -> (r: Element)
        ensures
            r@ == self@.element,
    {
        self.element.clone()
    }

    pub fn get_children(&self) -> (r: Vec<Node>)
        ensures
            views_of(r@) == self@.children,
    {
        let mut cs: Vec<Node> = Vec::new();
        let mut i: usize = 0;
        while i < self.children.len()
            invariant
                i <= self.children@.len(),
                cs@.len() == i,
                forall|j: int| 0 <= j < i ==> #[trigger] cs@[j]@ == self.children@[j]@,
            decreases self.children@.len() - i,
        {
            cs.push(self.children[i].clone());
            i = i + 1;
        }
        proof {
            lemma_node_children(*self);
            assert(views_of(cs@) =~= views_of(self.children@));
        }
        cs
    }
}

/// The four octets that open every stream: the EBML header's identifier.
pub open spec fn signature() -> Seq<u8> {
    seq![0x1au8, 0x45u8, 0xdfu8, 0xa3u8]
}

pub open spec fn has_signature(data: Seq<u8>) -> bool {
    data.len() >= 4 && data.subrange(0, 4) == signature()
}

/// The error for an element at `pos` that reaches past its bound: the end of
/// the input at top level, the end of the parent's span when nested.
pub open spec fn overrun(pos: int, nested: bool) -> EbmlError {
    if nested {
        EbmlError::SpanMismatch { offset: pos as u64 }
    } else {
        EbmlError::TruncatedInput { offset: pos as u64 }
    }
}

/// The header at `pos`, read from bytes before `limit`: the identifier (its
/// length prefix kept), the declared size, and where the payload starts.
pub open spec fn header_at(data: Seq<u8>, pos: int, limit: int) -> Option<(u64, u64, int)> {
    if pos < 0 || pos >= limit || limit > data.len() {
        None
    } else {
        let w = vint_width(data[pos]);
        match vint_at(data, pos + w, limit) {
            None => None,
            Some((size, start)) => Some(
                (be_value(data.subrange(pos, pos + w)) as u64, size as u64, start),
            ),
        }
    }
}

/// The element at `pos` within `limit`, and where reading goes on: at the
/// first child of a container, after the payload of anything else.
pub open spec fn element_at(data: Seq<u8>, pos: int, limit: int, nested: bool) -> Result<
    (ElementView, int),
    EbmlError,
> {
    match header_at(data, pos, limit) {
        None => Err(overrun(pos, nested)),
        Some((id, size, start)) => {
            let kind = kind_of(id);
            let header_len = (start - pos) as nat;
            if start + size > limit {
                Err(overrun(pos, nested))
            } else if kind == ElementKind::Master {
                Ok((ElementView { id, size, header_len, kind, payload: seq![] }, start))
            } else {
                Ok(
                    (
                        ElementView {
                            id,
                            size,
                            header_len,
                            kind,
                            payload: data.subrange(start, start + size),
                        },
                        start + size,
                    ),
                )
            }
        },
    }
}

/// The tree rooted at the element at `pos` within `limit`, and the position
/// after it.
pub open spec fn parse_node_spec(data: Seq<u8>, pos: int, limit: int, nested: bool) -> Result<
    (NodeView, int),
    EbmlError,
>
    decreases limit - pos, 0int,
{
    match element_at(data, pos, limit, nested) {
        Err(e) => Err(e),
        Ok((element, next)) => {
            if element.kind == ElementKind::Master {
                let end = next + element.size;
                if next <= pos || end > limit {
                    Err(overrun(pos, nested))
                } else {
                    match parse_children_spec(data, next, end) {
                        Ok(children) => Ok((NodeView { element, children }, end)),
                        Err(e) => Err(e),
                    }
                }
            } else {
                Ok((NodeView { element, children: seq![] }, next))
            }
        },
    }
}

/// The elements that fill `[pos, end)` exactly, in order.
pub open spec fn parse_children_spec(data: Seq<u8>, pos: int, end: int) -> Result<
    Seq<NodeView>,
    EbmlError,
>
    decreases end - pos, 1int,
{
    if pos >= end {
        Ok(seq![])
    } else {
        match parse_node_spec(data, pos, end, true) {
            Err(e) => Err(e),
            Ok((n, next)) => {
                if next <= pos || next > end {
                    Err(overrun(pos, true))
                } else {
                    match parse_children_spec(data, next, end) {
                        Ok(rest) => Ok(seq![n] + rest),
                        Err(e) => Err(e),
                    }
                }
            },
        }
    }
}

/// A whole stream: the signature, then the header tree and the Segment tree.
pub open spec fn parse_document_spec(data: Seq<u8>) -> Result<(NodeView, NodeView), EbmlError> {
    if !has_signature(data) {
        Err(EbmlError::BadSignature)
    } else {
        match parse_node_spec(data, 0, data.len() as int, false) {
            Err(e) => Err(e),
            Ok((header, next)) => match parse_node_spec(data, next, data.len() as int, false) {
                Err(e) => Err(e),
                Ok((root, _)) => Ok((header, root)),
            },
        }
    }
}

/// A parsed element spans its header and its declared size, inside its bound.
pub proof fn lemma_parse_node_span(data: Seq<u8>, pos: int, limit: int, nested: bool)
    requires
        parse_node_spec(data, pos, limit, nested) is Ok,
    ensures
        ({
            let (n, next) = parse_node_spec(data, pos, limit, nested)->Ok_0;
            &&& pos < next <= limit
            &&& next == pos + n.element.header_len + n.element.size
            &&& n.element.header_len >= 2
        }),
{
    let w = vint_width(data[pos]);
    let (id, size, start) = header_at(data, pos, limit)->Some_0;
    assert(start >= pos + w + 1);
}

/// Octets that a node takes in the stream: its header and its declared size.
pub open spec fn encoded_len(n: NodeView) -> int {
    n.element.header_len + n.element.size
}

pub open spec fn total_encoded_len(cs: Seq<NodeView>) -> int
    decreases cs.len(),
{
    if cs.len() == 0 {
        0
    } else {
        encoded_len(cs[0]) + total_encoded_len(cs.drop_first())
    }
}

/// The shape of every parsed tree: a container holds no payload and its
/// children's encoded lengths add up to its declared size exactly; any other
/// element holds exactly its declared payload and no children.
pub open spec fn well_formed(n: NodeView) -> bool
    decreases n,
{
    &&& if n.element.kind == ElementKind::Master {
        total_encoded_len(n.children) == n.element.size && n.element.payload.len() == 0
    } else {
        n.element.payload.len() == n.element.size && n.children.len() == 0
    }
    &&& forall|i: int| 0 <= i < n.children.len() ==> well_formed(#[trigger] n.children[i])
}

/// The end of the Segment of a parsed stream.
pub open spec fn document_end(data: Seq<u8>) -> int {
    match parse_node_spec(data, 0, data.len() as int, false) {
        Ok((_, next)) => match parse_node_spec(data, next, data.len() as int, false) {
            Ok((_, end)) => end,
            Err(_) => 0,
        },
        Err(_) => 0,
    }
}

pub proof fn lemma_parsed_node_well_formed(data: Seq<u8>, pos: int, limit: int, nested: bool)
    requires
        parse_node_spec(data, pos, limit, nested) is Ok,
    ensures
        well_formed(parse_node_spec(data, pos, limit, nested)->Ok_0.0),
    decreases limit - pos, 0int,
{
    let (element, next) = element_at(data, pos, limit, nested)->Ok_0;
    if element.kind == ElementKind::Master {
        let end = next + element.size;
        lemma_parsed_children_well_formed(data, next, end);
    }
}

pub proof fn lemma_parsed_children_well_formed(data: Seq<u8>, pos: int, end: int)
    requires
        parse_children_spec(data, pos, end) is Ok,
        pos <= end,
    ensures
        total_encoded_len(parse_children_spec(data, pos, end)->Ok_0) == end - pos,
        forall|i: int|
            0 <= i < parse_children_spec(data, pos, end)->Ok_0.len() ==> well_formed(
                #[trigger] parse_children_spec(data, pos, end)->Ok_0[i],
            ),
    decreases end - pos, 1int,
{
    if pos < end {
        let (n, next) = parse_node_spec(data, pos, end, true)->Ok_0;
        lemma_parse_node_span(data, pos, end, true);
        lemma_parsed_node_well_formed(data, pos, end, true);
        lemma_parsed_children_well_formed(data, next, end);
        let rest = parse_children_spec(data, next, end)->Ok_0;
        let cs = seq![n] + rest;
        assert(cs.drop_first() =~= rest);
        assert forall|i: int| 0 <= i < cs.len() implies well_formed(#[trigger] cs[i]) by {
            if i > 0 {
                assert(cs[i] == rest[i - 1]);
            }
        }
    }
}

/// Every tree that a successful parse yields is well formed: in every
/// container, at any depth, the children's fully-encoded lengths add up to
/// the declared size.
pub proof fn lemma_document_well_formed(data: Seq<u8>)
    requires
        parse_document_spec(data) is Ok,
    ensures
        well_formed(parse_document_spec(data)->Ok_0.0),
        well_formed(parse_document_spec(data)->Ok_0.1),
{
    let len = data.len() as int;
    lemma_parsed_node_well_formed(data, 0, len, false);
    let next = parse_node_spec(data, 0, len, false)->Ok_0.1;
    lemma_parsed_node_well_formed(data, next, len, false);
}

/// A nested element whose declared size reaches past what is left of its
/// parent's span is a SpanMismatch: it is never clipped to fit.
pub proof fn lemma_overlong_child(data: Seq<u8>, pos: int, end: int)
    requires
        header_at(data, pos, end) is Some,
        header_at(data, pos, end)->Some_0.2 + header_at(data, pos, end)->Some_0.1 > end,
    ensures
        parse_node_spec(data, pos, end, true) == Err::<(NodeView, int), EbmlError>(
            EbmlError::SpanMismatch { offset: pos as u64 },
        ),
        pos < end ==> parse_children_spec(data, pos, end) == Err::<Seq<NodeView>, EbmlError>(
            EbmlError::SpanMismatch { offset: pos as u64 },
        ),
{
}

/// Putting anything but the signature in the first four octets makes the
/// parse fail with BadSignature, whatever follows.
pub proof fn lemma_corrupt_signature(data: Seq<u8>, prefix: Seq<u8>)
    requires
        data.len() >= 4,
        prefix.len() == 4,
        prefix != signature(),
    ensures
        parse_document_spec(prefix + data.subrange(4, data.len() as int)) == Err::<
            (NodeView, NodeView),
            EbmlError,
        >(EbmlError::BadSignature),
{
    let d = prefix + data.subrange(4, data.len() as int);
    assert(d.subrange(0, 4) =~= prefix);
}

/// The header of a parsed stream carries the EBML header identifier.
pub proof fn lemma_header_id(data: Seq<u8>)
    requires
        parse_document_spec(data) is Ok,
    ensures
        parse_document_spec(data)->Ok_0.0.element.id == EBML_HEADER_ID,
{
    let len = data.len() as int;
    assert(data.subrange(0, 4) == signature());
    assert(data[0] == data.subrange(0, 4)[0]);
    assert(vint_width(data[0]) == 4);
    reveal_with_fuel(be_value, 5);
    assert(be_value(signature()) == 0x1a45dfa3) by {
        let s = signature();
        assert(s.drop_last() =~= seq![0x1au8, 0x45u8, 0xdfu8]);
        assert(s.drop_last().drop_last() =~= seq![0x1au8, 0x45u8]);
        assert(s.drop_last().drop_last().drop_last() =~= seq![0x1au8]);
        assert(s.drop_last().drop_last().drop_last().drop_last() =~= Seq::<u8>::empty());
    }
}

proof fn lemma_vint_local(d1: Seq<u8>, d2: Seq<u8>, pos: int, limit: int)
    requires
        limit <= d1.len(),
        limit <= d2.len(),
        forall|i: int| 0 <= i < limit ==> d1[i] == d2[i],
    ensures
        vint_at(d1, pos, limit) == vint_at(d2, pos, limit),
{
    if 0 <= pos < limit {
        let w = vint_width(d1[pos]);
        if pos + w <= limit {
            assert(d1.subrange(pos, pos + w) =~= d2.subrange(pos, pos + w));
        }
    }
}

proof fn lemma_vint_limit(d: Seq<u8>, pos: int, l1: int, l2: int)
    requires
        vint_at(d, pos, l1) is Some,
        vint_at(d, pos, l1)->Some_0.1 <= l2 <= d.len(),
    ensures
        vint_at(d, pos, l2) == vint_at(d, pos, l1),
{
}

proof fn lemma_header_local(d1: Seq<u8>, d2: Seq<u8>, pos: int, limit: int)
    requires
        limit <= d1.len(),
        limit <= d2.len(),
        forall|i: int| 0 <= i < limit ==> d1[i] == d2[i],
    ensures
        header_at(d1, pos, limit) == header_at(d2, pos, limit),
{
    if 0 <= pos < limit {
        let w = vint_width(d1[pos]);
        lemma_vint_local(d1, d2, pos + w, limit);
        if vint_at(d1, pos, limit) is Some || pos + w < limit {
            if pos + w <= limit {
                assert(d1.subrange(pos, pos + w) =~= d2.subrange(pos, pos + w));
            }
        }
    }
}

/// Parsing within `limit` reads no octet at or past `limit`.
proof fn lemma_node_local(d1: Seq<u8>, d2: Seq<u8>, pos: int, limit: int, nested: bool)
    requires
        limit <= d1.len(),
        limit <= d2.len(),
        forall|i: int| 0 <= i < limit ==> d1[i] == d2[i],
    ensures
        parse_node_spec(d1, pos, limit, nested) == parse_node_spec(d2, pos, limit, nested),
    decreases limit - pos, 0int,
{
    lemma_header_local(d1, d2, pos, limit);
    match header_at(d1, pos, limit) {
        None => {},
        Some((id, size, start)) => {
            if start + size <= limit {
                assert(d1.subrange(start, start + size) =~= d2.subrange(start, start + size));
                assert(element_at(d1, pos, limit, nested) == element_at(d2, pos, limit, nested));
                if kind_of(id) == ElementKind::Master && start > pos {
                    lemma_children_local(d1, d2, start, start + size);
                }
            }
        },
    }
}

proof fn lemma_children_local(d1: Seq<u8>, d2: Seq<u8>, pos: int, end: int)
    requires
        end <= d1.len(),
        end <= d2.len(),
        forall|i: int| 0 <= i < end ==> d1[i] == d2[i],
    ensures
        parse_children_spec(d1, pos, end) == parse_children_spec(d2, pos, end),
    decreases end - pos, 1int,
{
    if pos < end {
        lemma_node_local(d1, d2, pos, end, true);
        match parse_node_spec(d1, pos, end, true) {
            Ok((n, next)) => {
                if pos < next <= end {
                    lemma_children_local(d1, d2, next, end);
                }
            },
            Err(_) => {},
        }
    }
}

/// A parse that succeeds within one bound gives the same result within any
/// other bound that still holds the whole element.
proof fn lemma_node_limit(d: Seq<u8>, pos: int, l1: int, l2: int, nested: bool)
    requires
        l1 <= d.len(),
        parse_node_spec(d, pos, l1, nested) is Ok,
        parse_node_spec(d, pos, l1, nested)->Ok_0.1 <= l2 <= d.len(),
    ensures
        parse_node_spec(d, pos, l2, nested) == parse_node_spec(d, pos, l1, nested),
{
    let (id, size, start) = header_at(d, pos, l1)->Some_0;
    let w = vint_width(d[pos]);
    lemma_vint_limit(d, pos + w, l1, l2);
}

/// Cutting the input inside an element read at top level gives
/// TruncatedInput at that element.
proof fn lemma_cut_inside(data: Seq<u8>, pos: int, cut: int)
    requires
        parse_node_spec(data, pos, data.len() as int, false) is Ok,
        0 <= pos <= cut < parse_node_spec(data, pos, data.len() as int, false)->Ok_0.1,
    ensures
        parse_node_spec(data.subrange(0, cut), pos, cut, false) == Err::<(NodeView, int), EbmlError>(
            EbmlError::TruncatedInput { offset: pos as u64 },
        ),
{
    let d = data.subrange(0, cut);
    let len = data.len() as int;
    lemma_parse_node_span(data, pos, len, false);
    if pos < cut {
        let w = vint_width(d[pos]);
        assert(d[pos] == data[pos]);
        lemma_vint_local(d, data, pos + w, cut);
        if vint_at(d, pos + w, cut) is Some {
            lemma_vint_limit(data, pos + w, cut, len);
            assert(d.subrange(pos, pos + w) =~= data.subrange(pos, pos + w));
        }
    }
}

/// Cutting a stream short anywhere after the signature and before the end of
/// its Segment makes the parse fail with TruncatedInput: a shortened tree is
/// never returned.
pub proof fn lemma_truncated_stream(data: Seq<u8>, cut: int)
    requires
        parse_document_spec(data) is Ok,
        4 <= cut < document_end(data),
    ensures
        parse_document_spec(data.subrange(0, cut)) matches Err(EbmlError::TruncatedInput { .. }),
{
    let d = data.subrange(0, cut);
    let len = data.len() as int;
    assert(d.subrange(0, 4) =~= data.subrange(0, 4));
    let (h, he) = parse_node_spec(data, 0, len, false)->Ok_0;
    lemma_parse_node_span(data, 0, len, false);
    if cut < he {
        lemma_cut_inside(data, 0, cut);
    } else {
        lemma_node_local(d, data, 0, cut, false);
        lemma_node_limit(data, 0, len, cut, false);
        lemma_cut_inside(data, he, cut);
    }
}

} // verus!
