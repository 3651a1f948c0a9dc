use vstd::prelude::*;
use vstd::utf8::{decode_utf8, valid_utf8};

use crate::codec::{float_bits_of, int_value, uint_value, FloatBits};
use crate::error::EbmlError;
use crate::tree::{lemma_node_children, views_of, Element, Node, NodeView};

verus! {

/// The first of `cs` with identifier `id`.
pub open spec fn first_with_id(cs: Seq<NodeView>, id: u64) -> Option<NodeView>
    decreases cs.len(),
{
    if cs.len() == 0 {
        None
    } else if cs[0].element.id == id {
        Some(cs[0])
    } else {
        first_with_id(cs.drop_first(), id)
    }
}

/// All of `cs` with identifier `id`, in order.
pub open spec fn all_with_id(cs: Seq<NodeView>, id: u64) -> Seq<NodeView> {
    cs.filter(has_id(id))
}

pub open spec fn has_id(id: u64) -> spec_fn(NodeView) -> bool {
    |n: NodeView| n.element.id == id
}

/// A field that must be present: absence is an error naming it.
pub open spec fn required<T>(v: Option<T>, id: u64) -> Result<T, EbmlError> {
    match v {
        Some(x) => Ok(x),
        None => Err(EbmlError::MissingField { id }),
    }
}

/// The payload of the first child `id`.
pub open spec fn payload_field(cs: Seq<NodeView>, id: u64) -> Option<Seq<u8>> {
    match first_with_id(cs, id) {
        Some(n) => Some(n.element.payload),
        None => None,
    }
}

pub open spec fn uint_field(cs: Seq<NodeView>, id: u64) -> Option<u64> {
    match payload_field(cs, id) {
        Some(p) => Some(uint_value(p) as u64),
        None => None,
    }
}

pub open spec fn int_field(cs: Seq<NodeView>, id: u64) -> Option<i64> {
    match payload_field(cs, id) {
        Some(p) => Some(int_value(p) as i64),
        None => None,
    }
}

/// A flag is set only by the value 1 exactly.
pub open spec fn flag_field(cs: Seq<NodeView>, id: u64) -> Option<bool> {
    match payload_field(cs, id) {
        Some(p) => Some(int_value(p) == 1),
        None => None,
    }
}

pub open spec fn float_field(cs: Seq<NodeView>, id: u64) -> Option<FloatBits> {
    match payload_field(cs, id) {
        Some(p) => Some(float_bits_of(p)),
        None => None,
    }
}

/// The text of a payload, or the error for one that is not UTF-8.
pub open spec fn text_of(p: Seq<u8>, id: u64) -> Result<Seq<char>, EbmlError> {
    if valid_utf8(p) {
        Ok(decode_utf8(p))
    } else {
        Err(EbmlError::InvalidEncoding { id })
    }
}

/// An optional text field: absent, decoded, or not UTF-8.
pub open spec fn text_field(cs: Seq<NodeView>, id: u64) -> Result<Option<Seq<char>>, EbmlError> {
    match payload_field(cs, id) {
        None => Ok(None),
        Some(p) => match text_of(p, id) {
            Ok(t) => Ok(Some(t)),
            Err(e) => Err(e),
        },
    }
}

/// A mandatory text field.
pub open spec fn required_text(cs: Seq<NodeView>, id: u64) -> Result<Seq<char>, EbmlError> {
    match text_field(cs, id) {
        Ok(Some(t)) => Ok(t),
        Ok(None) => Err(EbmlError::MissingField { id }),
        Err(e) => Err(e),
    }
}

/// A typed view: a node narrowed to one element of the schema.
pub trait TypedNode: Sized + View<V = NodeView> {
    fn from_node(n: Node) -> (r: Self)
        ensures
            r@ == n@,
    ;
}

/// The first child of `node` with identifier `id`.
fn find_child(node: &Node, id: u64) -> (r: Option<&Node>)
    ensures
        match r {
            Some(c) => first_with_id(node@.children, id) == Some(c@),
            None => first_with_id(node@.children, id) is None,
        },
{
    proof {
        lemma_node_children(*node);
    }
    let ghost vs = node@.children;
    let mut i: usize = 0;
    assert(vs.subrange(0, vs.len() as int) =~= vs);
    while i < node.children.len()
        invariant
            i <= node.children@.len(),
            vs == views_of(node.children@),
            vs == node@.children,
            first_with_id(vs, id) == first_with_id(vs.subrange(i as int, vs.len() as int), id),
        decreases node.children@.len() - i,
    {
        let ghost rest = vs.subrange(i as int, vs.len() as int);
        assert(rest.drop_first() =~= vs.subrange(i + 1, vs.len() as int));
        assert(rest[0] == node.children@[i as int]@);
        assert(rest.len() > 0);
        assert(node.children@[i as int]@.element.id == node.children@[i as int].element.id);
        if node.children[i].element.id == id {
            return Some(&node.children[i]);
        }
        i = i + 1;
    }
    None
}

/// The children of `node` with identifier `id`, in order.
fn select_children(node: &Node, id: u64) -> (r: Vec<Node>)
    ensures
        views_of(r@) == all_with_id(node@.children, id),
{
    proof {
        lemma_node_children(*node);
    }
    let ghost vs = node@.children;
    let ghost pred = has_id(id);
    let mut out: Vec<Node> = Vec::new();
    let mut i: usize = 0;
    while i < node.children.len()
        invariant
            i <= node.children@.len(),
            vs == views_of(node.children@),
            vs == node@.children,
            pred == has_id(id),
            views_of(out@) == vs.subrange(0, i as int).filter(pred),
        decreases node.children@.len() - i,
    {
        let ghost before = out@;
        assert(vs.subrange(0, i + 1).drop_last() =~= vs.subrange(0, i as int));
        assert(vs.subrange(0, i + 1).last() == node.children@[i as int]@);
        assert(node.children@[i as int]@.element.id == node.children@[i as int].element.id);
        assert(vs.subrange(0, i + 1).filter(pred) == if pred(node.children@[i as int]@) {
            vs.subrange(0, i as int).filter(pred).push(node.children@[i as int]@)
        } else {
            vs.subrange(0, i as int).filter(pred)
        }) by {
            reveal(Seq::filter);
        }
        if node.children[i].element.id == id {
            out.push(node.children[i].clone());
            assert(views_of(out@) =~= views_of(before).push(node.children@[i as int]@));
        }
        i = i + 1;
    }
    assert(vs.subrange(0, i as int) =~= vs);
    out
}

/// The children of `node` with identifier `id`, each narrowed to `T`.
fn select_typed<T: TypedNode>(node: &Node, id: u64) -> (r: Vec<T>)
    ensures
        r@.map_values(|t: T| t@) == all_with_id(node@.children, id),
{
    let nodes = select_children(node, id);
    let mut out: Vec<T> = Vec::new();
    let mut i: usize = 0;
    while i < nodes.len()
        invariant
            i <= nodes@.len(),
            out@.len() == i,
            forall|j: int| 0 <= j < i ==> #[trigger] out@[j]@ == nodes@[j]@,
        decreases nodes@.len() - i,
    {
        out.push(T::from_node(nodes[i].clone()));
        i = i + 1;
    }
    assert(out@.map_values(|t: T| t@) =~= views_of(nodes@));
    out
}

/// The first child of `node` with identifier `id`, narrowed to `T`.
fn first_typed<T: TypedNode>(node: &Node, id: u64) -> (r: Option<T>)
    ensures
        match r {
            Some(t) => first_with_id(node@.children, id) == Some(t@),
            None => first_with_id(node@.children, id) is None,
        },
{
    match find_child(node, id) {
        Some(c) => Some(T::from_node(c.clone())),
        None => None,
    }
}

/// The first child of `node` with identifier `id`, narrowed to `T`; absence
/// is an error.
fn require_typed<T: TypedNode>(node: &Node, id: u64) -> (r: Result<T, EbmlError>)
    ensures
        match r {
            Ok(t) => first_with_id(node@.children, id) == Some(t@),
            Err(e) => first_with_id(node@.children, id) is None && e == (EbmlError::MissingField {
                id,
            }),
        },
{
    match find_child(node, id) {
        Some(c) => Ok(T::from_node(c.clone())),
        None => Err(EbmlError::MissingField { id }),
    }
}

/// Signed values of the payloads of `ns`.
pub open spec fn ints_of(ns: Seq<NodeView>) -> Seq<i64> {
    ns.map_values(|n: NodeView| int_value(n.element.payload) as i64)
}

/// Unsigned values of the payloads of `ns`.
pub open spec fn uints_of(ns: Seq<NodeView>) -> Seq<u64> {
    ns.map_values(|n: NodeView| uint_value(n.element.payload) as u64)
}

/// Texts of the payloads of `ns`, or the error for the first that is not
/// UTF-8.
pub open spec fn texts_of(ns: Seq<NodeView>, id: u64) -> Result<Seq<Seq<char>>, EbmlError>
    decreases ns.len(),
{
    if ns.len() == 0 {
        Ok(seq![])
    } else {
        match texts_of(ns.drop_last(), id) {
            Err(e) => Err(e),
            Ok(ts) => match text_of(ns.last().element.payload, id) {
                Ok(t) => Ok(ts.push(t)),
                Err(e) => Err(e),
            },
        }
    }
}

proof fn lemma_texts_error_persists(ns: Seq<NodeView>, k: int, id: u64)
    requires
        0 <= k <= ns.len(),
        texts_of(ns.subrange(0, k), id) is Err,
    ensures
        texts_of(ns, id) == texts_of(ns.subrange(0, k), id),
    decreases ns.len(),
{
    if k == ns.len() {
        assert(ns.subrange(0, k) =~= ns);
    } else {
        assert(ns.drop_last().subrange(0, k) =~= ns.subrange(0, k));
        lemma_texts_error_persists(ns.drop_last(), k, id);
    }
}

fn collect_ints(node: &Node, id: u64) -> (r: Vec<i64>)
    ensures
        r@ == ints_of(all_with_id(node@.children, id)),
{
    let nodes = select_children(node, id);
    let mut out: Vec<i64> = Vec::new();
    let mut i: usize = 0;
    while i < nodes.len()
        invariant
            i <= nodes@.len(),
            out@ == ints_of(views_of(nodes@).subrange(0, i as int)),
        decreases nodes@.len() - i,
    {
        out.push(nodes[i].element.data.into_int());
        i = i + 1;
        assert(out@ =~= ints_of(views_of(nodes@).subrange(0, i as int)));
    }
    assert(views_of(nodes@).subrange(0, i as int) =~= views_of(nodes@));
    out
}

fn collect_uints(node: &Node, id: u64) -> (r: Vec<u64>)
    ensures
        r@ == uints_of(all_with_id(node@.children, id)),
{
    let nodes = select_children(node, id);
    let mut out: Vec<u64> = Vec::new();
    let mut i: usize = 0;
    while i < nodes.len()
        invariant
            i <= nodes@.len(),
            out@ == uints_of(views_of(nodes@).subrange(0, i as int)),
        decreases nodes@.len() - i,
    {
        out.push(nodes[i].element.data.into_uint());
        i = i + 1;
        assert(out@ =~= uints_of(views_of(nodes@).subrange(0, i as int)));
    }
    assert(views_of(nodes@).subrange(0, i as int) =~= views_of(nodes@));
    out
}

fn collect_texts(node: &Node, id: u64) -> (r: Result<Vec<String>, EbmlError>)
    ensures
        match r {
            Ok(v) => texts_of(all_with_id(node@.children, id), id) == Ok::<_, EbmlError>(
                v@.map_values(|s: String| s@),
            ),
            Err(e) => texts_of(all_with_id(node@.children, id), id) == Err::<Seq<Seq<char>>, _>(e),
        },
{
    let nodes = select_children(node, id);
    let ghost vs = views_of(nodes@);
    let mut out: Vec<String> = Vec::new();
    let mut i: usize = 0;
    assert(out@.map_values(|s: String| s@) =~= Seq::<Seq<char>>::empty());
    assert(vs.subrange(0, 0) =~= Seq::<NodeView>::empty());
    while i < nodes.len()
        invariant
            i <= nodes@.len(),
            vs == views_of(nodes@),
            vs == all_with_id(node@.children, id),
            texts_of(vs.subrange(0, i as int), id) == Ok::<_, EbmlError>(
                out@.map_values(|s: String| s@),
            ),
        decreases nodes@.len() - i,
    {
        let ghost before = out@;
        assert(vs.subrange(0, i + 1).drop_last() =~= vs.subrange(0, i as int));
        match nodes[i].element.data.into_string() {
            Some(t) => {
                out.push(t);
                assert(out@.map_values(|s: String| s@) =~= before.map_values(|s: String| s@).push(
                    t@,
                ));
            },
            None => {
                proof {
                    let pre = vs.subrange(0, i + 1);
                    assert(pre.last() == nodes@[i as int]@);
                    assert(nodes@[i as int]@.element.payload == nodes@[i as int].element.data@);
                    assert(texts_of(pre, id) is Err);
                    lemma_texts_error_persists(vs, i + 1, id);
                }
                return Err(EbmlError::InvalidEncoding { id });
            },
        }
        i = i + 1;
    }
    assert(vs.subrange(0, i as int) =~= vs);
    Ok(out)
}

fn find_uint(node: &Node, id: u64) -> (r: Option<u64>)
    ensures
        r == uint_field(node@.children, id),
{
    match find_child(node, id) {
        Some(c) => Some(c.element.data.into_uint()),
        None => None,
    }
}

fn require_uint(node: &Node, id: u64) -> (r: Result<u64, EbmlError>)
    ensures
        r == required(uint_field(node@.children, id), id),
{
    match find_uint(node, id) {
        Some(v) => Ok(v),
        None => Err(EbmlError::MissingField { id }),
    }
}

fn find_int(node: &Node, id: u64) -> (r: Option<i64>)
    ensures
        r == int_field(node@.children, id),
{
    match find_child(node, id) {
        Some(c) => Some(c.element.data.into_int()),
        None => None,
    }
}

fn require_flag(node: &Node, id: u64) -> (r: Result<bool, EbmlError>)
    ensures
        r == required(flag_field(node@.children, id), id),
{
    match find_child(node, id) {
        Some(c) => Ok(c.element.data.into_bool()),
        None => Err(EbmlError::MissingField { id }),
    }
}

fn find_float(node: &Node, id: u64) -> (r: Option<FloatBits>)
    ensures
        r == float_field(node@.children, id),
{
    match find_child(node, id) {
        Some(c) => Some(c.element.data.into_float_bits()),
        None => None,
    }
}

fn require_float(node: &Node, id: u64) -> (r: Result<FloatBits, EbmlError>)
    ensures
        r == required(float_field(node@.children, id), id),
{
    match find_float(node, id) {
        Some(v) => Ok(v),
        None => Err(EbmlError::MissingField { id }),
    }
}

fn find_bytes(node: &Node, id: u64) -> (r: Option<Vec<u8>>)
    ensures
        match r {
            Some(v) => payload_field(node@.children, id) == Some(v@),
            None => payload_field(node@.children, id) is None,
        },
{
    match find_child(node, id) {
        Some(c) => Some(c.element.data.into_vec()),
        None => None,
    }
}

fn require_bytes(node: &Node, id: u64) -> (r: Result<Vec<u8>, EbmlError>)
    ensures
        match r {
            Ok(v) => payload_field(node@.children, id) == Some(v@),
            Err(e) => payload_field(node@.children, id) is None && e == (EbmlError::MissingField {
                id,
            }),
        },
{
    match find_bytes(node, id) {
        Some(v) => Ok(v),
        None => Err(EbmlError::MissingField { id }),
    }
}

fn find_text(node: &Node, id: u64) -> (r: Result<Option<String>, EbmlError>)
    ensures
        match r {
            Ok(Some(s)) => text_field(node@.children, id) == Ok::<_, EbmlError>(Some(s@)),
            Ok(None) => text_field(node@.children, id) == Ok::<_, EbmlError>(None::<Seq<char>>),
            Err(e) => text_field(node@.children, id) == Err::<Option<Seq<char>>, _>(e),
        },
{
    match find_child(node, id) {
        Some(c) => match c.element.data.into_string() {
            Some(s) => Ok(Some(s)),
            None => Err(EbmlError::InvalidEncoding { id }),
        },
        None => Ok(None),
    }
}

fn require_text(node: &Node, id: u64) -> (r: Result<String, EbmlError>)
    ensures
        match r {
            Ok(s) => required_text(node@.children, id) == Ok::<_, EbmlError>(s@),
            Err(e) => required_text(node@.children, id) == Err::<Seq<char>, _>(e),
        },
{
    match find_text(node, id) {
        Ok(Some(s)) => Ok(s),
        Ok(None) => Err(EbmlError::MissingField { id }),
        Err(e) => Err(e),
    }
}

/// The EBML header: format versions and the document type.
pub struct EBMLHeaderNode(pub Node);

impl View for EBMLHeaderNode {
    type V = NodeView;

    open spec fn view(&self) -> NodeView {
        self.0@
    }
}

impl TypedNode for EBMLHeaderNode {
    fn from_node(n: Node) -> (r: Self) {
        EBMLHeaderNode(n)
    }
}

impl Clone for EBMLHeaderNode {
    fn clone(&self) -> (r: Self)
        ensures
            r@ == self@,
    {
        EBMLHeaderNode(self.0.clone())
    }
}

impl EBMLHeaderNode {
    pub fn get_element(&self) -> (r: Element)
        ensures
            r@ == self@.element,
    {
        self.0.get_element()
    }

    pub fn get_children(&self) -> (r: Vec<Node>)
        ensures
            views_of(r@) == self@.children,
    {
        self.0.get_children()
    }

    pub fn get_version(&self) -> (r: Result<u64, EbmlError>)
        ensures
            r == required(uint_field(self@.children, 0x4286), 0x4286),
    {
        require_uint(&self.0, 0x4286)
    }

    pub fn get_read_version(&self) -> (r: Result<u64, EbmlError>)
        ensures
            r == required(uint_field(self@.children, 0x42f7), 0x42f7),
    {
        require_uint(&self.0, 0x42f7)
    }

    pub fn get_max_id_length(&self) -> (r: Result<u64, EbmlError>)
        ensures
            r == required(uint_field(self@.children, 0x42f2), 0x42f2),
    {
        require_uint(&self.0, 0x42f2)
    }

    pub fn get_max_size_length(&self) -> (r: Result<u64, EbmlError>)
        ensures
            r == required(uint_field(self@.children, 0x42f3), 0x42f3),
    {
        require_uint(&self.0, 0x42f3)
    }

    pub fn get_doc_type(&self) -> (r: Result<String, EbmlError>)
        ensures
            match r {
                Ok(s) => required_text(self@.children, 0x4282) == Ok::<_, EbmlError>(s@),
                Err(e) => required_text(self@.children, 0x4282) == Err::<Seq<char>, _>(e),
            },
    {
        require_text(&self.0, 0x4282)
    }

    pub fn get_doc_type_version(&self) -> (r: Result<u64, EbmlError>)
        ensures
            r == required(uint_field(self@.children, 0x4287), 0x4287),
    {
        require_uint(&self.0, 0x4287)
    }

    pub fn get_doc_type_read_version(&self) -> (r: Result<u64, EbmlError>)
        ensures
            r == required(uint_field(self@.children, 0x4285), 0x4285),
    {
        require_uint(&self.0, 0x4285)
    }
}

/// The Segment: all top-level metadata and media of one file.
pub struct SegmentNode(pub Node);

impl View for SegmentNode {
    type V = NodeView;

    open spec fn view(&self) -> NodeView {
        self.0@
    }
}

impl TypedNode for SegmentNode {
    fn from_node(n: Node) -> (r: Self) {
        SegmentNode(n)
    }
}

impl Clone for SegmentNode {
    fn clone(&self) -> (r: Self)
        ensures
            r@ == self@,
    {
        SegmentNode(self.0.clone())
    }
}

impl SegmentNode {
    pub fn get_element(&self) -> (r: Element)
        ensures
            r@ == self@.element,
    {
        self.0.get_element()
    }

    pub fn get_children(&self) -> (r: Vec<Node>)
        ensures
            views_of(r@) == self@.children,
    {
        self.0.get_children()
    }

    pub fn get_seek_head_nodes(&self) -> (r: Vec<SeekHeadNode>)
        ensures
            r@.map_values(|t: SeekHeadNode| t@) == all_with_id(self@.children, 0x114d9b74),
    {
        select_typed(&self.0, 0x114d9b74)
    }

    pub fn get_info_nodes(&self) -> (r: Vec<InfoNode>)
        ensures
            r@.map_values(|t: InfoNode| t@) == all_with_id(self@.children, 0x1549a966),
    {
        select_typed(&self.0, 0x1549a966)
    }

    pub fn get_clusters(&self) -> (r: Vec<ClusterNode>)
        ensures
            r@.map_values(|t: ClusterNode| t@) == all_with_id(self@.children, 0x1f43b675),
    {
        select_typed(&self.0, 0x1f43b675)
    }

    pub fn get_tracks(&self) -> (r: Vec<TracksNode>)
        ensures
            r@.map_values(|t: TracksNode| t@) == all_with_id(self@.children, 0x1654ae6b),
    {
        select_typed(&self.0, 0x1654ae6b)
    }

    pub fn get_cues(&self) -> (r: Vec<CuesNode>)
        ensures
            r@.map_values(|t: CuesNode| t@) == all_with_id(self@.children, 0x1c53bb6b),
    {
        select_typed(&self.0, 0x1c53bb6b)
    }

    pub fn get_chapters(&self) -> (r: Vec<ChaptersNode>)
        ensures
            r@.map_values(|t: ChaptersNode| t@) == all_with_id(self@.children, 0x1043a770),
    {
        select_typed(&self.0, 0x1043a770)
    }

    pub fn get_tags(&self) -> (r: Vec<TagsNode>)
        ensures
            r@.map_values(|t: TagsNode| t@) == all_with_id(self@.children, 0x1254c367),
    {
        select_typed(&self.0, 0x1254c367)
    }
}

/// An index of the positions of other top-level elements.
pub struct SeekHeadNode(pub Node);

impl View for SeekHeadNode {
    type V = NodeView;

    open spec fn view(&self) -> NodeView {
        self.0@
    }
}

impl TypedNode for SeekHeadNode {
    fn from_node(n: Node) -> (r: Self) {
        SeekHeadNode(n)
    }
}

impl Clone for SeekHeadNode {
    fn clone(&self) -> (r: Self)
        ensures
            r@ == self@,
    {
        SeekHeadNode(self.0.clone())
    }
}

impl SeekHeadNode {
    pub fn get_element(&self) -> (r: Element)
        ensures
            r@ == self@.element,
    {
        self.0.get_element()
    }

    pub fn get_children(&self) -> (r: Vec<Node>)
        ensures
            views_of(r@) == self@.children,
    {
        self.0.get_children()
    }

    pub fn get_seek_nodes(&self) -> (r: Vec<SeekNode>)
        ensures
            r@.map_values(|t: SeekNode| t@) == all_with_id(self@.children, 0x4dbb),
    {
        select_typed(&self.0, 0x4dbb)
    }
}

/// One entry of a seek index.
pub struct SeekNode(pub Node);

impl View for SeekNode {
    type V = NodeView;

    open spec fn view(&self) -> NodeView {
        self.0@
    }
}

impl TypedNode for SeekNode {
    fn from_node(n: Node) -> (r: Self) {
        SeekNode(n)
    }
}

impl Clone for SeekNode {
    fn clone(&self) -> (r: Self)
        ensures
            r@ == self@,
    {
        SeekNode(self.0.clone())
    }
}

impl SeekNode {
    pub fn get_element(&self) -> (r: Element)
        ensures
            r@ == self@.element,
    {
        self.0.get_element()
    }

    pub fn get_children(&self) -> (r: Vec<Node>)
        ensures
            views_of(r@) == self@.children,
    {
        self.0.get_children()
    }

    pub fn get_seek_id(&self) -> (r: Result<Vec<u8>, EbmlError>)
        ensures
            match r {
                Ok(v) => payload_field(self@.children, 0x53ab) == Some(v@),
                Err(e) => payload_field(self@.children, 0x53ab) is None && e == (EbmlError::MissingField {
                    id: 0x53ab,
                }),
            },
    {
        require_bytes(&self.0, 0x53ab)
    }

    pub fn get_seek_position(&self) -> (r: Result<u64, EbmlError>)
        ensures
            r == required(uint_field(self@.children, 0x53ac), 0x53ac),
    {
        require_uint(&self.0, 0x53ac)
    }
}

/// Segment information: time scale, duration, muxing and writing application.
pub struct InfoNode(pub Node);

impl View for InfoNode {
    type V = NodeView;

    open spec fn view(&self) -> NodeView {
        self.0@
    }
}

impl TypedNode for InfoNode {
    fn from_node(n: Node) -> (r: Self) {
        InfoNode(n)
    }
}

impl Clone for InfoNode {
    fn clone(&self) -> (r: Self)
        ensures
            r@ == self@,
    {
        InfoNode(self.0.clone())
    }
}

impl InfoNode {
    pub fn get_element(&self) -> (r: Element)
        ensures
            r@ == self@.element,
    {
        self.0.get_element()
    }

    pub fn get_children(&self) -> (r: Vec<Node>)
        ensures
            views_of(r@) == self@.children,
    {
        self.0.get_children()
    }

    pub fn get_timestamp_scale(&self) -> (r: Result<u64, EbmlError>)
        ensures
            r == required(uint_field(self@.children, 0x2ad7b1), 0x2ad7b1),
    {
        require_uint(&self.0, 0x2ad7b1)
    }

    pub fn get_duration_bits(&self) -> (r: Option<FloatBits>)
        ensures
            r == float_field(self@.children, 0x4489),
    {
        find_float(&self.0, 0x4489)
    }

    pub fn get_date_created(&self) -> (r: Option<i64>)
        ensures
            r == int_field(self@.children, 0x4461),
    {
        find_int(&self.0, 0x4461)
    }

    pub fn get_muxing_app(&self) -> (r: Result<String, EbmlError>)
        ensures
            match r {
                Ok(s) => required_text(self@.children, 0x4d80) == Ok::<_, EbmlError>(s@),
                Err(e) => required_text(self@.children, 0x4d80) == Err::<Seq<char>, _>(e),
            },
    {
        require_text(&self.0, 0x4d80)
    }

    pub fn get_writing_app(&self) -> (r: Result<String, EbmlError>)
        ensures
            match r {
                Ok(s) => required_text(self@.children, 0x5741) == Ok::<_, EbmlError>(s@),
                Err(e) => required_text(self@.children, 0x5741) == Err::<Seq<char>, _>(e),
            },
    {
        require_text(&self.0, 0x5741)
    }
}

/// A cluster: the blocks of a short time range.
pub struct ClusterNode(pub Node);

impl View for ClusterNode {
    type V = NodeView;

    open spec fn view(&self) -> NodeView {
        self.0@
    }
}

impl TypedNode for ClusterNode {
    fn from_node(n: Node) -> (r: Self) {
        ClusterNode(n)
    }
}

impl Clone for ClusterNode {
    fn clone(&self) -> (r: Self)
        ensures
            r@ == self@,
    {
        ClusterNode(self.0.clone())
    }
}

impl ClusterNode {
    pub fn get_element(&self) -> (r: Element)
        ensures
            r@ == self@.element,
    {
        self.0.get_element()
    }

    pub fn get_children(&self) -> (r: Vec<Node>)
        ensures
            views_of(r@) == self@.children,
    {
        self.0.get_children()
    }

    pub fn get_timestamp(&self) -> (r: Result<u64, EbmlError>)
        ensures
            r == required(uint_field(self@.children, 0xe7), 0xe7),
    {
        require_uint(&self.0, 0xe7)
    }

    pub fn get_prev_size(&self) -> (r: Option<u64>)
        ensures
            r == uint_field(self@.children, 0xab),
    {
        find_uint(&self.0, 0xab)
    }

    pub fn get_simple_blocks(&self) -> (r: Vec<Node>)
        ensures
            views_of(r@) == all_with_id(self@.children, 0xa3),
    {
        select_children(&self.0, 0xa3)
    }

    pub fn get_block_groups(&self) -> (r: Vec<BlockGroupNode>)
        ensures
            r@.map_values(|t: BlockGroupNode| t@) == all_with_id(self@.children, 0xa0),
    {
        select_typed(&self.0, 0xa0)
    }
}

/// A block with its duration, references and padding.
pub struct BlockGroupNode(pub Node);

impl View for BlockGroupNode {
    type V = NodeView;

    open spec fn view(&self) -> NodeView {
        self.0@
    }
}

impl TypedNode for BlockGroupNode {
    fn from_node(n: Node) -> (r: Self) {
        BlockGroupNode(n)
    }
}

impl Clone for BlockGroupNode {
    fn clone(&self) -> (r: Self)
        ensures
            r@ == self@,
    {
        BlockGroupNode(self.0.clone())
    }
}

impl BlockGroupNode {
    pub fn get_element(&self) -> (r: Element)
        ensures
            r@ == self@.element,
    {
        self.0.get_element()
    }

    pub fn get_children(&self) -> (r: Vec<Node>)
        ensures
            views_of(r@) == self@.children,
    {
        self.0.get_children()
    }

    pub fn get_block_duration(&self) -> (r: Option<u64>)
        ensures
            r == uint_field(self@.children, 0x9b),
    {
        find_uint(&self.0, 0x9b)
    }

    pub fn get_reference_blocks(&self) -> (r: Vec<i64>)
        ensures
            r@ == ints_of(all_with_id(self@.children, 0xfb)),
    {
        collect_ints(&self.0, 0xfb)
    }

    pub fn get_discard_padding(&self) -> (r: Option<i64>)
        ensures
            r == int_field(self@.children, 0x75a2),
    {
        find_int(&self.0, 0x75a2)
    }

    pub fn get_slices(&self) -> (r: Option<SlicesNode>)
        ensures
            match r {
                Some(t) => first_with_id(self@.children, 0x8e) == Some(t@),
                None => first_with_id(self@.children, 0x8e) is None,
            },
    {
        first_typed(&self.0, 0x8e)
    }
}

/// The slices of a block group.
pub struct SlicesNode(pub Node);

impl View for SlicesNode {
    type V = NodeView;

    open spec fn view(&self) -> NodeView {
        self.0@
    }
}

impl TypedNode for SlicesNode {
    fn from_node(n: Node) -> (r: Self) {
        SlicesNode(n)
    }
}

impl Clone for SlicesNode {
    fn clone(&self) -> (r: Self)
        ensures
            r@ == self@,
    {
        SlicesNode(self.0.clone())
    }
}

impl SlicesNode {
    pub fn get_element(&self) -> (r: Element)
        ensures
            r@ == self@.element,
    {
        self.0.get_element()
    }

    pub fn get_children(&self) -> (r: Vec<Node>)
        ensures
            views_of(r@) == self@.children,
    {
        self.0.get_children()
    }
}

/// The track list.
pub struct TracksNode(pub Node);

impl View for TracksNode {
    type V = NodeView;

    open spec fn view(&self) -> NodeView {
        self.0@
    }
}

impl TypedNode for TracksNode {
    fn from_node(n: Node) -> (r: Self) {
        TracksNode(n)
    }
}

impl Clone for TracksNode {
    fn clone(&self) -> (r: Self)
        ensures
            r@ == self@,
    {
        TracksNode(self.0.clone())
    }
}

impl TracksNode {
    pub fn get_element(&self) -> (r: Element)
        ensures
            r@ == self@.element,
    {
        self.0.get_element()
    }

    pub fn get_children(&self) -> (r: Vec<Node>)
        ensures
            views_of(r@) == self@.children,
    {
        self.0.get_children()
    }

    pub fn get_track_entries(&self) -> (r: Vec<TrackEntryNode>)
        ensures
            r@.map_values(|t: TrackEntryNode| t@) == all_with_id(self@.children, 0xae),
    {
        select_typed(&self.0, 0xae)
    }
}

/// One track: its number, type, flags and codec.
pub struct TrackEntryNode(pub Node);

impl View for TrackEntryNode {
    type V = NodeView;

    open spec fn view(&self) -> NodeView {
        self.0@
    }
}

impl TypedNode for TrackEntryNode {
    fn from_node(n: Node) -> (r: Self) {
        TrackEntryNode(n)
    }
}

impl Clone for TrackEntryNode {
    fn clone(&self) -> (r: Self)
        ensures
            r@ == self@,
    {
        TrackEntryNode(self.0.clone())
    }
}

impl TrackEntryNode {
    pub fn get_element(&self) -> (r: Element)
        ensures
            r@ == self@.element,
    {
        self.0.get_element()
    }

    pub fn get_children(&self) -> (r: Vec<Node>)
        ensures
            views_of(r@) == self@.children,
    {
        self.0.get_children()
    }

    pub fn get_track_number(&self) -> (r: Result<u64, EbmlError>)
        ensures
            r == required(uint_field(self@.children, 0xd7), 0xd7),
    {
        require_uint(&self.0, 0xd7)
    }

    pub fn get_track_uid(&self) -> (r: Result<u64, EbmlError>)
        ensures
            r == required(uint_field(self@.children, 0x73c5), 0x73c5),
    {
        require_uint(&self.0, 0x73c5)
    }

    pub fn get_track_type(&self) -> (r: Result<u64, EbmlError>)
        ensures
            r == required(uint_field(self@.children, 0x83), 0x83),
    {
        require_uint(&self.0, 0x83)
    }

    pub fn is_enabled(&self) -> (r: Result<bool, EbmlError>)
        ensures
            r == required(flag_field(self@.children, 0xb9), 0xb9),
    {
        require_flag(&self.0, 0xb9)
    }

    pub fn is_default(&self) -> (r: Result<bool, EbmlError>)
        ensures
            r == required(flag_field(self@.children, 0x88), 0x88),
    {
        require_flag(&self.0, 0x88)
    }

    pub fn is_forced(&self) -> (r: Result<bool, EbmlError>)
        ensures
            r == required(flag_field(self@.children, 0x55aa), 0x55aa),
    {
        require_flag(&self.0, 0x55aa)
    }

    pub fn is_laced(&self) -> (r: Result<bool, EbmlError>)
        ensures
            r == required(flag_field(self@.children, 0x9c), 0x9c),
    {
        require_flag(&self.0, 0x9c)
    }

    pub fn get_default_duration(&self) -> (r: Option<u64>)
        ensures
            r == uint_field(self@.children, 0x23e383),
    {
        find_uint(&self.0, 0x23e383)
    }

    pub fn get_name(&self) -> (r: Result<Option<String>, EbmlError>)
        ensures
            match r {
                Ok(Some(s)) => text_field(self@.children, 0x536e) == Ok::<_, EbmlError>(Some(s@)),
                Ok(None) => text_field(self@.children, 0x536e) == Ok::<_, EbmlError>(None::<Seq<char>>),
                Err(e) => text_field(self@.children, 0x536e) == Err::<Option<Seq<char>>, _>(e),
            },
    {
        find_text(&self.0, 0x536e)
    }

    pub fn get_language(&self) -> (r: Result<Option<String>, EbmlError>)
        ensures
            match r {
                Ok(Some(s)) => text_field(self@.children, 0x22b59c) == Ok::<_, EbmlError>(Some(s@)),
                Ok(None) => text_field(self@.children, 0x22b59c) == Ok::<_, EbmlError>(None::<Seq<char>>),
                Err(e) => text_field(self@.children, 0x22b59c) == Err::<Option<Seq<char>>, _>(e),
            },
    {
        find_text(&self.0, 0x22b59c)
    }

    pub fn get_codec_id(&self) -> (r: Result<String, EbmlError>)
        ensures
            match r {
                Ok(s) => required_text(self@.children, 0x86) == Ok::<_, EbmlError>(s@),
                Err(e) => required_text(self@.children, 0x86) == Err::<Seq<char>, _>(e),
            },
    {
        require_text(&self.0, 0x86)
    }

    pub fn get_codec_private(&self) -> (r: Option<Vec<u8>>)
        ensures
            match r {
                Some(v) => payload_field(self@.children, 0x63a2) == Some(v@),
                None => payload_field(self@.children, 0x63a2) is None,
            },
    {
        find_bytes(&self.0, 0x63a2)
    }

    pub fn get_codec_name(&self) -> (r: Result<Option<String>, EbmlError>)
        ensures
            match r {
                Ok(Some(s)) => text_field(self@.children, 0x258688) == Ok::<_, EbmlError>(Some(s@)),
                Ok(None) => text_field(self@.children, 0x258688) == Ok::<_, EbmlError>(None::<Seq<char>>),
                Err(e) => text_field(self@.children, 0x258688) == Err::<Option<Seq<char>>, _>(e),
            },
    {
        find_text(&self.0, 0x258688)
    }

    pub fn get_codec_delay(&self) -> (r: Option<u64>)
        ensures
            r == uint_field(self@.children, 0x56aa),
    {
        find_uint(&self.0, 0x56aa)
    }

    pub fn get_seek_preroll(&self) -> (r: Result<u64, EbmlError>)
        ensures
            r == required(uint_field(self@.children, 0x56bb), 0x56bb),
    {
        require_uint(&self.0, 0x56bb)
    }

    pub fn get_video_settings(&self) -> (r: Option<VideoNode>)
        ensures
            match r {
                Some(t) => first_with_id(self@.children, 0xe0) == Some(t@),
                None => first_with_id(self@.children, 0xe0) is None,
            },
    {
        first_typed(&self.0, 0xe0)
    }

    pub fn get_audio_settings(&self) -> (r: Option<AudioNode>)
        ensures
            match r {
                Some(t) => first_with_id(self@.children, 0xe1) == Some(t@),
                None => first_with_id(self@.children, 0xe1) is None,
            },
    {
        first_typed(&self.0, 0xe1)
    }

    pub fn get_encoding_settings(&self) -> (r: Option<ContentEncodingsNode>)
        ensures
            match r {
                Some(t) => first_with_id(self@.children, 0x6d80) == Some(t@),
                None => first_with_id(self@.children, 0x6d80) is None,
            },
    {
        first_typed(&self.0, 0x6d80)
    }
}

/// Video settings of a track.
pub struct VideoNode(pub Node);

impl View for VideoNode {
    type V = NodeView;

    open spec fn view(&self) -> NodeView {
        self.0@
    }
}

impl TypedNode for VideoNode {
    fn from_node(n: Node) -> (r: Self) {
        VideoNode(n)
    }
}

impl Clone for VideoNode {
    fn clone(&self) -> (r: Self)
        ensures
            r@ == self@,
    {
        VideoNode(self.0.clone())
    }
}

impl VideoNode {
    pub fn get_element(&self) -> (r: Element)
        ensures
            r@ == self@.element,
    {
        self.0.get_element()
    }

    pub fn get_children(&self) -> (r: Vec<Node>)
        ensures
            views_of(r@) == self@.children,
    {
        self.0.get_children()
    }

    pub fn get_interlacing_flag(&self) -> (r: Result<u64, EbmlError>)
        ensures
            r == required(uint_field(self@.children, 0x9a), 0x9a),
    {
        require_uint(&self.0, 0x9a)
    }

    pub fn get_stereo_mode(&self) -> (r: Option<u64>)
        ensures
            r == uint_field(self@.children, 0x53b8),
    {
        find_uint(&self.0, 0x53b8)
    }

    pub fn get_alpha_mode(&self) -> (r: Option<u64>)
        ensures
            r == uint_field(self@.children, 0x53c0),
    {
        find_uint(&self.0, 0x53c0)
    }

    pub fn get_pixel_width(&self) -> (r: Result<u64, EbmlError>)
        ensures
            r == required(uint_field(self@.children, 0xb0), 0xb0),
    {
        require_uint(&self.0, 0xb0)
    }

    pub fn get_pixel_height(&self) -> (r: Result<u64, EbmlError>)
        ensures
            r == required(uint_field(self@.children, 0xba), 0xba),
    {
        require_uint(&self.0, 0xba)
    }

    pub fn get_pixel_crop_bottom(&self) -> (r: Option<u64>)
        ensures
            r == uint_field(self@.children, 0x54aa),
    {
        find_uint(&self.0, 0x54aa)
    }

    pub fn get_pixel_crop_top(&self) -> (r: Option<u64>)
        ensures
            r == uint_field(self@.children, 0x54bb),
    {
        find_uint(&self.0, 0x54bb)
    }

    pub fn get_pixel_crop_left(&self) -> (r: Option<u64>)
        ensures
            r == uint_field(self@.children, 0x54cc),
    {
        find_uint(&self.0, 0x54cc)
    }

    pub fn get_pixel_crop_right(&self) -> (r: Option<u64>)
        ensures
            r == uint_field(self@.children, 0x54dd),
    {
        find_uint(&self.0, 0x54dd)
    }

    pub fn get_display_width(&self) -> (r: Option<u64>)
        ensures
            r == uint_field(self@.children, 0x54b0),
    {
        find_uint(&self.0, 0x54b0)
    }

    pub fn get_display_height(&self) -> (r: Option<u64>)
        ensures
            r == uint_field(self@.children, 0x54ba),
    {
        find_uint(&self.0, 0x54ba)
    }

    pub fn get_display_unit(&self) -> (r: Option<u64>)
        ensures
            r == uint_field(self@.children, 0x54b2),
    {
        find_uint(&self.0, 0x54b2)
    }

    pub fn get_aspect_ratio_type(&self) -> (r: Option<u64>)
        ensures
            r == uint_field(self@.children, 0x54b3),
    {
        find_uint(&self.0, 0x54b3)
    }

    pub fn get_projection(&self) -> (r: Option<ProjectionNode>)
        ensures
            match r {
                Some(t) => first_with_id(self@.children, 0x7670) == Some(t@),
                None => first_with_id(self@.children, 0x7670) is None,
            },
    {
        first_typed(&self.0, 0x7670)
    }
}

/// The projection of a video track.
pub struct ProjectionNode(pub Node);

impl View for ProjectionNode {
    type V = NodeView;

    open spec fn view(&self) -> NodeView {
        self.0@
    }
}

impl TypedNode for ProjectionNode {
    fn from_node(n: Node) -> (r: Self) {
        ProjectionNode(n)
    }
}

impl Clone for ProjectionNode {
    fn clone(&self) -> (r: Self)
        ensures
            r@ == self@,
    {
        ProjectionNode(self.0.clone())
    }
}

impl ProjectionNode {
    pub fn get_element(&self) -> (r: Element)
        ensures
            r@ == self@.element,
    {
        self.0.get_element()
    }

    pub fn get_children(&self) -> (r: Vec<Node>)
        ensures
            views_of(r@) == self@.children,
    {
        self.0.get_children()
    }

    pub fn get_type(&self) -> (r: Result<u64, EbmlError>)
        ensures
            r == required(uint_field(self@.children, 0x7671), 0x7671),
    {
        require_uint(&self.0, 0x7671)
    }

    pub fn get_private(&self) -> (r: Option<Vec<u8>>)
        ensures
            match r {
                Some(v) => payload_field(self@.children, 0x7672) == Some(v@),
                None => payload_field(self@.children, 0x7672) is None,
            },
    {
        find_bytes(&self.0, 0x7672)
    }

    pub fn get_pose_yaw_bits(&self) -> (r: Result<FloatBits, EbmlError>)
        ensures
            r == required(float_field(self@.children, 0x7673), 0x7673),
    {
        require_float(&self.0, 0x7673)
    }

    pub fn get_pose_pitch_bits(&self) -> (r: Result<FloatBits, EbmlError>)
        ensures
            r == required(float_field(self@.children, 0x7674), 0x7674),
    {
        require_float(&self.0, 0x7674)
    }

    pub fn get_pose_roll_bits(&self) -> (r: Result<FloatBits, EbmlError>)
        ensures
            r == required(float_field(self@.children, 0x7675), 0x7675),
    {
        require_float(&self.0, 0x7675)
    }
}

/// Audio settings of a track.
pub struct AudioNode(pub Node);

impl View for AudioNode {
    type V = NodeView;

    open spec fn view(&self) -> NodeView {
        self.0@
    }
}

impl TypedNode for AudioNode {
    fn from_node(n: Node) -> (r: Self) {
        AudioNode(n)
    }
}

impl Clone for AudioNode {
    fn clone(&self) -> (r: Self)
        ensures
            r@ == self@,
    {
        AudioNode(self.0.clone())
    }
}

impl AudioNode {
    pub fn get_element(&self) -> (r: Element)
        ensures
            r@ == self@.element,
    {
        self.0.get_element()
    }

    pub fn get_children(&self) -> (r: Vec<Node>)
        ensures
            views_of(r@) == self@.children,
    {
        self.0.get_children()
    }

    pub fn get_sampling_frequency_bits(&self) -> (r: Result<FloatBits, EbmlError>)
        ensures
            r == required(float_field(self@.children, 0xb5), 0xb5),
    {
        require_float(&self.0, 0xb5)
    }

    pub fn get_output_sampling_frequency_bits(&self) -> (r: Option<FloatBits>)
        ensures
            r == float_field(self@.children, 0x78b5),
    {
        find_float(&self.0, 0x78b5)
    }

    pub fn get_num_channels(&self) -> (r: Result<u64, EbmlError>)
        ensures
            r == required(uint_field(self@.children, 0x9f), 0x9f),
    {
        require_uint(&self.0, 0x9f)
    }

    pub fn get_bit_depth(&self) -> (r: Option<u64>)
        ensures
            r == uint_field(self@.children, 0x6264),
    {
        find_uint(&self.0, 0x6264)
    }
}

/// The content encodings of a track.
pub struct ContentEncodingsNode(pub Node);

impl View for ContentEncodingsNode {
    type V = NodeView;

    open spec fn view(&self) -> NodeView {
        self.0@
    }
}

impl TypedNode for ContentEncodingsNode {
    fn from_node(n: Node) -> (r: Self) {
        ContentEncodingsNode(n)
    }
}

impl Clone for ContentEncodingsNode {
    fn clone(&self) -> (r: Self)
        ensures
            r@ == self@,
    {
        ContentEncodingsNode(self.0.clone())
    }
}

impl ContentEncodingsNode {
    pub fn get_element(&self) -> (r: Element)
        ensures
            r@ == self@.element,
    {
        self.0.get_element()
    }

    pub fn get_children(&self) -> (r: Vec<Node>)
        ensures
            views_of(r@) == self@.children,
    {
        self.0.get_children()
    }

    pub fn get_encodings(&self) -> (r: Vec<ContentEncodingNode>)
        ensures
            r@.map_values(|t: ContentEncodingNode| t@) == all_with_id(self@.children, 0x6240),
    {
        select_typed(&self.0, 0x6240)
    }
}

/// One content encoding: order, scope, type and encryption.
pub struct ContentEncodingNode(pub Node);

impl View for ContentEncodingNode {
    type V = NodeView;

    open spec fn view(&self) -> NodeView {
        self.0@
    }
}

impl TypedNode for ContentEncodingNode {
    fn from_node(n: Node) -> (r: Self) {
        ContentEncodingNode(n)
    }
}

impl Clone for ContentEncodingNode {
    fn clone(&self) -> (r: Self)
        ensures
            r@ == self@,
    {
        ContentEncodingNode(self.0.clone())
    }
}

impl ContentEncodingNode {
    pub fn get_element(&self) -> (r: Element)
        ensures
            r@ == self@.element,
    {
        self.0.get_element()
    }

    pub fn get_children(&self) -> (r: Vec<Node>)
        ensures
            views_of(r@) == self@.children,
    {
        self.0.get_children()
    }

    pub fn get_order(&self) -> (r: Result<u64, EbmlError>)
        ensures
            r == required(uint_field(self@.children, 0x5031), 0x5031),
    {
        require_uint(&self.0, 0x5031)
    }

    pub fn get_scope(&self) -> (r: Result<u64, EbmlError>)
        ensures
            r == required(uint_field(self@.children, 0x5032), 0x5032),
    {
        require_uint(&self.0, 0x5032)
    }

    pub fn get_type(&self) -> (r: Result<u64, EbmlError>)
        ensures
            r == required(uint_field(self@.children, 0x5033), 0x5033),
    {
        require_uint(&self.0, 0x5033)
    }

    pub fn get_encryption_node(&self) -> (r: Result<ContentEncryptionNode, EbmlError>)
        ensures
            match r {
                Ok(t) => first_with_id(self@.children, 0x5035) == Some(t@),
                Err(e) => first_with_id(self@.children, 0x5035) is None && e == (EbmlError::MissingField {
                    id: 0x5035,
                }),
            },
    {
        require_typed(&self.0, 0x5035)
    }
}

/// Encryption settings of a content encoding.
pub struct ContentEncryptionNode(pub Node);

impl View for ContentEncryptionNode {
    type V = NodeView;

    open spec fn view(&self) -> NodeView {
        self.0@
    }
}

impl TypedNode for ContentEncryptionNode {
    fn from_node(n: Node) -> (r: Self) {
        ContentEncryptionNode(n)
    }
}

impl Clone for ContentEncryptionNode {
    fn clone(&self) -> (r: Self)
        ensures
            r@ == self@,
    {
        ContentEncryptionNode(self.0.clone())
    }
}

impl ContentEncryptionNode {
    pub fn get_element(&self) -> (r: Element)
        ensures
            r@ == self@.element,
    {
        self.0.get_element()
    }

    pub fn get_children(&self) -> (r: Vec<Node>)
        ensures
            views_of(r@) == self@.children,
    {
        self.0.get_children()
    }

    pub fn get_algorithm_type(&self) -> (r: Result<u64, EbmlError>)
        ensures
            r == required(uint_field(self@.children, 0x47e1), 0x47e1),
    {
        require_uint(&self.0, 0x47e1)
    }

    pub fn get_key_id(&self) -> (r: Option<Vec<u8>>)
        ensures
            match r {
                Some(v) => payload_field(self@.children, 0x47e2) == Some(v@),
                None => payload_field(self@.children, 0x47e2) is None,
            },
    {
        find_bytes(&self.0, 0x47e2)
    }

    pub fn get_aes_settings(&self) -> (r: Option<ContentEncAESSettingsNode>)
        ensures
            match r {
                Some(t) => first_with_id(self@.children, 0x47e7) == Some(t@),
                None => first_with_id(self@.children, 0x47e7) is None,
            },
    {
        first_typed(&self.0, 0x47e7)
    }
}

/// AES settings of a content encryption.
pub struct ContentEncAESSettingsNode(pub Node);

impl View for ContentEncAESSettingsNode {
    type V = NodeView;

    open spec fn view(&self) -> NodeView {
        self.0@
    }
}

impl TypedNode for ContentEncAESSettingsNode {
    fn from_node(n: Node) -> (r: Self) {
        ContentEncAESSettingsNode(n)
    }
}

impl Clone for ContentEncAESSettingsNode {
    fn clone(&self) -> (r: Self)
        ensures
            r@ == self@,
    {
        ContentEncAESSettingsNode(self.0.clone())
    }
}

impl ContentEncAESSettingsNode {
    pub fn get_element(&self) -> (r: Element)
        ensures
            r@ == self@.element,
    {
        self.0.get_element()
    }

    pub fn get_children(&self) -> (r: Vec<Node>)
        ensures
            views_of(r@) == self@.children,
    {
        self.0.get_children()
    }

    pub fn get_mode(&self) -> (r: Result<u64, EbmlError>)
        ensures
            r == required(uint_field(self@.children, 0x47e8), 0x47e8),
    {
        require_uint(&self.0, 0x47e8)
    }
}

/// The cue index.
pub struct CuesNode(pub Node);

impl View for CuesNode {
    type V = NodeView;

    open spec fn view(&self) -> NodeView {
        self.0@
    }
}

impl TypedNode for CuesNode {
    fn from_node(n: Node) -> (r: Self) {
        CuesNode(n)
    }
}

impl Clone for CuesNode {
    fn clone(&self) -> (r: Self)
        ensures
            r@ == self@,
    {
        CuesNode(self.0.clone())
    }
}

impl CuesNode {
    pub fn get_element(&self) -> (r: Element)
        ensures
            r@ == self@.element,
    {
        self.0.get_element()
    }

    pub fn get_children(&self) -> (r: Vec<Node>)
        ensures
            views_of(r@) == self@.children,
    {
        self.0.get_children()
    }

    pub fn get_cue_points(&self) -> (r: Vec<CuePointNode>)
        ensures
            r@.map_values(|t: CuePointNode| t@) == all_with_id(self@.children, 0xbb),
    {
        select_typed(&self.0, 0xbb)
    }
}

/// One cue point: a time and where to find it.
pub struct CuePointNode(pub Node);

impl View for CuePointNode {
    type V = NodeView;

    open spec fn view(&self) -> NodeView {
        self.0@
    }
}

impl TypedNode for CuePointNode {
    fn from_node(n: Node) -> (r: Self) {
        CuePointNode(n)
    }
}

impl Clone for CuePointNode {
    fn clone(&self) -> (r: Self)
        ensures
            r@ == self@,
    {
        CuePointNode(self.0.clone())
    }
}

impl CuePointNode {
    pub fn get_element(&self) -> (r: Element)
        ensures
            r@ == self@.element,
    {
        self.0.get_element()
    }

    pub fn get_children(&self) -> (r: Vec<Node>)
        ensures
            views_of(r@) == self@.children,
    {
        self.0.get_children()
    }

    pub fn get_time(&self) -> (r: Result<u64, EbmlError>)
        ensures
            r == required(uint_field(self@.children, 0xb3), 0xb3),
    {
        require_uint(&self.0, 0xb3)
    }

    pub fn get_positions(&self) -> (r: Vec<CueTrackPositionsNode>)
        ensures
            r@.map_values(|t: CueTrackPositionsNode| t@) == all_with_id(self@.children, 0xb7),
    {
        select_typed(&self.0, 0xb7)
    }
}

/// The position of a cue point in one track.
pub struct CueTrackPositionsNode(pub Node);

impl View for CueTrackPositionsNode {
    type V = NodeView;

    open spec fn view(&self) -> NodeView {
        self.0@
    }
}

impl TypedNode for CueTrackPositionsNode {
    fn from_node(n: Node) -> (r: Self) {
        CueTrackPositionsNode(n)
    }
}

impl Clone for CueTrackPositionsNode {
    fn clone(&self) -> (r: Self)
        ensures
            r@ == self@,
    {
        CueTrackPositionsNode(self.0.clone())
    }
}

impl CueTrackPositionsNode {
    pub fn get_element(&self) -> (r: Element)
        ensures
            r@ == self@.element,
    {
        self.0.get_element()
    }

    pub fn get_children(&self) -> (r: Vec<Node>)
        ensures
            views_of(r@) == self@.children,
    {
        self.0.get_children()
    }

    pub fn get_track(&self) -> (r: Result<u64, EbmlError>)
        ensures
            r == required(uint_field(self@.children, 0xf7), 0xf7),
    {
        require_uint(&self.0, 0xf7)
    }

    pub fn get_cluster_position(&self) -> (r: Result<u64, EbmlError>)
        ensures
            r == required(uint_field(self@.children, 0xf1), 0xf1),
    {
        require_uint(&self.0, 0xf1)
    }

    pub fn get_block_number(&self) -> (r: Option<u64>)
        ensures
            r == uint_field(self@.children, 0x5378),
    {
        find_uint(&self.0, 0x5378)
    }
}

/// The chapter list.
pub struct ChaptersNode(pub Node);

impl View for ChaptersNode {
    type V = NodeView;

    open spec fn view(&self) -> NodeView {
        self.0@
    }
}

impl TypedNode for ChaptersNode {
    fn from_node(n: Node) -> (r: Self) {
        ChaptersNode(n)
    }
}

impl Clone for ChaptersNode {
    fn clone(&self) -> (r: Self)
        ensures
            r@ == self@,
    {
        ChaptersNode(self.0.clone())
    }
}

impl ChaptersNode {
    pub fn get_element(&self) -> (r: Element)
        ensures
            r@ == self@.element,
    {
        self.0.get_element()
    }

    pub fn get_children(&self) -> (r: Vec<Node>)
        ensures
            views_of(r@) == self@.children,
    {
        self.0.get_children()
    }

    pub fn get_edition_entries(&self) -> (r: Vec<EditionEntryNode>)
        ensures
            r@.map_values(|t: EditionEntryNode| t@) == all_with_id(self@.children, 0x45b9),
    {
        select_typed(&self.0, 0x45b9)
    }
}

/// One edition of the chapters.
pub struct EditionEntryNode(pub Node);

impl View for EditionEntryNode {
    type V = NodeView;

    open spec fn view(&self) -> NodeView {
        self.0@
    }
}

impl TypedNode for EditionEntryNode {
    fn from_node(n: Node) -> (r: Self) {
        EditionEntryNode(n)
    }
}

impl Clone for EditionEntryNode {
    fn clone(&self) -> (r: Self)
        ensures
            r@ == self@,
    {
        EditionEntryNode(self.0.clone())
    }
}

impl EditionEntryNode {
    pub fn get_element(&self) -> (r: Element)
        ensures
            r@ == self@.element,
    {
        self.0.get_element()
    }

    pub fn get_children(&self) -> (r: Vec<Node>)
        ensures
            views_of(r@) == self@.children,
    {
        self.0.get_children()
    }

    pub fn get_chapter_atoms(&self) -> (r: Vec<ChapterAtomNode>)
        ensures
            r@.map_values(|t: ChapterAtomNode| t@) == all_with_id(self@.children, 0xb6),
    {
        select_typed(&self.0, 0xb6)
    }
}

/// One chapter.
pub struct ChapterAtomNode(pub Node);

impl View for ChapterAtomNode {
    type V = NodeView;

    open spec fn view(&self) -> NodeView {
        self.0@
    }
}

impl TypedNode for ChapterAtomNode {
    fn from_node(n: Node) -> (r: Self) {
        ChapterAtomNode(n)
    }
}

impl Clone for ChapterAtomNode {
    fn clone(&self) -> (r: Self)
        ensures
            r@ == self@,
    {
        ChapterAtomNode(self.0.clone())
    }
}

impl ChapterAtomNode {
    pub fn get_element(&self) -> (r: Element)
        ensures
            r@ == self@.element,
    {
        self.0.get_element()
    }

    pub fn get_children(&self) -> (r: Vec<Node>)
        ensures
            views_of(r@) == self@.children,
    {
        self.0.get_children()
    }

    pub fn get_uid(&self) -> (r: Result<u64, EbmlError>)
        ensures
            r == required(uint_field(self@.children, 0x73c4), 0x73c4),
    {
        require_uint(&self.0, 0x73c4)
    }

    pub fn get_string_uid(&self) -> (r: Result<Option<String>, EbmlError>)
        ensures
            match r {
                Ok(Some(s)) => text_field(self@.children, 0x5654) == Ok::<_, EbmlError>(Some(s@)),
                Ok(None) => text_field(self@.children, 0x5654) == Ok::<_, EbmlError>(None::<Seq<char>>),
                Err(e) => text_field(self@.children, 0x5654) == Err::<Option<Seq<char>>, _>(e),
            },
    {
        find_text(&self.0, 0x5654)
    }

    pub fn get_start_time(&self) -> (r: Result<u64, EbmlError>)
        ensures
            r == required(uint_field(self@.children, 0x91), 0x91),
    {
        require_uint(&self.0, 0x91)
    }

    pub fn get_displays(&self) -> (r: Vec<ChapterDisplayNode>)
        ensures
            r@.map_values(|t: ChapterDisplayNode| t@) == all_with_id(self@.children, 0x80),
    {
        select_typed(&self.0, 0x80)
    }
}

/// The displayed title of a chapter, with its languages.
pub struct ChapterDisplayNode(pub Node);

impl View for ChapterDisplayNode {
    type V = NodeView;

    open spec fn view(&self) -> NodeView {
        self.0@
    }
}

impl TypedNode for ChapterDisplayNode {
    fn from_node(n: Node) -> (r: Self) {
        ChapterDisplayNode(n)
    }
}

impl Clone for ChapterDisplayNode {
    fn clone(&self) -> (r: Self)
        ensures
            r@ == self@,
    {
        ChapterDisplayNode(self.0.clone())
    }
}

impl ChapterDisplayNode {
    pub fn get_element(&self) -> (r: Element)
        ensures
            r@ == self@.element,
    {
        self.0.get_element()
    }

    pub fn get_children(&self) -> (r: Vec<Node>)
        ensures
            views_of(r@) == self@.children,
    {
        self.0.get_children()
    }

    pub fn get_string(&self) -> (r: Result<String, EbmlError>)
        ensures
            match r {
                Ok(s) => required_text(self@.children, 0x85) == Ok::<_, EbmlError>(s@),
                Err(e) => required_text(self@.children, 0x85) == Err::<Seq<char>, _>(e),
            },
    {
        require_text(&self.0, 0x85)
    }

    pub fn get_languages(&self) -> (r: Result<Vec<String>, EbmlError>)
        ensures
            match r {
                Ok(v) => texts_of(all_with_id(self@.children, 0x437c), 0x437c) == Ok::<_, EbmlError>(
                    v@.map_values(|s: String| s@),
                ),
                Err(e) => texts_of(all_with_id(self@.children, 0x437c), 0x437c) == Err::<Seq<Seq<char>>, _>(e),
            },
    {
        collect_texts(&self.0, 0x437c)
    }
}

/// The tag list.
pub struct TagsNode(pub Node);

impl View for TagsNode {
    type V = NodeView;

    open spec fn view(&self) -> NodeView {
        self.0@
    }
}

impl TypedNode for TagsNode {
    fn from_node(n: Node) -> (r: Self) {
        TagsNode(n)
    }
}

impl Clone for TagsNode {
    fn clone(&self) -> (r: Self)
        ensures
            r@ == self@,
    {
        TagsNode(self.0.clone())
    }
}

impl TagsNode {
    pub fn get_element(&self) -> (r: Element)
        ensures
            r@ == self@.element,
    {
        self.0.get_element()
    }

    pub fn get_children(&self) -> (r: Vec<Node>)
        ensures
            views_of(r@) == self@.children,
    {
        self.0.get_children()
    }

    pub fn get_tags(&self) -> (r: Vec<TagNode>)
        ensures
            r@.map_values(|t: TagNode| t@) == all_with_id(self@.children, 0x7373),
    {
        select_typed(&self.0, 0x7373)
    }
}

/// One tag: its targets and its simple tags.
pub struct TagNode(pub Node);

impl View for TagNode {
    type V = NodeView;

    open spec fn view(&self) -> NodeView {
        self.0@
    }
}

impl TypedNode for TagNode {
    fn from_node(n: Node) -> (r: Self) {
        TagNode(n)
    }
}

impl Clone for TagNode {
    fn clone(&self) -> (r: Self)
        ensures
            r@ == self@,
    {
        TagNode(self.0.clone())
    }
}

impl TagNode {
    pub fn get_element(&self) -> (r: Element)
        ensures
            r@ == self@.element,
    {
        self.0.get_element()
    }

    pub fn get_children(&self) -> (r: Vec<Node>)
        ensures
            views_of(r@) == self@.children,
    {
        self.0.get_children()
    }

    pub fn get_targets(&self) -> (r: Result<TargetsNode, EbmlError>)
        ensures
            match r {
                Ok(t) => first_with_id(self@.children, 0x63c0) == Some(t@),
                Err(e) => first_with_id(self@.children, 0x63c0) is None && e == (EbmlError::MissingField {
                    id: 0x63c0,
                }),
            },
    {
        require_typed(&self.0, 0x63c0)
    }

    pub fn get_simple_tags(&self) -> (r: Vec<SimpleTagNode>)
        ensures
            r@.map_values(|t: SimpleTagNode| t@) == all_with_id(self@.children, 0x67c8),
    {
        select_typed(&self.0, 0x67c8)
    }
}

/// What a tag applies to.
pub struct TargetsNode(pub Node);

impl View for TargetsNode {
    type V = NodeView;

    open spec fn view(&self) -> NodeView {
        self.0@
    }
}

impl TypedNode for TargetsNode {
    fn from_node(n: Node) -> (r: Self) {
        TargetsNode(n)
    }
}

impl Clone for TargetsNode {
    fn clone(&self) -> (r: Self)
        ensures
            r@ == self@,
    {
        TargetsNode(self.0.clone())
    }
}

impl TargetsNode {
    pub fn get_element(&self) -> (r: Element)
        ensures
            r@ == self@.element,
    {
        self.0.get_element()
    }

    pub fn get_children(&self) -> (r: Vec<Node>)
        ensures
            views_of(r@) == self@.children,
    {
        self.0.get_children()
    }

    pub fn get_type_value(&self) -> (r: Option<u64>)
        ensures
            r == uint_field(self@.children, 0x68ca),
    {
        find_uint(&self.0, 0x68ca)
    }

    pub fn get_type(&self) -> (r: Result<Option<String>, EbmlError>)
        ensures
            match r {
                Ok(Some(s)) => text_field(self@.children, 0x63ca) == Ok::<_, EbmlError>(Some(s@)),
                Ok(None) => text_field(self@.children, 0x63ca) == Ok::<_, EbmlError>(None::<Seq<char>>),
                Err(e) => text_field(self@.children, 0x63ca) == Err::<Option<Seq<char>>, _>(e),
            },
    {
        find_text(&self.0, 0x63ca)
    }

    pub fn get_track_uid(&self) -> (r: Vec<u64>)
        ensures
            r@ == uints_of(all_with_id(self@.children, 0x63c5)),
    {
        collect_uints(&self.0, 0x63c5)
    }
}

/// One name and value of a tag.
pub struct SimpleTagNode(pub Node);

impl View for SimpleTagNode {
    type V = NodeView;

    open spec fn view(&self) -> NodeView {
        self.0@
    }
}

impl TypedNode for SimpleTagNode {
    fn from_node(n: Node) -> (r: Self) {
        SimpleTagNode(n)
    }
}

impl Clone for SimpleTagNode {
    fn clone(&self) -> (r: Self)
        ensures
            r@ == self@,
    {
        SimpleTagNode(self.0.clone())
    }
}

impl SimpleTagNode {
    pub fn get_element(&self) -> (r: Element)
        ensures
            r@ == self@.element,
    {
        self.0.get_element()
    }

    pub fn get_children(&self) -> (r: Vec<Node>)
        ensures
            views_of(r@) == self@.children,
    {
        self.0.get_children()
    }

    pub fn get_name(&self) -> (r: Result<String, EbmlError>)
        ensures
            match r {
                Ok(s) => required_text(self@.children, 0x45a3) == Ok::<_, EbmlError>(s@),
                Err(e) => required_text(self@.children, 0x45a3) == Err::<Seq<char>, _>(e),
            },
    {
        require_text(&self.0, 0x45a3)
    }

    pub fn get_language(&self) -> (r: Result<String, EbmlError>)
        ensures
            match r {
                Ok(s) => required_text(self@.children, 0x447a) == Ok::<_, EbmlError>(s@),
                Err(e) => required_text(self@.children, 0x447a) == Err::<Seq<char>, _>(e),
            },
    {
        require_text(&self.0, 0x447a)
    }

    pub fn get_default(&self) -> (r: Result<u64, EbmlError>)
        ensures
            r == required(uint_field(self@.children, 0x4484), 0x4484),
    {
        require_uint(&self.0, 0x4484)
    }

    pub fn get_string(&self) -> (r: Result<Option<String>, EbmlError>)
        ensures
            match r {
                Ok(Some(s)) => text_field(self@.children, 0x4487) == Ok::<_, EbmlError>(Some(s@)),
                Ok(None) => text_field(self@.children, 0x4487) == Ok::<_, EbmlError>(None::<Seq<char>>),
                Err(e) => text_field(self@.children, 0x4487) == Err::<Option<Seq<char>>, _>(e),
            },
    {
        find_text(&self.0, 0x4487)
    }

    pub fn get_binary(&self) -> (r: Option<Vec<u8>>)
        ensures
            match r {
                Some(v) => payload_field(self@.children, 0x4485) == Some(v@),
                None => payload_field(self@.children, 0x4485) is None,
            },
    {
        find_bytes(&self.0, 0x4485)
    }
}

} // verus!
