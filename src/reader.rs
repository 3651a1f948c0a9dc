use vstd::prelude::*;

use crate::codec::{read_be, read_vint_within, vint_length, ElementData};
use crate::error::EbmlError;
use crate::registry::{element_kind, ElementKind};
use crate::tree::{
    element_at,
    has_signature,
    header_at,
    lemma_node_children,
    lemma_parse_node_span,
    overrun,
    parse_children_spec,
    parse_document_spec,
    parse_node_spec,
    signature,
    views_of,
    Element,
    ElementView,
    Node,
    NodeView,
};
use crate::views::{EBMLHeaderNode, SegmentNode};

verus! {

/// A parsed stream: the EBML header and the Segment that follows it.
pub struct WebmFile {
    pub header: EBMLHeaderNode,
    pub root: SegmentNode,
}

/// A parser over the octets of a whole stream, with a cursor.
pub struct WebmReader {
    bytes: Vec<u8>,
    pos: usize,
}

impl View for WebmReader {
    type V = Seq<u8>;

    closed spec fn view(&self) -> Seq<u8> {
        self.bytes@
    }
}

impl WebmReader {
    /// Where the next element is read from.
    pub closed spec fn cursor(&self) -> int {
        self.pos as int
    }

    pub fn new(bytes: Vec<u8>) -> (r: WebmReader)
        ensures
            r@ == bytes@,
            r.cursor() == 0,
    {
        WebmReader { bytes, pos: 0 }
    }

    /// Parses the whole stream: the signature, then the header tree and the
    /// Segment tree. The result is decided by the octets alone.
    pub fn parse(&mut self) -> (r: Result<WebmFile, EbmlError>)
        ensures
            final(self)@ == old(self)@,
            match r {
                Ok(f) => parse_document_spec(old(self)@) == Ok::<_, EbmlError>((f.header@, f.root@)),
                Err(e) => parse_document_spec(old(self)@) == Err::<(NodeView, NodeView), EbmlError>(e),
            },
    {
        if !self.check_magic_number() {
            return Err(EbmlError::BadSignature);
        }
        self.pos = 0;
        let len = self.bytes.len();
        let header = match self.build_node_tree(len, false) {
            Ok(n) => n,
            Err(e) => return Err(e),
        };
        let root = match self.build_node_tree(len, false) {
            Ok(n) => n,
            Err(e) => return Err(e),
        };
        Ok(WebmFile { header: EBMLHeaderNode(header), root: SegmentNode(root) })
    }

    /// Whether the stream opens with the four signature octets.
    fn check_magic_number(&self) -> (r: bool)
        ensures
            r == has_signature(self@),
    {
        if self.bytes.len() < 4 {
            return false;
        }
        let ok = self.bytes[0] == 0x1a && self.bytes[1] == 0x45 && self.bytes[2] == 0xdf
            && self.bytes[3] == 0xa3;
        proof {
            if ok {
                assert(self.bytes@.subrange(0, 4) =~= signature());
            } else {
                assert(self.bytes@.subrange(0, 4) != signature()) by {
                    let s = self.bytes@.subrange(0, 4);
                    assert(s[0] == self.bytes@[0] && s[1] == self.bytes@[1]);
                    assert(s[2] == self.bytes@[2] && s[3] == self.bytes@[3]);
                }
            }
        }
        ok
    }

    /// Reads one element header at the cursor, and the payload of anything
    /// but a container; the cursor moves past what was read.
    fn parse_element(&mut self, limit: usize, nested: bool) -> (r: Result<Element, EbmlError>)
        requires
            old(self).pos <= limit <= old(self).bytes@.len(),
        ensures
            final(self).bytes@ == old(self).bytes@,
            match r {
                Ok(e) => element_at(old(self).bytes@, old(self).pos as int, limit as int, nested)
                    == Ok::<_, EbmlError>((e@, final(self).pos as int)),
                Err(e) => element_at(old(self).bytes@, old(self).pos as int, limit as int, nested)
                    == Err::<(ElementView, int), EbmlError>(e),
            },
    {
        let pos = self.pos;
        let fail = if nested {
            EbmlError::SpanMismatch { offset: pos as u64 }
        } else {
            EbmlError::TruncatedInput { offset: pos as u64 }
        };
        assert(fail == overrun(pos as int, nested));
        if pos >= limit {
            return Err(fail);
        }
        let w = vint_length(self.bytes[pos]) as usize;
        if w >= limit - pos {
            return Err(fail);
        }
        let id = read_be(self.bytes.as_slice(), pos, pos + w, 0xff);
        proof {
            let t = self.bytes@.subrange(pos as int, pos + w);
            let b = self.bytes@[pos as int];
            assert(b & 0xff == b) by (bit_vector);
            assert(t.update(0, b & 0xff) =~= t);
        }
        let (size, start) = match read_vint_within(self.bytes.as_slice(), pos + w, limit) {
            Some(v) => v,
            None => return Err(fail),
        };
        let ghost h = header_at(self.bytes@, pos as int, limit as int);
        assert(h == Some((id, size, start as int)));
        if size > (limit - start) as u64 {
            return Err(fail);
        }
        let end = start + size as usize;
        let kind = element_kind(id);
        let header_len = (start - pos) as u64;
        if kind == ElementKind::Master {
            self.pos = start;
            Ok(Element { id, size, header_len, kind, data: ElementData(Vec::new()) })
        } else {
            let mut payload: Vec<u8> = Vec::new();
            let mut i: usize = start;
            while i < end
                invariant
                    start <= i <= end <= limit <= self.bytes@.len(),
                    payload@ == self.bytes@.subrange(start as int, i as int),
                decreases end - i,
            {
                payload.push(self.bytes[i]);
                i = i + 1;
                assert(payload@ =~= self.bytes@.subrange(start as int, i as int));
            }
            self.pos = end;
            Ok(Element { id, size, header_len, kind, data: ElementData(payload) })
        }
    }

    /// Builds the tree rooted at the element under the cursor, which must end
    /// by `limit`; the cursor moves past it.
    fn build_node_tree(&mut self, limit: usize, nested: bool) -> (r: Result<Node, EbmlError>)
        requires
            old(self).pos <= limit <= old(self).bytes@.len(),
        ensures
            final(self).bytes@ == old(self).bytes@,
            match r {
                Ok(n) => parse_node_spec(old(self).bytes@, old(self).pos as int, limit as int, nested)
                    == Ok::<_, EbmlError>((n@, final(self).pos as int)),
                Err(e) => parse_node_spec(
                    old(self).bytes@,
                    old(self).pos as int,
                    limit as int,
                    nested,
                ) == Err::<(NodeView, int), EbmlError>(e),
            },
        decreases limit - old(self).pos,
    {
        let ghost data = self.bytes@;
        let first = self.pos;
        let element = match self.parse_element(limit, nested) {
            Ok(e) => e,
            Err(e) => return Err(e),
        };
        let mut children: Vec<Node> = Vec::new();
        if element.kind == ElementKind::Master {
            let begin = self.pos;
            let end = begin + element.size as usize;
            proof {
                let (id, size, start) = header_at(data, first as int, limit as int)->Some_0;
                assert(begin == start);
                assert(start > first);
            }
            while self.pos < end
                invariant
                    self.bytes@ == data,
                    data == old(self).bytes@,
                    first == old(self).pos,
                    element_at(data, first as int, limit as int, nested) == Ok::<_, EbmlError>(
                        (element@, begin as int),
                    ),
                    element.kind == ElementKind::Master,
                    end == begin + element.size,
                    first < begin <= self.pos <= end <= limit <= data.len(),
                    parse_children_spec(data, begin as int, end as int) == match parse_children_spec(
                        data,
                        self.pos as int,
                        end as int,
                    ) {
                        Ok(rest) => Ok(views_of(children@) + rest),
                        Err(e) => Err(e),
                    },
                decreases end - self.pos,
            {
                let at = self.pos;
                let child = match self.build_node_tree(end, true) {
                    Ok(c) => c,
                    Err(e) => {
                        proof {
                            assert(parse_children_spec(data, at as int, end as int) == Err::<
                                Seq<NodeView>,
                                EbmlError,
                            >(e));
                            assert(parse_children_spec(data, begin as int, end as int) == Err::<
                                Seq<NodeView>,
                                EbmlError,
                            >(e));
                        }
                        return Err(e);
                    },
                };
                proof {
                    lemma_parse_node_span(data, at as int, end as int, true);
                }
                let ghost before = children@;
                children.push(child);
                proof {
                    assert(views_of(children@) =~= views_of(before).push(child@));
                    match parse_children_spec(data, self.pos as int, end as int) {
                        Ok(rest) => {
                            assert(views_of(children@) + rest =~= views_of(before) + (seq![child@]
                                + rest));
                        },
                        Err(e) => {},
                    }
                }
            }
            proof {
                assert(views_of(children@) + Seq::<NodeView>::empty() =~= views_of(
                    children@,
                ));
            }
        }
        let n = Node { element, children };
        proof {
            lemma_node_children(n);
        }
        Ok(n)
    }
}

} // verus!
