//! The DOM tree: nodes held in an arena, addressed by integer ids.
//!
//! Well-formedness (`Document::wf`) pins the arena shape: node `i` stores id
//! `i`, a parent link always points to an earlier node, and children always
//! to later ones. Every ancestor walk and subtree recursion terminates
//! because ids strictly fall toward the root.

use vstd::prelude::*;

use crate::text::{chars_eq, chars_of, spec_words, split_words, string_from_chars};

verus! {

pub type NodeId = usize;

#[derive(Debug, Clone)]
pub enum NodeData {
    Document,
    Element(ElementData),
    Text(String),
    Comment(String),
}

#[derive(Debug, Clone)]
pub struct ElementData {
    pub tag_name: String,
    /// Attribute pairs in insertion order; lookups take the first match,
    /// and `set_attribute` overwrites the first match, so names stay unique.
    pub attributes: Vec<(String, String)>,
}

/// First value bound to `name` in an attribute list.
pub open spec fn spec_attr(attrs: Seq<(String, String)>, name: Seq<char>) -> Option<Seq<char>>
    decreases attrs.len(),
{
    if attrs.len() == 0 {
        None
    } else if attrs[0].0@ == name {
        Some(attrs[0].1@)
    } else {
        spec_attr(attrs.drop_first(), name)
    }
}

impl ElementData {
    pub fn new(tag_name: String) -> (r: ElementData)
        ensures
            r.tag_name == tag_name,
            r.attributes@.len() == 0,
    {
        ElementData { tag_name, attributes: Vec::new() }
    }

    /// Value of an attribute, or `None` when the element does not carry it.
    pub fn get_attribute(&self, name: &str) -> (r: Option<String>)
        ensures
            match r {
                Some(v) => spec_attr(self.attributes@, name@) == Some(v@),
                None => spec_attr(self.attributes@, name@) is None,
            },
    {
        let name_chars = chars_of(name);
        let mut i: usize = 0;
        proof {
            assert(self.attributes@.subrange(0, self.attributes@.len() as int)
                =~= self.attributes@);
        }
        while i < self.attributes.len()
            invariant
                i <= self.attributes@.len(),
                name_chars@ == name@,
                spec_attr(self.attributes@, name@) == spec_attr(
                    self.attributes@.subrange(i as int, self.attributes@.len() as int),
                    name@,
                ),
            decreases self.attributes@.len() - i,
        {
            let key = chars_of(self.attributes[i].0.as_str());
            proof {
                let rest = self.attributes@.subrange(i as int, self.attributes@.len() as int);
                assert(rest[0] == self.attributes@[i as int]);
                assert(rest.drop_first() =~= self.attributes@.subrange(
                    i + 1,
                    self.attributes@.len() as int,
                ));
            }
            if chars_eq(&key, &name_chars) {
                return Some(self.attributes[i].1.clone());
            }
            i = i + 1;
        }
        None
    }

    /// Bind `name` to `value`, overwriting an existing binding; every
    /// other attribute keeps its value.
    pub fn set_attribute(&mut self, name: &str, value: &str)
        ensures
            spec_attr(final(self).attributes@, name@) == Some(value@),
            final(self).tag_name == old(self).tag_name,
            forall|n: Seq<char>|
                n != name@ ==> #[trigger] spec_attr(final(self).attributes@, n) == spec_attr(
                    old(self).attributes@,
                    n,
                ),
    {
        let name_chars = chars_of(name);
        let mut i: usize = 0;
        while i < self.attributes.len()
            invariant
                i <= self.attributes@.len(),
                name_chars@ == name@,
                *self == *old(self),
                forall|j: int| 0 <= j < i ==> #[trigger] self.attributes@[j].0@ != name@,
            decreases self.attributes@.len() - i,
        {
            let key = chars_of(self.attributes[i].0.as_str());
            if chars_eq(&key, &name_chars) {
                let name_s = string_from_chars(&name_chars);
                let value_chars = chars_of(value);
                let value_s = string_from_chars(&value_chars);
                self.attributes.set(i, (name_s, value_s));
                proof {
                    lemma_attr_first_match(self.attributes@, name@, i as int);
                    assert forall|n: Seq<char>| n != name@ implies #[trigger] spec_attr(
                        self.attributes@,
                        n,
                    ) == spec_attr(old(self).attributes@, n) by {
                        lemma_attr_update_other(
                            old(self).attributes@,
                            self.attributes@,
                            i as int,
                            n,
                        );
                    }
                }
                return ;
            }
            i = i + 1;
        }
        let name_chars2 = chars_of(name);
        let name_s = string_from_chars(&name_chars2);
        let value_chars = chars_of(value);
        let value_s = string_from_chars(&value_chars);
        self.attributes.push((name_s, value_s));
        proof {
            lemma_attr_first_match(self.attributes@, name@, self.attributes@.len() - 1);
            assert forall|n: Seq<char>| n != name@ implies #[trigger] spec_attr(
                self.attributes@,
                n,
            ) == spec_attr(old(self).attributes@, n) by {
                lemma_attr_push(old(self).attributes@, self.attributes@.last(), n);
                assert(self.attributes@ =~= old(self).attributes@.push(self.attributes@.last()));
            }
        }
    }

    /// The element's `id` attribute.
    pub fn id(&self) -> (r: Option<String>)
        ensures
            match r {
                Some(v) => spec_attr(self.attributes@, "id"@) == Some(v@),
                None => spec_attr(self.attributes@, "id"@) is None,
            },
    {
        self.get_attribute("id")
    }

    /// The whitespace-separated entries of the `class` attribute.
    pub fn classes(&self) -> (r: Vec<String>)
        ensures
            r@.map_values(|s: String| s@) == spec_classes(self.attributes@),
    {
        match self.get_attribute("class") {
            Some(attr) => {
                let cs = chars_of(attr.as_str());
                let words = split_words(&cs);
                let mut out: Vec<String> = Vec::new();
                let mut i: usize = 0;
                while i < words.len()
                    invariant
                        i <= words@.len(),
                        out@.map_values(|s: String| s@) == words@.map_values(
                            |w: Vec<char>| w@,
                        ).take(i as int),
                    decreases words@.len() - i,
                {
                    let ghost before = out@.map_values(|s: String| s@);
                    out.push(string_from_chars(&words[i]));
                    proof {
                        assert(out@.map_values(|s: String| s@) =~= before.push(words@[i as int]@));
                        assert(words@.map_values(|w: Vec<char>| w@).take(i + 1) =~= words@.map_values(
                        |w: Vec<char>| w@).take(i as int).push(words@[i as int]@));
                    }
                    i = i + 1;
                }
                proof {
                    assert(words@.map_values(|w: Vec<char>| w@).take(words@.len() as int)
                        =~= words@.map_values(|w: Vec<char>| w@));
                }
                out
            },
            None => {
                let out: Vec<String> = Vec::new();
                proof {
                    assert(out@.map_values(|s: String| s@) =~= Seq::<Seq<char>>::empty());
                }
                out
            },
        }
    }

    /// The class list is recomputed from the attribute on demand, so there
    /// is no stored state to drop; kept so callers that managed a cache in
    /// other designs keep compiling.
    pub fn invalidate_class_cache(&mut self)
        ensures
            *final(self) == *old(self),
    {
    }
}

/// The class list an attribute set denotes: the words of its `class` value.
pub open spec fn spec_classes(attrs: Seq<(String, String)>) -> Seq<Seq<char>> {
    match spec_attr(attrs, "class"@) {
        Some(v) => spec_words(v),
        None => Seq::empty(),
    }
}

/// Two attribute lists with the same reading bind every name the same way.
proof fn lemma_attr_like(a1: Seq<(String, String)>, a2: Seq<(String, String)>, n: Seq<char>)
    requires
        attrs_view(a1) == attrs_view(a2),
    ensures
        spec_attr(a1, n) == spec_attr(a2, n),
    decreases a1.len(),
{
    assert(attrs_view(a1).len() == a1.len());
    assert(attrs_view(a2).len() == a2.len());
    assert(a1.len() == a2.len());
    if a1.len() > 0 {
        assert(attrs_view(a1)[0] == (a1[0].0@, a1[0].1@));
        assert(attrs_view(a2)[0] == (a2[0].0@, a2[0].1@));
        assert(attrs_view(a1.drop_first()) =~= attrs_view(a1).drop_first());
        assert(attrs_view(a2.drop_first()) =~= attrs_view(a2).drop_first());
        lemma_attr_like(a1.drop_first(), a2.drop_first(), n);
    }
}

/// Two attribute lists that differ only at `i`, where neither key is `n`,
/// bind `n` the same way.
proof fn lemma_attr_update_other(
    a1: Seq<(String, String)>,
    a2: Seq<(String, String)>,
    i: int,
    n: Seq<char>,
)
    requires
        0 <= i < a1.len(),
        a1.len() == a2.len(),
        forall|j: int| 0 <= j < a1.len() && j != i ==> a1[j] == #[trigger] a2[j],
        a1[i].0@ != n,
        a2[i].0@ != n,
    ensures
        spec_attr(a1, n) == spec_attr(a2, n),
    decreases a1.len(),
{
    if i == 0 {
        assert(a1.drop_first() =~= a2.drop_first());
    } else {
        assert(a1[0] == a2[0]);
        lemma_attr_update_other(a1.drop_first(), a2.drop_first(), i - 1, n);
    }
}

/// Appending a pair whose key is not `n` leaves `n`'s binding unchanged.
proof fn lemma_attr_push(attrs: Seq<(String, String)>, p: (String, String), n: Seq<char>)
    requires
        p.0@ != n,
    ensures
        spec_attr(attrs.push(p), n) == spec_attr(attrs, n),
    decreases attrs.len(),
{
    if attrs.len() == 0 {
        assert(attrs.push(p)[0] == p);
        assert(attrs.push(p).drop_first() =~= Seq::<(String, String)>::empty());
        assert(spec_attr(attrs.push(p), n) == spec_attr(attrs.push(p).drop_first(), n));
        assert(spec_attr(Seq::<(String, String)>::empty(), n) is None);
    } else {
        assert(attrs.push(p)[0] == attrs[0]);
        assert(attrs.push(p).drop_first() =~= attrs.drop_first().push(p));
        lemma_attr_push(attrs.drop_first(), p, n);
    }
}

proof fn lemma_attr_first_match(attrs: Seq<(String, String)>, name: Seq<char>, i: int)
    requires
        0 <= i < attrs.len(),
        attrs[i].0@ == name,
        forall|j: int| 0 <= j < i ==> #[trigger] attrs[j].0@ != name,
    ensures
        spec_attr(attrs, name) == Some(attrs[i].1@),
    decreases i,
{
    if i == 0 {
    } else {
        lemma_attr_first_match(attrs.drop_first(), name, i - 1);
    }
}

#[derive(Debug, Clone)]
pub struct Node {
    pub id: NodeId,
    pub data: NodeData,
    pub parent: Option<NodeId>,
    pub children: Vec<NodeId>,
}

impl Node {
    pub fn new_document(id: NodeId) -> (r: Node)
        ensures
            r.id == id,
            r.data is Document,
            r.parent is None,
            r.children@.len() == 0,
    {
        Node { id, data: NodeData::Document, parent: None, children: Vec::new() }
    }

    pub fn new_element(id: NodeId, tag_name: String) -> (r: Node)
        ensures
            r.id == id,
            r.data matches NodeData::Element(e) && e.tag_name == tag_name && e.attributes@.len()
                == 0,
            r.parent is None,
            r.children@.len() == 0,
    {
        Node { id, data: NodeData::Element(ElementData::new(tag_name)), parent: None, children: Vec::new() }
    }

    pub fn new_text(id: NodeId, content: String) -> (r: Node)
        ensures
            r.id == id,
            r.data == NodeData::Text(content),
            r.parent is None,
            r.children@.len() == 0,
    {
        Node { id, data: NodeData::Text(content), parent: None, children: Vec::new() }
    }

    pub fn new_comment(id: NodeId, content: String) -> (r: Node)
        ensures
            r.id == id,
            r.data == NodeData::Comment(content),
            r.parent is None,
            r.children@.len() == 0,
    {
        Node { id, data: NodeData::Comment(content), parent: None, children: Vec::new() }
    }

    pub fn is_element(&self) -> (r: bool)
        ensures
            r == self.data is Element,
    {
        match self.data {
            NodeData::Element(_) => true,
            _ => false,
        }
    }

    pub fn is_text(&self) -> (r: bool)
        ensures
            r == self.data is Text,
    {
        match self.data {
            NodeData::Text(_) => true,
            _ => false,
        }
    }

    pub fn as_element(&self) -> (r: Option<&ElementData>)
        ensures
            match r {
                Some(e) => self.data == NodeData::Element(*e),
                None => !(self.data is Element),
            },
    {
        match &self.data {
            NodeData::Element(e) => Some(e),
            _ => None,
        }
    }

    pub fn as_element_mut(&mut self) -> (r: Option<&mut ElementData>)
        ensures
            match r {
                Some(e) => old(self).data is Element && final(self).data == NodeData::Element(
                    *final(e),
                ) && final(self).id == old(self).id && final(self).parent == old(self).parent
                    && final(self).children == old(self).children,
                None => !(old(self).data is Element) && *final(self) == *old(self),
            },
    {
        match &mut self.data {
            NodeData::Element(e) => Some(e),
            _ => None,
        }
    }

    pub fn as_text(&self) -> (r: Option<&String>)
        ensures
            match r {
                Some(t) => self.data == NodeData::Text(*t),
                None => !(self.data is Text),
            },
    {
        match &self.data {
            NodeData::Text(t) => Some(t),
            _ => None,
        }
    }

    pub fn tag_name(&self) -> (r: Option<&String>)
        ensures
            match r {
                Some(t) => self.data matches NodeData::Element(e) && e.tag_name == *t,
                None => !(self.data is Element),
            },
    {
        match &self.data {
            NodeData::Element(e) => Some(&e.tag_name),
            _ => None,
        }
    }
}

/// Attribute pairs reduced to their character sequences.
pub open spec fn attrs_view(attrs: Seq<(String, String)>) -> Seq<(Seq<char>, Seq<char>)> {
    attrs.map_values(|p: (String, String)| (p.0@, p.1@))
}

/// Two node payloads that hold the same variant and the same text.
pub open spec fn data_like(a: NodeData, b: NodeData) -> bool {
    match (a, b) {
        (NodeData::Document, NodeData::Document) => true,
        (NodeData::Element(x), NodeData::Element(y)) => x.tag_name@ == y.tag_name@ && attrs_view(
            x.attributes@,
        ) == attrs_view(y.attributes@),
        (NodeData::Text(x), NodeData::Text(y)) => x@ == y@,
        (NodeData::Comment(x), NodeData::Comment(y)) => x@ == y@,
        _ => false,
    }
}

impl ElementData {
    /// A deep copy whose attribute list reads the same.
    pub fn duplicate(&self) -> (r: ElementData)
        ensures
            r.tag_name@ == self.tag_name@,
            attrs_view(r.attributes@) == attrs_view(self.attributes@),
    {
        let mut attributes: Vec<(String, String)> = Vec::new();
        let mut i: usize = 0;
        while i < self.attributes.len()
            invariant
                i <= self.attributes@.len(),
                attrs_view(attributes@) == attrs_view(self.attributes@).take(i as int),
            decreases self.attributes@.len() - i,
        {
            let ghost before = attrs_view(attributes@);
            attributes.push((self.attributes[i].0.clone(), self.attributes[i].1.clone()));
            proof {
                assert(attrs_view(attributes@) =~= before.push(
                    (self.attributes@[i as int].0@, self.attributes@[i as int].1@),
                ));
                assert(attrs_view(self.attributes@).take(i + 1) =~= attrs_view(
                    self.attributes@,
                ).take(i as int).push((self.attributes@[i as int].0@, self.attributes@[i as int].1@)));
            }
            i = i + 1;
        }
        proof {
            assert(attrs_view(self.attributes@).take(self.attributes@.len() as int) =~= attrs_view(
                self.attributes@,
            ));
        }
        ElementData { tag_name: self.tag_name.clone(), attributes }
    }
}

impl Node {
    /// A deep copy: same id and links, payload with the same reading.
    pub fn duplicate(&self) -> (r: Node)
        ensures
            r.id == self.id,
            r.parent == self.parent,
            r.children@ == self.children@,
            data_like(r.data, self.data),
    {
        let data = match &self.data {
            NodeData::Document => NodeData::Document,
            NodeData::Element(e) => NodeData::Element(e.duplicate()),
            NodeData::Text(t) => NodeData::Text(t.clone()),
            NodeData::Comment(t) => NodeData::Comment(t.clone()),
        };
        let mut children: Vec<NodeId> = Vec::new();
        let mut i: usize = 0;
        while i < self.children.len()
            invariant
                i <= self.children@.len(),
                children@ == self.children@.take(i as int),
            decreases self.children@.len() - i,
        {
            children.push(self.children[i]);
            proof {
                assert(self.children@.take(i + 1) =~= self.children@.take(i as int).push(
                    self.children@[i as int],
                ));
            }
            i = i + 1;
        }
        proof {
            assert(self.children@.take(self.children@.len() as int) =~= self.children@);
        }
        Node { id: self.id, data, parent: self.parent, children }
    }
}

#[derive(Debug)]
pub struct Document {
    nodes: Vec<Node>,
}

impl Document {
    /// The arena the document holds, for specification purposes.
    pub closed spec fn nodes_seq(&self) -> Seq<Node> {
        self.nodes@
    }

    /// Shape of a well-formed arena: node `i` carries id `i`, parents point
    /// backward, children point forward and stay in range, and a child
    /// listed under a node has that node as its parent.
    pub open spec fn wf(&self) -> bool {
        &&& self.nodes_seq().len() >= 1
        &&& self.nodes_seq()[0].data is Document
        &&& forall|i: int|
            0 <= i < self.nodes_seq().len() ==> (#[trigger] self.nodes_seq()[i]).id == i
        &&& forall|i: int|
            0 <= i < self.nodes_seq().len() ==> ((#[trigger] self.nodes_seq()[i]).parent matches
            Some(p) ==> p < i)
        &&& forall|i: int, k: int|
            0 <= i < self.nodes_seq().len() && 0 <= k
                < (#[trigger] self.nodes_seq()[i]).children@.len() ==> i
                < #[trigger] self.nodes_seq()[i].children@[k] < self.nodes_seq().len()
        &&& forall|i: int, k: int|
            0 <= i < self.nodes_seq().len() && 0 <= k
                < (#[trigger] self.nodes_seq()[i]).children@.len()
                ==> self.nodes_seq()[#[trigger] self.nodes_seq()[i].children@[k] as int].parent
                == Some(i as NodeId)
    }

    pub fn new() -> (r: Document)
        ensures
            r.wf(),
            r.nodes_seq().len() == 1,
    {
        let root = Node::new_document(0);
        let mut nodes: Vec<Node> = Vec::new();
        nodes.push(root);
        Document { nodes }
    }

    /// Id of the document root node.
    pub fn root(&self) -> (r: NodeId)
        ensures
            r == 0,
    {
        0
    }

    pub fn node_count(&self) -> (r: usize)
        ensures
            r == self.nodes_seq().len(),
    {
        self.nodes.len()
    }

    /// Create an element node; the tag is stored ASCII-lower-cased.
    pub fn create_element(&mut self, tag_name: &str) -> (r: NodeId)
        requires
            old(self).wf(),
        ensures
            final(self).wf(),
            r == old(self).nodes_seq().len(),
            final(self).nodes_seq().len() == old(self).nodes_seq().len() + 1,
            final(self).nodes_seq() =~= old(self).nodes_seq().push(
                final(self).nodes_seq()[r as int],
            ),
            final(self).nodes_seq()[r as int].data matches NodeData::Element(e) && e.tag_name@
                == crate::text::spec_lower(tag_name@) && e.attributes@.len() == 0,
            final(self).nodes_seq()[r as int].parent is None,
            final(self).nodes_seq()[r as int].children@.len() == 0,
    {
        let id = self.nodes.len();
        let tc = chars_of(tag_name);
        let lowered = crate::text::lower_chars(&tc);
        let node = Node::new_element(id, string_from_chars(&lowered));
        self.nodes.push(node);
        id
    }

    pub fn create_text(&mut self, content: &str) -> (r: NodeId)
        requires
            old(self).wf(),
        ensures
            final(self).wf(),
            r == old(self).nodes_seq().len(),
            final(self).nodes_seq().len() == old(self).nodes_seq().len() + 1,
            final(self).nodes_seq() =~= old(self).nodes_seq().push(
                final(self).nodes_seq()[r as int],
            ),
            final(self).nodes_seq()[r as int].data matches NodeData::Text(t) && t@ == content@,
            final(self).nodes_seq()[r as int].parent is None,
            final(self).nodes_seq()[r as int].children@.len() == 0,
    {
        let id = self.nodes.len();
        let cc = chars_of(content);
        let node = Node::new_text(id, string_from_chars(&cc));
        self.nodes.push(node);
        id
    }

    pub fn create_comment(&mut self, content: &str) -> (r: NodeId)
        requires
            old(self).wf(),
        ensures
            final(self).wf(),
            r == old(self).nodes_seq().len(),
            final(self).nodes_seq().len() == old(self).nodes_seq().len() + 1,
            final(self).nodes_seq()[r as int].data matches NodeData::Comment(t) && t@ == content@,
    {
        let id = self.nodes.len();
        let cc = chars_of(content);
        let node = Node::new_comment(id, string_from_chars(&cc));
        self.nodes.push(node);
        id
    }

    /// Link `child_id` under `parent_id`. The link is made only when it
    /// keeps the arena well-formed: both ids in range, the parent older
    /// than the child, and the child not yet linked anywhere; otherwise
    /// the document is left unchanged.
    pub fn append_child(&mut self, parent_id: NodeId, child_id: NodeId)
        requires
            old(self).wf(),
        ensures
            final(self).wf(),
            final(self).nodes_seq().len() == old(self).nodes_seq().len(),
            parent_id < child_id < old(self).nodes_seq().len() && old(
                self,
            ).nodes_seq()[child_id as int].parent is None ==> {
                &&& final(self).nodes_seq()[child_id as int].parent == Some(parent_id)
                &&& final(self).nodes_seq()[parent_id as int].children@ == old(
                    self,
                ).nodes_seq()[parent_id as int].children@.push(child_id)
                &&& forall|i: int|
                    0 <= i < old(self).nodes_seq().len() && i != parent_id && i != child_id
                        ==> final(self).nodes_seq()[i] == old(self).nodes_seq()[i]
                &&& final(self).nodes_seq()[child_id as int].id == old(
                    self,
                ).nodes_seq()[child_id as int].id
                &&& final(self).nodes_seq()[child_id as int].children@ == old(
                    self,
                ).nodes_seq()[child_id as int].children@
                &&& data_like(
                    final(self).nodes_seq()[child_id as int].data,
                    old(self).nodes_seq()[child_id as int].data,
                )
                &&& final(self).nodes_seq()[parent_id as int].id == old(
                    self,
                ).nodes_seq()[parent_id as int].id
                &&& final(self).nodes_seq()[parent_id as int].parent == old(
                    self,
                ).nodes_seq()[parent_id as int].parent
                &&& data_like(
                    final(self).nodes_seq()[parent_id as int].data,
                    old(self).nodes_seq()[parent_id as int].data,
                )
            },
            !(parent_id < child_id < old(self).nodes_seq().len() && old(
                self,
            ).nodes_seq()[child_id as int].parent is None) ==> *final(self) == *old(self),
    {
        if parent_id < child_id && child_id < self.nodes.len() && self.nodes[child_id].parent.is_none() {
            let mut child = self.nodes[child_id].duplicate();
            child.parent = Some(parent_id);
            self.nodes.set(child_id, child);
            let mut parent = self.nodes[parent_id].duplicate();
            parent.children.push(child_id);
            self.nodes.set(parent_id, parent);
        }
    }

    pub fn get_node(&self, id: NodeId) -> (r: Option<&Node>)
        ensures
            match r {
                Some(n) => id < self.nodes_seq().len() && *n == self.nodes_seq()[id as int],
                None => id >= self.nodes_seq().len(),
            },
    {
        if id < self.nodes.len() {
            Some(&self.nodes[id])
        } else {
            None
        }
    }

    pub fn get_node_mut(&mut self, id: NodeId) -> (r: Option<&mut Node>)
        requires
            old(self).wf(),
        ensures
            match r {
                Some(n) => id < old(self).nodes_seq().len() && final(self).nodes_seq() == old(
                    self,
                ).nodes_seq().update(id as int, *final(n)),
                None => id >= old(self).nodes_seq().len() && *final(self) == *old(self),
            },
    {
        if id < self.nodes.len() {
            Some(&mut self.nodes[id])
        } else {
            None
        }
    }

    pub fn set_attribute(&mut self, node_id: NodeId, name: &str, value: &str)
        requires
            old(self).wf(),
        ensures
            final(self).wf(),
            final(self).nodes_seq().len() == old(self).nodes_seq().len(),
            node_id < old(self).nodes_seq().len() && old(self).nodes_seq()[node_id as int].data
                is Element ==> (final(self).nodes_seq()[node_id as int].data matches
                NodeData::Element(e) && spec_attr(e.attributes@, name@) == Some(value@)
                && (old(self).nodes_seq()[node_id as int].data matches NodeData::Element(e0)
                && e.tag_name@ == e0.tag_name@ && (forall|n: Seq<char>|
                    n != name@ ==> #[trigger] spec_attr(e.attributes@, n) == spec_attr(
                        e0.attributes@,
                        n,
                    )))),
            forall|i: int|
                0 <= i < old(self).nodes_seq().len() && i != node_id ==> final(self).nodes_seq()[i]
                    == old(self).nodes_seq()[i],
            node_id < old(self).nodes_seq().len() ==> {
                &&& final(self).nodes_seq()[node_id as int].id == old(self).nodes_seq()[node_id as int].id
                &&& final(self).nodes_seq()[node_id as int].parent == old(
                    self,
                ).nodes_seq()[node_id as int].parent
                &&& final(self).nodes_seq()[node_id as int].children@ == old(
                    self,
                ).nodes_seq()[node_id as int].children@
            },
    {
        if node_id < self.nodes.len() {
            let node = self.nodes[node_id].duplicate();
            match node.data {
                NodeData::Element(mut e) => {
                    let ghost e_dup = e;
                    e.set_attribute(name, value);
                    proof {
                        match old(self).nodes_seq()[node_id as int].data {
                            NodeData::Element(e0) => {
                                assert(attrs_view(e_dup.attributes@) == attrs_view(e0.attributes@));
                                assert forall|n: Seq<char>| n != name@ implies #[trigger] spec_attr(
                                    e.attributes@,
                                    n,
                                ) == spec_attr(e0.attributes@, n) by {
                                    lemma_attr_like(e_dup.attributes@, e0.attributes@, n);
                                }
                            },
                            _ => {},
                        }
                    }
                    let rebuilt = Node {
                        id: node.id,
                        data: NodeData::Element(e),
                        parent: node.parent,
                        children: node.children,
                    };
                    self.nodes.set(node_id, rebuilt);
                },
                _ => {},
            }
        }
    }

    /// First element whose `id` attribute equals `id`, scanning in id order.
    pub fn get_element_by_id(&self, id: &str) -> (r: Option<NodeId>)
        ensures
            match r {
                Some(n) => n < self.nodes_seq().len() && (self.nodes_seq()[n as int].data matches
                    NodeData::Element(e) && spec_attr(e.attributes@, "id"@) == Some(id@)),
                None => true,
            },
    {
        let idc = chars_of(id);
        let mut i: usize = 0;
        while i < self.nodes.len()
            invariant
                idc@ == id@,
            decreases self.nodes@.len() - i,
        {
            match self.nodes[i].as_element() {
                Some(e) => {
                    match e.get_attribute("id") {
                        Some(v) => {
                            let vc = chars_of(v.as_str());
                            if chars_eq(&vc, &idc) {
                                return Some(i);
                            }
                        },
                        None => {},
                    }
                },
                None => {},
            }
            i = i + 1;
        }
        None
    }

    /// Ids of all elements with the given tag, compared ASCII-case-blind.
    pub fn get_elements_by_tag_name(&self, tag_name: &str) -> (r: Vec<NodeId>)
        ensures
            forall|k: int|
                0 <= k < r@.len() ==> #[trigger] r@[k] < self.nodes_seq().len()
                    && (self.nodes_seq()[r@[k] as int].data matches NodeData::Element(e)
                    && e.tag_name@ == crate::text::spec_lower(tag_name@)),
    {
        let tc = chars_of(tag_name);
        let lowered = crate::text::lower_chars(&tc);
        let mut out: Vec<NodeId> = Vec::new();
        let mut i: usize = 0;
        while i < self.nodes.len()
            invariant
                lowered@ == crate::text::spec_lower(tag_name@),
                forall|k: int|
                    0 <= k < out@.len() ==> #[trigger] out@[k] < self.nodes_seq().len()
                        && (self.nodes_seq()[out@[k] as int].data matches NodeData::Element(e)
                        && e.tag_name@ == crate::text::spec_lower(tag_name@)),
            decreases self.nodes@.len() - i,
        {
            match self.nodes[i].as_element() {
                Some(e) => {
                    let ec = chars_of(e.tag_name.as_str());
                    if chars_eq(&ec, &lowered) {
                        out.push(i);
                    }
                },
                None => {},
            }
            i = i + 1;
        }
        out
    }

    /// Ids of all elements carrying the given class.
    pub fn get_elements_by_class_name(&self, class_name: &str) -> (r: Vec<NodeId>)
        ensures
            forall|k: int|
                0 <= k < r@.len() ==> #[trigger] r@[k] < self.nodes_seq().len()
                    && (self.nodes_seq()[r@[k] as int].data matches NodeData::Element(e)
                    && spec_classes(e.attributes@).contains(class_name@)),
    {
        let cc = chars_of(class_name);
        let mut out: Vec<NodeId> = Vec::new();
        let mut i: usize = 0;
        while i < self.nodes.len()
            invariant
                cc@ == class_name@,
                forall|k: int|
                    0 <= k < out@.len() ==> #[trigger] out@[k] < self.nodes_seq().len()
                        && (self.nodes_seq()[out@[k] as int].data matches NodeData::Element(e)
                        && spec_classes(e.attributes@).contains(class_name@)),
            decreases self.nodes@.len() - i,
        {
            match self.nodes[i].as_element() {
                Some(e) => {
                    let classes = e.classes();
                    let mut j: usize = 0;
                    let mut found = false;
                    while j < classes.len()
                        invariant
                            cc@ == class_name@,
                            found ==> spec_classes(e.attributes@).contains(class_name@),
                            classes@.map_values(|s: String| s@) == spec_classes(e.attributes@),
                        decreases classes@.len() - j,
                    {
                        let kc = chars_of(classes[j].as_str());
                        if chars_eq(&kc, &cc) {
                            proof {
                                assert(spec_classes(e.attributes@)[j as int] == class_name@);
                            }
                            found = true;
                        }
                        j = j + 1;
                    }
                    if found {
                        out.push(i);
                    }
                },
                None => {},
            }
            i = i + 1;
        }
        out
    }

    pub fn get_body(&self) -> (r: Option<NodeId>)
        ensures
            match r {
                Some(n) => n < self.nodes_seq().len() && (self.nodes_seq()[n as int].data matches
                    NodeData::Element(e) && e.tag_name@ == "body"@),
                None => true,
            },
    {
        let found = self.get_elements_by_tag_name("body");
        if found.len() > 0 {
            proof {
                reveal_strlit("body");
                crate::text::lemma_lower_of_lower("body"@);
            }
            Some(found[0])
        } else {
            None
        }
    }

    pub fn get_head(&self) -> (r: Option<NodeId>)
        ensures
            match r {
                Some(n) => n < self.nodes_seq().len() && (self.nodes_seq()[n as int].data matches
                    NodeData::Element(e) && e.tag_name@ == "head"@),
                None => true,
            },
    {
        let found = self.get_elements_by_tag_name("head");
        if found.len() > 0 {
            proof {
                reveal_strlit("head");
                crate::text::lemma_lower_of_lower("head"@);
            }
            Some(found[0])
        } else {
            None
        }
    }

    /// Every node id of the arena, in arena order.
    pub fn iter_nodes(&self) -> (r: Vec<NodeId>)
        ensures
            r@.len() == self.nodes_seq().len(),
            forall|i: int| 0 <= i < r@.len() ==> #[trigger] r@[i] == i,
    {
        let mut out: Vec<NodeId> = Vec::new();
        let mut i: usize = 0;
        while i < self.nodes.len()
            invariant
                out@.len() == i,
                i <= self.nodes_seq().len(),
                forall|j: int| 0 <= j < i ==> #[trigger] out@[j] == j,
            decreases self.nodes@.len() - i,
        {
            out.push(i);
            i = i + 1;
        }
        out
    }

    /// The child list of a node; empty for an id out of range.
    pub fn children(&self, node_id: NodeId) -> (r: Vec<NodeId>)
        ensures
            node_id < self.nodes_seq().len() ==> r@ == self.nodes_seq()[node_id as int].children@,
            node_id >= self.nodes_seq().len() ==> r@.len() == 0,
    {
        if node_id < self.nodes.len() {
            self.nodes[node_id].children.clone()
        } else {
            Vec::new()
        }
    }

    pub fn parent(&self, node_id: NodeId) -> (r: Option<NodeId>)
        ensures
            node_id < self.nodes_seq().len() ==> r == self.nodes_seq()[node_id as int].parent,
            node_id >= self.nodes_seq().len() ==> r is None,
    {
        if node_id < self.nodes.len() {
            self.nodes[node_id].parent
        } else {
            None
        }
    }

    /// Concatenated text of a subtree, in document order.
    pub fn get_text_content(&self, node_id: NodeId) -> (r: String)
        requires
            self.wf(),
        ensures
            r@ == spec_text_content(self, node_id),
    {
        let mut result: Vec<char> = Vec::new();
        self.collect_text_content(node_id, &mut result);
        string_from_chars(&result)
    }

    fn collect_text_content(&self, node_id: NodeId, result: &mut Vec<char>)
        requires
            self.wf(),
        ensures
            final(result)@ == old(result)@ + spec_text_content(self, node_id),
        decreases self.nodes_seq().len() - node_id, 1int,
    {
        match self.get_node(node_id) {
            Some(node) => {
                match &node.data {
                    NodeData::Text(text) => {
                        let tc = chars_of(text.as_str());
                        let mut k: usize = 0;
                        while k < tc.len()
                            invariant
                                tc@ == text@,
                                k <= tc@.len(),
                                result@ == old(result)@ + tc@.take(k as int),
                            decreases tc@.len() - k,
                        {
                            result.push(tc[k]);
                            proof {
                                assert(old(result)@ + tc@.take(k + 1) =~= (old(result)@
                                    + tc@.take(k as int)).push(tc@[k as int]));
                            }
                            k = k + 1;
                        }
                        proof {
                            assert(tc@.take(tc@.len() as int) =~= tc@);
                        }
                    },
                    _ => {
                        let kids = node.children.clone();
                        self.collect_text_children(node_id, &kids, result);
                    },
                }
            },
            None => {
                proof {
                    assert(old(result)@ + spec_text_content(self, node_id) =~= old(result)@);
                }
            },
        }
    }

    fn collect_text_children(&self, node_id: NodeId, kids: &Vec<NodeId>, result: &mut Vec<char>)
        requires
            self.wf(),
            node_id < self.nodes_seq().len(),
            kids@ == self.nodes_seq()[node_id as int].children@,
        ensures
            final(result)@ == old(result)@ + spec_text_kids(
                self,
                node_id,
                self.nodes_seq()[node_id as int].children@.len() as int,
            ),
        decreases self.nodes_seq().len() - node_id, 0int,
    {
        let mut k: usize = 0;
        proof {
            assert(old(result)@ + spec_text_kids(self, node_id, 0) =~= old(result)@);
        }
        while k < kids.len()
            invariant
                self.wf(),
                node_id < self.nodes_seq().len(),
                kids@ == self.nodes_seq()[node_id as int].children@,
                k <= kids@.len(),
                result@ == old(result)@ + spec_text_kids(self, node_id, k as int),
            decreases kids@.len() - k,
        {
            proof {
                assert(node_id < kids@[k as int] < self.nodes_seq().len());
            }
            self.collect_text_content(kids[k], result);
            proof {
                assert(result@ =~= old(result)@ + spec_text_kids(self, node_id, k + 1));
            }
            k = k + 1;
        }
    }

    /// Replace a node's children with a single new text node.
    pub fn set_text_content(&mut self, node_id: NodeId, content: &str)
        requires
            old(self).wf(),
        ensures
            final(self).wf(),
    {
        if node_id < self.nodes.len() {
            let mut node = self.nodes[node_id].duplicate();
            node.children = Vec::new();
            self.nodes.set(node_id, node);
        }
        let text_id = self.create_text(content);
        self.append_child(node_id, text_id);
    }

    /// 1-based position of an element among its parent's element children.
    pub fn element_index(&self, node_id: NodeId) -> (r: Option<usize>)
        requires
            self.wf(),
        ensures
            r == spec_element_index(self, node_id),
    {
        let node = match self.get_node(node_id) {
            Some(n) => n,
            None => { return None },
        };
        if !node.is_element() {
            return None;
        }
        let parent_id = match node.parent {
            Some(p) => p,
            None => { return None },
        };
        let siblings = self.children(parent_id);
        let ghost sibs = siblings@;
        let mut element_index: usize = 0;
        let mut k: usize = 0;
        while k < siblings.len()
            invariant
                self.wf(),
                node_id < self.nodes_seq().len(),
                parent_id < self.nodes_seq().len(),
                siblings@ == sibs,
                forall|j: int| 0 <= j < sibs.len() ==> #[trigger] sibs[j] < self.nodes_seq().len(),
                k <= sibs.len(),
                self.nodes_seq()[node_id as int].data is Element,
                element_index <= k,
                spec_element_index(self, node_id) == spec_element_index_scan(
                    self,
                    node_id,
                    sibs,
                    k as int,
                    element_index as int,
                ),
            decreases sibs.len() - k,
        {
            let sib = siblings[k];
            match self.get_node(sib) {
                Some(s) => {
                    if s.is_element() {
                        element_index = element_index + 1;
                        if sib == node_id {
                            return Some(element_index);
                        }
                    }
                },
                None => {},
            }
            k = k + 1;
        }
        None
    }

    /// Whether the node is the last element child of its parent.
    pub fn is_last_element_child(&self, node_id: NodeId) -> (r: bool)
        requires
            self.wf(),
        ensures
            r == spec_is_last_element_child(self, node_id),
    {
        let node = match self.get_node(node_id) {
            Some(n) => n,
            None => { return false },
        };
        if !node.is_element() {
            return false;
        }
        let parent_id = match node.parent {
            Some(p) => p,
            None => { return false },
        };
        let siblings = self.children(parent_id);
        let ghost sibs = siblings@;
        let mut k: usize = siblings.len();
        while k > 0
            invariant
                self.wf(),
                node_id < self.nodes_seq().len(),
                self.nodes_seq()[node_id as int].data is Element,
                self.nodes_seq()[node_id as int].parent == Some(parent_id),
                parent_id < self.nodes_seq().len(),
                siblings@ == sibs,
                sibs == self.nodes_seq()[parent_id as int].children@,
                k <= sibs.len(),
                spec_last_element(self, sibs, sibs.len() as int) == spec_last_element(
                    self,
                    sibs,
                    k as int,
                ),
            decreases k,
        {
            let sib = siblings[k - 1];
            match self.get_node(sib) {
                Some(s) => {
                    if s.is_element() {
                        return sib == node_id;
                    }
                },
                None => {},
            }
            k = k - 1;
        }
        false
    }

    /// Element children only, in order.
    pub fn element_children(&self, node_id: NodeId) -> (r: Vec<NodeId>)
        requires
            self.wf(),
        ensures
            forall|k: int|
                0 <= k < r@.len() ==> #[trigger] r@[k] < self.nodes_seq().len()
                    && self.nodes_seq()[r@[k] as int].data is Element,
    {
        let kids = self.children(node_id);
        let mut out: Vec<NodeId> = Vec::new();
        let mut k: usize = 0;
        while k < kids.len()
            invariant
                self.wf(),
                forall|j: int| 0 <= j < kids@.len() ==> #[trigger] kids@[j] < self.nodes_seq().len(),
                forall|j: int|
                    0 <= j < out@.len() ==> #[trigger] out@[j] < self.nodes_seq().len()
                        && self.nodes_seq()[out@[j] as int].data is Element,
            decreases kids@.len() - k,
        {
            let kid = kids[k];
            match self.get_node(kid) {
                Some(n) => {
                    if n.is_element() {
                        out.push(kid);
                    }
                },
                None => {},
            }
            k = k + 1;
        }
        out
    }

    /// All ancestors, nearest first; ends at the root.
    pub fn ancestors(&self, node_id: NodeId) -> (r: Vec<NodeId>)
        requires
            self.wf(),
        ensures
            forall|k: int| 0 <= k < r@.len() ==> #[trigger] r@[k] < self.nodes_seq().len(),
    {
        let mut result: Vec<NodeId> = Vec::new();
        let mut current = self.parent(node_id);
        let ghost mut bound: int = if node_id < self.nodes_seq().len() {
            node_id as int
        } else {
            self.nodes_seq().len() as int
        };
        while current.is_some()
            invariant
                self.wf(),
                current matches Some(c) ==> c < bound && c < self.nodes_seq().len(),
                bound >= 0,
                forall|k: int| 0 <= k < result@.len() ==> #[trigger] result@[k] < self.nodes_seq().len(),
            decreases bound,
        {
            let ancestor_id = match current {
                Some(a) => a,
                None => { return result },
            };
            result.push(ancestor_id);
            current = self.parent(ancestor_id);
            proof {
                bound = ancestor_id as int;
            }
        }
        result
    }
}

/// Concatenated text of the subtree under `id`, in document order.
/// Unspecified for an ill-formed arena.
pub open spec fn spec_text_content(doc: &Document, id: NodeId) -> Seq<char>
    decreases doc.nodes_seq().len() - id, 1int,
        when doc.wf()
{
    if id < doc.nodes_seq().len() {
        match doc.nodes_seq()[id as int].data {
            NodeData::Text(t) => t@,
            _ => spec_text_kids(doc, id, doc.nodes_seq()[id as int].children@.len() as int),
        }
    } else {
        Seq::empty()
    }
}

/// Concatenated text of the first `k` children of node `id`.
pub open spec fn spec_text_kids(doc: &Document, id: NodeId, k: int) -> Seq<char>
    decreases doc.nodes_seq().len() - id, 0int, k,
        when doc.wf() && id < doc.nodes_seq().len() && k <= doc.nodes_seq()[id as int].children@.len()
{
    if k <= 0 || id >= doc.nodes_seq().len() || k > doc.nodes_seq()[id as int].children@.len() {
        Seq::empty()
    } else {
        let kid = doc.nodes_seq()[id as int].children@[k - 1];
        spec_text_kids(doc, id, k - 1) + if id < kid {
            spec_text_content(doc, kid)
        } else {
            Seq::empty()
        }
    }
}

/// Number of element nodes among the ids in `s`.
pub open spec fn spec_count_elements(doc: &Document, s: Seq<NodeId>) -> int
    decreases s.len(),
{
    if s.len() == 0 {
        0
    } else {
        spec_count_elements(doc, s.drop_last()) + if s.last() < doc.nodes_seq().len()
            && doc.nodes_seq()[s.last() as int].data is Element {
            1int
        } else {
            0int
        }
    }
}

/// Scan of the sibling list from position `k` with `count` elements seen,
/// looking for `node_id`; mirrors the 1-based element-index walk.
pub open spec fn spec_element_index_scan(
    doc: &Document,
    node_id: NodeId,
    sibs: Seq<NodeId>,
    k: int,
    count: int,
) -> Option<usize>
    decreases sibs.len() - k,
{
    if k < 0 || k >= sibs.len() {
        None
    } else if sibs[k] < doc.nodes_seq().len() && doc.nodes_seq()[sibs[k] as int].data is Element {
        if sibs[k] == node_id {
            Some((count + 1) as usize)
        } else {
            spec_element_index_scan(doc, node_id, sibs, k + 1, count + 1)
        }
    } else {
        spec_element_index_scan(doc, node_id, sibs, k + 1, count)
    }
}

/// The 1-based index of `node_id` among its parent's element children.
pub open spec fn spec_element_index(doc: &Document, node_id: NodeId) -> Option<usize> {
    if node_id < doc.nodes_seq().len() && doc.nodes_seq()[node_id as int].data is Element
        && doc.nodes_seq()[node_id as int].parent is Some {
        let parent_id = doc.nodes_seq()[node_id as int].parent->0;
        let sibs = if parent_id < doc.nodes_seq().len() {
            doc.nodes_seq()[parent_id as int].children@
        } else {
            Seq::empty()
        };
        spec_element_index_scan(doc, node_id, sibs, 0, 0)
    } else {
        None
    }
}

/// The last id in `sibs[..k]` that names an element node, scanning backward.
pub open spec fn spec_last_element(doc: &Document, sibs: Seq<NodeId>, k: int) -> Option<NodeId>
    decreases k,
{
    if k <= 0 || k > sibs.len() {
        None
    } else if sibs[k - 1] < doc.nodes_seq().len() && doc.nodes_seq()[sibs[k - 1] as int].data
        is Element {
        Some(sibs[k - 1])
    } else {
        spec_last_element(doc, sibs, k - 1)
    }
}

/// Whether the last element id in the parent's child list is `node_id`.
pub open spec fn spec_is_last_element_child(doc: &Document, node_id: NodeId) -> bool {
    &&& node_id < doc.nodes_seq().len()
    &&& doc.nodes_seq()[node_id as int].data is Element
    &&& doc.nodes_seq()[node_id as int].parent matches Some(parent_id) && {
        let sibs = if parent_id < doc.nodes_seq().len() {
            doc.nodes_seq()[parent_id as int].children@
        } else {
            Seq::<NodeId>::empty()
        };
        spec_last_element(doc, sibs, sibs.len() as int) == Some(node_id)
    }
}

} // verus!
