//! CSS selectors: data model, matching against a document, specificity.
//!
//! A complex selector is stored right-to-left: the subject compound first,
//! then each ancestor compound with the combinator that links it to the part
//! before it. Matching follows that order, with backtracking across
//! `Descendant` hops.

use vstd::prelude::*;

use crate::dom::{
    spec_attr, spec_classes, spec_element_index, spec_is_last_element_child, Document, NodeData,
    NodeId,
};
use crate::text::{
    chars_contains, chars_ends_with, chars_eq, chars_of, chars_starts_with, is_digit, lower_chars,
    spec_contains_seq, spec_ends_with, spec_lower, spec_starts_with, spec_words, split_words,
    string_from_chars, trim_chars,
};

verus! {

/// Combinators between compound selectors.
#[derive(Debug, Clone, Copy, PartialEq, Eq, Structural)]
pub enum Combinator {
    /// Space: descendant of the matching ancestor.
    Descendant,
    /// `>`: direct child.
    Child,
}

/// Structural pseudo-classes.
#[derive(Debug, Clone, Copy, PartialEq, Eq, Structural)]
pub enum PseudoClass {
    FirstChild,
    LastChild,
    /// `nth-child(An+B)`, stored as `(a, b)`.
    NthChild(i32, i32),
    OnlyChild,
}

/// Attribute selector forms.
#[derive(Debug, Clone, PartialEq)]
pub enum AttributeSelector {
    /// `[attr]`
    Exists(String),
    /// `[attr="val"]`
    Equals(String, String),
    /// `[attr*="val"]`
    Contains(String, String),
    /// `[attr^="val"]`
    StartsWith(String, String),
    /// `[attr$="val"]`
    EndsWith(String, String),
    /// `[attr~="val"]`
    WordMatch(String, String),
}

#[derive(Debug, Clone, PartialEq)]
pub enum SimpleSelector {
    Universal,
    Tag(String),
    Class(String),
    Id(String),
    Attribute(AttributeSelector),
    PseudoClass(PseudoClass),
}

/// A compound selector: simple selectors that must all hold of one element.
#[derive(Debug, Clone, PartialEq)]
pub struct CompoundSelector {
    pub simple_selectors: Vec<SimpleSelector>,
}

/// Whether position `idx` (1-based) satisfies the `An+B` formula.
/// For `a == 0` only position `b` matches; otherwise `idx` must be `b`
/// plus a step of `a` taken zero or more times.
pub open spec fn spec_nth_matches(a: int, b: int, idx: int) -> bool {
    if a == 0 {
        idx == b
    } else if a > 0 {
        idx >= b && (idx - b) % a == 0
    } else {
        idx <= b && (b - idx) % (-a) == 0
    }
}

/// `An+B` test on a 1-based element index.
pub fn nth_child_matches(a: i32, b: i32, index: i32) -> (r: bool)
    ensures
        r == spec_nth_matches(a as int, b as int, index as int),
{
    if a == 0 {
        return index == b;
    }
    let ai: i64 = a as i64;
    let bi: i64 = b as i64;
    let idx: i64 = index as i64;
    if a > 0 {
        idx >= bi && (idx - bi) % ai == 0
    } else {
        idx <= bi && (bi - idx) % (-ai) == 0
    }
}

/// Whether one simple selector holds of the element at `node_id`.
pub open spec fn spec_simple_matches(doc: &Document, node_id: NodeId, s: SimpleSelector) -> bool {
    node_id < doc.nodes_seq().len() && match doc.nodes_seq()[node_id as int].data {
        NodeData::Element(e) => match s {
            SimpleSelector::Universal => true,
            SimpleSelector::Tag(t) => spec_lower(e.tag_name@) == spec_lower(t@),
            SimpleSelector::Class(c) => spec_classes(e.attributes@).contains(c@),
            SimpleSelector::Id(i) => spec_attr(e.attributes@, "id"@) == Some(i@),
            SimpleSelector::Attribute(a) => match a {
                AttributeSelector::Exists(n) => spec_attr(e.attributes@, n@) is Some,
                AttributeSelector::Equals(n, v) => spec_attr(e.attributes@, n@) == Some(v@),
                AttributeSelector::Contains(n, v) => spec_attr(e.attributes@, n@) matches Some(x)
                    && spec_contains_seq(x, v@),
                AttributeSelector::StartsWith(n, v) => spec_attr(e.attributes@, n@) matches Some(x)
                    && spec_starts_with(x, v@),
                AttributeSelector::EndsWith(n, v) => spec_attr(e.attributes@, n@) matches Some(x)
                    && spec_ends_with(x, v@),
                AttributeSelector::WordMatch(n, v) => spec_attr(e.attributes@, n@) matches Some(x)
                    && spec_words(x).contains(v@),
            },
            SimpleSelector::PseudoClass(p) => match p {
                PseudoClass::FirstChild => spec_element_index(doc, node_id) == Some(1usize),
                PseudoClass::LastChild => spec_is_last_element_child(doc, node_id),
                PseudoClass::OnlyChild => spec_element_index(doc, node_id) == Some(1usize)
                    && spec_is_last_element_child(doc, node_id),
                PseudoClass::NthChild(a, b) => spec_element_index(doc, node_id) matches Some(idx)
                    && idx <= 0x7fffffffusize && spec_nth_matches(a as int, b as int, idx as int),
            },
        },
        _ => false,
    }
}

/// Whether every simple selector of the compound holds at `node_id`.
pub open spec fn spec_compound_matches(doc: &Document, node_id: NodeId, c: &CompoundSelector) -> bool {
    &&& node_id < doc.nodes_seq().len()
    &&& doc.nodes_seq()[node_id as int].data is Element
    &&& forall|j: int|
        0 <= j < c.simple_selectors@.len() ==> spec_simple_matches(
            doc,
            node_id,
            #[trigger] c.simple_selectors@[j],
        )
}

impl CompoundSelector {
    pub fn new() -> (r: CompoundSelector)
        ensures
            r.simple_selectors@.len() == 0,
    {
        CompoundSelector { simple_selectors: Vec::new() }
    }

    /// Evaluate the compound against one node.
    pub fn matches(&self, document: &Document, node_id: NodeId) -> (r: bool)
        requires
            document.wf(),
        ensures
            r == spec_compound_matches(document, node_id, self),
    {
        let node = match document.get_node(node_id) {
            Some(n) => n,
            None => { return false },
        };
        let element = match node.as_element() {
            Some(e) => e,
            None => { return false },
        };
        let mut si: usize = 0;
        while si < self.simple_selectors.len()
            invariant
                document.wf(),
                node_id < document.nodes_seq().len(),
                document.nodes_seq()[node_id as int].data == NodeData::Element(*element),
                si <= self.simple_selectors@.len(),
                forall|j: int|
                    0 <= j < si ==> spec_simple_matches(
                        document,
                        node_id,
                        #[trigger] self.simple_selectors@[j],
                    ),
            decreases self.simple_selectors@.len() - si,
        {
            let ok = simple_matches(document, node_id, element, &self.simple_selectors[si]);
            if !ok {
                return false;
            }
            si = si + 1;
        }
        true
    }

    /// Specificity counts of this compound alone.
    pub fn specificity(&self) -> (r: Specificity)
        ensures
            r == spec_compound_specificity(self.simple_selectors@),
    {
        let mut ids: usize = 0;
        let mut classes: usize = 0;
        let mut tags: usize = 0;
        let mut si: usize = 0;
        while si < self.simple_selectors.len()
            invariant
                si <= self.simple_selectors@.len(),
                ids + classes + tags <= si,
                (Specificity { ids, classes, tags }) == spec_compound_specificity(
                    self.simple_selectors@.take(si as int),
                ),
            decreases self.simple_selectors@.len() - si,
        {
            proof {
                assert(self.simple_selectors@.take(si + 1).drop_last() =~= self.simple_selectors@.take(
                si as int));
            }
            match &self.simple_selectors[si] {
                SimpleSelector::Id(_) => {
                    ids = ids + 1;
                },
                SimpleSelector::Class(_) => {
                    classes = classes + 1;
                },
                SimpleSelector::Attribute(_) => {
                    classes = classes + 1;
                },
                SimpleSelector::PseudoClass(_) => {
                    classes = classes + 1;
                },
                SimpleSelector::Tag(_) => {
                    tags = tags + 1;
                },
                SimpleSelector::Universal => {},
            }
            si = si + 1;
        }
        proof {
            assert(self.simple_selectors@.take(self.simple_selectors@.len() as int)
                =~= self.simple_selectors@);
        }
        Specificity { ids, classes, tags }
    }
}

impl Default for CompoundSelector {
    fn default() -> (r: CompoundSelector)
        ensures
            r.simple_selectors@.len() == 0,
    {
        CompoundSelector::new()
    }
}

/// One simple selector evaluated against a known element node.
#[verifier::loop_isolation(false)]
fn simple_matches(
    document: &Document,
    node_id: NodeId,
    element: &crate::dom::ElementData,
    s: &SimpleSelector,
) -> (r: bool)
    requires
        document.wf(),
        node_id < document.nodes_seq().len(),
        document.nodes_seq()[node_id as int].data == NodeData::Element(*element),
    ensures
        r == spec_simple_matches(document, node_id, *s),
{
    match s {
        SimpleSelector::Universal => true,
        SimpleSelector::Tag(tag) => {
            let et = chars_of(element.tag_name.as_str());
            let el = lower_chars(&et);
            let st = chars_of(tag.as_str());
            let sl = lower_chars(&st);
            chars_eq(&el, &sl)
        },
        SimpleSelector::Class(class) => {
            let classes = element.classes();
            let cc = chars_of(class.as_str());
            let mut j: usize = 0;
            let ghost cls = spec_classes(element.attributes@);
            while j < classes.len()
                invariant
                    cc@ == class@,
                    classes@.map_values(|x: String| x@) == cls,
                    forall|m: int| 0 <= m < j ==> cls[m] != class@,
                decreases classes@.len() - j,
            {
                let kc = chars_of(classes[j].as_str());
                if chars_eq(&kc, &cc) {
                    proof {
                        assert(cls[j as int] == classes@[j as int]@);
                        assert(cls[j as int] == class@);
                        assert(cls.contains(class@));
                    }
                    return true;
                }
                j = j + 1;
            }
            proof {
                assert(forall|m: int| 0 <= m < cls.len() ==> cls[m] != class@);
            }
            false
        },
        SimpleSelector::Id(id) => {
            match element.get_attribute("id") {
                Some(v) => {
                    let vc = chars_of(v.as_str());
                    let ic = chars_of(id.as_str());
                    chars_eq(&vc, &ic)
                },
                None => false,
            }
        },
        SimpleSelector::Attribute(attr_sel) => attribute_matches(element, attr_sel),
        SimpleSelector::PseudoClass(pseudo) => match pseudo {
            PseudoClass::FirstChild => {
                match document.element_index(node_id) {
                    Some(i) => i == 1,
                    None => false,
                }
            },
            PseudoClass::LastChild => document.is_last_element_child(node_id),
            PseudoClass::OnlyChild => {
                let first = match document.element_index(node_id) {
                    Some(i) => i == 1,
                    None => false,
                };
                first && document.is_last_element_child(node_id)
            },
            PseudoClass::NthChild(a, b) => {
                match document.element_index(node_id) {
                    Some(index) => {
                        if index <= 0x7fffffffusize {
                            nth_child_matches(*a, *b, index as i32)
                        } else {
                            false
                        }
                    },
                    None => false,
                }
            },
        },
    }
}

/// One attribute selector evaluated against an element's attributes.
#[verifier::loop_isolation(false)]
fn attribute_matches(element: &crate::dom::ElementData, a: &AttributeSelector) -> (r: bool)
    ensures
        r == spec_simple_matches_attr(element.attributes@, a),
{
    match a {
        AttributeSelector::Exists(attr) => element.get_attribute(attr.as_str()).is_some(),
        AttributeSelector::Equals(attr, val) => {
            match element.get_attribute(attr.as_str()) {
                Some(v) => {
                    let vc = chars_of(v.as_str());
                    let wc = chars_of(val.as_str());
                    chars_eq(&vc, &wc)
                },
                None => false,
            }
        },
        AttributeSelector::Contains(attr, val) => {
            match element.get_attribute(attr.as_str()) {
                Some(v) => {
                    let vc = chars_of(v.as_str());
                    let wc = chars_of(val.as_str());
                    chars_contains(&vc, &wc)
                },
                None => false,
            }
        },
        AttributeSelector::StartsWith(attr, val) => {
            match element.get_attribute(attr.as_str()) {
                Some(v) => {
                    let vc = chars_of(v.as_str());
                    let wc = chars_of(val.as_str());
                    chars_starts_with(&vc, &wc)
                },
                None => false,
            }
        },
        AttributeSelector::EndsWith(attr, val) => {
            match element.get_attribute(attr.as_str()) {
                Some(v) => {
                    let vc = chars_of(v.as_str());
                    let wc = chars_of(val.as_str());
                    chars_ends_with(&vc, &wc)
                },
                None => false,
            }
        },
        AttributeSelector::WordMatch(attr, val) => {
            match element.get_attribute(attr.as_str()) {
                Some(v) => {
                    let vc = chars_of(v.as_str());
                    let words = split_words(&vc);
                    let wc = chars_of(val.as_str());
                    let ghost ws = spec_words(v@);
                    let mut j: usize = 0;
                    while j < words.len()
                        invariant
                            wc@ == val@,
                            words@.map_values(|w: Vec<char>| w@) == ws,
                            forall|m: int| 0 <= m < j ==> ws[m] != val@,
                        decreases words@.len() - j,
                    {
                        if chars_eq(&words[j], &wc) {
                            proof {
                                assert(ws[j as int] == words@[j as int]@);
                                assert(ws[j as int] == val@);
                                assert(ws.contains(val@));
                            }
                            return true;
                        }
                        j = j + 1;
                    }
                    proof {
                        assert(forall|m: int| 0 <= m < ws.len() ==> ws[m] != val@);
                    }
                    false
                },
                None => false,
            }
        },
    }
}

/// The attribute-selector part of `spec_simple_matches`, over an attribute
/// list alone.
pub open spec fn spec_simple_matches_attr(
    attrs: Seq<(String, String)>,
    a: &AttributeSelector,
) -> bool {
    match a {
        AttributeSelector::Exists(n) => spec_attr(attrs, n@) is Some,
        AttributeSelector::Equals(n, v) => spec_attr(attrs, n@) == Some(v@),
        AttributeSelector::Contains(n, v) => spec_attr(attrs, n@) matches Some(x)
            && spec_contains_seq(x, v@),
        AttributeSelector::StartsWith(n, v) => spec_attr(attrs, n@) matches Some(x)
            && spec_starts_with(x, v@),
        AttributeSelector::EndsWith(n, v) => spec_attr(attrs, n@) matches Some(x) && spec_ends_with(
            x,
            v@,
        ),
        AttributeSelector::WordMatch(n, v) => spec_attr(attrs, n@) matches Some(x) && spec_words(
            x,
        ).contains(v@),
    }
}

/// A complex selector: subject compound first, then ancestor compounds,
/// each with the combinator binding it to the part before it.
#[derive(Debug, Clone, PartialEq)]
pub struct ComplexSelector {
    pub parts: Vec<(CompoundSelector, Option<Combinator>)>,
}

/// Matching of the ancestor parts from `part_index` on, starting at the
/// node that matched the previous part.
pub open spec fn spec_match_ancestors(
    doc: &Document,
    parts: Seq<(CompoundSelector, Option<Combinator>)>,
    node_id: NodeId,
    part_index: int,
) -> bool
    decreases node_id, 1int,
        when doc.wf() && node_id < doc.nodes_seq().len()
{
    if part_index >= parts.len() {
        true
    } else if part_index < 0 {
        false
    } else {
        let comb = match parts[part_index].1 {
            Some(c) => c,
            None => Combinator::Descendant,
        };
        match comb {
            Combinator::Child => {
                match doc.nodes_seq()[node_id as int].parent {
                    Some(p) => spec_compound_matches(doc, p, &parts[part_index].0)
                        && spec_match_ancestors(doc, parts, p, part_index + 1),
                    None => false,
                }
            },
            Combinator::Descendant => spec_match_descendant(
                doc,
                parts,
                doc.nodes_seq()[node_id as int].parent,
                part_index,
            ),
        }
    }
}

/// Search up the ancestor chain for a node matching part `part_index`,
/// with backtracking: a nearer ancestor that matches but whose own chain
/// fails does not stop an elder ancestor from satisfying the part.
pub open spec fn spec_match_descendant(
    doc: &Document,
    parts: Seq<(CompoundSelector, Option<Combinator>)>,
    cur: Option<NodeId>,
    part_index: int,
) -> bool
    decreases
            (match cur {
                Some(a) => a + 1,
                None => 0,
            }),
            0int,
        when doc.wf() && (cur matches Some(a) ==> a < doc.nodes_seq().len())
{
    match cur {
        None => false,
        Some(a) => (spec_compound_matches(doc, a, &parts[part_index].0) && spec_match_ancestors(
            doc,
            parts,
            a,
            part_index + 1,
        )) || spec_match_descendant(doc, parts, doc.nodes_seq()[a as int].parent, part_index),
    }
}

/// Whether the whole complex selector matches the node.
pub open spec fn spec_complex_matches(doc: &Document, sel: &ComplexSelector, node_id: NodeId) -> bool {
    &&& sel.parts@.len() > 0
    &&& spec_compound_matches(doc, node_id, &sel.parts@[0].0)
    &&& (sel.parts@.len() > 1 ==> spec_match_ancestors(doc, sel.parts@, node_id, 1))
}

impl ComplexSelector {
    pub fn new(parts: Vec<(CompoundSelector, Option<Combinator>)>) -> (r: ComplexSelector)
        ensures
            r.parts == parts,
    {
        ComplexSelector { parts }
    }

    pub fn from_compound(compound: CompoundSelector) -> (r: ComplexSelector)
        ensures
            r.parts@.len() == 1,
            r.parts@[0].0 == compound,
            r.parts@[0].1 is None,
    {
        let mut parts: Vec<(CompoundSelector, Option<Combinator>)> = Vec::new();
        parts.push((compound, None));
        ComplexSelector { parts }
    }

    /// Evaluate the selector against one node.
    pub fn matches(&self, document: &Document, node_id: NodeId) -> (r: bool)
        requires
            document.wf(),
        ensures
            r == spec_complex_matches(document, self, node_id),
    {
        if self.parts.len() == 0 {
            return false;
        }
        if !self.parts[0].0.matches(document, node_id) {
            return false;
        }
        if self.parts.len() == 1 {
            return true;
        }
        self.match_ancestors(document, node_id, 1)
    }

    fn match_ancestors(&self, document: &Document, node_id: NodeId, part_index: usize) -> (r: bool)
        requires
            document.wf(),
            node_id < document.nodes_seq().len(),
        ensures
            r == spec_match_ancestors(document, self.parts@, node_id, part_index as int),
        decreases node_id,
    {
        let plen: usize = self.parts.len();
        if part_index >= plen {
            return true;
        }
        let combinator = match self.parts[part_index].1 {
            Some(c) => c,
            None => Combinator::Descendant,
        };
        match combinator {
            Combinator::Child => {
                match document.parent(node_id) {
                    Some(parent_id) => {
                        proof {
                            assert(parent_id < node_id);
                        }
                        if self.parts[part_index].0.matches(document, parent_id) {
                            self.match_ancestors(document, parent_id, part_index + 1)
                        } else {
                            false
                        }
                    },
                    None => false,
                }
            },
            Combinator::Descendant => {
                let mut current = document.parent(node_id);
                let ghost mut bound: int = node_id as int;
                loop
                    invariant
                        document.wf(),
                        node_id < document.nodes_seq().len(),
                        plen == self.parts@.len(),
                        part_index < plen,
                        0 <= bound <= node_id,
                        current matches Some(c) ==> c < bound && c < document.nodes_seq().len(),
                        spec_match_ancestors(
                            document,
                            self.parts@,
                            node_id,
                            part_index as int,
                        ) == spec_match_descendant(
                            document,
                            self.parts@,
                            current,
                            part_index as int,
                        ),
                    decreases bound,
                {
                    match current {
                        Some(ancestor_id) => {
                            if self.parts[part_index].0.matches(document, ancestor_id) {
                                if self.match_ancestors(document, ancestor_id, part_index + 1) {
                                    return true;
                                }
                            }
                            current = document.parent(ancestor_id);
                            proof {
                                bound = ancestor_id as int;
                            }
                        },
                        None => { return false },
                    }
                }
            },
        }
    }

    /// Summed specificity of all parts.
    pub fn specificity(&self) -> (r: Specificity)
        ensures
            r == spec_complex_specificity(self.parts@),
    {
        let mut total = Specificity::new();
        let mut pi: usize = 0;
        while pi < self.parts.len()
            invariant
                pi <= self.parts@.len(),
                total == spec_complex_specificity(self.parts@.take(pi as int)),
            decreases self.parts@.len() - pi,
        {
            proof {
                assert(self.parts@.take(pi + 1).drop_last() =~= self.parts@.take(pi as int));
            }
            let sp = self.parts[pi].0.specificity();
            total = Specificity {
                ids: usat_add(total.ids, sp.ids),
                classes: usat_add(total.classes, sp.classes),
                tags: usat_add(total.tags, sp.tags),
            };
            pi = pi + 1;
        }
        proof {
            assert(self.parts@.take(self.parts@.len() as int) =~= self.parts@);
        }
        total
    }

    /// The subject (rightmost) compound.
    pub fn subject(&self) -> (r: Option<&CompoundSelector>)
        ensures
            match r {
                Some(c) => self.parts@.len() > 0 && *c == self.parts@[0].0,
                None => self.parts@.len() == 0,
            },
    {
        if self.parts.len() > 0 {
            Some(&self.parts[0].0)
        } else {
            None
        }
    }
}

/// A selector as a stylesheet rule holds it.
#[derive(Debug, Clone, PartialEq)]
pub struct Selector {
    pub complex: ComplexSelector,
}

impl Selector {
    pub fn new() -> (r: Selector)
        ensures
            r.complex.parts@.len() == 0,
    {
        Selector { complex: ComplexSelector { parts: Vec::new() } }
    }

    /// A selector matching one tag name.
    pub fn tag(tag_name: &str) -> (r: Selector)
        ensures
            r.complex.parts@.len() == 1,
            r.complex.parts@[0].1 is None,
            r.complex.parts@[0].0.simple_selectors@.len() == 1,
            r.complex.parts@[0].0.simple_selectors@[0] matches SimpleSelector::Tag(t) && t@
                == spec_lower(tag_name@),
    {
        let tc = chars_of(tag_name);
        let lowered = lower_chars(&tc);
        let mut compound = CompoundSelector::new();
        compound.simple_selectors.push(SimpleSelector::Tag(string_from_chars(&lowered)));
        Selector { complex: ComplexSelector::from_compound(compound) }
    }

    /// A selector matching one class.
    pub fn class(class_name: &str) -> (r: Selector)
        ensures
            r.complex.parts@.len() == 1,
            r.complex.parts@[0].1 is None,
            r.complex.parts@[0].0.simple_selectors@.len() == 1,
            r.complex.parts@[0].0.simple_selectors@[0] matches SimpleSelector::Class(c) && c@
                == class_name@,
    {
        let cc = chars_of(class_name);
        let mut compound = CompoundSelector::new();
        compound.simple_selectors.push(SimpleSelector::Class(string_from_chars(&cc)));
        Selector { complex: ComplexSelector::from_compound(compound) }
    }

    /// A selector matching one id.
    pub fn id(id: &str) -> (r: Selector)
        ensures
            r.complex.parts@.len() == 1,
            r.complex.parts@[0].1 is None,
            r.complex.parts@[0].0.simple_selectors@.len() == 1,
            r.complex.parts@[0].0.simple_selectors@[0] matches SimpleSelector::Id(i) && i@ == id@,
    {
        let ic = chars_of(id);
        let mut compound = CompoundSelector::new();
        compound.simple_selectors.push(SimpleSelector::Id(string_from_chars(&ic)));
        Selector { complex: ComplexSelector::from_compound(compound) }
    }

    pub fn matches(&self, document: &Document, node_id: NodeId) -> (r: bool)
        requires
            document.wf(),
        ensures
            r == spec_complex_matches(document, &self.complex, node_id),
    {
        self.complex.matches(document, node_id)
    }

    pub fn specificity(&self) -> (r: Specificity)
        ensures
            r == spec_complex_specificity(self.complex.parts@),
    {
        self.complex.specificity()
    }

    /// All simple selectors of all parts, flattened, subject part first.
    pub fn simple_selectors(&self) -> (r: Vec<SimpleSelector>)
        ensures
            r@.len() == spec_flat_selectors(self.complex.parts@).len(),
            forall|j: int|
                0 <= j < r@.len() ==> ss_like(
                    #[trigger] r@[j],
                    spec_flat_selectors(self.complex.parts@)[j],
                ),
    {
        let mut out: Vec<SimpleSelector> = Vec::new();
        let mut pi: usize = 0;
        while pi < self.complex.parts.len()
            invariant
                pi <= self.complex.parts@.len(),
                out@.len() == spec_flat_selectors(self.complex.parts@.take(pi as int)).len(),
                forall|j: int|
                    0 <= j < out@.len() ==> ss_like(
                        #[trigger] out@[j],
                        spec_flat_selectors(self.complex.parts@.take(pi as int))[j],
                    ),
            decreases self.complex.parts@.len() - pi,
        {
            proof {
                assert(self.complex.parts@.take(pi + 1).drop_last() =~= self.complex.parts@.take(
                pi as int));
            }
            let compound = &self.complex.parts[pi].0;
            let mut si: usize = 0;
            while si < compound.simple_selectors.len()
                invariant
                    si <= compound.simple_selectors@.len(),
                    pi < self.complex.parts@.len(),
                    *compound == self.complex.parts@[pi as int].0,
                    out@.len() == spec_flat_selectors(self.complex.parts@.take(pi as int)).len()
                        + si,
                    forall|j: int|
                        0 <= j < out@.len() ==> ss_like(
                            #[trigger] out@[j],
                            (spec_flat_selectors(self.complex.parts@.take(pi as int))
                                + compound.simple_selectors@.take(si as int))[j],
                        ),
                decreases compound.simple_selectors@.len() - si,
            {
                out.push(compound.simple_selectors[si].duplicate());
                si = si + 1;
            }
            proof {
                assert(self.complex.parts@.take(pi + 1).last() == self.complex.parts@[pi as int]);
                assert(compound.simple_selectors@.take(compound.simple_selectors@.len() as int)
                    =~= compound.simple_selectors@);
            }
            pi = pi + 1;
        }
        proof {
            assert(self.complex.parts@.take(self.complex.parts@.len() as int)
                =~= self.complex.parts@);
        }
        out
    }
}

impl Default for Selector {
    fn default() -> (r: Selector)
        ensures
            r.complex.parts@.len() == 0,
    {
        Selector::new()
    }
}

/// Two simple selectors that read the same.
pub open spec fn ss_like(a: SimpleSelector, b: SimpleSelector) -> bool {
    match (a, b) {
        (SimpleSelector::Universal, SimpleSelector::Universal) => true,
        (SimpleSelector::Tag(x), SimpleSelector::Tag(y)) => x@ == y@,
        (SimpleSelector::Class(x), SimpleSelector::Class(y)) => x@ == y@,
        (SimpleSelector::Id(x), SimpleSelector::Id(y)) => x@ == y@,
        (SimpleSelector::Attribute(x), SimpleSelector::Attribute(y)) => attr_sel_like(x, y),
        (SimpleSelector::PseudoClass(x), SimpleSelector::PseudoClass(y)) => x == y,
        _ => false,
    }
}

/// Two attribute selectors that read the same.
pub open spec fn attr_sel_like(a: AttributeSelector, b: AttributeSelector) -> bool {
    match (a, b) {
        (AttributeSelector::Exists(x), AttributeSelector::Exists(y)) => x@ == y@,
        (AttributeSelector::Equals(x, v), AttributeSelector::Equals(y, w)) => x@ == y@ && v@ == w@,
        (AttributeSelector::Contains(x, v), AttributeSelector::Contains(y, w)) => x@ == y@ && v@
            == w@,
        (AttributeSelector::StartsWith(x, v), AttributeSelector::StartsWith(y, w)) => x@ == y@ && v@
            == w@,
        (AttributeSelector::EndsWith(x, v), AttributeSelector::EndsWith(y, w)) => x@ == y@ && v@
            == w@,
        (AttributeSelector::WordMatch(x, v), AttributeSelector::WordMatch(y, w)) => x@ == y@ && v@
            == w@,
        _ => false,
    }
}

impl AttributeSelector {
    /// A copy that reads the same.
    pub fn duplicate(&self) -> (r: AttributeSelector)
        ensures
            attr_sel_like(r, *self),
    {
        match self {
            AttributeSelector::Exists(n) => AttributeSelector::Exists(n.clone()),
            AttributeSelector::Equals(n, v) => AttributeSelector::Equals(n.clone(), v.clone()),
            AttributeSelector::Contains(n, v) => AttributeSelector::Contains(n.clone(), v.clone()),
            AttributeSelector::StartsWith(n, v) => AttributeSelector::StartsWith(
                n.clone(),
                v.clone(),
            ),
            AttributeSelector::EndsWith(n, v) => AttributeSelector::EndsWith(n.clone(), v.clone()),
            AttributeSelector::WordMatch(n, v) => AttributeSelector::WordMatch(
                n.clone(),
                v.clone(),
            ),
        }
    }
}

impl SimpleSelector {
    /// A copy that reads the same.
    pub fn duplicate(&self) -> (r: SimpleSelector)
        ensures
            ss_like(r, *self),
    {
        match self {
            SimpleSelector::Universal => SimpleSelector::Universal,
            SimpleSelector::Tag(t) => SimpleSelector::Tag(t.clone()),
            SimpleSelector::Class(c) => SimpleSelector::Class(c.clone()),
            SimpleSelector::Id(i) => SimpleSelector::Id(i.clone()),
            SimpleSelector::Attribute(a) => SimpleSelector::Attribute(a.duplicate()),
            SimpleSelector::PseudoClass(p) => SimpleSelector::PseudoClass(*p),
        }
    }
}

/// All simple selectors of a part list, flattened in part order.
pub open spec fn spec_flat_selectors(
    parts: Seq<(CompoundSelector, Option<Combinator>)>,
) -> Seq<SimpleSelector>
    decreases parts.len(),
{
    if parts.len() == 0 {
        Seq::empty()
    } else {
        spec_flat_selectors(parts.drop_last()) + parts.last().0.simple_selectors@
    }
}

/// Specificity as a `(ids, classes, tags)` triple, compared lexicographically.
#[derive(Debug, Clone, Copy, PartialEq, Eq, Structural)]
pub struct Specificity {
    pub ids: usize,
    pub classes: usize,
    pub tags: usize,
}

impl Specificity {
    pub fn new() -> (r: Specificity)
        ensures
            r.ids == 0 && r.classes == 0 && r.tags == 0,
    {
        Specificity { ids: 0, classes: 0, tags: 0 }
    }
}

impl Default for Specificity {
    fn default() -> (r: Specificity)
        ensures
            r.ids == 0 && r.classes == 0 && r.tags == 0,
    {
        Specificity::new()
    }
}

/// Lexicographic strict order on specificities.
pub open spec fn spec_spec_lt(a: Specificity, b: Specificity) -> bool {
    a.ids < b.ids || (a.ids == b.ids && (a.classes < b.classes || (a.classes == b.classes && a.tags
        < b.tags)))
}

/// Strict lexicographic comparison of two specificities.
pub fn specificity_lt(a: &Specificity, b: &Specificity) -> (r: bool)
    ensures
        r == spec_spec_lt(*a, *b),
{
    if a.ids != b.ids {
        a.ids < b.ids
    } else if a.classes != b.classes {
        a.classes < b.classes
    } else {
        a.tags < b.tags
    }
}

/// Saturating add used when summing specificity counts.
fn usat_add(a: usize, b: usize) -> (r: usize)
    ensures
        r == spec_usat_add(a as int, b as int),
{
    if a <= usize::MAX - b {
        a + b
    } else {
        usize::MAX
    }
}

pub open spec fn spec_usat_add(a: int, b: int) -> int {
    if a + b <= usize::MAX {
        a + b
    } else {
        usize::MAX as int
    }
}

/// Specificity of one compound: one per id, one per class, attribute or
/// pseudo-class, one per tag.
pub open spec fn spec_compound_specificity(sels: Seq<SimpleSelector>) -> Specificity
    decreases sels.len(),
{
    if sels.len() == 0 {
        Specificity { ids: 0, classes: 0, tags: 0 }
    } else {
        let rest = spec_compound_specificity(sels.drop_last());
        match sels.last() {
            SimpleSelector::Id(_) => Specificity { ids: (rest.ids + 1) as usize, ..rest },
            SimpleSelector::Class(_) => Specificity {
                classes: (rest.classes + 1) as usize,
                ..rest
            },
            SimpleSelector::Attribute(_) => Specificity {
                classes: (rest.classes + 1) as usize,
                ..rest
            },
            SimpleSelector::PseudoClass(_) => Specificity {
                classes: (rest.classes + 1) as usize,
                ..rest
            },
            SimpleSelector::Tag(_) => Specificity { tags: (rest.tags + 1) as usize, ..rest },
            SimpleSelector::Universal => rest,
        }
    }
}

/// Summed specificity over all parts of a complex selector, saturating.
pub open spec fn spec_complex_specificity(
    parts: Seq<(CompoundSelector, Option<Combinator>)>,
) -> Specificity
    decreases parts.len(),
{
    if parts.len() == 0 {
        Specificity { ids: 0, classes: 0, tags: 0 }
    } else {
        let rest = spec_complex_specificity(parts.drop_last());
        let sp = spec_compound_specificity(parts.last().0.simple_selectors@);
        Specificity {
            ids: spec_usat_add(rest.ids as int, sp.ids as int) as usize,
            classes: spec_usat_add(rest.classes as int, sp.classes as int) as usize,
            tags: spec_usat_add(rest.tags as int, sp.tags as int) as usize,
        }
    }
}

/// Valid signed-integer text: an optional sign, then only digits.
pub open spec fn spec_is_int_format(s: Seq<char>) -> bool {
    if s.len() == 0 {
        false
    } else if s[0] == '+' || s[0] == '-' {
        s.len() > 1 && crate::text::spec_all_digits(s.drop_first())
    } else {
        crate::text::spec_all_digits(s)
    }
}

/// The integer such text denotes.
pub open spec fn spec_int_val(s: Seq<char>) -> int {
    if s.len() > 0 && s[0] == '-' {
        -crate::text::spec_digits_val(s.drop_first())
    } else if s.len() > 0 && s[0] == '+' {
        crate::text::spec_digits_val(s.drop_first())
    } else {
        crate::text::spec_digits_val(s)
    }
}

/// What parsing the text as an `i32` yields: the denoted value when the
/// format is valid and the value fits, nothing otherwise.
pub open spec fn spec_parse_i32(s: Seq<char>) -> Option<i32> {
    if spec_is_int_format(s) && -0x8000_0000 <= spec_int_val(s) <= 0x7fff_ffff {
        Some(spec_int_val(s) as i32)
    } else {
        None
    }
}

proof fn lemma_digits_val_nonneg(s: Seq<char>)
    requires
        forall|i: int| 0 <= i < s.len() ==> crate::text::spec_is_digit(#[trigger] s[i]),
    ensures
        crate::text::spec_digits_val(s) >= 0,
    decreases s.len(),
{
    if s.len() > 0 {
        lemma_digits_val_nonneg(s.drop_last());
        assert(crate::text::spec_digits_val(s) == crate::text::spec_digits_val(s.drop_last()) * 10
            + crate::text::spec_digit_val(s.last()));
        assert(crate::text::spec_digits_val(s.drop_last()) * 10 >= 0) by (nonlinear_arith)
            requires
                crate::text::spec_digits_val(s.drop_last()) >= 0,
        ;
    }
}

proof fn lemma_digits_prefix_le(s: Seq<char>, i: int)
    requires
        0 <= i <= s.len(),
        crate::text::spec_all_digits(s),
    ensures
        crate::text::spec_digits_val(s.take(i)) <= crate::text::spec_digits_val(s),
    decreases s.len() - i,
{
    if i == s.len() {
        assert(s.take(i) =~= s);
    } else {
        lemma_digits_prefix_le(s, i + 1);
        let t = s.take(i + 1);
        assert(t.drop_last() =~= s.take(i));
        lemma_digits_val_nonneg(s.take(i));
        assert(crate::text::spec_digits_val(t) == crate::text::spec_digits_val(s.take(i)) * 10
            + crate::text::spec_digit_val(s[i]));
        assert(crate::text::spec_digits_val(s.take(i)) * 10 >= crate::text::spec_digits_val(
            s.take(i),
        )) by (nonlinear_arith)
            requires
                crate::text::spec_digits_val(s.take(i)) >= 0,
        ;
    }
}

/// Parse a whole character vector as an `i32`, as `str::parse` reads it.
#[verifier::loop_isolation(false)]
pub fn parse_i32_chars(s: &Vec<char>) -> (r: Option<i32>)
    ensures
        r == spec_parse_i32(s@),
{
    if s.len() == 0 {
        return None;
    }
    let neg = s[0] == '-';
    let signed = neg || s[0] == '+';
    let start: usize = if signed {
        1
    } else {
        0
    };
    if start >= s.len() {
        return None;
    }
    let ghost body = if signed {
        s@.drop_first()
    } else {
        s@
    };
    let mut acc: i64 = 0;
    let mut i: usize = start;
    proof {
        assert(body.take(0) =~= Seq::<char>::empty());
    }
    while i < s.len()
        invariant
            start <= i <= s@.len(),
            0 <= acc <= 0x8000_0000i64,
            forall|j: int| start <= j < i ==> crate::text::spec_is_digit(#[trigger] s@[j]),
            acc == crate::text::spec_digits_val(body.take(i - start)),
        decreases s@.len() - i,
    {
        let c = s[i];
        if !is_digit(c) {
            proof {
                assert(!crate::text::spec_is_digit(body[i - start]));
                assert(!crate::text::spec_all_digits(body));
                if s@[0] == '+' || s@[0] == '-' {
                    assert(body =~= s@.drop_first());
                } else {
                    assert(body =~= s@);
                }
                assert(!spec_is_int_format(s@));
            }
            return None;
        }
        proof {
            assert(body.take(i - start + 1) =~= body.take(i - start).push(s@[i as int]));
            assert(body.take(i - start + 1).drop_last() =~= body.take(i - start));
            lemma_digits_val_nonneg(body.take(i - start));
        }
        acc = acc * 10 + ((c as u32) - ('0' as u32)) as i64;
        proof {
            assert(acc == crate::text::spec_digits_val(body.take(i - start + 1)));
        }
        if acc > 0x8000_0000i64 {
            proof {
                if spec_is_int_format(s@) {
                    if s@[0] == '+' || s@[0] == '-' {
                        assert(body =~= s@.drop_first());
                    } else {
                        assert(body =~= s@);
                    }
                    assert(crate::text::spec_all_digits(body));
                    lemma_digits_prefix_le(body, i - start + 1);
                    assert(crate::text::spec_digits_val(body) > 0x7fff_ffff);
                }
            }
            return None;
        }
        i = i + 1;
    }
    proof {
        assert(body.take(body.len() as int) =~= body);
    }
    if neg {
        Some((-acc) as i32)
    } else {
        if acc > 0x7fff_ffffi64 {
            proof {
                assert(spec_int_val(s@) == acc);
            }
            return None;
        }
        Some(acc as i32)
    }
}

/// First index of `c` in `s` at or after `i`.
pub open spec fn spec_find_from(s: Seq<char>, c: char, i: int) -> Option<int>
    decreases s.len() - i,
{
    if i < 0 || i >= s.len() {
        None
    } else if s[i] == c {
        Some(i)
    } else {
        spec_find_from(s, c, i + 1)
    }
}

fn find_char(s: &Vec<char>, c: char) -> (r: Option<usize>)
    ensures
        match r {
            Some(i) => i < s@.len() && spec_find_from(s@, c, 0) == Some(i as int),
            None => spec_find_from(s@, c, 0) is None,
        },
{
    let mut i: usize = 0;
    while i < s.len()
        invariant
            i <= s@.len(),
            spec_find_from(s@, c, 0) == spec_find_from(s@, c, i as int),
        decreases s@.len() - i,
    {
        if s[i] == c {
            return Some(i);
        }
        i = i + 1;
    }
    None
}

/// First position at or after `at` where `needle` occurs in `hay`.
pub open spec fn spec_find_sub_from(hay: Seq<char>, needle: Seq<char>, at: int) -> Option<int>
    decreases hay.len() + 1 - at,
{
    if at < 0 || at + needle.len() > hay.len() {
        None
    } else if crate::text::spec_occurs_at(hay, needle, at) {
        Some(at)
    } else {
        spec_find_sub_from(hay, needle, at + 1)
    }
}

fn find_sub(hay: &Vec<char>, needle: &Vec<char>) -> (r: Option<usize>)
    ensures
        match r {
            Some(i) => spec_find_sub_from(hay@, needle@, 0) == Some(i as int),
            None => spec_find_sub_from(hay@, needle@, 0) is None,
        },
{
    if needle.len() > hay.len() {
        return None;
    }
    let last: usize = hay.len() - needle.len();
    let mut at: usize = 0;
    while at <= last
        invariant
            needle@.len() <= hay@.len(),
            last == hay@.len() - needle@.len(),
            at <= last + 1,
            spec_find_sub_from(hay@, needle@, 0) == spec_find_sub_from(hay@, needle@, at as int),
        decreases last + 1 - at,
    {
        if crate::text::occurs_at_pub(hay, needle, at) {
            return Some(at);
        }
        if at == last {
            return None;
        }
        at = at + 1;
    }
    None
}

/// The characters of `s` with plain spaces removed, scanning from `i` with
/// `acc` already collected.
pub open spec fn spec_strip_spaces_from(s: Seq<char>, i: int, acc: Seq<char>) -> Seq<char>
    decreases s.len() - i,
{
    if i < 0 || i >= s.len() {
        acc
    } else if s[i] == ' ' {
        spec_strip_spaces_from(s, i + 1, acc)
    } else {
        spec_strip_spaces_from(s, i + 1, acc.push(s[i]))
    }
}

pub open spec fn spec_strip_spaces(s: Seq<char>) -> Seq<char> {
    spec_strip_spaces_from(s, 0, Seq::empty())
}

fn strip_spaces(s: &Vec<char>) -> (r: Vec<char>)
    ensures
        r@ == spec_strip_spaces(s@),
{
    let mut out: Vec<char> = Vec::new();
    let mut i: usize = 0;
    while i < s.len()
        invariant
            i <= s@.len(),
            spec_strip_spaces(s@) == spec_strip_spaces_from(s@, i as int, out@),
        decreases s@.len() - i,
    {
        if s[i] != ' ' {
            out.push(s[i]);
        }
        i = i + 1;
    }
    out
}

/// What the `An+B` formula text denotes, mirroring the reading order:
/// keywords `odd` and `even`, then a plain integer, then an `An+B` form
/// split at the first `n` of the space-stripped text.
pub open spec fn spec_nth_formula(s: Seq<char>) -> Option<(i32, i32)> {
    let t = crate::text::spec_lower(crate::text::spec_trim(s));
    if t == "odd"@ {
        Some((2i32, 1i32))
    } else if t == "even"@ {
        Some((2i32, 0i32))
    } else if spec_parse_i32(t) is Some {
        Some((0i32, spec_parse_i32(t)->0))
    } else {
        let f = spec_strip_spaces(t);
        match spec_find_from(f, 'n', 0) {
            None => None,
            Some(p) => {
                let a_part = f.take(p);
                let b_part = f.skip(p + 1);
                let a: i32 = if a_part.len() == 0 || a_part == "+"@ {
                    1i32
                } else if a_part == "-"@ {
                    -1i32
                } else {
                    match spec_parse_i32(a_part) {
                        Some(v) => v,
                        None => 1i32,
                    }
                };
                let b: i32 = if b_part.len() == 0 {
                    0i32
                } else {
                    match spec_parse_i32(b_part) {
                        Some(v) => v,
                        None => 0i32,
                    }
                };
                Some((a, b))
            },
        }
    }
}

/// Parse an `nth-child` formula.
#[verifier::loop_isolation(false)]
pub fn parse_nth_formula(input: &str) -> (r: Option<(i32, i32)>)
    ensures
        r == spec_nth_formula(input@),
{
    let raw = chars_of(input);
    let trimmed = trim_chars(&raw);
    let t = lower_chars(&trimmed);
    let odd = chars_of("odd");
    let even = chars_of("even");
    if chars_eq(&t, &odd) {
        return Some((2, 1));
    }
    if chars_eq(&t, &even) {
        return Some((2, 0));
    }
    match parse_i32_chars(&t) {
        Some(n) => { return Some((0, n)) },
        None => {},
    }
    let f = strip_spaces(&t);
    let n_pos = match find_char(&f, 'n') {
        Some(p) => p,
        None => { return None },
    };
    let mut a_part: Vec<char> = Vec::new();
    let mut i: usize = 0;
    while i < n_pos
        invariant
            n_pos < f@.len(),
            i <= n_pos,
            a_part@ == f@.take(n_pos as int).take(i as int),
        decreases n_pos - i,
    {
        a_part.push(f[i]);
        proof {
            assert(f@.take(n_pos as int).take(i + 1) =~= f@.take(n_pos as int).take(
            i as int).push(f@[i as int]));
        }
        i = i + 1;
    }
    proof {
        assert(f@.take(n_pos as int).take(n_pos as int) =~= f@.take(n_pos as int));
    }
    let mut b_part: Vec<char> = Vec::new();
    let flen: usize = f.len();
    proof {
        assert(n_pos < flen);
    }
    let mut j: usize = n_pos + 1;
    while j < f.len()
        invariant
            n_pos < f@.len(),
            n_pos + 1 <= j <= f@.len(),
            b_part@ == f@.skip(n_pos + 1).take(j - n_pos - 1),
        decreases f@.len() - j,
    {
        b_part.push(f[j]);
        proof {
            assert(f@.skip(n_pos + 1).take(j - n_pos) =~= f@.skip(n_pos + 1).take(
            j - n_pos - 1).push(f@[j as int]));
        }
        j = j + 1;
    }
    proof {
        assert(f@.skip(n_pos + 1).take(f@.len() - n_pos - 1) =~= f@.skip(n_pos + 1));
    }
    let plus = chars_of("+");
    let minus = chars_of("-");
    let a: i32 = if a_part.len() == 0 || chars_eq(&a_part, &plus) {
        1
    } else if chars_eq(&a_part, &minus) {
        -1
    } else {
        match parse_i32_chars(&a_part) {
            Some(v) => v,
            None => 1,
        }
    };
    let b: i32 = if b_part.len() == 0 {
        0
    } else {
        match parse_i32_chars(&b_part) {
            Some(v) => v,
            None => 0,
        }
    };
    Some((a, b))
}

/// The attribute value text with surrounding whitespace and one pair of
/// matching quotes removed.
pub open spec fn spec_extract_attr_value(s: Seq<char>) -> Seq<char> {
    let t = crate::text::spec_trim(s);
    if t.len() >= 2 && ((t[0] == '"' && t[t.len() - 1] == '"') || (t[0] == '\'' && t[t.len() - 1]
        == '\'')) {
        t.subrange(1, t.len() - 1)
    } else {
        t
    }
}

fn extract_attr_value(input: &Vec<char>) -> (r: Vec<char>)
    ensures
        r@ == spec_extract_attr_value(input@),
{
    let t = trim_chars(input);
    if t.len() >= 2 && ((t[0] == '"' && t[t.len() - 1] == '"') || (t[0] == '\'' && t[t.len() - 1]
        == '\'')) {
        let mut out: Vec<char> = Vec::new();
        let mut i: usize = 1;
        while i < t.len() - 1
            invariant
                t@.len() >= 2,
                1 <= i <= t@.len() - 1,
                out@ == t@.subrange(1, i as int),
            decreases t@.len() - i,
        {
            out.push(t[i]);
            proof {
                assert(t@.subrange(1, i + 1) =~= t@.subrange(1, i as int).push(t@[i as int]));
            }
            i = i + 1;
        }
        out
    } else {
        t
    }
}

/// What an attribute selector's bracket text denotes: the first operator
/// found, trying `*=`, `^=`, `$=`, `~=`, then plain `=`, splits the text
/// into name and value; bare text is an existence test.
pub open spec fn spec_parse_attr_selector(s: Seq<char>) -> Option<(char, Seq<char>, Seq<char>)> {
    let t = crate::text::spec_trim(s);
    match spec_find_sub_from(t, "*="@, 0) {
        Some(p) => Some(
            ('*', crate::text::spec_trim(t.take(p)), spec_extract_attr_value(t.skip(p + 2))),
        ),
        None => match spec_find_sub_from(t, "^="@, 0) {
            Some(p) => Some(
                ('^', crate::text::spec_trim(t.take(p)), spec_extract_attr_value(t.skip(p + 2))),
            ),
            None => match spec_find_sub_from(t, "$="@, 0) {
                Some(p) => Some(
                    (
                        '$',
                        crate::text::spec_trim(t.take(p)),
                        spec_extract_attr_value(t.skip(p + 2)),
                    ),
                ),
                None => match spec_find_sub_from(t, "~="@, 0) {
                    Some(p) => Some(
                        (
                            '~',
                            crate::text::spec_trim(t.take(p)),
                            spec_extract_attr_value(t.skip(p + 2)),
                        ),
                    ),
                    None => match spec_find_sub_from(t, "="@, 0) {
                        Some(p) => Some(
                            (
                                '=',
                                crate::text::spec_trim(t.take(p)),
                                spec_extract_attr_value(t.skip(p + 1)),
                            ),
                        ),
                        None => if t.len() > 0 {
                            Some(('?', t, Seq::empty()))
                        } else {
                            None
                        },
                    },
                },
            },
        },
    }
}

/// Copy `s[from..to]` into a fresh vector.
pub fn slice_chars_pub(s: &Vec<char>, from: usize, to: usize) -> (r: Vec<char>)
    requires
        from <= to <= s@.len(),
    ensures
        r@ == s@.subrange(from as int, to as int),
{
    let mut out: Vec<char> = Vec::new();
    let mut i: usize = from;
    while i < to
        invariant
            from <= i <= to <= s@.len(),
            out@ == s@.subrange(from as int, i as int),
        decreases to - i,
    {
        out.push(s[i]);
        proof {
            assert(s@.subrange(from as int, i + 1) =~= s@.subrange(from as int, i as int).push(
            s@[i as int]));
        }
        i = i + 1;
    }
    out
}

/// Parse the text between `[` and `]` of an attribute selector.
#[verifier::loop_isolation(false)]
pub fn parse_attribute_selector(input: &Vec<char>) -> (r: Option<AttributeSelector>)
    ensures
        match r {
            Some(a) => spec_parse_attr_selector(input@) matches Some((op, n, v)) && match a {
                AttributeSelector::Contains(an, av) => op == '*' && an@ == n && av@ == v,
                AttributeSelector::StartsWith(an, av) => op == '^' && an@ == n && av@ == v,
                AttributeSelector::EndsWith(an, av) => op == '$' && an@ == n && av@ == v,
                AttributeSelector::WordMatch(an, av) => op == '~' && an@ == n && av@ == v,
                AttributeSelector::Equals(an, av) => op == '=' && an@ == n && av@ == v,
                AttributeSelector::Exists(an) => op == '?' && an@ == n,
            },
            None => spec_parse_attr_selector(input@) is None,
        },
{
    let t = trim_chars(input);
    let tlen: usize = t.len();
    let op_contains = chars_of("*=");
    match find_sub(&t, &op_contains) {
        Some(p) => {
            proof {
                reveal_strlit("*=");
                lemma_find_sub_in_range(t@, "*="@, 0);
            }
            let name = trim_chars(&slice_chars_pub(&t, 0, p));
            let val = extract_attr_value(&slice_chars_pub(&t, p + 2, tlen));
            return Some(
                AttributeSelector::Contains(string_from_chars(&name), string_from_chars(&val)),
            );
        },
        None => {},
    }
    let op_starts = chars_of("^=");
    match find_sub(&t, &op_starts) {
        Some(p) => {
            proof {
                reveal_strlit("^=");
                lemma_find_sub_in_range(t@, "^="@, 0);
            }
            let name = trim_chars(&slice_chars_pub(&t, 0, p));
            let val = extract_attr_value(&slice_chars_pub(&t, p + 2, tlen));
            return Some(
                AttributeSelector::StartsWith(string_from_chars(&name), string_from_chars(&val)),
            );
        },
        None => {},
    }
    let op_ends = chars_of("$=");
    match find_sub(&t, &op_ends) {
        Some(p) => {
            proof {
                reveal_strlit("$=");
                lemma_find_sub_in_range(t@, "$="@, 0);
            }
            let name = trim_chars(&slice_chars_pub(&t, 0, p));
            let val = extract_attr_value(&slice_chars_pub(&t, p + 2, tlen));
            return Some(
                AttributeSelector::EndsWith(string_from_chars(&name), string_from_chars(&val)),
            );
        },
        None => {},
    }
    let op_word = chars_of("~=");
    match find_sub(&t, &op_word) {
        Some(p) => {
            proof {
                reveal_strlit("~=");
                lemma_find_sub_in_range(t@, "~="@, 0);
            }
            let name = trim_chars(&slice_chars_pub(&t, 0, p));
            let val = extract_attr_value(&slice_chars_pub(&t, p + 2, tlen));
            return Some(
                AttributeSelector::WordMatch(string_from_chars(&name), string_from_chars(&val)),
            );
        },
        None => {},
    }
    let op_eq = chars_of("=");
    match find_sub(&t, &op_eq) {
        Some(p) => {
            proof {
                reveal_strlit("=");
                lemma_find_sub_in_range(t@, "="@, 0);
            }
            let name = trim_chars(&slice_chars_pub(&t, 0, p));
            let val = extract_attr_value(&slice_chars_pub(&t, p + 1, tlen));
            return Some(
                AttributeSelector::Equals(string_from_chars(&name), string_from_chars(&val)),
            );
        },
        None => {},
    }
    if t.len() > 0 {
        return Some(AttributeSelector::Exists(string_from_chars(&t)));
    }
    None
}

/// A found occurrence lies inside the text.
proof fn lemma_find_sub_in_range(hay: Seq<char>, needle: Seq<char>, at: int)
    requires
        at >= 0,
    ensures
        spec_find_sub_from(hay, needle, at) matches Some(p) ==> at <= p && p + needle.len()
            <= hay.len(),
    decreases hay.len() + 1 - at,
{
    if at + needle.len() <= hay.len() && !crate::text::spec_occurs_at(hay, needle, at) {
        lemma_find_sub_in_range(hay, needle, at + 1);
    }
}

/// What a pseudo-class name denotes.
pub open spec fn spec_parse_pseudo(s: Seq<char>) -> Option<PseudoClass> {
    if s == "first-child"@ {
        Some(PseudoClass::FirstChild)
    } else if s == "last-child"@ {
        Some(PseudoClass::LastChild)
    } else if s == "only-child"@ {
        Some(PseudoClass::OnlyChild)
    } else if crate::text::spec_starts_with(s, "nth-child("@) && s.len() > 0 && s[s.len() - 1]
        == ')' {
        match spec_nth_formula(s.subrange(10, s.len() - 1)) {
            Some((a, b)) => Some(PseudoClass::NthChild(a, b)),
            None => None,
        }
    } else {
        None
    }
}

/// Parse a pseudo-class name, with any `nth-child` formula.
#[verifier::loop_isolation(false)]
pub fn parse_pseudo_class(input: &Vec<char>) -> (r: Option<PseudoClass>)
    ensures
        r == spec_parse_pseudo(input@),
{
    let first = chars_of("first-child");
    if chars_eq(input, &first) {
        return Some(PseudoClass::FirstChild);
    }
    let last = chars_of("last-child");
    if chars_eq(input, &last) {
        return Some(PseudoClass::LastChild);
    }
    let only = chars_of("only-child");
    if chars_eq(input, &only) {
        return Some(PseudoClass::OnlyChild);
    }
    let nth = chars_of("nth-child(");
    let ilen: usize = input.len();
    if chars_starts_with(input, &nth) && ilen > 0 && input[ilen - 1] == ')' {
        proof {
            reveal_strlit("nth-child(");
            assert("nth-child("@.len() == 10);
            if ilen == 10 {
                assert(input@.subrange(0, 10) == "nth-child("@);
                assert(input@.subrange(0, 10)[9] == input@[9]);
                assert(false);
            }
        }
        let formula = slice_chars_pub(input, 10, ilen - 1);
        let fs = string_from_chars(&formula);
        match parse_nth_formula(fs.as_str()) {
            Some((a, b)) => { return Some(PseudoClass::NthChild(a, b)) },
            None => { return None },
        }
    }
    None
}

/// What kind of name `flush_current` is accumulating.
enum SelectorType {
    Tag,
    Class,
    Id,
}

/// Close the name being accumulated and add it to the compound: a tag is
/// stored lower-cased, a class or id as written. Resets the kind to tag.
fn flush_current(
    current: &mut Vec<char>,
    selector_type: &mut SelectorType,
    compound: &mut CompoundSelector,
)
    ensures
        final(current)@.len() == 0,
        *final(selector_type) is Tag,
        old(current)@.len() == 0 ==> *final(compound) == *old(compound),
{
    if current.len() > 0 {
        match selector_type {
            SelectorType::Tag => {
                let lowered = lower_chars(current);
                compound.simple_selectors.push(SimpleSelector::Tag(string_from_chars(&lowered)));
            },
            SelectorType::Class => {
                compound.simple_selectors.push(SimpleSelector::Class(string_from_chars(current)));
            },
            SelectorType::Id => {
                compound.simple_selectors.push(SimpleSelector::Id(string_from_chars(current)));
            },
        }
        current.clear();
    }
    *selector_type = SelectorType::Tag;
}

/// Parse a selector string into a complex selector.
///
/// The text is scanned left to right: `.`, `#`, `[`, `:` open class, id,
/// attribute and pseudo-class pieces of the current compound; spaces and
/// `>` close the compound and record the combinator. The parts are then
/// stored subject-first, each carrying the combinator that links it to the
/// part before it; unreadable pieces are dropped rather than failing.
#[verifier::loop_isolation(false)]
pub fn parse_selector(input: &str) -> (r: Option<Selector>)
    ensures
        r matches Some(sel) ==> sel.complex.parts@.len() >= 1 && sel.complex.parts@[0].1 is None
            && (forall|j: int|
            1 <= j < sel.complex.parts@.len() ==> (#[trigger] sel.complex.parts@[j]).1 is Some),
{
    let raw = chars_of(input);
    let chars = trim_chars(&raw);
    if chars.len() == 0 {
        return None;
    }
    let mut compounds: Vec<CompoundSelector> = Vec::new();
    let mut combs: Vec<Option<Combinator>> = Vec::new();
    let mut current_compound = CompoundSelector::new();
    let mut pending_combinator: Option<Combinator> = None;
    let mut current: Vec<char> = Vec::new();
    let mut selector_type = SelectorType::Tag;
    let n: usize = chars.len();
    let mut i: usize = 0;
    while i < n
        invariant
            n == chars@.len(),
            i <= n,
            compounds@.len() == combs@.len(),
            combs@.len() > 0 ==> pending_combinator is Some,
            forall|m: int| 1 <= m < combs@.len() ==> (#[trigger] combs@[m]) is Some,
        decreases n - i,
    {
        let c = chars[i];
        i = i + 1;
        match c {
            ' ' => {
                flush_current(&mut current, &mut selector_type, &mut current_compound);
                let ghost i0 = i;
                while i < n && chars[i] == ' '
                    invariant
                        i0 <= i <= n,
                    decreases n - i,
                {
                    i = i + 1;
                }
                if i < n && chars[i] == '>' {
                    // the `>` case handles the combinator
                } else {
                    if current_compound.simple_selectors.len() > 0 {
                        compounds.push(current_compound);
                        combs.push(pending_combinator);
                        current_compound = CompoundSelector::new();
                        pending_combinator = Some(Combinator::Descendant);
                    }
                }
            },
            '>' => {
                flush_current(&mut current, &mut selector_type, &mut current_compound);
                let ghost i0 = i;
                while i < n && chars[i] == ' '
                    invariant
                        i0 <= i <= n,
                    decreases n - i,
                {
                    i = i + 1;
                }
                if current_compound.simple_selectors.len() > 0 {
                    compounds.push(current_compound);
                    combs.push(pending_combinator);
                    current_compound = CompoundSelector::new();
                    pending_combinator = Some(Combinator::Child);
                }
            },
            '.' => {
                flush_current(&mut current, &mut selector_type, &mut current_compound);
                selector_type = SelectorType::Class;
            },
            '#' => {
                flush_current(&mut current, &mut selector_type, &mut current_compound);
                selector_type = SelectorType::Id;
            },
            '[' => {
                flush_current(&mut current, &mut selector_type, &mut current_compound);
                let mut attr_str: Vec<char> = Vec::new();
                let ghost i0 = i;
                while i < n && chars[i] != ']'
                    invariant
                        i0 <= i <= n,
                    decreases n - i,
                {
                    attr_str.push(chars[i]);
                    i = i + 1;
                }
                if i < n {
                    // consume the closing bracket
                    i = i + 1;
                }
                match parse_attribute_selector(&attr_str) {
                    Some(attr_sel) => {
                        current_compound.simple_selectors.push(
                            SimpleSelector::Attribute(attr_sel),
                        );
                    },
                    None => {},
                }
            },
            ':' => {
                flush_current(&mut current, &mut selector_type, &mut current_compound);
                let mut pseudo_str: Vec<char> = Vec::new();
                let ghost i0 = i;
                while i < n && chars[i] != ' ' && chars[i] != '>' && chars[i] != '.' && chars[i]
                    != '#' && chars[i] != '[' && chars[i] != ':'
                    invariant
                        i0 <= i <= n,
                    decreases n - i,
                {
                    pseudo_str.push(chars[i]);
                    i = i + 1;
                }
                match parse_pseudo_class(&pseudo_str) {
                    Some(pseudo) => {
                        current_compound.simple_selectors.push(SimpleSelector::PseudoClass(pseudo));
                    },
                    None => {},
                }
            },
            '*' => {
                if current.len() == 0 {
                    current_compound.simple_selectors.push(SimpleSelector::Universal);
                } else {
                    current.push(c);
                }
            },
            _ => {
                current.push(c);
            },
        }
    }
    flush_current(&mut current, &mut selector_type, &mut current_compound);
    if current_compound.simple_selectors.len() > 0 {
        compounds.push(current_compound);
        combs.push(pending_combinator);
    }
    if compounds.len() == 0 {
        return None;
    }
    // Reverse to subject-first order; the combinator stored before each
    // source part becomes the link of the part that follows it.
    let k: usize = compounds.len();
    let mut parts: Vec<(CompoundSelector, Option<Combinator>)> = Vec::new();
    let mut j: usize = 0;
    while compounds.len() > 0
        invariant
            combs@.len() == k,
            j == k - compounds@.len(),
            j > 0 ==> parts@.len() == j,
            j == 0 ==> parts@.len() == 0,
            parts@.len() > 0 ==> parts@[0].1 is None,
            forall|m: int| 1 <= m < combs@.len() ==> (#[trigger] combs@[m]) is Some,
            forall|m: int| 1 <= m < parts@.len() ==> (#[trigger] parts@[m]).1 is Some,
        decreases compounds@.len(),
    {
        let compound = match compounds.pop() {
            Some(cm) => cm,
            None => { break },
        };
        let comb: Option<Combinator> = if j == 0 {
            None
        } else {
            combs[k - j]
        };
        parts.push((compound, comb));
        j = j + 1;
    }
    Some(Selector { complex: ComplexSelector { parts } })
}

} // verus!
