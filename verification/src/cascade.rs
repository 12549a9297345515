//! Style computation: match rules against each element, order them by
//! specificity and source order, and apply their declarations over the
//! user-agent defaults, inheriting color, font size and line height.

use vstd::prelude::*;

use crate::computed::ComputedStyle;
use crate::dom::{Document, NodeData, NodeId};
use crate::selector::{spec_spec_lt, specificity_lt, Specificity};
use crate::stylesheet::{rc_clone, Declaration, Rule, Stylesheet};
use crate::text::chars_of;
use std::rc::Rc;

verus! {

/// One matched rule with its ordering key.
pub struct MatchedRule {
    pub specificity: Specificity,
    pub source_order: usize,
    pub rule: Rc<Rule>,
    pub selector_index: usize,
}

/// Strict cascade order: lower specificity first, source order breaking
/// ties. Later entries win when declarations collide.
pub open spec fn spec_cascade_lt(a: &MatchedRule, b: &MatchedRule) -> bool {
    spec_spec_lt(a.specificity, b.specificity) || (a.specificity == b.specificity
        && a.source_order < b.source_order)
}

/// Sortedness in cascade order.
pub open spec fn spec_cascade_sorted(s: Seq<MatchedRule>) -> bool {
    forall|i: int, j: int|
        0 <= i < j < s.len() ==> !spec_cascade_lt(#[trigger] &s[j], #[trigger] &s[i])
}

/// Where the insertion sort places `x` in `sorted`: scanning down from
/// `k`, the first position whose left neighbour does not come after `x`.
pub open spec fn spec_insert_pos(sorted: Seq<MatchedRule>, x: MatchedRule, k: int) -> int
    decreases k,
{
    if k <= 0 {
        0
    } else if !spec_cascade_lt(&x, &sorted[k - 1]) {
        k
    } else {
        spec_insert_pos(sorted, x, k - 1)
    }
}

/// `x` inserted into `sorted` at its insertion position.
pub open spec fn spec_insert_rule(sorted: Seq<MatchedRule>, x: MatchedRule) -> Seq<MatchedRule> {
    let k = spec_insert_pos(sorted, x, sorted.len() as int);
    sorted.take(k).push(x) + sorted.skip(k)
}

/// The sorted sequence, built by inserting the elements from the last
/// to the first — the order the sorting pass consumes them in.
pub open spec fn spec_sort_rules(s: Seq<MatchedRule>, i: int) -> Seq<MatchedRule>
    decreases s.len() - i,
{
    if i < 0 || i >= s.len() {
        Seq::empty()
    } else {
        spec_insert_rule(spec_sort_rules(s, i + 1), s[i])
    }
}

proof fn lemma_insert_pos_range(sorted: Seq<MatchedRule>, x: MatchedRule, k: int)
    requires
        0 <= k <= sorted.len(),
    ensures
        0 <= spec_insert_pos(sorted, x, k) <= k,
        forall|j: int|
            spec_insert_pos(sorted, x, k) <= j < k ==> spec_cascade_lt(&x, #[trigger] &sorted[j]),
        spec_insert_pos(sorted, x, k) > 0 ==> !spec_cascade_lt(
            &x,
            &sorted[spec_insert_pos(sorted, x, k) - 1],
        ),
    decreases k,
{
    if k > 0 && spec_cascade_lt(&x, &sorted[k - 1]) {
        lemma_insert_pos_range(sorted, x, k - 1);
    }
}

/// Inserting at the insertion position keeps the sequence sorted.
proof fn lemma_insert_rule_sorted(sorted: Seq<MatchedRule>, x: MatchedRule)
    requires
        spec_cascade_sorted(sorted),
    ensures
        spec_cascade_sorted(spec_insert_rule(sorted, x)),
{
    lemma_insert_pos_range(sorted, x, sorted.len() as int);
    let k = spec_insert_pos(sorted, x, sorted.len() as int);
    lemma_insert_sorted(sorted, x, k);
}

/// Inserting adds exactly one occurrence of `x`.
proof fn lemma_insert_rule_multiset(sorted: Seq<MatchedRule>, x: MatchedRule)
    ensures
        spec_insert_rule(sorted, x).to_multiset() =~= sorted.to_multiset().insert(x),
{
    broadcast use vstd::seq_lib::group_to_multiset_ensures;

    lemma_insert_pos_range(sorted, x, sorted.len() as int);
    let k = spec_insert_pos(sorted, x, sorted.len() as int);
    vstd::seq_lib::lemma_multiset_commutative(sorted.take(k).push(x), sorted.skip(k));
    vstd::seq_lib::lemma_multiset_commutative(sorted.take(k), sorted.skip(k));
    assert(sorted.take(k) + sorted.skip(k) =~= sorted);
    assert(sorted.take(k).push(x).to_multiset() =~= sorted.take(k).to_multiset().insert(x));
}

/// The spec-level sort is sorted and a permutation of its input.
proof fn lemma_sort_rules_props(s: Seq<MatchedRule>, i: int)
    requires
        0 <= i <= s.len(),
    ensures
        spec_cascade_sorted(spec_sort_rules(s, i)),
        spec_sort_rules(s, i).to_multiset() =~= s.skip(i).to_multiset(),
    decreases s.len() - i,
{
    broadcast use vstd::seq_lib::group_to_multiset_ensures;

    if i >= s.len() {
        assert(s.skip(i) =~= Seq::<MatchedRule>::empty());
        assert(Seq::<MatchedRule>::empty().to_multiset() =~= vstd::multiset::Multiset::empty());
    } else {
        lemma_sort_rules_props(s, i + 1);
        lemma_insert_rule_sorted(spec_sort_rules(s, i + 1), s[i]);
        lemma_insert_rule_multiset(spec_sort_rules(s, i + 1), s[i]);
        assert(s.skip(i) =~= seq![s[i]] + s.skip(i + 1));
        vstd::seq_lib::lemma_multiset_commutative(seq![s[i]], s.skip(i + 1));
        assert(seq![s[i]].to_multiset() =~= vstd::multiset::Multiset::empty().insert(s[i]));
        assert(spec_sort_rules(s, i).to_multiset() =~= s.skip(i).to_multiset());
    }
}

/// Insertion sort of matched rules by (specificity, source order): the
/// result is exactly the insertion-sorted sequence — a permutation of
/// the input in cascade order, so a rule of higher specificity, or equal
/// specificity and later source order, stands later and its declarations
/// overwrite earlier ones.
#[verifier::loop_isolation(false)]
pub fn sort_matched_rules(rules: Vec<MatchedRule>) -> (r: Vec<MatchedRule>)
    ensures
        r@ == spec_sort_rules(rules@, 0),
        spec_cascade_sorted(r@),
        r@.to_multiset() == rules@.to_multiset(),
{
    let ghost orig = rules@;
    let mut input = rules;
    let mut out: Vec<MatchedRule> = Vec::new();
    proof {
        assert(orig.take(orig.len() as int) =~= orig);
    }
    while input.len() > 0
        invariant
            input@.len() <= orig.len(),
            input@ == orig.take(input@.len() as int),
            out@ == spec_sort_rules(orig, input@.len() as int),
            spec_cascade_sorted(out@),
        decreases input@.len(),
    {
        let ghost pre_len = input@.len() as int;
        let x = match input.pop() {
            Some(x) => x,
            None => { break },
        };
        proof {
            assert(orig.take(pre_len)[pre_len - 1] == orig[pre_len - 1]);
            assert(orig.take(pre_len).drop_last() =~= orig.take(pre_len - 1));
        }
        // find the insertion point from the end
        let mut k: usize = out.len();
        while k > 0
            invariant
                k <= out@.len(),
                spec_insert_pos(out@, x, out@.len() as int) == spec_insert_pos(out@, x, k as int),
            decreases k,
        {
            let stop = {
                let prev = &out[k - 1];
                !cascade_lt_exec(&x, prev)
            };
            if stop {
                break ;
            }
            k = k - 1;
        }
        let ghost pre_out = out@;
        proof {
            lemma_insert_pos_range(pre_out, x, pre_out.len() as int);
            assert(spec_insert_pos(pre_out, x, pre_out.len() as int) == k as int);
            lemma_insert_rule_sorted(pre_out, x);
        }
        out.insert(k, x);
        proof {
            assert(out@ =~= pre_out.take(k as int).push(x) + pre_out.skip(k as int));
            assert(out@ =~= spec_insert_rule(pre_out, x));
        }
    }
    proof {
        assert(orig.take(0) =~= Seq::<MatchedRule>::empty());
        lemma_sort_rules_props(orig, 0);
        assert(orig.skip(0) =~= orig);
    }
    out
}

fn cascade_lt_exec(a: &MatchedRule, b: &MatchedRule) -> (r: bool)
    ensures
        r == spec_cascade_lt(a, b),
{
    if specificity_lt(&a.specificity, &b.specificity) {
        true
    } else {
        a.specificity.ids == b.specificity.ids && a.specificity.classes == b.specificity.classes
            && a.specificity.tags == b.specificity.tags && a.source_order < b.source_order
    }
}

proof fn lemma_insert_sorted(s: Seq<MatchedRule>, x: MatchedRule, k: int)
    requires
        0 <= k <= s.len(),
        spec_cascade_sorted(s),
        forall|j: int| k <= j < s.len() ==> spec_cascade_lt(&x, #[trigger] &s[j]),
        k > 0 ==> !spec_cascade_lt(&x, &s[k - 1]),
    ensures
        spec_cascade_sorted(s.take(k).push(x) + s.skip(k)),
{
    let t = s.take(k).push(x) + s.skip(k);
    assert forall|i: int, j: int| 0 <= i < j < t.len() implies !spec_cascade_lt(
        #[trigger] &t[j],
        #[trigger] &t[i],
    ) by {
        if i < k && j < k {
            assert(t[i] == s[i] && t[j] == s[j]);
        } else if i < k && j == k {
            assert(t[i] == s[i] && t[j] == x);
            if spec_cascade_lt(&x, &s[i]) {
                assert(!spec_cascade_lt(&x, &s[k - 1]));
                assert(!spec_cascade_lt(&s[k - 1], &s[i]) || i == k - 1);
            }
        } else if i < k && j > k {
            assert(t[i] == s[i] && t[j] == s[j - 1]);
        } else if i == k && j > k {
            assert(t[i] == x && t[j] == s[j - 1]);
        } else if i > k && j > k {
            assert(t[i] == s[i - 1] && t[j] == s[j - 1]);
        } else {
        }
    }
}


/// Saturating increment, mirroring how the source-order counter advances.
pub open spec fn spec_so_inc(so: usize) -> usize {
    if so < usize::MAX {
        (so + 1) as usize
    } else {
        so
    }
}

/// Every matched rule of the stylesheet list from sheet `si` on, with
/// source-order counter `so`: one entry per (rule, selector) pair whose
/// selector matches the node, in source order.
pub open spec fn spec_collect(
    doc: &Document,
    node_id: NodeId,
    sheets: Seq<Rc<Stylesheet>>,
    si: int,
    so: usize,
) -> Seq<MatchedRule>
    decreases sheets.len() - si + 1, 0int, 0int,
        when 0 <= si
{
    if si >= sheets.len() {
        Seq::empty()
    } else {
        spec_collect_sheet(doc, node_id, sheets, si, 0, so)
    }
}

/// The matched rules of sheet `si` from rule `ri` on, then the sheets
/// after it.
pub open spec fn spec_collect_sheet(
    doc: &Document,
    node_id: NodeId,
    sheets: Seq<Rc<Stylesheet>>,
    si: int,
    ri: int,
    so: usize,
) -> Seq<MatchedRule>
    decreases sheets.len() - si, sheets[si].rules@.len() + 2 - ri, 0int,
        when 0 <= si < sheets.len() && 0 <= ri <= sheets[si].rules@.len()
{
    if ri >= sheets[si].rules@.len() {
        spec_collect(doc, node_id, sheets, si + 1, so)
    } else {
        spec_collect_rule(doc, node_id, sheets, si, ri, 0, so)
    }
}

/// The matched selectors of rule `ri` of sheet `si` from selector `ki`
/// on, then the rules and sheets after it.
pub open spec fn spec_collect_rule(
    doc: &Document,
    node_id: NodeId,
    sheets: Seq<Rc<Stylesheet>>,
    si: int,
    ri: int,
    ki: int,
    so: usize,
) -> Seq<MatchedRule>
    decreases
            sheets.len() - si,
            sheets[si].rules@.len() + 1 - ri,
            sheets[si].rules@[ri].selectors@.len() + 2 - ki,
        when 0 <= si < sheets.len() && 0 <= ri < sheets[si].rules@.len() && 0 <= ki
            <= sheets[si].rules@[ri].selectors@.len()
{
    let rule = sheets[si].rules@[ri];
    if ki >= rule.selectors@.len() {
        spec_collect_sheet(doc, node_id, sheets, si, ri + 1, so)
    } else {
        let hit: Seq<MatchedRule> = if crate::selector::spec_complex_matches(
            doc,
            &rule.selectors@[ki].complex,
            node_id,
        ) {
            seq![
                MatchedRule {
                    specificity: crate::selector::spec_complex_specificity(
                        rule.selectors@[ki].complex.parts@,
                    ),
                    source_order: so,
                    rule: rule,
                    selector_index: ki as usize,
                },
            ]
        } else {
            Seq::empty()
        };
        hit + spec_collect_rule(doc, node_id, sheets, si, ri, ki + 1, spec_so_inc(so))
    }
}

/// One pass over a rule's declarations from `di` on: each declaration
/// whose importance matches the pass is applied in order.
pub open spec fn spec_decls_pass(
    style: ComputedStyle,
    decls: Seq<Declaration>,
    di: int,
    important: bool,
    pfs: int,
    vw: int,
    vh: int,
) -> ComputedStyle
    decreases decls.len() - di,
{
    if di < 0 || di >= decls.len() {
        style
    } else {
        let next = if decls[di].important == important {
            crate::computed::spec_apply_value(
                style,
                decls[di].property@,
                decls[di].value,
                pfs,
                vw,
                vh,
            )
        } else {
            style
        };
        spec_decls_pass(next, decls, di + 1, important, pfs, vw, vh)
    }
}

/// One pass over the sorted matched rules from `ri` on.
pub open spec fn spec_rules_pass(
    style: ComputedStyle,
    rules: Seq<MatchedRule>,
    ri: int,
    important: bool,
    pfs: int,
    vw: int,
    vh: int,
) -> ComputedStyle
    decreases rules.len() - ri,
{
    if ri < 0 || ri >= rules.len() {
        style
    } else {
        spec_rules_pass(
            spec_decls_pass(style, rules[ri].rule.declarations@, 0, important, pfs, vw, vh),
            rules,
            ri + 1,
            important,
            pfs,
            vw,
            vh,
        )
    }
}

/// The style an element computes: user-agent defaults for its tag, the
/// parent's color, font size and line height inherited, both passes over
/// the sorted matched rules — normal declarations before `!important`
/// ones — then the presentational attributes, and last the inline
/// `style` attribute, each later layer overwriting the properties it
/// sets.
pub open spec fn spec_element_style(
    doc: &Document,
    sheets: Seq<Rc<Stylesheet>>,
    vw: int,
    vh: int,
    node_id: NodeId,
    parent: Option<ComputedStyle>,
    tag: Seq<char>,
    attrs: Seq<(String, String)>,
) -> ComputedStyle {
    let base = crate::computed::spec_for_tag(tag);
    let seeded = match parent {
        Some(p) => ComputedStyle {
            color: p.color,
            font_size: p.font_size,
            line_height: p.line_height,
            ..base
        },
        None => base,
    };
    let pfs: int = match parent {
        Some(p) => p.font_size as int,
        None => 16,
    };
    let sorted = spec_sort_rules(spec_collect(doc, node_id, sheets, 0, 0), 0);
    let after_normal = spec_rules_pass(seeded, sorted, 0, false, pfs, vw, vh);
    let after_important = spec_rules_pass(after_normal, sorted, 0, true, pfs, vw, vh);
    let after_attrs = crate::attrstyle::spec_presentational(after_important, attrs);
    crate::attrstyle::spec_inline_layer(after_attrs, attrs, pfs, vw, vh)
}

/// The style computation assigns node `id`: elements cascade from their
/// tag's defaults; text and comment nodes take the parent's style
/// unchanged; a parentless non-element takes the initial style.
#[verifier::opaque]
pub open spec fn spec_style_for(
    doc: &Document,
    sheets: Seq<Rc<Stylesheet>>,
    vw: int,
    vh: int,
    id: NodeId,
) -> ComputedStyle
    decreases id,
{
    let parent: Option<ComputedStyle> = if id < doc.nodes_seq().len() {
        match doc.nodes_seq()[id as int].parent {
            Some(p) => if p < id {
                Some(spec_style_for(doc, sheets, vw, vh, p))
            } else {
                None
            },
            None => None,
        }
    } else {
        None
    };
    if id < doc.nodes_seq().len() {
        match doc.nodes_seq()[id as int].data {
            NodeData::Element(e) => spec_element_style(
                doc,
                sheets,
                vw,
                vh,
                id,
                parent,
                e.tag_name@,
                e.attributes@,
            ),
            _ => match parent {
                Some(p) => p,
                None => crate::computed::spec_initial_style(),
            },
        }
    } else {
        match parent {
            Some(p) => p,
            None => crate::computed::spec_initial_style(),
        }
    }
}

/// Whether node `i` lies in the subtree rooted at `r`: it is `r` itself,
/// or sits in the subtree of one of `r`'s children.
pub open spec fn spec_in_subtree(doc: &Document, r: NodeId, i: NodeId) -> bool
    decreases doc.nodes_seq().len() - r,
        when doc.wf() && r < doc.nodes_seq().len()
{
    i == r || exists|k: int|
        0 <= k < doc.nodes_seq()[r as int].children@.len() && spec_in_subtree(
            doc,
            #[trigger] doc.nodes_seq()[r as int].children@[k],
            i,
        )
}

/// A subtree only holds ids at or after its root.
pub proof fn lemma_subtree_range(doc: &Document, r: NodeId, i: NodeId)
    requires
        doc.wf(),
        r < doc.nodes_seq().len(),
        spec_in_subtree(doc, r, i),
    ensures
        r <= i < doc.nodes_seq().len(),
    decreases doc.nodes_seq().len() - r,
{
    if i != r {
        let k = choose|k: int|
            0 <= k < doc.nodes_seq()[r as int].children@.len() && spec_in_subtree(
                doc,
                #[trigger] doc.nodes_seq()[r as int].children@[k],
                i,
            );
        lemma_subtree_range(doc, doc.nodes_seq()[r as int].children@[k], i);
    }
}

/// The parent's computed style, as the walk hands it down.
pub open spec fn spec_parent_style(
    doc: &Document,
    sheets: Seq<Rc<Stylesheet>>,
    vw: int,
    vh: int,
    id: NodeId,
) -> Option<ComputedStyle> {
    if id < doc.nodes_seq().len() {
        match doc.nodes_seq()[id as int].parent {
            Some(p) => if p < id {
                Some(spec_style_for(doc, sheets, vw, vh, p))
            } else {
                None
            },
            None => None,
        }
    } else {
        None
    }
}

/// One unfolding of `spec_style_for`, phrased over `spec_parent_style`.
pub proof fn lemma_style_for_unfold(
    doc: &Document,
    sheets: Seq<Rc<Stylesheet>>,
    vw: int,
    vh: int,
    id: NodeId,
)
    requires
        id < doc.nodes_seq().len(),
    ensures
        spec_style_for(doc, sheets, vw, vh, id) == (match doc.nodes_seq()[id as int].data {
            NodeData::Element(e) => spec_element_style(
                doc,
                sheets,
                vw,
                vh,
                id,
                spec_parent_style(doc, sheets, vw, vh, id),
                e.tag_name@,
                e.attributes@,
            ),
            _ => match spec_parent_style(doc, sheets, vw, vh, id) {
                Some(p) => p,
                None => crate::computed::spec_initial_style(),
            },
        }),
{
    reveal(spec_style_for);
}

/// Per-document style computation state: the stylesheets and the styles
/// of the last pass, one slot per node id.
pub struct StyleComputer {
    stylesheets: Vec<Rc<Stylesheet>>,
    computed_styles: Vec<Option<ComputedStyle>>,
    viewport_width: i64,
    viewport_height: i64,
}

impl StyleComputer {
    /// The styles of the last pass, one slot per node id.
    pub closed spec fn spec_styles(&self) -> Seq<Option<ComputedStyle>> {
        self.computed_styles@
    }

    /// The stylesheets added so far, in order.
    pub closed spec fn spec_sheets(&self) -> Seq<Rc<Stylesheet>> {
        self.stylesheets@
    }

    pub closed spec fn spec_viewport_width(&self) -> i64 {
        self.viewport_width
    }

    pub closed spec fn spec_viewport_height(&self) -> i64 {
        self.viewport_height
    }

    pub fn new(viewport_width: i64, viewport_height: i64) -> (r: StyleComputer)
        ensures
            r.spec_styles().len() == 0,
            r.spec_sheets().len() == 0,
            r.spec_viewport_width() == viewport_width,
            r.spec_viewport_height() == viewport_height,
    {
        StyleComputer {
            stylesheets: Vec::new(),
            computed_styles: Vec::new(),
            viewport_width,
            viewport_height,
        }
    }

    pub fn add_stylesheet(&mut self, stylesheet: Rc<Stylesheet>)
        ensures
            final(self).spec_styles() == old(self).spec_styles(),
            final(self).spec_sheets() == old(self).spec_sheets().push(stylesheet),
            final(self).spec_viewport_width() == old(self).spec_viewport_width(),
            final(self).spec_viewport_height() == old(self).spec_viewport_height(),
    {
        self.stylesheets.push(stylesheet);
    }

    pub fn clear_stylesheets(&mut self)
        ensures
            final(self).spec_styles() == old(self).spec_styles(),
            final(self).spec_sheets().len() == 0,
            final(self).spec_viewport_width() == old(self).spec_viewport_width(),
            final(self).spec_viewport_height() == old(self).spec_viewport_height(),
    {
        self.stylesheets.clear();
    }

    pub fn set_viewport(&mut self, width: i64, height: i64)
        ensures
            final(self).spec_styles() == old(self).spec_styles(),
            final(self).spec_sheets() == old(self).spec_sheets(),
            final(self).spec_viewport_width() == width,
            final(self).spec_viewport_height() == height,
    {
        self.viewport_width = width;
        self.viewport_height = height;
    }

    /// The computed style of a node from the last pass.
    pub fn get_style(&self, node_id: NodeId) -> (r: Option<ComputedStyle>)
        ensures
            node_id < self.spec_styles().len() ==> r == self.spec_styles()[node_id as int],
            node_id >= self.spec_styles().len() ==> r is None,
    {
        if node_id < self.computed_styles.len() {
            self.computed_styles[node_id]
        } else {
            None
        }
    }

    /// Recompute every node's style from scratch, walking the tree from
    /// the root. Afterwards there is one slot per node: every node
    /// reachable from the root holds exactly the style `spec_style_for`
    /// gives it — user-agent defaults for its tag, color, font size and
    /// line height inherited, every matching rule applied in cascade
    /// order with normal declarations before `!important` ones, then the
    /// presentational attributes and the inline `style` attribute — and
    /// every unreachable node's slot is empty.
    pub fn compute_styles(&mut self, document: &Document)
        requires
            document.wf(),
        ensures
            final(self).spec_styles().len() == document.nodes_seq().len(),
            final(self).spec_sheets() == old(self).spec_sheets(),
            final(self).spec_viewport_width() == old(self).spec_viewport_width(),
            final(self).spec_viewport_height() == old(self).spec_viewport_height(),
            forall|i: int|
                0 <= i < document.nodes_seq().len() ==> #[trigger] final(self).spec_styles()[i]
                    == (if spec_in_subtree(document, 0, i as NodeId) {
                    Some(
                        spec_style_for(
                            document,
                            old(self).spec_sheets(),
                            old(self).spec_viewport_width() as int,
                            old(self).spec_viewport_height() as int,
                            i as NodeId,
                        ),
                    )
                } else {
                    None
                }),
    {
        let mut fresh: Vec<Option<ComputedStyle>> = Vec::new();
        let n = document.node_count();
        let mut i: usize = 0;
        while i < n
            invariant
                fresh@.len() == i,
                i <= n,
                forall|j: int| 0 <= j < i ==> #[trigger] fresh@[j] is None,
            decreases n - i,
        {
            fresh.push(None);
            i = i + 1;
        }
        self.computed_styles = fresh;
        let root = document.root();
        proof {
            assert(document.nodes_seq()[0].parent is None);
        }
        self.compute_node_styles(document, root, None);
    }

    /// The style one element computes: the tag's user-agent defaults,
    /// the parent's color, font size and line height inherited, then
    /// every matching rule's declarations applied in cascade order,
    /// normal declarations before `!important` ones.
    #[verifier::loop_isolation(false)]
    #[verifier::rlimit(60)]
    fn element_style(
        &self,
        document: &Document,
        node_id: NodeId,
        element: &crate::dom::ElementData,
        parent_style: Option<ComputedStyle>,
    ) -> (style: ComputedStyle)
        requires
            document.wf(),
            node_id < document.nodes_seq().len(),
            document.nodes_seq()[node_id as int].data == NodeData::Element(*element),
        ensures
            style == spec_element_style(
                document,
                self.spec_sheets(),
                self.spec_viewport_width() as int,
                self.spec_viewport_height() as int,
                node_id,
                parent_style,
                element.tag_name@,
                element.attributes@,
            ),
    {
        let ghost sheets = self.spec_sheets();
        let ghost gvw = self.spec_viewport_width() as int;
        let ghost gvh = self.spec_viewport_height() as int;
        let mut style = ComputedStyle::for_tag(element.tag_name.as_str());
        match parent_style {
            Some(parent) => {
                style.color = parent.color;
                style.font_size = parent.font_size;
                style.line_height = parent.line_height;
            },
            None => {},
        }
        let parent_font_size: i64 = match parent_style {
            Some(p) => p.font_size,
            None => 16,
        };
        let ghost seeded = style;
        let matching = self.collect_matching_rules(document, node_id);
        let sorted = sort_matched_rules(matching);
        let ghost sorted_seq = sorted@;
        let mut pass: usize = 0;
        while pass < 2
            invariant
                pass <= 2,
                sorted@ == sorted_seq,
                pass == 0 ==> style == seeded,
                pass == 1 ==> style == spec_rules_pass(
                    seeded,
                    sorted_seq,
                    0,
                    false,
                    parent_font_size as int,
                    gvw,
                    gvh,
                ),
                pass == 2 ==> style == spec_rules_pass(
                    spec_rules_pass(
                        seeded,
                        sorted_seq,
                        0,
                        false,
                        parent_font_size as int,
                        gvw,
                        gvh,
                    ),
                    sorted_seq,
                    0,
                    true,
                    parent_font_size as int,
                    gvw,
                    gvh,
                ),
            decreases 2 - pass,
        {
            let important_pass = pass == 1;
            let ghost pass_entry = style;
            let mut ri: usize = 0;
            while ri < sorted.len()
                invariant
                    ri <= sorted@.len(),
                    sorted@ == sorted_seq,
                    spec_rules_pass(
                        pass_entry,
                        sorted_seq,
                        0,
                        important_pass,
                        parent_font_size as int,
                        gvw,
                        gvh,
                    ) == spec_rules_pass(
                        style,
                        sorted_seq,
                        ri as int,
                        important_pass,
                        parent_font_size as int,
                        gvw,
                        gvh,
                    ),
                decreases sorted@.len() - ri,
            {
                let rule = rc_clone(&sorted[ri].rule);
                let ghost rule_entry = style;
                let mut di: usize = 0;
                while di < rule.declarations.len()
                    invariant
                        di <= rule.declarations@.len(),
                        rule.declarations@ == sorted_seq[ri as int].rule.declarations@,
                        spec_decls_pass(
                            rule_entry,
                            rule.declarations@,
                            0,
                            important_pass,
                            parent_font_size as int,
                            gvw,
                            gvh,
                        ) == spec_decls_pass(
                            style,
                            rule.declarations@,
                            di as int,
                            important_pass,
                            parent_font_size as int,
                            gvw,
                            gvh,
                        ),
                    decreases rule.declarations@.len() - di,
                {
                    let decl = &rule.declarations[di];
                    if decl.important == important_pass {
                        style.apply_value(
                            decl.property.as_str(),
                            &decl.value,
                            parent_font_size,
                            self.viewport_width,
                            self.viewport_height,
                        );
                    }
                    di = di + 1;
                }
                ri = ri + 1;
            }
            pass = pass + 1;
        }
        crate::attrstyle::apply_presentational(&mut style, element);
        let ghost after_attrs = style;
        match element.get_attribute("style") {
            Some(txt) => {
                let tc = chars_of(txt.as_str());
                let ds = crate::attrstyle::parse_inline_declarations(&tc);
                let ghost gs = crate::attrstyle::spec_parse_inline(tc@);
                let mut di: usize = 0;
                while di < ds.len()
                    invariant
                        di <= ds@.len(),
                        crate::attrstyle::decls_match(ds@, gs),
                        crate::attrstyle::spec_inline_fold(
                            after_attrs,
                            gs,
                            0,
                            parent_font_size as int,
                            gvw,
                            gvh,
                        ) == crate::attrstyle::spec_inline_fold(
                            style,
                            gs,
                            di as int,
                            parent_font_size as int,
                            gvw,
                            gvh,
                        ),
                    decreases ds@.len() - di,
                {
                    let d = &ds[di];
                    let ghost pre_style = style;
                    style.apply_value(
                        d.property.as_str(),
                        &d.value,
                        parent_font_size,
                        self.viewport_width,
                        self.viewport_height,
                    );
                    proof {
                        crate::attrstyle::lemma_apply_ghost_realises(
                            pre_style,
                            gs[di as int].prop,
                            ds@[di as int].value,
                            gs[di as int].val,
                            parent_font_size as int,
                            gvw,
                            gvh,
                        );
                    }
                    di = di + 1;
                }
            },
            None => {},
        }
        style
    }

    /// Compute and store the style of `node_id` and of everything below
    /// it, given the parent's computed style as the walk hands it down.
    #[verifier::loop_isolation(false)]
    #[verifier::rlimit(100)]
    #[verifier::spinoff_prover]
    fn compute_node_styles(
        &mut self,
        document: &Document,
        node_id: NodeId,
        parent_style: Option<ComputedStyle>,
    )
        requires
            document.wf(),
            node_id < document.nodes_seq().len(),
            old(self).spec_styles().len() == document.nodes_seq().len(),
            parent_style == spec_parent_style(
                document,
                old(self).spec_sheets(),
                old(self).spec_viewport_width() as int,
                old(self).spec_viewport_height() as int,
                node_id,
            ),
        ensures
            final(self).spec_styles().len() == old(self).spec_styles().len(),
            final(self).spec_sheets() == old(self).spec_sheets(),
            final(self).spec_viewport_width() == old(self).spec_viewport_width(),
            final(self).spec_viewport_height() == old(self).spec_viewport_height(),
            forall|i: int|
                0 <= i < document.nodes_seq().len() && spec_in_subtree(
                    document,
                    node_id,
                    i as NodeId,
                ) ==> #[trigger] final(self).spec_styles()[i] == Some(
                    spec_style_for(
                        document,
                        old(self).spec_sheets(),
                        old(self).spec_viewport_width() as int,
                        old(self).spec_viewport_height() as int,
                        i as NodeId,
                    ),
                ),
            forall|i: int|
                0 <= i < document.nodes_seq().len() && !spec_in_subtree(
                    document,
                    node_id,
                    i as NodeId,
                ) ==> #[trigger] final(self).spec_styles()[i] == old(self).spec_styles()[i],
        decreases document.nodes_seq().len() - node_id,
    {
        let ghost sheets = self.spec_sheets();
        let ghost gvw = self.spec_viewport_width() as int;
        let ghost gvh = self.spec_viewport_height() as int;
        let node = match document.get_node(node_id) {
            Some(n) => n,
            None => { return ; },
        };
        proof {
            lemma_style_for_unfold(document, sheets, gvw, gvh, node_id);
        }
        let style: ComputedStyle = match node.as_element() {
            Some(element) => {
                let s = self.element_style(document, node_id, element, parent_style);
                proof {
                    assert(s == spec_style_for(document, sheets, gvw, gvh, node_id));
                }
                s
            },
            None => {
                let s = match parent_style {
                    Some(p) => p,
                    None => ComputedStyle::default(),
                };
                proof {
                    assert(s == spec_style_for(document, sheets, gvw, gvh, node_id));
                }
                s
            },
        };
        self.computed_styles.set(node_id, Some(style));
        let kids = document.children(node_id);
        let mut k: usize = 0;
        while k < kids.len()
            invariant
                k <= kids@.len(),
                kids@ == document.nodes_seq()[node_id as int].children@,
                self.spec_styles().len() == document.nodes_seq().len(),
                self.spec_sheets() == sheets,
                self.spec_viewport_width() as int == gvw,
                self.spec_viewport_height() as int == gvh,
                style == spec_style_for(document, sheets, gvw, gvh, node_id),
                forall|i: int|
                    0 <= i < document.nodes_seq().len() && (i == node_id || exists|j: int|
                        0 <= j < k && spec_in_subtree(document, kids@[j], i as NodeId))
                        ==> #[trigger] self.spec_styles()[i] == Some(
                        spec_style_for(document, sheets, gvw, gvh, i as NodeId),
                    ),
                forall|i: int|
                    0 <= i < document.nodes_seq().len() && !(i == node_id || exists|j: int|
                        0 <= j < k && spec_in_subtree(document, kids@[j], i as NodeId))
                        ==> #[trigger] self.spec_styles()[i] == old(self).spec_styles()[i],
            decreases kids@.len() - k,
        {
            proof {
                assert(node_id < kids@[k as int] < document.nodes_seq().len());
                assert(document.nodes_seq()[kids@[k as int] as int].parent == Some(node_id));
            }
            let ghost pre = self.spec_styles();
            self.compute_node_styles(document, kids[k], Some(style));
            proof {
                let kid = kids@[k as int];
                assert forall|i: int|
                    0 <= i < document.nodes_seq().len() && (i == node_id || exists|j: int|
                        0 <= j < k + 1 && spec_in_subtree(document, kids@[j], i as NodeId))
                        implies #[trigger] self.spec_styles()[i] == Some(
                    spec_style_for(document, sheets, gvw, gvh, i as NodeId),
                ) by {
                    if spec_in_subtree(document, kid, i as NodeId) {
                    } else {
                        assert(i == node_id || exists|j: int|
                            0 <= j < k && spec_in_subtree(document, kids@[j], i as NodeId));
                        assert(self.spec_styles()[i] == pre[i]);
                    }
                }
                assert forall|i: int|
                    0 <= i < document.nodes_seq().len() && !(i == node_id || exists|j: int|
                        0 <= j < k + 1 && spec_in_subtree(document, kids@[j], i as NodeId))
                        implies #[trigger] self.spec_styles()[i] == old(self).spec_styles()[i] by {
                    assert(!spec_in_subtree(document, kid, i as NodeId));
                    assert(self.spec_styles()[i] == pre[i]);
                }
            }
            k = k + 1;
        }
        proof {
            assert forall|i: int| 0 <= i < document.nodes_seq().len() implies (#[trigger] spec_in_subtree(
                document,
                node_id,
                i as NodeId,
            ) <==> (i == node_id || exists|j: int|
                0 <= j < kids@.len() && spec_in_subtree(document, kids@[j], i as NodeId))) by {
                assert(document.nodes_seq()[i].id == i);
                assert(i <= usize::MAX);
                assert((i as NodeId) as int == i);
                assert(spec_in_subtree(document, node_id, i as NodeId) == (i as NodeId == node_id
                    || exists|j: int|
                    0 <= j < document.nodes_seq()[node_id as int].children@.len()
                        && spec_in_subtree(
                        document,
                        #[trigger] document.nodes_seq()[node_id as int].children@[j],
                        i as NodeId,
                    )));
            }
        }
    }

    /// All rules whose selector matches the node, with specificity and
    /// source order attached, in source order.
    #[verifier::loop_isolation(false)]
    fn collect_matching_rules(&self, document: &Document, node_id: NodeId) -> (r: Vec<MatchedRule>)
        requires
            document.wf(),
        ensures
            r@ == spec_collect(document, node_id, self.spec_sheets(), 0, 0),
    {
        let ghost sheets = self.spec_sheets();
        let mut matching: Vec<MatchedRule> = Vec::new();
        let mut source_order: usize = 0;
        let mut si: usize = 0;
        while si < self.stylesheets.len()
            invariant
                si <= sheets.len(),
                spec_collect(document, node_id, sheets, 0, 0) == matching@ + spec_collect(
                    document,
                    node_id,
                    sheets,
                    si as int,
                    source_order,
                ),
            decreases sheets.len() - si,
        {
            let sheet = rc_clone(&self.stylesheets[si]);
            let mut ri: usize = 0;
            while ri < sheet.rules.len()
                invariant
                    si < sheets.len(),
                    *sheet == *sheets[si as int],
                    ri <= sheet.rules@.len(),
                    spec_collect(document, node_id, sheets, 0, 0) == matching@
                        + spec_collect_sheet(
                        document,
                        node_id,
                        sheets,
                        si as int,
                        ri as int,
                        source_order,
                    ),
                decreases sheet.rules@.len() - ri,
            {
                let rule = rc_clone(&sheet.rules[ri]);
                let mut ki: usize = 0;
                while ki < rule.selectors.len()
                    invariant
                        si < sheets.len(),
                        *sheet == *sheets[si as int],
                        ri < sheet.rules@.len(),
                        *rule == *sheets[si as int].rules@[ri as int],
                        ki <= rule.selectors@.len(),
                        spec_collect(document, node_id, sheets, 0, 0) == matching@
                            + spec_collect_rule(
                            document,
                            node_id,
                            sheets,
                            si as int,
                            ri as int,
                            ki as int,
                            source_order,
                        ),
                    decreases rule.selectors@.len() - ki,
                {
                    let matched = rule.selectors[ki].matches(document, node_id);
                    let ghost pre = matching@;
                    if matched {
                        matching.push(
                            MatchedRule {
                                specificity: rule.selectors[ki].specificity(),
                                source_order,
                                rule: rc_clone(&rule),
                                selector_index: ki,
                            },
                        );
                    }
                    proof {
                        assert(spec_collect(document, node_id, sheets, 0, 0) =~= matching@
                            + spec_collect_rule(
                            document,
                            node_id,
                            sheets,
                            si as int,
                            ri as int,
                            ki + 1,
                            spec_so_inc(source_order),
                        ));
                    }
                    if source_order < usize::MAX {
                        source_order = source_order + 1;
                    }
                    ki = ki + 1;
                }
                ri = ri + 1;
            }
            si = si + 1;
        }
        proof {
            assert(spec_collect(document, node_id, sheets, 0, 0) =~= matching@);
        }
        matching
    }
}

} // verus!
