//! Layout arithmetic: the box model, block sizing, and flex line
//! building and resolution.
//!
//! These functions compute geometry from plain values; the caller walks
//! the box tree and feeds each box's style and containing width through
//! them.

use vstd::prelude::*;

use crate::computed::{BoxSizing, ComputedStyle, JustifyContent};
use crate::px::{dim_ok, px_add, px_floor0, px_max, px_min, MAX_PX, MAX_STYLE_PX};

verus! {

/// The four edges of one box layer, in pixels.
#[derive(Debug, Clone, Copy, PartialEq, Eq, Structural)]
pub struct EdgeSizes {
    pub top: i64,
    pub right: i64,
    pub bottom: i64,
    pub left: i64,
}

pub open spec fn edges_ok(e: EdgeSizes) -> bool {
    &&& -MAX_STYLE_PX <= e.top <= MAX_STYLE_PX
    &&& -MAX_STYLE_PX <= e.right <= MAX_STYLE_PX
    &&& -MAX_STYLE_PX <= e.bottom <= MAX_STYLE_PX
    &&& -MAX_STYLE_PX <= e.left <= MAX_STYLE_PX
}

impl EdgeSizes {
    pub fn new(top: i64, right: i64, bottom: i64, left: i64) -> (r: EdgeSizes)
        ensures
            r == (EdgeSizes { top, right, bottom, left }),
    {
        EdgeSizes { top, right, bottom, left }
    }

    pub fn uniform(size: i64) -> (r: EdgeSizes)
        ensures
            r == (EdgeSizes { top: size, right: size, bottom: size, left: size }),
    {
        EdgeSizes { top: size, right: size, bottom: size, left: size }
    }

    pub fn horizontal(&self) -> (r: i64)
        requires
            edges_ok(*self),
        ensures
            r == self.left + self.right,
    {
        self.left + self.right
    }

    pub fn vertical(&self) -> (r: i64)
        requires
            edges_ok(*self),
        ensures
            r == self.top + self.bottom,
    {
        self.top + self.bottom
    }
}

/// The nested rectangles of one laid-out box: the content rectangle plus
/// the padding, border and margin edge widths around it.
#[derive(Debug, Clone, Copy, PartialEq, Eq, Structural)]
pub struct BoxDimensions {
    pub content: crate::painter::Rect,
    pub padding: EdgeSizes,
    pub border: EdgeSizes,
    pub margin: EdgeSizes,
}

pub open spec fn dims_ok(d: BoxDimensions) -> bool {
    &&& crate::painter::rect_ok(d.content)
    &&& edges_ok(d.padding)
    &&& edges_ok(d.border)
    &&& edges_ok(d.margin)
}

impl BoxDimensions {
    pub fn new() -> (r: BoxDimensions)
        ensures
            r.content == (crate::painter::Rect { x: 0i64, y: 0i64, width: 0i64, height: 0i64 }),
            r.padding == EdgeSizes::spec_zero(),
            r.border == EdgeSizes::spec_zero(),
            r.margin == EdgeSizes::spec_zero(),
    {
        BoxDimensions {
            content: crate::painter::Rect { x: 0, y: 0, width: 0, height: 0 },
            padding: EdgeSizes { top: 0, right: 0, bottom: 0, left: 0 },
            border: EdgeSizes { top: 0, right: 0, bottom: 0, left: 0 },
            margin: EdgeSizes { top: 0, right: 0, bottom: 0, left: 0 },
        }
    }

    /// Height of the margin box: content plus padding, border and margin.
    pub fn margin_box_height(&self) -> (r: i64)
        requires
            dims_ok(*self),
        ensures
            r == self.content.height + self.padding.top + self.padding.bottom + self.border.top
                + self.border.bottom + self.margin.top + self.margin.bottom,
    {
        self.content.height + self.padding.top + self.padding.bottom + self.border.top
            + self.border.bottom + self.margin.top + self.margin.bottom
    }

    /// Width of the margin box.
    pub fn margin_box_width(&self) -> (r: i64)
        requires
            dims_ok(*self),
        ensures
            r == self.content.width + self.padding.left + self.padding.right + self.border.left
                + self.border.right + self.margin.left + self.margin.right,
    {
        self.content.width + self.padding.left + self.padding.right + self.border.left
            + self.border.right + self.margin.left + self.margin.right
    }
}

impl EdgeSizes {
    pub open spec fn spec_zero() -> EdgeSizes {
        EdgeSizes { top: 0, right: 0, bottom: 0, left: 0 }
    }
}

/// The style length fields block layout reads, all inside the style range.
pub open spec fn style_lengths_ok(s: ComputedStyle) -> bool {
    &&& -MAX_STYLE_PX <= s.margin_left <= MAX_STYLE_PX
    &&& -MAX_STYLE_PX <= s.margin_right <= MAX_STYLE_PX
    &&& -MAX_STYLE_PX <= s.padding_left <= MAX_STYLE_PX
    &&& -MAX_STYLE_PX <= s.padding_right <= MAX_STYLE_PX
    &&& -MAX_STYLE_PX <= s.border_left_width <= MAX_STYLE_PX
    &&& -MAX_STYLE_PX <= s.border_right_width <= MAX_STYLE_PX
    &&& (s.width matches Some(w) ==> -MAX_STYLE_PX <= w <= MAX_STYLE_PX)
    &&& (s.min_width matches Some(w) ==> -MAX_STYLE_PX <= w <= MAX_STYLE_PX)
    &&& (s.max_width matches Some(w) ==> -MAX_STYLE_PX <= w <= MAX_STYLE_PX)
}

/// Horizontal non-content extent of a box: margins, paddings and borders.
pub open spec fn spec_h_extras(s: ComputedStyle) -> int {
    s.margin_left + s.margin_right + s.padding_left + s.padding_right + s.border_left_width
        + s.border_right_width
}

/// The content width a block box resolves to, before min/max clamping:
/// an auto width fills the containing block exactly; an explicit width is
/// taken as the content width under `content-box`, and has padding and
/// border taken out of it (floored at zero) under `border-box`.
pub open spec fn spec_block_content_width(s: ComputedStyle, containing: int) -> int {
    match s.width {
        Some(w) => match s.box_sizing {
            BoxSizing::ContentBox => w as int,
            BoxSizing::BorderBox => {
                let inner = w - s.padding_left - s.padding_right - s.border_left_width
                    - s.border_right_width;
                if inner >= 0 {
                    inner
                } else {
                    0
                }
            },
        },
        None => containing - spec_h_extras(s),
    }
}

/// Resolve a block box's content width from its containing block.
pub fn block_content_width(style: &ComputedStyle, containing_width: i64) -> (r: i64)
    requires
        style_lengths_ok(*style),
        -0x80_0000_0000 <= containing_width <= 0x80_0000_0000,
    ensures
        r as int == spec_block_content_width(*style, containing_width as int),
        dim_ok(r as int),
{
    match style.width {
        Some(w) => {
            match style.box_sizing {
                BoxSizing::ContentBox => w,
                BoxSizing::BorderBox => {
                    let inner = w - style.padding_left - style.padding_right
                        - style.border_left_width - style.border_right_width;
                    px_floor0(inner)
                },
            }
        },
        None => {
            containing_width - style.margin_left - style.margin_right - style.padding_left
                - style.padding_right - style.border_left_width - style.border_right_width
        },
    }
}

/// Clamp a resolved width by the style's min and max constraints, minimum
/// winning over maximum as the resolution order applies min first.
pub open spec fn spec_min_max_width(s: ComputedStyle, w: int) -> int {
    let w1 = match s.min_width {
        Some(mn) => if w >= mn {
            w
        } else {
            mn as int
        },
        None => w,
    };
    match s.max_width {
        Some(mx) => if w1 <= mx {
            w1
        } else {
            mx as int
        },
        None => w1,
    }
}

pub fn apply_min_max_width(style: &ComputedStyle, w: i64) -> (r: i64)
    requires
        style_lengths_ok(*style),
        dim_ok(w as int),
    ensures
        r as int == spec_min_max_width(*style, w as int),
        dim_ok(r as int),
{
    let mut out = w;
    match style.min_width {
        Some(mn) => {
            out = px_max(out, mn);
        },
        None => {},
    }
    match style.max_width {
        Some(mx) => {
            out = px_min(out, mx);
        },
        None => {},
    }
    out
}

/// The block width invariant: for a box with automatic width and no
/// min/max constraint, the resolved content width plus its horizontal
/// margins, paddings and borders equals the containing width exactly.
pub proof fn lemma_block_width_fills_containing(s: ComputedStyle, containing: int)
    requires
        style_lengths_ok(s),
        s.width is None,
        s.min_width is None,
        s.max_width is None,
    ensures
        spec_min_max_width(s, spec_block_content_width(s, containing)) + s.margin_left
            + s.margin_right + s.padding_left + s.padding_right + s.border_left_width
            + s.border_right_width == containing,
{
}

/// The border-box rule: with `box-sizing: border-box`, an explicit width
/// covers content, padding and border, so the content width is the
/// explicit width less padding and border.
pub proof fn lemma_border_box_width(s: ComputedStyle, containing: int, w: i64)
    requires
        style_lengths_ok(s),
        s.width == Some(w),
        s.box_sizing is BorderBox,
        w >= s.padding_left + s.padding_right + s.border_left_width + s.border_right_width,
    ensures
        spec_block_content_width(s, containing) == w - s.padding_left - s.padding_right
            - s.border_left_width - s.border_right_width,
{
}

/// One flex item as line building sees it: its outer main size with
/// margins and edges, its hypothetical main size, and its grow and shrink
/// factors in hundredths.
#[derive(Debug, Clone, Copy, PartialEq, Eq, Structural)]
pub struct FlexItemData {
    pub outer_main: i64,
    pub hyp_main: i64,
    pub grow: i64,
    pub shrink: i64,
}

pub open spec fn flex_item_ok(it: FlexItemData) -> bool {
    &&& 0 <= it.outer_main <= MAX_STYLE_PX
    &&& 0 <= it.hyp_main <= MAX_STYLE_PX
    &&& 0 <= it.grow <= MAX_STYLE_PX
    &&& 0 <= it.shrink <= MAX_STYLE_PX
}

/// One flex line: the items `start..end` of the item list, and their
/// summed outer main size including gaps.
#[derive(Debug, Clone, Copy, PartialEq, Eq, Structural)]
pub struct FlexLine {
    pub start: usize,
    pub end: usize,
    pub main_size: i64,
}

/// The main size a line covering items `s..e` accumulates: each item's
/// outer main size, with a gap before every item but the first, added in
/// the builder's saturating pixel arithmetic.
pub open spec fn spec_line_main(items: Seq<FlexItemData>, s: int, e: int, gap: int) -> int
    decreases e - s,
{
    if e <= s {
        0
    } else if e == s + 1 {
        crate::px::clamp_px(items[s].outer_main as int)
    } else {
        crate::px::clamp_px(
            crate::px::clamp_px(spec_line_main(items, s, e - 1, gap) + gap) + items[e - 1].outer_main,
        )
    }
}

/// The plain sum of the outer main sizes of items `s..e`.
pub open spec fn spec_outer_sum(items: Seq<FlexItemData>, s: int, e: int) -> int
    decreases e - s,
{
    if e <= s {
        0
    } else {
        spec_outer_sum(items, s, e - 1) + items[e - 1].outer_main
    }
}

/// As long as the plain sum with gaps stays inside the pixel range, the
/// accumulated line main size is exactly the sum of the items' outer main
/// sizes plus one gap between each pair of neighbours.
pub proof fn lemma_line_main_is_sum(items: Seq<FlexItemData>, s: int, e: int, gap: int)
    requires
        0 <= s < e <= items.len(),
        forall|i: int| 0 <= i < items.len() ==> flex_item_ok(#[trigger] items[i]),
        0 <= gap,
        spec_outer_sum(items, s, e) + (e - s - 1) * gap <= MAX_PX,
    ensures
        spec_line_main(items, s, e, gap) == spec_outer_sum(items, s, e) + (e - s - 1) * gap,
    decreases e - s,
{
    lemma_outer_sum_nonneg(items, s, e);
    if e == s + 1 {
        assert(spec_outer_sum(items, s, s) == 0);
        assert(spec_outer_sum(items, s, e) == items[s].outer_main);
        assert(flex_item_ok(items[s]));
        assert((e - s - 1) * gap == 0) by (nonlinear_arith)
            requires
                e == s + 1,
        ;
        assert(crate::px::clamp_px(items[s].outer_main as int) == items[s].outer_main);
    } else {
        lemma_outer_sum_nonneg(items, s, e - 1);
        assert((e - s - 2) * gap + gap == (e - s - 1) * gap) by (nonlinear_arith);
        assert((e - s - 2) * gap >= 0) by (nonlinear_arith)
            requires
                e - s - 2 >= 0,
                gap >= 0,
        ;
        assert(flex_item_ok(items[e - 1]));
        lemma_line_main_is_sum(items, s, e - 1, gap);
        let prev = spec_line_main(items, s, e - 1, gap);
        assert(0 <= prev + gap <= MAX_PX);
        assert(crate::px::clamp_px(prev + gap) == prev + gap);
        assert(crate::px::clamp_px(prev + gap + items[e - 1].outer_main) == prev + gap + items[e
            - 1].outer_main);
    }
}

proof fn lemma_outer_sum_nonneg(items: Seq<FlexItemData>, s: int, e: int)
    requires
        0 <= s <= e <= items.len(),
        forall|i: int| 0 <= i < items.len() ==> flex_item_ok(#[trigger] items[i]),
    ensures
        spec_outer_sum(items, s, e) >= 0,
    decreases e - s,
{
    if e > s {
        lemma_outer_sum_nonneg(items, s, e - 1);
    }
}

/// Greedily pack items into lines: a new line starts when wrapping is on,
/// the line is non-empty, and adding the next item (plus gap) would
/// exceed the available main size. Items never split; a single over-wide
/// item still gets a line of its own.
#[verifier::loop_isolation(false)]
#[verifier::rlimit(100)]
#[verifier::spinoff_prover]
pub fn build_flex_lines(items: &Vec<FlexItemData>, available_main: i64, main_gap: i64, wrap: bool) -> (
    lines: Vec<FlexLine>)
    requires
        forall|i: int| 0 <= i < items@.len() ==> flex_item_ok(#[trigger] items@[i]),
        0 <= available_main <= MAX_PX,
        0 <= main_gap <= MAX_STYLE_PX,
    ensures
        items@.len() == 0 ==> lines@.len() == 0,
        items@.len() > 0 ==> lines@.len() > 0,
        forall|k: int|
            0 <= k < lines@.len() ==> (#[trigger] lines@[k]).start < lines@[k].end,
        forall|k: int| 0 <= k < lines@.len() ==> (#[trigger] lines@[k]).end <= items@.len(),
        lines@.len() > 0 ==> lines@[0].start == 0 && lines@[lines@.len() - 1].end == items@.len(),
        forall|k: int|
            0 < k < lines@.len() ==> (#[trigger] lines@[k]).start == lines@[k - 1].end,
        // the wrap law: no line with two or more items exceeds the
        // available main size
        wrap ==> forall|k: int|
            0 <= k < lines@.len() && (#[trigger] lines@[k]).end - lines@[k].start >= 2
                ==> lines@[k].main_size <= available_main,
        // greedy filling: every line but the last closed only because the
        // next item, with its gap, would not have fit
        wrap ==> forall|k: int|
            0 <= k < lines@.len() - 1 ==> (#[trigger] lines@[k]).main_size + main_gap
                + items@[lines@[k].end as int].outer_main > available_main,
        forall|k: int| 0 <= k < lines@.len() ==> 0 <= (#[trigger] lines@[k]).main_size <= MAX_PX,
        // each line's main size is exactly what its own items accumulate
        forall|k: int|
            0 <= k < lines@.len() ==> (#[trigger] lines@[k]).main_size == spec_line_main(
                items@,
                lines@[k].start as int,
                lines@[k].end as int,
                main_gap as int,
            ),
{
    let mut lines: Vec<FlexLine> = Vec::new();
    let mut line_start: usize = 0;
    let mut line_main: i64 = 0;
    let mut i: usize = 0;
    while i < items.len()
        invariant
            line_start <= i <= items@.len(),
            0 <= line_main <= MAX_PX,
            i > line_start ==> line_main <= MAX_PX,
            wrap && i - line_start >= 2 ==> line_main <= available_main,
            forall|k: int|
                0 <= k < lines@.len() ==> (#[trigger] lines@[k]).start < lines@[k].end,
            forall|k: int| 0 <= k < lines@.len() ==> (#[trigger] lines@[k]).end <= line_start,
            lines@.len() > 0 ==> lines@[0].start == 0 && lines@[lines@.len() - 1].end
                == line_start,
            lines@.len() == 0 ==> line_start == 0,
            forall|k: int|
                0 < k < lines@.len() ==> (#[trigger] lines@[k]).start == lines@[k - 1].end,
            wrap ==> forall|k: int|
                0 <= k < lines@.len() && (#[trigger] lines@[k]).end - lines@[k].start >= 2
                    ==> lines@[k].main_size <= available_main,
            wrap ==> forall|k: int|
                0 <= k < lines@.len() ==> (#[trigger] lines@[k]).main_size + main_gap
                    + items@[lines@[k].end as int].outer_main > available_main,
            forall|k: int|
                0 <= k < lines@.len() ==> 0 <= (#[trigger] lines@[k]).main_size <= MAX_PX,
            forall|k: int|
                0 <= k < lines@.len() ==> (#[trigger] lines@[k]).main_size == spec_line_main(
                    items@,
                    lines@[k].start as int,
                    lines@[k].end as int,
                    main_gap as int,
                ),
            i == line_start ==> line_main == 0,
            i > line_start ==> line_main == spec_line_main(
                items@,
                line_start as int,
                i as int,
                main_gap as int,
            ),
        decreases items@.len() - i,
    {
        let outer = items[i].outer_main;
        let gap_for_this = if i > line_start {
            main_gap
        } else {
            0
        };
        let would = px_add(px_add(line_main, gap_for_this), outer);
        proof {
            assert(flex_item_ok(items@[i as int]));
            if i == line_start {
                assert(would == spec_line_main(items@, i as int, i + 1, main_gap as int));
            } else {
                assert(would == spec_line_main(items@, line_start as int, i + 1, main_gap as int));
            }
        }
        if wrap && i > line_start && would > available_main {
            lines.push(FlexLine { start: line_start, end: i, main_size: line_main });
            line_start = i;
            line_main = outer;
            proof {
                assert(line_main == spec_line_main(items@, i as int, i + 1, main_gap as int));
            }
        } else {
            line_main = would;
        }
        i = i + 1;
    }
    if i > line_start {
        lines.push(FlexLine { start: line_start, end: i, main_size: line_main });
    }
    lines
}

/// Distribute positive free space in proportion to the grow factors:
/// each item's main size becomes its hypothetical size plus
/// `grow * free_space / total_grow`, in truncating integer arithmetic.
#[verifier::loop_isolation(false)]
pub fn resolve_flex_grow(items: &Vec<FlexItemData>, free_space: i64) -> (r: Vec<i64>)
    requires
        forall|i: int| 0 <= i < items@.len() ==> flex_item_ok(#[trigger] items@[i]),
        items@.len() <= 0x10000,
        0 <= free_space <= MAX_PX,
    ensures
        r@.len() == items@.len(),
        spec_total_grow(items@, items@.len() as int) > 0 ==> forall|i: int|
            0 <= i < items@.len() ==> #[trigger] r@[i] == items@[i].hyp_main + items@[i].grow
                * free_space / spec_total_grow(items@, items@.len() as int),
        spec_total_grow(items@, items@.len() as int) == 0 ==> forall|i: int|
            0 <= i < items@.len() ==> #[trigger] r@[i] == items@[i].hyp_main,
{
    let total = total_grow(items);
    let mut out: Vec<i64> = Vec::new();
    let mut i: usize = 0;
    while i < items.len()
        invariant
            i <= items@.len(),
            out@.len() == i,
            total == spec_total_grow(items@, items@.len() as int),
            total > 0 ==> forall|j: int|
                0 <= j < i ==> #[trigger] out@[j] == items@[j].hyp_main + items@[j].grow
                    * free_space / (total as int),
            total == 0 ==> forall|j: int| 0 <= j < i ==> #[trigger] out@[j] == items@[j].hyp_main,
        decreases items@.len() - i,
    {
        if total > 0 {
            let it = items[i];
            proof {
                lemma_grow_le_total(items@, items@.len() as int, i as int);
                assert(0 <= it.grow * free_space <= (total as int) * free_space)
                    by (nonlinear_arith)
                    requires
                        0 <= it.grow <= total as int,
                        0 <= free_space,
                ;
                assert((total as int) * free_space / (total as int) == free_space)
                    by (nonlinear_arith)
                    requires
                        total as int > 0,
                ;
                assert(it.grow * free_space / (total as int) <= free_space) by (nonlinear_arith)
                    requires
                        0 <= it.grow * free_space <= (total as int) * free_space,
                        total as int > 0,
                ;
                assert((it.grow as int) * (free_space as int) <= 0x4000_0000 * 0x100_0000_0000
                    && (it.grow as int) * (free_space as int) >= 0) by (nonlinear_arith)
                    requires
                        0 <= it.grow as int <= 0x4000_0000,
                        0 <= free_space as int <= 0x100_0000_0000,
                ;
            }
            let amount: i64 = ((it.grow as i128) * (free_space as i128) / (total as i128)) as i64;
            out.push(it.hyp_main + amount);
        } else {
            out.push(items[i].hyp_main);
        }
        i = i + 1;
    }
    out
}

/// Summed grow factors of the first `n` items.
pub open spec fn spec_total_grow(items: Seq<FlexItemData>, n: int) -> int
    decreases n,
{
    if n <= 0 || n > items.len() {
        0
    } else {
        spec_total_grow(items, n - 1) + items[n - 1].grow
    }
}

#[verifier::loop_isolation(false)]
fn total_grow(items: &Vec<FlexItemData>) -> (r: i64)
    requires
        forall|i: int| 0 <= i < items@.len() ==> flex_item_ok(#[trigger] items@[i]),
        items@.len() <= 0x10000,
    ensures
        r == spec_total_grow(items@, items@.len() as int),
        r >= 0,
{
    let mut sum: i64 = 0;
    let mut i: usize = 0;
    while i < items.len()
        invariant
            i <= items@.len(),
            sum == spec_total_grow(items@, i as int),
            0 <= sum,
            sum <= (i as int) * (MAX_STYLE_PX as int),
        decreases items@.len() - i,
    {
        proof {
            assert((i as int) * (MAX_STYLE_PX as int) + MAX_STYLE_PX == ((i + 1) as int) * (
            MAX_STYLE_PX as int)) by (nonlinear_arith);
        }
        let g = items[i].grow;
        sum = sum + g;
        i = i + 1;
    }
    sum
}

/// Each grow factor is at most the sum of them all.
proof fn lemma_grow_le_total(items: Seq<FlexItemData>, n: int, i: int)
    requires
        0 <= i < n <= items.len(),
        forall|j: int| 0 <= j < items.len() ==> flex_item_ok(#[trigger] items[j]),
    ensures
        items[i].grow <= spec_total_grow(items, n),
        spec_total_grow(items, n) >= 0,
    decreases n,
{
    if n > 0 {
        if i == n - 1 {
            lemma_total_grow_nonneg(items, n - 1);
        } else {
            lemma_grow_le_total(items, n - 1, i);
        }
    }
}

proof fn lemma_total_grow_nonneg(items: Seq<FlexItemData>, n: int)
    requires
        n <= items.len(),
        forall|j: int| 0 <= j < items.len() ==> flex_item_ok(#[trigger] items[j]),
    ensures
        spec_total_grow(items, n) >= 0,
    decreases n,
{
    if n > 0 {
        lemma_total_grow_nonneg(items, n - 1);
    }
}


/// Summed shrink weights of the first `n` items: each item weighs its
/// shrink factor times its hypothetical main size.
pub open spec fn spec_total_shrink_weight(items: Seq<FlexItemData>, n: int) -> int
    decreases n,
{
    if n <= 0 || n > items.len() {
        0
    } else {
        spec_total_shrink_weight(items, n - 1) + items[n - 1].shrink * items[n - 1].hyp_main
    }
}

#[verifier::loop_isolation(false)]
fn total_shrink_weight(items: &Vec<FlexItemData>) -> (r: i128)
    requires
        forall|i: int| 0 <= i < items@.len() ==> flex_item_ok(#[trigger] items@[i]),
        items@.len() <= 0x1000,
    ensures
        r == spec_total_shrink_weight(items@, items@.len() as int),
        r >= 0,
{
    let mut sum: i128 = 0;
    let mut i: usize = 0;
    while i < items.len()
        invariant
            i <= items@.len(),
            sum == spec_total_shrink_weight(items@, i as int),
            0 <= sum,
            sum <= (i as int) * ((MAX_STYLE_PX as int) * (MAX_STYLE_PX as int)),
        decreases items@.len() - i,
    {
        let it = items[i];
        proof {
            assert(0 <= it.shrink * it.hyp_main <= (MAX_STYLE_PX as int) * (
            MAX_STYLE_PX as int)) by (nonlinear_arith)
                requires
                    0 <= it.shrink <= MAX_STYLE_PX,
                    0 <= it.hyp_main <= MAX_STYLE_PX,
            ;
            assert((i as int) * ((MAX_STYLE_PX as int) * (MAX_STYLE_PX as int)) + (
            MAX_STYLE_PX as int) * (MAX_STYLE_PX as int) == ((i + 1) as int) * ((
            MAX_STYLE_PX as int) * (MAX_STYLE_PX as int))) by (nonlinear_arith);
            assert((0x1000) * ((MAX_STYLE_PX as int) * (MAX_STYLE_PX as int))
                < 0x8000_0000_0000_0000_0000_0000_0000_0000) by (nonlinear_arith);
            assert((i as int) * ((MAX_STYLE_PX as int) * (MAX_STYLE_PX as int)) <= (0xfff) * ((
            MAX_STYLE_PX as int) * (MAX_STYLE_PX as int))) by (nonlinear_arith)
                requires
                    i <= 0xfff,
            ;
        }
        let w: i64 = it.shrink * it.hyp_main;
        sum = sum + (w as i128);
        i = i + 1;
    }
    sum
}

/// Each shrink weight is at most the sum of them all.
proof fn lemma_weight_le_total(items: Seq<FlexItemData>, n: int, i: int)
    requires
        0 <= i < n <= items.len(),
        forall|j: int| 0 <= j < items.len() ==> flex_item_ok(#[trigger] items[j]),
    ensures
        items[i].shrink * items[i].hyp_main <= spec_total_shrink_weight(items, n),
        spec_total_shrink_weight(items, n) >= 0,
    decreases n,
{
    if n > 0 {
        assert(items[n - 1].shrink * items[n - 1].hyp_main >= 0) by (nonlinear_arith)
            requires
                items[n - 1].shrink >= 0,
                items[n - 1].hyp_main >= 0,
        ;
        if i == n - 1 {
            lemma_weight_total_nonneg(items, n - 1);
        } else {
            lemma_weight_le_total(items, n - 1, i);
        }
    }
}

proof fn lemma_weight_total_nonneg(items: Seq<FlexItemData>, n: int)
    requires
        n <= items.len(),
        forall|j: int| 0 <= j < items.len() ==> flex_item_ok(#[trigger] items[j]),
    ensures
        spec_total_shrink_weight(items, n) >= 0,
    decreases n,
{
    if n > 0 {
        lemma_weight_total_nonneg(items, n - 1);
        assert(items[n - 1].shrink * items[n - 1].hyp_main >= 0) by (nonlinear_arith)
            requires
                items[n - 1].shrink >= 0,
                items[n - 1].hyp_main >= 0,
        ;
    }
}

/// Distribute a main-size deficit in proportion to `flex-shrink` times the
/// hypothetical size, flooring each item at zero: the single-pass scaled
/// shrinking of the simplified flex resolution.
#[verifier::loop_isolation(false)]
#[verifier::rlimit(100)]
#[verifier::spinoff_prover]
pub fn resolve_flex_shrink(items: &Vec<FlexItemData>, deficit: i64) -> (r: Vec<i64>)
    requires
        forall|i: int| 0 <= i < items@.len() ==> flex_item_ok(#[trigger] items@[i]),
        items@.len() <= 0x1000,
        0 <= deficit <= MAX_PX,
    ensures
        r@.len() == items@.len(),
        spec_total_shrink_weight(items@, items@.len() as int) > 0 ==> forall|i: int|
            0 <= i < items@.len() ==> #[trigger] r@[i] == (if items@[i].hyp_main - items@[i].shrink
                * items@[i].hyp_main * deficit / spec_total_shrink_weight(
                items@,
                items@.len() as int,
            ) >= 0 {
                items@[i].hyp_main - items@[i].shrink * items@[i].hyp_main * deficit
                    / spec_total_shrink_weight(items@, items@.len() as int)
            } else {
                0
            }),
        spec_total_shrink_weight(items@, items@.len() as int) == 0 ==> forall|i: int|
            0 <= i < items@.len() ==> #[trigger] r@[i] == items@[i].hyp_main,
{
    let total = total_shrink_weight(items);
    let mut out: Vec<i64> = Vec::new();
    let mut i: usize = 0;
    while i < items.len()
        invariant
            i <= items@.len(),
            out@.len() == i,
            total == spec_total_shrink_weight(items@, items@.len() as int),
            total > 0 ==> forall|j: int|
                0 <= j < i ==> #[trigger] out@[j] == (if items@[j].hyp_main - items@[j].shrink
                    * items@[j].hyp_main * deficit / (total as int) >= 0 {
                    items@[j].hyp_main - items@[j].shrink * items@[j].hyp_main * deficit / (
                    total as int)
                } else {
                    0
                }),
            total == 0 ==> forall|j: int| 0 <= j < i ==> #[trigger] out@[j] == items@[j].hyp_main,
        decreases items@.len() - i,
    {
        if total > 0 {
            let it = items[i];
            proof {
                lemma_weight_le_total(items@, items@.len() as int, i as int);
                assert(0 <= it.shrink * it.hyp_main <= (MAX_STYLE_PX as int) * (
                MAX_STYLE_PX as int)) by (nonlinear_arith)
                    requires
                        0 <= it.shrink <= MAX_STYLE_PX,
                        0 <= it.hyp_main <= MAX_STYLE_PX,
                ;
                assert(0 <= (it.shrink * it.hyp_main) * deficit <= (total as int) * deficit)
                    by (nonlinear_arith)
                    requires
                        0 <= it.shrink * it.hyp_main <= total as int,
                        0 <= deficit,
                ;
                assert((total as int) * deficit / (total as int) == deficit) by (nonlinear_arith)
                    requires
                        total as int > 0,
                ;
                assert((it.shrink * it.hyp_main) * deficit / (total as int) <= deficit)
                    by (nonlinear_arith)
                    requires
                        0 <= (it.shrink * it.hyp_main) * deficit <= (total as int) * deficit,
                        total as int > 0,
                ;
                assert(it.shrink * it.hyp_main * deficit == (it.shrink * it.hyp_main) * deficit)
                    by (nonlinear_arith);
                assert((it.shrink * it.hyp_main) * deficit <= ((MAX_STYLE_PX as int) * (
                MAX_STYLE_PX as int)) * (MAX_PX as int)) by (nonlinear_arith)
                    requires
                        0 <= it.shrink * it.hyp_main <= (MAX_STYLE_PX as int) * (
                        MAX_STYLE_PX as int),
                        0 <= deficit <= MAX_PX,
                ;
            }
            let w: i64 = it.shrink * it.hyp_main;
            let amount: i64 = ((w as i128) * (deficit as i128) / total) as i64;
            if it.hyp_main - amount >= 0 {
                out.push(it.hyp_main - amount);
            } else {
                out.push(0);
            }
        } else {
            out.push(items[i].hyp_main);
        }
        i = i + 1;
    }
    out
}

/// Main-axis placement offsets for `justify-content`: the offset before
/// the first item and the spacing added between neighbours (the
/// container's gap included).
pub open spec fn spec_justify(j: JustifyContent, free: int, n: int, gap: int) -> (int, int) {
    match j {
        JustifyContent::FlexStart => (0, gap),
        JustifyContent::FlexEnd => (free, gap),
        JustifyContent::Center => (free / 2, gap),
        JustifyContent::SpaceBetween => if n > 1 {
            (0, free / (n - 1) + gap)
        } else {
            (0, gap)
        },
        JustifyContent::SpaceAround => (free / n / 2, free / n + gap),
        JustifyContent::SpaceEvenly => (free / (n + 1), free / (n + 1) + gap),
    }
}

/// Compute the initial offset and the between-items spacing for a line.
pub fn justify_offsets(j: JustifyContent, free_space: i64, item_count: usize, gap: i64) -> (r: (
    i64,
    i64,
))
    requires
        0 <= free_space <= MAX_PX,
        0 <= gap <= MAX_STYLE_PX,
        item_count >= 1,
        item_count <= 0xffff_ffff,
    ensures
        (r.0 as int, r.1 as int) == spec_justify(j, free_space as int, item_count as int, gap as int),
{
    let n = item_count as i64;
    match j {
        JustifyContent::FlexStart => (0, gap),
        JustifyContent::FlexEnd => (free_space, gap),
        JustifyContent::Center => (free_space / 2, gap),
        JustifyContent::SpaceBetween => {
            if item_count > 1 {
                (0, free_space / (n - 1) + gap)
            } else {
                (0, gap)
            }
        },
        JustifyContent::SpaceAround => {
            let space = free_space / n;
            (space / 2, space + gap)
        },
        JustifyContent::SpaceEvenly => {
            let space = free_space / (n + 1);
            (space, space + gap)
        },
    }
}

} // verus!
