//! The box tree: one layout box per renderable DOM node, built from the
//! document and its computed styles, and the paint commands one box
//! contributes.

use vstd::prelude::*;

use crate::cascade::StyleComputer;
use crate::computed::{ComputedStyle, Display};
use crate::dom::{Document, NodeData, NodeId};
use crate::layout::BoxDimensions;
use crate::painter::{DisplayCommand, DisplayList, Rect};
use crate::text::{chars_eq, chars_of, trim_chars, string_from_chars};

verus! {

#[derive(Debug, Clone, Copy, PartialEq, Eq, Structural)]
pub enum BoxType {
    Block,
    Inline,
    InlineBlock,
    Anonymous,
    Text,
    Flex,
    Grid,
    Image,
    Table,
    TableRow,
    TableCell,
    TableRowGroup,
}

/// Intrinsic pixel size of an image.
#[derive(Debug, Clone, Copy, PartialEq, Eq, Structural)]
pub struct ImageSize {
    pub width: u32,
    pub height: u32,
}

impl ImageSize {
    pub fn new(width: u32, height: u32) -> (r: ImageSize)
        ensures
            r == (ImageSize { width, height }),
    {
        ImageSize { width, height }
    }
}

/// One box of the layout tree.
#[derive(Debug)]
pub struct LayoutBox {
    pub box_type: BoxType,
    pub dimensions: BoxDimensions,
    pub node_id: Option<NodeId>,
    pub children: Vec<LayoutBox>,
    pub text_content: Option<String>,
    pub style: ComputedStyle,
    pub image_src: Option<String>,
    pub intrinsic_size: Option<ImageSize>,
    pub texture_id: Option<usize>,
}

impl LayoutBox {
    pub fn new(box_type: BoxType, node_id: Option<NodeId>) -> (r: LayoutBox)
        ensures
            r.box_type == box_type,
            r.node_id == node_id,
            r.children@.len() == 0,
            r.text_content is None,
            r.image_src is None,
            r.texture_id is None,
            r.style == crate::computed::spec_initial_style(),
            r.dimensions.border == crate::layout::EdgeSizes::spec_zero(),
            r.dimensions.padding == crate::layout::EdgeSizes::spec_zero(),
            r.dimensions.margin == crate::layout::EdgeSizes::spec_zero(),
            r.dimensions == spec_zero_dims(),
    {
        LayoutBox {
            box_type,
            dimensions: BoxDimensions::new(),
            node_id,
            children: Vec::new(),
            text_content: None,
            style: ComputedStyle::default(),
            image_src: None,
            intrinsic_size: None,
            texture_id: None,
        }
    }

    pub fn new_text(text: String, style: ComputedStyle) -> (r: LayoutBox)
        ensures
            r.box_type == BoxType::Text,
            r.children@.len() == 0,
            r.text_content matches Some(t) && t == text,
            r.style == style,
            r.image_src is None,
            r.texture_id is None,
            r.node_id is None,
            r.dimensions == spec_zero_dims(),
    {
        LayoutBox {
            box_type: BoxType::Text,
            dimensions: BoxDimensions::new(),
            node_id: None,
            children: Vec::new(),
            text_content: Some(text),
            style,
            image_src: None,
            intrinsic_size: None,
            texture_id: None,
        }
    }

    /// A box that cannot put anything on screen: no background, no
    /// borders, no text, no image.
    pub open spec fn spec_undrawable(&self) -> bool {
        &&& self.style.background_color.a == 0
        &&& self.dimensions.border.top == 0 && self.dimensions.border.right == 0
            && self.dimensions.border.bottom == 0 && self.dimensions.border.left == 0
        &&& self.text_content is None
        &&& !(self.box_type is Image)
    }

    /// Append this box's own paint commands: shadow, background, border,
    /// text and image, in that paint order, matching `spec_commands_of`
    /// exactly (text compared by its characters). An undrawable box
    /// appends nothing — so a box built for a `display: none` element
    /// leaves the display list untouched.
    #[verifier::rlimit(60)]
    pub fn emit_commands(&self, list: &mut DisplayList, offset_x: i64, offset_y: i64)
        requires
            crate::layout::dims_ok(self.dimensions),
            crate::px::dim_ok(offset_x as int),
            crate::px::dim_ok(offset_y as int),
        ensures
            final(list).commands@.len() == old(list).commands@.len() + spec_commands_of(
                self,
                offset_x as int,
                offset_y as int,
            ).len(),
            forall|j: int|
                0 <= j < old(list).commands@.len() ==> final(list).commands@[j] == old(
                    list,
                ).commands@[j],
            forall|j: int|
                0 <= j < spec_commands_of(self, offset_x as int, offset_y as int).len()
                    ==> spec_cmd_like(
                    #[trigger] final(list).commands@[old(list).commands@.len() + j],
                    spec_commands_of(self, offset_x as int, offset_y as int)[j],
                ),
            self.spec_undrawable() && self.style.box_shadow is None ==> final(list).commands@
                == old(list).commands@,
            final(list).commands@.len() >= old(list).commands@.len(),
    {
        let d = &self.dimensions;
        let border_rect = Rect {
            x: offset_x + d.content.x - d.padding.left - d.border.left,
            y: offset_y + d.content.y - d.padding.top - d.border.top,
            width: d.content.width + d.padding.left + d.padding.right + d.border.left
                + d.border.right,
            height: d.content.height + d.padding.top + d.padding.bottom + d.border.top
                + d.border.bottom,
        };
        match self.style.box_shadow {
            Some(shadow) => {
                list.push_box_shadow(
                    border_rect,
                    shadow.color,
                    shadow.offset_x,
                    shadow.offset_y,
                    shadow.blur_radius,
                    shadow.spread_radius,
                    self.style.border_radius,
                );
            },
            None => {},
        }
        if self.style.background_color.a > 0 {
            list.push_rect_with_radius(
                border_rect,
                self.style.background_color,
                self.style.border_radius,
                self.style.opacity,
            );
        }
        if d.border.top > 0 || d.border.right > 0 || d.border.bottom > 0 || d.border.left > 0 {
            list.push_border_with_radius(
                border_rect,
                self.style.border_color,
                d.border.top,
                self.style.border_radius,
            );
        }
        match &self.text_content {
            Some(text) => {
                let tc = chars_of(text.as_str());
                list.push_text_with_opacity(
                    string_from_chars(&tc),
                    offset_x + d.content.x,
                    offset_y + d.content.y,
                    self.style.color,
                    self.style.font_size,
                    self.style.opacity,
                );
            },
            None => {},
        }
        if matches!(self.box_type, BoxType::Image) {
            match self.texture_id {
                Some(texture_id) => {
                    let content_rect = Rect {
                        x: offset_x + d.content.x,
                        y: offset_y + d.content.y,
                        width: d.content.width,
                        height: d.content.height,
                    };
                    list.push_image_with_opacity(content_rect, texture_id, self.style.opacity);
                },
                None => {},
            }
        }
    }
}


/// Two paint commands that read the same: equal, except that text is
/// compared by its characters.
pub open spec fn spec_cmd_like(a: DisplayCommand, b: DisplayCommand) -> bool {
    match (a, b) {
        (
            DisplayCommand::Text { text: ta, x: xa, y: ya, color: ca, font_size: fa, opacity: oa },
            DisplayCommand::Text { text: tb, x: xb, y: yb, color: cb, font_size: fb, opacity: ob },
        ) => ta@ == tb@ && xa == xb && ya == yb && ca == cb && fa == fb && oa == ob,
        _ => a == b,
    }
}

/// The border-box rectangle of a box, shifted by the given offsets.
pub open spec fn spec_border_rect(b: &LayoutBox, ox: int, oy: int) -> Rect {
    let d = b.dimensions;
    Rect {
        x: (ox + d.content.x - d.padding.left - d.border.left) as i64,
        y: (oy + d.content.y - d.padding.top - d.border.top) as i64,
        width: (d.content.width + d.padding.left + d.padding.right + d.border.left
            + d.border.right) as i64,
        height: (d.content.height + d.padding.top + d.padding.bottom + d.border.top
            + d.border.bottom) as i64,
    }
}

/// The paint commands one box contributes, in paint order: box shadow,
/// background (only with visible alpha), border (only with some border
/// width), text, image (only with a texture).
pub open spec fn spec_commands_of(b: &LayoutBox, ox: int, oy: int) -> Seq<DisplayCommand> {
    let br = spec_border_rect(b, ox, oy);
    let shadow: Seq<DisplayCommand> = match b.style.box_shadow {
        Some(sh) => seq![
            DisplayCommand::BoxShadow {
                rect: br,
                color: sh.color,
                offset_x: sh.offset_x,
                offset_y: sh.offset_y,
                blur_radius: sh.blur_radius,
                spread_radius: sh.spread_radius,
                border_radius: b.style.border_radius,
            },
        ],
        None => Seq::empty(),
    };
    let background: Seq<DisplayCommand> = if b.style.background_color.a > 0 {
        seq![
            DisplayCommand::SolidRect {
                rect: br,
                color: b.style.background_color,
                border_radius: b.style.border_radius,
                opacity: b.style.opacity,
            },
        ]
    } else {
        Seq::empty()
    };
    let border: Seq<DisplayCommand> = if b.dimensions.border.top > 0 || b.dimensions.border.right
        > 0 || b.dimensions.border.bottom > 0 || b.dimensions.border.left > 0 {
        seq![
            DisplayCommand::Border {
                rect: br,
                color: b.style.border_color,
                width: b.dimensions.border.top,
                border_radius: b.style.border_radius,
            },
        ]
    } else {
        Seq::empty()
    };
    let text: Seq<DisplayCommand> = match b.text_content {
        Some(t) => seq![
            DisplayCommand::Text {
                text: t,
                x: (ox + b.dimensions.content.x) as i64,
                y: (oy + b.dimensions.content.y) as i64,
                color: b.style.color,
                font_size: b.style.font_size,
                opacity: b.style.opacity,
            },
        ],
        None => Seq::empty(),
    };
    let image: Seq<DisplayCommand> = if b.box_type is Image {
        match b.texture_id {
            Some(texture_id) => seq![
                DisplayCommand::Image {
                    rect: Rect {
                        x: (ox + b.dimensions.content.x) as i64,
                        y: (oy + b.dimensions.content.y) as i64,
                        width: b.dimensions.content.width,
                        height: b.dimensions.content.height,
                    },
                    texture_id,
                    opacity: b.style.opacity,
                },
            ],
            None => Seq::empty(),
        }
    } else {
        Seq::empty()
    };
    shadow + background + border + text + image
}

/// The box type an element's computed display maps to.
pub open spec fn spec_box_type_of(d: Display) -> BoxType {
    match d {
        Display::Block => BoxType::Block,
        Display::Inline => BoxType::Inline,
        Display::InlineBlock => BoxType::InlineBlock,
        Display::NoneKw => BoxType::Block,
        Display::Flex => BoxType::Flex,
        Display::Grid => BoxType::Grid,
        Display::Table => BoxType::Table,
        Display::TableRow => BoxType::TableRow,
        Display::TableCell => BoxType::TableCell,
        Display::TableRowGroup => BoxType::TableRowGroup,
        Display::TableHeaderGroup => BoxType::TableRowGroup,
        Display::TableFooterGroup => BoxType::TableRowGroup,
        Display::TableCaption => BoxType::Block,
        Display::TableColumn => BoxType::Block,
        Display::TableColumnGroup => BoxType::Block,
    }
}

fn box_type_of(d: Display) -> (r: BoxType)
    ensures
        r == spec_box_type_of(d),
{
    match d {
        Display::Block => BoxType::Block,
        Display::Inline => BoxType::Inline,
        Display::InlineBlock => BoxType::InlineBlock,
        Display::NoneKw => BoxType::Block,
        Display::Flex => BoxType::Flex,
        Display::Grid => BoxType::Grid,
        Display::Table => BoxType::Table,
        Display::TableRow => BoxType::TableRow,
        Display::TableCell => BoxType::TableCell,
        Display::TableRowGroup => BoxType::TableRowGroup,
        Display::TableHeaderGroup => BoxType::TableRowGroup,
        Display::TableFooterGroup => BoxType::TableRowGroup,
        Display::TableCaption => BoxType::Block,
        Display::TableColumn => BoxType::Block,
        Display::TableColumnGroup => BoxType::Block,
    }
}


/// Zeroed box dimensions, as every freshly built box carries.
pub open spec fn spec_zero_dims() -> BoxDimensions {
    BoxDimensions {
        content: Rect { x: 0i64, y: 0i64, width: 0i64, height: 0i64 },
        padding: crate::layout::EdgeSizes::spec_zero(),
        border: crate::layout::EdgeSizes::spec_zero(),
        margin: crate::layout::EdgeSizes::spec_zero(),
    }
}

/// The style the builder uses for a node: the computed one, or the
/// initial style when none was stored.
pub open spec fn spec_style_or_default(styles: &StyleComputer, id: NodeId) -> ComputedStyle {
    if id < styles.spec_styles().len() && styles.spec_styles()[id as int] is Some {
        styles.spec_styles()[id as int]->0
    } else {
        crate::computed::spec_initial_style()
    }
}

/// Whether the builder skips a child: its stored style computes
/// `display: none`.
pub open spec fn spec_skipped(styles: &StyleComputer, id: NodeId) -> bool {
    id < styles.spec_styles().len() && (styles.spec_styles()[id as int] matches Some(cs)
        && cs.display is NoneKw)
}

/// A freshly built box with nothing in it.
pub open spec fn spec_bare_box(b: &LayoutBox, bt: BoxType, nid: Option<NodeId>) -> bool {
    &&& b.box_type == bt
    &&& b.node_id == nid
    &&& b.children@.len() == 0
    &&& b.text_content is None
    &&& b.image_src is None
    &&& b.texture_id is None
    &&& b.style == crate::computed::spec_initial_style()
    &&& b.dimensions == spec_zero_dims()
}

/// What the builder produces for node `id`: the tree-shape relation the
/// `build_layout_tree` contract states, case by case.
pub open spec fn spec_builds(doc: &Document, styles: &StyleComputer, id: NodeId, b: &LayoutBox) -> bool
    decreases doc.nodes_seq().len() - id, 1int, 0int,
        when doc.wf()
{
    if id >= doc.nodes_seq().len() {
        spec_bare_box(b, BoxType::Block, None)
    } else {
        let style = spec_style_or_default(styles, id);
        match doc.nodes_seq()[id as int].data {
            NodeData::Element(e) => if style.display is NoneKw {
                spec_bare_box(b, BoxType::Block, Some(id))
            } else if e.tag_name@ == "script"@ || e.tag_name@ == "style"@ {
                spec_bare_box(b, BoxType::Block, None)
            } else if e.tag_name@ == "img"@ {
                match crate::dom::spec_attr(e.attributes@, "src"@) {
                    Some(src) => {
                        &&& b.box_type == BoxType::Image
                        &&& b.node_id == Some(id)
                        &&& b.style == style
                        &&& b.image_src matches Some(s) && s@ == src
                        &&& b.children@.len() == 0
                        &&& b.text_content is None
                        &&& b.texture_id is None
                        &&& b.dimensions == spec_zero_dims()
                    },
                    None => spec_bare_box(b, BoxType::Block, None),
                }
            } else {
                &&& b.box_type == spec_box_type_of(style.display)
                &&& b.node_id == Some(id)
                &&& b.style == style
                &&& b.text_content is None
                &&& b.image_src is None
                &&& b.texture_id is None
                &&& b.dimensions == spec_zero_dims()
                &&& spec_children_prefix(
                    doc,
                    styles,
                    id,
                    doc.nodes_seq()[id as int].children@.len() as int,
                    b.children@,
                )
            },
            NodeData::Text(t) => if crate::text::spec_trim(t@).len() == 0 {
                spec_bare_box(b, BoxType::Text, None)
            } else {
                &&& b.box_type == BoxType::Text
                &&& b.node_id is None
                &&& b.children@.len() == 0
                &&& b.text_content matches Some(s) && s@ == crate::text::spec_trim(t@)
                &&& b.style == style
                &&& b.image_src is None
                &&& b.texture_id is None
                &&& b.dimensions == spec_zero_dims()
            },
            _ => spec_bare_box(b, BoxType::Block, None),
        }
    }
}

/// The built boxes for the first `k` children of node `id`: children
/// whose computed display is `none` are skipped, every other child
/// contributes one box, in order.
pub open spec fn spec_children_prefix(
    doc: &Document,
    styles: &StyleComputer,
    id: NodeId,
    k: int,
    built: Seq<LayoutBox>,
) -> bool
    decreases doc.nodes_seq().len() - id, 0int, k,
        when doc.wf() && id < doc.nodes_seq().len() && k <= doc.nodes_seq()[id as int].children@.len()
{
    if k <= 0 {
        built.len() == 0
    } else {
        let cid = doc.nodes_seq()[id as int].children@[k - 1];
        if spec_skipped(styles, cid) {
            spec_children_prefix(doc, styles, id, k - 1, built)
        } else {
            &&& built.len() > 0
            &&& (id < cid < doc.nodes_seq().len() ==> spec_builds(doc, styles, cid, &built.last()))
            &&& spec_children_prefix(doc, styles, id, k - 1, built.drop_last())
        }
    }
}

/// Build the box for one DOM node and, recursively, its children.
///
/// A `display: none` element produces a bare block box with no children,
/// no text and nothing drawable, so nothing under it can reach the
/// display list; children whose computed display is `none` are skipped
/// entirely. `script` and `style` elements produce the same bare box.
/// An `img` element with a source becomes an image box and its DOM
/// children are not walked.
#[verifier::loop_isolation(false)]
pub fn build_layout_tree(document: &Document, styles: &StyleComputer, node_id: NodeId) -> (r:
    LayoutBox)
    requires
        document.wf(),
    ensures
        spec_builds(document, styles, node_id, &r),
        node_id < styles.spec_styles().len() && node_id < document.nodes_seq().len()
            && document.nodes_seq()[node_id as int].data is Element && (
        styles.spec_styles()[node_id as int] matches Some(s) && s.display is NoneKw)
            ==> r.children@.len() == 0 && r.text_content is None && r.spec_undrawable()
            && r.box_type == BoxType::Block,
    decreases document.nodes_seq().len() - node_id,
{
    let node = match document.get_node(node_id) {
        Some(n) => n,
        None => { return LayoutBox::new(BoxType::Block, None) },
    };
    let style: ComputedStyle = match styles.get_style(node_id) {
        Some(s) => s,
        None => ComputedStyle::default(),
    };
    proof {
        assert(style == spec_style_or_default(styles, node_id));
    }
    match &node.data {
        NodeData::Element(elem) => {
            if matches!(style.display, Display::NoneKw) {
                return LayoutBox::new(BoxType::Block, Some(node_id));
            }
            let tag = chars_of(elem.tag_name.as_str());
            let script_tag = chars_of("script");
            let style_tag = chars_of("style");
            if chars_eq(&tag, &script_tag) || chars_eq(&tag, &style_tag) {
                return LayoutBox::new(BoxType::Block, None);
            }
            let img_tag = chars_of("img");
            if chars_eq(&tag, &img_tag) {
                match elem.get_attribute("src") {
                    Some(src) => {
                        let mut image_box = LayoutBox::new(BoxType::Image, Some(node_id));
                        image_box.style = style;
                        image_box.image_src = Some(src);
                        return image_box;
                    },
                    None => { return LayoutBox::new(BoxType::Block, None) },
                }
            }
            let mut layout_box = LayoutBox::new(box_type_of(style.display), Some(node_id));
            layout_box.style = style;
            let kids = document.children(node_id);
            let mut k: usize = 0;
            while k < kids.len()
                invariant
                    document.wf(),
                    node_id < document.nodes_seq().len(),
                    kids@ == document.nodes_seq()[node_id as int].children@,
                    k <= kids@.len(),
                    layout_box.box_type == spec_box_type_of(style.display),
                    layout_box.node_id == Some(node_id),
                    layout_box.style == style,
                    layout_box.text_content is None,
                    layout_box.image_src is None,
                    layout_box.texture_id is None,
                    layout_box.dimensions == spec_zero_dims(),
                    spec_children_prefix(document, styles, node_id, k as int, layout_box.children@),
                decreases kids@.len() - k,
            {
                proof {
                    assert(node_id < kids@[k as int] < document.nodes_seq().len());
                }
                let child_id = kids[k];
                let skip = match styles.get_style(child_id) {
                    Some(cs) => matches!(cs.display, Display::NoneKw),
                    None => false,
                };
                if !skip {
                    let child_box = build_layout_tree(document, styles, child_id);
                    let ghost before = layout_box.children@;
                    layout_box.children.push(child_box);
                    proof {
                        assert(layout_box.children@.drop_last() =~= before);
                    }
                }
                k = k + 1;
            }
            layout_box
        },
        NodeData::Text(text) => {
            let tc = chars_of(text.as_str());
            let trimmed = trim_chars(&tc);
            if trimmed.len() == 0 {
                LayoutBox::new(BoxType::Text, None)
            } else {
                LayoutBox::new_text(string_from_chars(&trimmed), style)
            }
        },
        _ => LayoutBox::new(BoxType::Block, None),
    }
}

/// The display-none exclusion, builder half: the box built for an
/// element whose computed display is `none` has no children and is
/// undrawable. Together with `emit_commands`' contract — an undrawable
/// box without a shadow appends nothing — no element under a
/// `display: none` subtree can reach a display list.
pub proof fn lemma_display_none_excluded(
    document: &Document,
    styles: &StyleComputer,
    node_id: NodeId,
    r: LayoutBox,
)
    requires
        document.wf(),
        node_id < styles.spec_styles().len(),
        node_id < document.nodes_seq().len(),
        document.nodes_seq()[node_id as int].data is Element,
        styles.spec_styles()[node_id as int] matches Some(s) && s.display is NoneKw,
        call_ensures(build_layout_tree, (document, styles, node_id), r),
    ensures
        r.children@.len() == 0,
        r.text_content is None,
        r.spec_undrawable(),
{
}

} // verus!
