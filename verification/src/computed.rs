//! The computed style: every CSS property the engine resolves, one value
//! per property, plus the application of declarations onto a style.
//!
//! Lengths are whole logical pixels. `line_height`, `flex_grow`,
//! `flex_shrink` are hundredths (120 is a factor of 1.2); `opacity` is a
//! percentage 0 to 100.

use vstd::prelude::*;

use crate::painter::Color;
use crate::stylesheet::{mul_div_clamp, spec_style_clamp, spec_tdiv, spec_to_color, spec_to_px, Value};
use crate::text::{chars_eq, chars_of};

verus! {

#[derive(Debug, Clone, Copy, PartialEq, Eq, Structural)]
pub enum Display {
    Block,
    Inline,
    InlineBlock,
    NoneKw,
    Flex,
    Grid,
    Table,
    TableRow,
    TableCell,
    TableRowGroup,
    TableHeaderGroup,
    TableFooterGroup,
    TableCaption,
    TableColumn,
    TableColumnGroup,
}

impl Default for Display {
    fn default() -> (r: Display)
        ensures
            r == Display::Block,
    {
        Display::Block
    }
}

#[derive(Debug, Clone, Copy, PartialEq, Eq, Structural)]
pub enum TextAlign {
    Left,
    Center,
    Right,
    Justify,
}

impl Default for TextAlign {
    fn default() -> (r: TextAlign)
        ensures
            r == TextAlign::Left,
    {
        TextAlign::Left
    }
}

#[derive(Debug, Clone, Copy, PartialEq, Eq, Structural)]
pub enum TextDecoration {
    NoneKw,
    Underline,
    LineThrough,
    Overline,
}

impl Default for TextDecoration {
    fn default() -> (r: TextDecoration)
        ensures
            r == TextDecoration::NoneKw,
    {
        TextDecoration::NoneKw
    }
}

#[derive(Debug, Clone, Copy, PartialEq, Eq, Structural)]
pub enum Position {
    Static,
    Relative,
    Absolute,
    Fixed,
}

impl Default for Position {
    fn default() -> (r: Position)
        ensures
            r == Position::Static,
    {
        Position::Static
    }
}

#[derive(Debug, Clone, Copy, PartialEq, Eq, Structural)]
pub enum FlexDirection {
    Row,
    RowReverse,
    Column,
    ColumnReverse,
}

impl Default for FlexDirection {
    fn default() -> (r: FlexDirection)
        ensures
            r == FlexDirection::Row,
    {
        FlexDirection::Row
    }
}

#[derive(Debug, Clone, Copy, PartialEq, Eq, Structural)]
pub enum FlexWrap {
    NoWrap,
    Wrap,
    WrapReverse,
}

impl Default for FlexWrap {
    fn default() -> (r: FlexWrap)
        ensures
            r == FlexWrap::NoWrap,
    {
        FlexWrap::NoWrap
    }
}

#[derive(Debug, Clone, Copy, PartialEq, Eq, Structural)]
pub enum JustifyContent {
    FlexStart,
    FlexEnd,
    Center,
    SpaceBetween,
    SpaceAround,
    SpaceEvenly,
}

impl Default for JustifyContent {
    fn default() -> (r: JustifyContent)
        ensures
            r == JustifyContent::FlexStart,
    {
        JustifyContent::FlexStart
    }
}

#[derive(Debug, Clone, Copy, PartialEq, Eq, Structural)]
pub enum AlignItems {
    FlexStart,
    FlexEnd,
    Center,
    Stretch,
    Baseline,
}

impl Default for AlignItems {
    fn default() -> (r: AlignItems)
        ensures
            r == AlignItems::Stretch,
    {
        AlignItems::Stretch
    }
}

#[derive(Debug, Clone, Copy, PartialEq, Eq, Structural)]
pub enum AlignContent {
    FlexStart,
    FlexEnd,
    Center,
    SpaceBetween,
    SpaceAround,
    Stretch,
}

impl Default for AlignContent {
    fn default() -> (r: AlignContent)
        ensures
            r == AlignContent::FlexStart,
    {
        AlignContent::FlexStart
    }
}

#[derive(Debug, Clone, Copy, PartialEq, Eq, Structural)]
pub enum Overflow {
    Visible,
    Hidden,
    Scroll,
    Auto,
}

impl Default for Overflow {
    fn default() -> (r: Overflow)
        ensures
            r == Overflow::Visible,
    {
        Overflow::Visible
    }
}

#[derive(Debug, Clone, Copy, PartialEq, Eq, Structural)]
pub enum BoxSizing {
    ContentBox,
    BorderBox,
}

impl Default for BoxSizing {
    fn default() -> (r: BoxSizing)
        ensures
            r == BoxSizing::ContentBox,
    {
        BoxSizing::ContentBox
    }
}

#[derive(Debug, Clone, Copy, PartialEq, Eq, Structural)]
pub enum WhiteSpace {
    Normal,
    NoWrap,
    Pre,
    PreWrap,
    PreLine,
}

impl Default for WhiteSpace {
    fn default() -> (r: WhiteSpace)
        ensures
            r == WhiteSpace::Normal,
    {
        WhiteSpace::Normal
    }
}

#[derive(Debug, Clone, Copy, PartialEq, Eq, Structural)]
pub enum VerticalAlign {
    Baseline,
    Top,
    Middle,
    Bottom,
    TextTop,
    TextBottom,
    Sub,
    Super,
}

impl Default for VerticalAlign {
    fn default() -> (r: VerticalAlign)
        ensures
            r == VerticalAlign::Baseline,
    {
        VerticalAlign::Baseline
    }
}

#[derive(Debug, Clone, Copy, PartialEq, Eq, Structural)]
pub enum Visibility {
    Visible,
    Hidden,
    Collapse,
}

impl Default for Visibility {
    fn default() -> (r: Visibility)
        ensures
            r == Visibility::Visible,
    {
        Visibility::Visible
    }
}

#[derive(Debug, Clone, Copy, PartialEq, Eq, Structural)]
pub enum BorderStyle {
    NoneKw,
    Solid,
    Dashed,
    Dotted,
    Double,
    Groove,
    Ridge,
    Inset,
    Outset,
    Hidden,
}

impl Default for BorderStyle {
    fn default() -> (r: BorderStyle)
        ensures
            r == BorderStyle::NoneKw,
    {
        BorderStyle::NoneKw
    }
}
#[derive(Debug, Clone, Copy, PartialEq, Eq, Structural)]
pub enum FontWeight {
    Normal,
    Bold,
    Numeric(u16),
}

impl Default for FontWeight {
    fn default() -> (r: FontWeight)
        ensures
            r == FontWeight::Normal,
    {
        FontWeight::Normal
    }
}

/// Grid track sizing. `Px` carries whole pixels, `Fr` hundredths of a
/// fraction unit.
#[derive(Debug, Clone, Copy, PartialEq, Eq, Structural)]
pub enum GridTrackSize {
    Px(i64),
    Fr(i64),
    Auto,
    MinContent,
    MaxContent,
}

impl Default for GridTrackSize {
    fn default() -> (r: GridTrackSize)
        ensures
            r == GridTrackSize::Auto,
    {
        GridTrackSize::Auto
    }
}

/// Grid placement as 1-based line numbers.
#[derive(Debug, Clone, Copy, PartialEq, Eq, Structural)]
pub struct GridPlacement {
    pub start: Option<i32>,
    pub end: Option<i32>,
    pub span: Option<u32>,
}

impl Default for GridPlacement {
    fn default() -> (r: GridPlacement)
        ensures
            r == (GridPlacement { start: None, end: None, span: None }),
    {
        GridPlacement { start: None, end: None, span: None }
    }
}

/// A box shadow in whole pixels.
#[derive(Debug, Clone, Copy, PartialEq, Eq, Structural)]
pub struct BoxShadow {
    pub offset_x: i64,
    pub offset_y: i64,
    pub blur_radius: i64,
    pub spread_radius: i64,
    pub color: Color,
    pub inset: bool,
}

impl Default for BoxShadow {
    fn default() -> (r: BoxShadow)
        ensures
            r == (BoxShadow {
                offset_x: 0i64,
                offset_y: 0i64,
                blur_radius: 0i64,
                spread_radius: 0i64,
                color: Color { r: 0, g: 0, b: 0, a: 0 },
                inset: false,
            }),
    {
        BoxShadow {
            offset_x: 0,
            offset_y: 0,
            blur_radius: 0,
            spread_radius: 0,
            color: Color { r: 0, g: 0, b: 0, a: 0 },
            inset: false,
        }
    }
}

/// The `Display` a keyword names; unknown keywords fall back to the initial
/// value.
#[verifier::opaque]
pub open spec fn spec_kw_display(s: Seq<char>) -> Display {
    if false {
        Display::Block
    } else if s == "block"@ {
        Display::Block
    } else if s == "inline"@ {
        Display::Inline
    } else if s == "inline-block"@ {
        Display::InlineBlock
    } else if s == "none"@ {
        Display::NoneKw
    } else if s == "flex"@ {
        Display::Flex
    } else if s == "grid"@ {
        Display::Grid
    } else if s == "table"@ {
        Display::Table
    } else if s == "table-row"@ {
        Display::TableRow
    } else if s == "table-cell"@ {
        Display::TableCell
    } else if s == "table-row-group"@ {
        Display::TableRowGroup
    } else if s == "table-header-group"@ {
        Display::TableHeaderGroup
    } else if s == "table-footer-group"@ {
        Display::TableFooterGroup
    } else if s == "table-caption"@ {
        Display::TableCaption
    } else if s == "table-column"@ {
        Display::TableColumn
    } else if s == "table-column-group"@ {
        Display::TableColumnGroup
    } else {
        Display::Block
    }
}

pub fn kw_display(s: &Vec<char>) -> (r: Display)
    ensures
        r == spec_kw_display(s@),
{
    proof {
        reveal(spec_kw_display);
    }
    let w = chars_of("block");
    if chars_eq(s, &w) {
        return Display::Block;
    }
    let w = chars_of("inline");
    if chars_eq(s, &w) {
        return Display::Inline;
    }
    let w = chars_of("inline-block");
    if chars_eq(s, &w) {
        return Display::InlineBlock;
    }
    let w = chars_of("none");
    if chars_eq(s, &w) {
        return Display::NoneKw;
    }
    let w = chars_of("flex");
    if chars_eq(s, &w) {
        return Display::Flex;
    }
    let w = chars_of("grid");
    if chars_eq(s, &w) {
        return Display::Grid;
    }
    let w = chars_of("table");
    if chars_eq(s, &w) {
        return Display::Table;
    }
    let w = chars_of("table-row");
    if chars_eq(s, &w) {
        return Display::TableRow;
    }
    let w = chars_of("table-cell");
    if chars_eq(s, &w) {
        return Display::TableCell;
    }
    let w = chars_of("table-row-group");
    if chars_eq(s, &w) {
        return Display::TableRowGroup;
    }
    let w = chars_of("table-header-group");
    if chars_eq(s, &w) {
        return Display::TableHeaderGroup;
    }
    let w = chars_of("table-footer-group");
    if chars_eq(s, &w) {
        return Display::TableFooterGroup;
    }
    let w = chars_of("table-caption");
    if chars_eq(s, &w) {
        return Display::TableCaption;
    }
    let w = chars_of("table-column");
    if chars_eq(s, &w) {
        return Display::TableColumn;
    }
    let w = chars_of("table-column-group");
    if chars_eq(s, &w) {
        return Display::TableColumnGroup;
    }
    Display::Block
}

/// The `TextAlign` a keyword names; unknown keywords fall back to the initial
/// value.
#[verifier::opaque]
pub open spec fn spec_kw_text_align(s: Seq<char>) -> TextAlign {
    if false {
        TextAlign::Left
    } else if s == "left"@ {
        TextAlign::Left
    } else if s == "center"@ {
        TextAlign::Center
    } else if s == "right"@ {
        TextAlign::Right
    } else if s == "justify"@ {
        TextAlign::Justify
    } else {
        TextAlign::Left
    }
}

pub fn kw_text_align(s: &Vec<char>) -> (r: TextAlign)
    ensures
        r == spec_kw_text_align(s@),
{
    proof {
        reveal(spec_kw_text_align);
    }
    let w = chars_of("left");
    if chars_eq(s, &w) {
        return TextAlign::Left;
    }
    let w = chars_of("center");
    if chars_eq(s, &w) {
        return TextAlign::Center;
    }
    let w = chars_of("right");
    if chars_eq(s, &w) {
        return TextAlign::Right;
    }
    let w = chars_of("justify");
    if chars_eq(s, &w) {
        return TextAlign::Justify;
    }
    TextAlign::Left
}

/// The `TextDecoration` a keyword names; unknown keywords fall back to the initial
/// value.
#[verifier::opaque]
pub open spec fn spec_kw_text_decoration(s: Seq<char>) -> TextDecoration {
    if false {
        TextDecoration::NoneKw
    } else if s == "none"@ {
        TextDecoration::NoneKw
    } else if s == "underline"@ {
        TextDecoration::Underline
    } else if s == "line-through"@ {
        TextDecoration::LineThrough
    } else if s == "overline"@ {
        TextDecoration::Overline
    } else {
        TextDecoration::NoneKw
    }
}

pub fn kw_text_decoration(s: &Vec<char>) -> (r: TextDecoration)
    ensures
        r == spec_kw_text_decoration(s@),
{
    proof {
        reveal(spec_kw_text_decoration);
    }
    let w = chars_of("none");
    if chars_eq(s, &w) {
        return TextDecoration::NoneKw;
    }
    let w = chars_of("underline");
    if chars_eq(s, &w) {
        return TextDecoration::Underline;
    }
    let w = chars_of("line-through");
    if chars_eq(s, &w) {
        return TextDecoration::LineThrough;
    }
    let w = chars_of("overline");
    if chars_eq(s, &w) {
        return TextDecoration::Overline;
    }
    TextDecoration::NoneKw
}

/// The `Position` a keyword names; unknown keywords fall back to the initial
/// value.
#[verifier::opaque]
pub open spec fn spec_kw_position(s: Seq<char>) -> Position {
    if false {
        Position::Static
    } else if s == "static"@ {
        Position::Static
    } else if s == "relative"@ {
        Position::Relative
    } else if s == "absolute"@ {
        Position::Absolute
    } else if s == "fixed"@ {
        Position::Fixed
    } else {
        Position::Static
    }
}

pub fn kw_position(s: &Vec<char>) -> (r: Position)
    ensures
        r == spec_kw_position(s@),
{
    proof {
        reveal(spec_kw_position);
    }
    let w = chars_of("static");
    if chars_eq(s, &w) {
        return Position::Static;
    }
    let w = chars_of("relative");
    if chars_eq(s, &w) {
        return Position::Relative;
    }
    let w = chars_of("absolute");
    if chars_eq(s, &w) {
        return Position::Absolute;
    }
    let w = chars_of("fixed");
    if chars_eq(s, &w) {
        return Position::Fixed;
    }
    Position::Static
}

/// The `FlexDirection` a keyword names; unknown keywords fall back to the initial
/// value.
#[verifier::opaque]
pub open spec fn spec_kw_flex_direction(s: Seq<char>) -> FlexDirection {
    if false {
        FlexDirection::Row
    } else if s == "row"@ {
        FlexDirection::Row
    } else if s == "row-reverse"@ {
        FlexDirection::RowReverse
    } else if s == "column"@ {
        FlexDirection::Column
    } else if s == "column-reverse"@ {
        FlexDirection::ColumnReverse
    } else {
        FlexDirection::Row
    }
}

pub fn kw_flex_direction(s: &Vec<char>) -> (r: FlexDirection)
    ensures
        r == spec_kw_flex_direction(s@),
{
    proof {
        reveal(spec_kw_flex_direction);
    }
    let w = chars_of("row");
    if chars_eq(s, &w) {
        return FlexDirection::Row;
    }
    let w = chars_of("row-reverse");
    if chars_eq(s, &w) {
        return FlexDirection::RowReverse;
    }
    let w = chars_of("column");
    if chars_eq(s, &w) {
        return FlexDirection::Column;
    }
    let w = chars_of("column-reverse");
    if chars_eq(s, &w) {
        return FlexDirection::ColumnReverse;
    }
    FlexDirection::Row
}

/// The `FlexWrap` a keyword names; unknown keywords fall back to the initial
/// value.
#[verifier::opaque]
pub open spec fn spec_kw_flex_wrap(s: Seq<char>) -> FlexWrap {
    if false {
        FlexWrap::NoWrap
    } else if s == "nowrap"@ {
        FlexWrap::NoWrap
    } else if s == "wrap"@ {
        FlexWrap::Wrap
    } else if s == "wrap-reverse"@ {
        FlexWrap::WrapReverse
    } else {
        FlexWrap::NoWrap
    }
}

pub fn kw_flex_wrap(s: &Vec<char>) -> (r: FlexWrap)
    ensures
        r == spec_kw_flex_wrap(s@),
{
    proof {
        reveal(spec_kw_flex_wrap);
    }
    let w = chars_of("nowrap");
    if chars_eq(s, &w) {
        return FlexWrap::NoWrap;
    }
    let w = chars_of("wrap");
    if chars_eq(s, &w) {
        return FlexWrap::Wrap;
    }
    let w = chars_of("wrap-reverse");
    if chars_eq(s, &w) {
        return FlexWrap::WrapReverse;
    }
    FlexWrap::NoWrap
}

/// The `JustifyContent` a keyword names; unknown keywords fall back to the initial
/// value.
#[verifier::opaque]
pub open spec fn spec_kw_justify_content(s: Seq<char>) -> JustifyContent {
    if false {
        JustifyContent::FlexStart
    } else if s == "flex-start"@ {
        JustifyContent::FlexStart
    } else if s == "start"@ {
        JustifyContent::FlexStart
    } else if s == "flex-end"@ {
        JustifyContent::FlexEnd
    } else if s == "end"@ {
        JustifyContent::FlexEnd
    } else if s == "center"@ {
        JustifyContent::Center
    } else if s == "space-between"@ {
        JustifyContent::SpaceBetween
    } else if s == "space-around"@ {
        JustifyContent::SpaceAround
    } else if s == "space-evenly"@ {
        JustifyContent::SpaceEvenly
    } else {
        JustifyContent::FlexStart
    }
}

pub fn kw_justify_content(s: &Vec<char>) -> (r: JustifyContent)
    ensures
        r == spec_kw_justify_content(s@),
{
    proof {
        reveal(spec_kw_justify_content);
    }
    let w = chars_of("flex-start");
    if chars_eq(s, &w) {
        return JustifyContent::FlexStart;
    }
    let w = chars_of("start");
    if chars_eq(s, &w) {
        return JustifyContent::FlexStart;
    }
    let w = chars_of("flex-end");
    if chars_eq(s, &w) {
        return JustifyContent::FlexEnd;
    }
    let w = chars_of("end");
    if chars_eq(s, &w) {
        return JustifyContent::FlexEnd;
    }
    let w = chars_of("center");
    if chars_eq(s, &w) {
        return JustifyContent::Center;
    }
    let w = chars_of("space-between");
    if chars_eq(s, &w) {
        return JustifyContent::SpaceBetween;
    }
    let w = chars_of("space-around");
    if chars_eq(s, &w) {
        return JustifyContent::SpaceAround;
    }
    let w = chars_of("space-evenly");
    if chars_eq(s, &w) {
        return JustifyContent::SpaceEvenly;
    }
    JustifyContent::FlexStart
}

/// The `AlignItems` a keyword names; unknown keywords fall back to the initial
/// value.
#[verifier::opaque]
pub open spec fn spec_kw_align_items(s: Seq<char>) -> AlignItems {
    if false {
        AlignItems::Stretch
    } else if s == "flex-start"@ {
        AlignItems::FlexStart
    } else if s == "start"@ {
        AlignItems::FlexStart
    } else if s == "flex-end"@ {
        AlignItems::FlexEnd
    } else if s == "end"@ {
        AlignItems::FlexEnd
    } else if s == "center"@ {
        AlignItems::Center
    } else if s == "stretch"@ {
        AlignItems::Stretch
    } else if s == "baseline"@ {
        AlignItems::Baseline
    } else {
        AlignItems::Stretch
    }
}

pub fn kw_align_items(s: &Vec<char>) -> (r: AlignItems)
    ensures
        r == spec_kw_align_items(s@),
{
    proof {
        reveal(spec_kw_align_items);
    }
    let w = chars_of("flex-start");
    if chars_eq(s, &w) {
        return AlignItems::FlexStart;
    }
    let w = chars_of("start");
    if chars_eq(s, &w) {
        return AlignItems::FlexStart;
    }
    let w = chars_of("flex-end");
    if chars_eq(s, &w) {
        return AlignItems::FlexEnd;
    }
    let w = chars_of("end");
    if chars_eq(s, &w) {
        return AlignItems::FlexEnd;
    }
    let w = chars_of("center");
    if chars_eq(s, &w) {
        return AlignItems::Center;
    }
    let w = chars_of("stretch");
    if chars_eq(s, &w) {
        return AlignItems::Stretch;
    }
    let w = chars_of("baseline");
    if chars_eq(s, &w) {
        return AlignItems::Baseline;
    }
    AlignItems::Stretch
}

/// The `AlignContent` a keyword names; unknown keywords fall back to the initial
/// value.
#[verifier::opaque]
pub open spec fn spec_kw_align_content(s: Seq<char>) -> AlignContent {
    if false {
        AlignContent::FlexStart
    } else if s == "flex-start"@ {
        AlignContent::FlexStart
    } else if s == "start"@ {
        AlignContent::FlexStart
    } else if s == "flex-end"@ {
        AlignContent::FlexEnd
    } else if s == "end"@ {
        AlignContent::FlexEnd
    } else if s == "center"@ {
        AlignContent::Center
    } else if s == "space-between"@ {
        AlignContent::SpaceBetween
    } else if s == "space-around"@ {
        AlignContent::SpaceAround
    } else if s == "stretch"@ {
        AlignContent::Stretch
    } else {
        AlignContent::FlexStart
    }
}

pub fn kw_align_content(s: &Vec<char>) -> (r: AlignContent)
    ensures
        r == spec_kw_align_content(s@),
{
    proof {
        reveal(spec_kw_align_content);
    }
    let w = chars_of("flex-start");
    if chars_eq(s, &w) {
        return AlignContent::FlexStart;
    }
    let w = chars_of("start");
    if chars_eq(s, &w) {
        return AlignContent::FlexStart;
    }
    let w = chars_of("flex-end");
    if chars_eq(s, &w) {
        return AlignContent::FlexEnd;
    }
    let w = chars_of("end");
    if chars_eq(s, &w) {
        return AlignContent::FlexEnd;
    }
    let w = chars_of("center");
    if chars_eq(s, &w) {
        return AlignContent::Center;
    }
    let w = chars_of("space-between");
    if chars_eq(s, &w) {
        return AlignContent::SpaceBetween;
    }
    let w = chars_of("space-around");
    if chars_eq(s, &w) {
        return AlignContent::SpaceAround;
    }
    let w = chars_of("stretch");
    if chars_eq(s, &w) {
        return AlignContent::Stretch;
    }
    AlignContent::FlexStart
}

/// The `Overflow` a keyword names; unknown keywords fall back to the initial
/// value.
#[verifier::opaque]
pub open spec fn spec_kw_overflow(s: Seq<char>) -> Overflow {
    if false {
        Overflow::Visible
    } else if s == "visible"@ {
        Overflow::Visible
    } else if s == "hidden"@ {
        Overflow::Hidden
    } else if s == "scroll"@ {
        Overflow::Scroll
    } else if s == "auto"@ {
        Overflow::Auto
    } else {
        Overflow::Visible
    }
}

pub fn kw_overflow(s: &Vec<char>) -> (r: Overflow)
    ensures
        r == spec_kw_overflow(s@),
{
    proof {
        reveal(spec_kw_overflow);
    }
    let w = chars_of("visible");
    if chars_eq(s, &w) {
        return Overflow::Visible;
    }
    let w = chars_of("hidden");
    if chars_eq(s, &w) {
        return Overflow::Hidden;
    }
    let w = chars_of("scroll");
    if chars_eq(s, &w) {
        return Overflow::Scroll;
    }
    let w = chars_of("auto");
    if chars_eq(s, &w) {
        return Overflow::Auto;
    }
    Overflow::Visible
}

/// The `BoxSizing` a keyword names; unknown keywords fall back to the initial
/// value.
#[verifier::opaque]
pub open spec fn spec_kw_box_sizing(s: Seq<char>) -> BoxSizing {
    if false {
        BoxSizing::ContentBox
    } else if s == "content-box"@ {
        BoxSizing::ContentBox
    } else if s == "border-box"@ {
        BoxSizing::BorderBox
    } else {
        BoxSizing::ContentBox
    }
}

pub fn kw_box_sizing(s: &Vec<char>) -> (r: BoxSizing)
    ensures
        r == spec_kw_box_sizing(s@),
{
    proof {
        reveal(spec_kw_box_sizing);
    }
    let w = chars_of("content-box");
    if chars_eq(s, &w) {
        return BoxSizing::ContentBox;
    }
    let w = chars_of("border-box");
    if chars_eq(s, &w) {
        return BoxSizing::BorderBox;
    }
    BoxSizing::ContentBox
}

/// The `WhiteSpace` a keyword names; unknown keywords fall back to the initial
/// value.
#[verifier::opaque]
pub open spec fn spec_kw_white_space(s: Seq<char>) -> WhiteSpace {
    if false {
        WhiteSpace::Normal
    } else if s == "normal"@ {
        WhiteSpace::Normal
    } else if s == "nowrap"@ {
        WhiteSpace::NoWrap
    } else if s == "pre"@ {
        WhiteSpace::Pre
    } else if s == "pre-wrap"@ {
        WhiteSpace::PreWrap
    } else if s == "pre-line"@ {
        WhiteSpace::PreLine
    } else {
        WhiteSpace::Normal
    }
}

pub fn kw_white_space(s: &Vec<char>) -> (r: WhiteSpace)
    ensures
        r == spec_kw_white_space(s@),
{
    proof {
        reveal(spec_kw_white_space);
    }
    let w = chars_of("normal");
    if chars_eq(s, &w) {
        return WhiteSpace::Normal;
    }
    let w = chars_of("nowrap");
    if chars_eq(s, &w) {
        return WhiteSpace::NoWrap;
    }
    let w = chars_of("pre");
    if chars_eq(s, &w) {
        return WhiteSpace::Pre;
    }
    let w = chars_of("pre-wrap");
    if chars_eq(s, &w) {
        return WhiteSpace::PreWrap;
    }
    let w = chars_of("pre-line");
    if chars_eq(s, &w) {
        return WhiteSpace::PreLine;
    }
    WhiteSpace::Normal
}

/// The `VerticalAlign` a keyword names; unknown keywords fall back to the initial
/// value.
#[verifier::opaque]
pub open spec fn spec_kw_vertical_align(s: Seq<char>) -> VerticalAlign {
    if false {
        VerticalAlign::Baseline
    } else if s == "baseline"@ {
        VerticalAlign::Baseline
    } else if s == "top"@ {
        VerticalAlign::Top
    } else if s == "middle"@ {
        VerticalAlign::Middle
    } else if s == "bottom"@ {
        VerticalAlign::Bottom
    } else if s == "text-top"@ {
        VerticalAlign::TextTop
    } else if s == "text-bottom"@ {
        VerticalAlign::TextBottom
    } else if s == "sub"@ {
        VerticalAlign::Sub
    } else if s == "super"@ {
        VerticalAlign::Super
    } else {
        VerticalAlign::Baseline
    }
}

pub fn kw_vertical_align(s: &Vec<char>) -> (r: VerticalAlign)
    ensures
        r == spec_kw_vertical_align(s@),
{
    proof {
        reveal(spec_kw_vertical_align);
    }
    let w = chars_of("baseline");
    if chars_eq(s, &w) {
        return VerticalAlign::Baseline;
    }
    let w = chars_of("top");
    if chars_eq(s, &w) {
        return VerticalAlign::Top;
    }
    let w = chars_of("middle");
    if chars_eq(s, &w) {
        return VerticalAlign::Middle;
    }
    let w = chars_of("bottom");
    if chars_eq(s, &w) {
        return VerticalAlign::Bottom;
    }
    let w = chars_of("text-top");
    if chars_eq(s, &w) {
        return VerticalAlign::TextTop;
    }
    let w = chars_of("text-bottom");
    if chars_eq(s, &w) {
        return VerticalAlign::TextBottom;
    }
    let w = chars_of("sub");
    if chars_eq(s, &w) {
        return VerticalAlign::Sub;
    }
    let w = chars_of("super");
    if chars_eq(s, &w) {
        return VerticalAlign::Super;
    }
    VerticalAlign::Baseline
}

/// The `Visibility` a keyword names; unknown keywords fall back to the initial
/// value.
#[verifier::opaque]
pub open spec fn spec_kw_visibility(s: Seq<char>) -> Visibility {
    if false {
        Visibility::Visible
    } else if s == "visible"@ {
        Visibility::Visible
    } else if s == "hidden"@ {
        Visibility::Hidden
    } else if s == "collapse"@ {
        Visibility::Collapse
    } else {
        Visibility::Visible
    }
}

pub fn kw_visibility(s: &Vec<char>) -> (r: Visibility)
    ensures
        r == spec_kw_visibility(s@),
{
    proof {
        reveal(spec_kw_visibility);
    }
    let w = chars_of("visible");
    if chars_eq(s, &w) {
        return Visibility::Visible;
    }
    let w = chars_of("hidden");
    if chars_eq(s, &w) {
        return Visibility::Hidden;
    }
    let w = chars_of("collapse");
    if chars_eq(s, &w) {
        return Visibility::Collapse;
    }
    Visibility::Visible
}

/// The `BorderStyle` a keyword names; unknown keywords fall back to the initial
/// value.
#[verifier::opaque]
pub open spec fn spec_kw_border_style(s: Seq<char>) -> BorderStyle {
    if false {
        BorderStyle::NoneKw
    } else if s == "none"@ {
        BorderStyle::NoneKw
    } else if s == "solid"@ {
        BorderStyle::Solid
    } else if s == "dashed"@ {
        BorderStyle::Dashed
    } else if s == "dotted"@ {
        BorderStyle::Dotted
    } else if s == "double"@ {
        BorderStyle::Double
    } else if s == "groove"@ {
        BorderStyle::Groove
    } else if s == "ridge"@ {
        BorderStyle::Ridge
    } else if s == "inset"@ {
        BorderStyle::Inset
    } else if s == "outset"@ {
        BorderStyle::Outset
    } else if s == "hidden"@ {
        BorderStyle::Hidden
    } else {
        BorderStyle::NoneKw
    }
}

pub fn kw_border_style(s: &Vec<char>) -> (r: BorderStyle)
    ensures
        r == spec_kw_border_style(s@),
{
    proof {
        reveal(spec_kw_border_style);
    }
    let w = chars_of("none");
    if chars_eq(s, &w) {
        return BorderStyle::NoneKw;
    }
    let w = chars_of("solid");
    if chars_eq(s, &w) {
        return BorderStyle::Solid;
    }
    let w = chars_of("dashed");
    if chars_eq(s, &w) {
        return BorderStyle::Dashed;
    }
    let w = chars_of("dotted");
    if chars_eq(s, &w) {
        return BorderStyle::Dotted;
    }
    let w = chars_of("double");
    if chars_eq(s, &w) {
        return BorderStyle::Double;
    }
    let w = chars_of("groove");
    if chars_eq(s, &w) {
        return BorderStyle::Groove;
    }
    let w = chars_of("ridge");
    if chars_eq(s, &w) {
        return BorderStyle::Ridge;
    }
    let w = chars_of("inset");
    if chars_eq(s, &w) {
        return BorderStyle::Inset;
    }
    let w = chars_of("outset");
    if chars_eq(s, &w) {
        return BorderStyle::Outset;
    }
    let w = chars_of("hidden");
    if chars_eq(s, &w) {
        return BorderStyle::Hidden;
    }
    BorderStyle::NoneKw
}
/// The resolved property set of one element.
#[derive(Debug, Clone, Copy, PartialEq, Eq, Structural)]
pub struct ComputedStyle {
    pub display: Display,
    pub margin_top: i64,
    pub margin_right: i64,
    pub margin_bottom: i64,
    pub margin_left: i64,
    pub padding_top: i64,
    pub padding_right: i64,
    pub padding_bottom: i64,
    pub padding_left: i64,
    pub border_top_width: i64,
    pub border_right_width: i64,
    pub border_bottom_width: i64,
    pub border_left_width: i64,
    pub border_color: Color,
    pub width: Option<i64>,
    pub height: Option<i64>,
    pub min_width: Option<i64>,
    pub min_height: Option<i64>,
    pub max_width: Option<i64>,
    pub max_height: Option<i64>,
    pub color: Color,
    pub background_color: Color,
    pub font_size: i64,
    pub font_weight: FontWeight,
    pub text_align: TextAlign,
    pub line_height: i64,
    pub text_decoration: TextDecoration,
    pub position: Position,
    pub top: Option<i64>,
    pub right: Option<i64>,
    pub bottom: Option<i64>,
    pub left: Option<i64>,
    pub flex_direction: FlexDirection,
    pub flex_wrap: FlexWrap,
    pub justify_content: JustifyContent,
    pub align_items: AlignItems,
    pub align_content: AlignContent,
    pub gap: i64,
    pub row_gap: i64,
    pub column_gap: i64,
    pub flex_grow: i64,
    pub flex_shrink: i64,
    pub flex_basis: Option<i64>,
    pub align_self: Option<AlignItems>,
    pub order: i32,
    pub grid_template_columns: GridTrackList,
    pub grid_template_rows: GridTrackList,
    pub grid_auto_columns: GridTrackSize,
    pub grid_auto_rows: GridTrackSize,
    pub grid_gap: i64,
    pub grid_row_gap: i64,
    pub grid_column_gap: i64,
    pub grid_column: GridPlacement,
    pub grid_row: GridPlacement,
    pub border_radius: i64,
    pub border_top_left_radius: i64,
    pub border_top_right_radius: i64,
    pub border_bottom_left_radius: i64,
    pub border_bottom_right_radius: i64,
    pub box_shadow: Option<BoxShadow>,
    pub opacity: i64,
    pub overflow: Overflow,
    pub overflow_x: Overflow,
    pub overflow_y: Overflow,
    pub box_sizing: BoxSizing,
    pub white_space: WhiteSpace,
    pub vertical_align: VerticalAlign,
    pub visibility: Visibility,
    pub z_index: Option<i32>,
    pub border_style: BorderStyle,
    pub border_top_style: BorderStyle,
    pub border_right_style: BorderStyle,
    pub border_bottom_style: BorderStyle,
    pub border_left_style: BorderStyle,
    pub border_collapse: bool,
    pub border_spacing: i64,
}

/// The initial (CSS-default-like) style.
pub open spec fn spec_initial_style() -> ComputedStyle {
    ComputedStyle {
        display: Display::Block,
        margin_top: 0i64,
        margin_right: 0i64,
        margin_bottom: 0i64,
        margin_left: 0i64,
        padding_top: 0i64,
        padding_right: 0i64,
        padding_bottom: 0i64,
        padding_left: 0i64,
        border_top_width: 0i64,
        border_right_width: 0i64,
        border_bottom_width: 0i64,
        border_left_width: 0i64,
        border_color: Color { r: 0, g: 0, b: 0, a: 255 },
        width: None,
        height: None,
        min_width: None,
        min_height: None,
        max_width: None,
        max_height: None,
        color: Color { r: 0, g: 0, b: 0, a: 255 },
        background_color: Color { r: 0, g: 0, b: 0, a: 0 },
        font_size: 16i64,
        font_weight: FontWeight::Normal,
        text_align: TextAlign::Left,
        line_height: 120i64,
        text_decoration: TextDecoration::NoneKw,
        position: Position::Static,
        top: None,
        right: None,
        bottom: None,
        left: None,
        flex_direction: FlexDirection::Row,
        flex_wrap: FlexWrap::NoWrap,
        justify_content: JustifyContent::FlexStart,
        align_items: AlignItems::Stretch,
        align_content: AlignContent::FlexStart,
        gap: 0i64,
        row_gap: 0i64,
        column_gap: 0i64,
        flex_grow: 0i64,
        flex_shrink: 100i64,
        flex_basis: None,
        align_self: None,
        order: 0i32,
        grid_template_columns: spec_empty_tracks(),
        grid_template_rows: spec_empty_tracks(),
        grid_auto_columns: GridTrackSize::Auto,
        grid_auto_rows: GridTrackSize::Auto,
        grid_gap: 0i64,
        grid_row_gap: 0i64,
        grid_column_gap: 0i64,
        grid_column: GridPlacement { start: None, end: None, span: None },
        grid_row: GridPlacement { start: None, end: None, span: None },
        border_radius: 0i64,
        border_top_left_radius: 0i64,
        border_top_right_radius: 0i64,
        border_bottom_left_radius: 0i64,
        border_bottom_right_radius: 0i64,
        box_shadow: None,
        opacity: 100i64,
        overflow: Overflow::Visible,
        overflow_x: Overflow::Visible,
        overflow_y: Overflow::Visible,
        box_sizing: BoxSizing::ContentBox,
        white_space: WhiteSpace::Normal,
        vertical_align: VerticalAlign::Baseline,
        visibility: Visibility::Visible,
        z_index: None,
        border_style: BorderStyle::NoneKw,
        border_top_style: BorderStyle::NoneKw,
        border_right_style: BorderStyle::NoneKw,
        border_bottom_style: BorderStyle::NoneKw,
        border_left_style: BorderStyle::NoneKw,
        border_collapse: false,
        border_spacing: 0i64,
    }
}
impl Default for ComputedStyle {
    /// The initial style: black text on transparent background, 16px font,
    /// 1.2 line height, everything else zero or off.
    fn default() -> (r: ComputedStyle)
        ensures
            r == spec_initial_style(),
    {
        ComputedStyle {
            display: Display::Block,
            margin_top: 0,
            margin_right: 0,
            margin_bottom: 0,
            margin_left: 0,
            padding_top: 0,
            padding_right: 0,
            padding_bottom: 0,
            padding_left: 0,
            border_top_width: 0,
            border_right_width: 0,
            border_bottom_width: 0,
            border_left_width: 0,
            border_color: Color { r: 0, g: 0, b: 0, a: 255 },
            width: None,
            height: None,
            min_width: None,
            min_height: None,
            max_width: None,
            max_height: None,
            color: Color { r: 0, g: 0, b: 0, a: 255 },
            background_color: Color { r: 0, g: 0, b: 0, a: 0 },
            font_size: 16,
            font_weight: FontWeight::Normal,
            text_align: TextAlign::Left,
            line_height: 120,
            text_decoration: TextDecoration::NoneKw,
            position: Position::Static,
            top: None,
            right: None,
            bottom: None,
            left: None,
            flex_direction: FlexDirection::Row,
            flex_wrap: FlexWrap::NoWrap,
            justify_content: JustifyContent::FlexStart,
            align_items: AlignItems::Stretch,
            align_content: AlignContent::FlexStart,
            gap: 0,
            row_gap: 0,
            column_gap: 0,
            flex_grow: 0,
            flex_shrink: 100,
            flex_basis: None,
            align_self: None,
            order: 0,
            grid_template_columns: GridTrackList::empty(),
            grid_template_rows: GridTrackList::empty(),
            grid_auto_columns: GridTrackSize::Auto,
            grid_auto_rows: GridTrackSize::Auto,
            grid_gap: 0,
            grid_row_gap: 0,
            grid_column_gap: 0,
            grid_column: GridPlacement { start: None, end: None, span: None },
            grid_row: GridPlacement { start: None, end: None, span: None },
            border_radius: 0,
            border_top_left_radius: 0,
            border_top_right_radius: 0,
            border_bottom_left_radius: 0,
            border_bottom_right_radius: 0,
            box_shadow: None,
            opacity: 100,
            overflow: Overflow::Visible,
            overflow_x: Overflow::Visible,
            overflow_y: Overflow::Visible,
            box_sizing: BoxSizing::ContentBox,
            white_space: WhiteSpace::Normal,
            vertical_align: VerticalAlign::Baseline,
            visibility: Visibility::Visible,
            z_index: None,
            border_style: BorderStyle::NoneKw,
            border_top_style: BorderStyle::NoneKw,
            border_right_style: BorderStyle::NoneKw,
            border_bottom_style: BorderStyle::NoneKw,
            border_left_style: BorderStyle::NoneKw,
            border_collapse: false,
            border_spacing: 0,
        }
    }
}

/// A grid track template with a small fixed capacity; templates longer
/// than the capacity drop their tail.
#[derive(Debug, Clone, Copy, PartialEq, Eq, Structural)]
pub struct GridTrackList {
    pub len: u8,
    pub t0: GridTrackSize,
    pub t1: GridTrackSize,
    pub t2: GridTrackSize,
    pub t3: GridTrackSize,
    pub t4: GridTrackSize,
    pub t5: GridTrackSize,
    pub t6: GridTrackSize,
    pub t7: GridTrackSize,
}

/// The empty track template.
pub open spec fn spec_empty_tracks() -> GridTrackList {
    GridTrackList {
        len: 0,
        t0: GridTrackSize::Auto,
        t1: GridTrackSize::Auto,
        t2: GridTrackSize::Auto,
        t3: GridTrackSize::Auto,
        t4: GridTrackSize::Auto,
        t5: GridTrackSize::Auto,
        t6: GridTrackSize::Auto,
        t7: GridTrackSize::Auto,
    }
}

impl GridTrackList {
    /// How many tracks the template names, at most the capacity.
    pub open spec fn spec_count(self) -> int {
        if self.len > 8 {
            8int
        } else {
            self.len as int
        }
    }

    /// The track at `i`, for specification purposes.
    pub open spec fn spec_at(self, i: int) -> GridTrackSize {
        if i == 0 {
            self.t0
        } else if i == 1 {
            self.t1
        } else if i == 2 {
            self.t2
        } else if i == 3 {
            self.t3
        } else if i == 4 {
            self.t4
        } else if i == 5 {
            self.t5
        } else if i == 6 {
            self.t6
        } else {
            self.t7
        }
    }

    pub fn empty() -> (r: GridTrackList)
        ensures
            r == spec_empty_tracks(),
    {
        GridTrackList {
            len: 0,
            t0: GridTrackSize::Auto,
            t1: GridTrackSize::Auto,
            t2: GridTrackSize::Auto,
            t3: GridTrackSize::Auto,
            t4: GridTrackSize::Auto,
            t5: GridTrackSize::Auto,
            t6: GridTrackSize::Auto,
            t7: GridTrackSize::Auto,
        }
    }

    pub fn count(&self) -> (r: usize)
        ensures
            r == self.spec_count(),
    {
        if self.len > 8 {
            8
        } else {
            self.len as usize
        }
    }

    /// The track named at position `i`; the auto track past the end.
    pub fn at(&self, i: usize) -> (r: GridTrackSize)
        ensures
            i < self.spec_count() ==> r == self.spec_at(i as int),
            i >= self.spec_count() ==> r == GridTrackSize::Auto,
    {
        if i >= self.count() {
            GridTrackSize::Auto
        } else if i == 0 {
            self.t0
        } else if i == 1 {
            self.t1
        } else if i == 2 {
            self.t2
        } else if i == 3 {
            self.t3
        } else if i == 4 {
            self.t4
        } else if i == 5 {
            self.t5
        } else if i == 6 {
            self.t6
        } else {
            self.t7
        }
    }
}


/// Clamp into `[lo, hi]`.
pub open spec fn spec_clamp(v: int, lo: int, hi: int) -> int {
    if v < lo {
        lo
    } else if v > hi {
        hi
    } else {
        v
    }
}

fn clamp64(v: i64, lo: i64, hi: i64) -> (r: i64)
    requires
        lo <= hi,
    ensures
        r as int == spec_clamp(v as int, lo as int, hi as int),
{
    if v < lo {
        lo
    } else if v > hi {
        hi
    } else {
        v
    }
}

fn clamp_i32(v: i64) -> (r: i32)
    ensures
        r as int == spec_clamp(v as int, -0x8000_0000, 0x7fff_ffff),
{
    if v < -0x8000_0000i64 {
        i32::MIN
    } else if v > 0x7fff_ffffi64 {
        i32::MAX
    } else {
        v as i32
    }
}

fn div100(v: i64) -> (r: i64)
    ensures
        r as int == spec_tdiv(v as int, 100),
{
    if v >= 0 {
        v / 100
    } else if v == i64::MIN {
        -92233720368547758
    } else {
        -((-v) / 100)
    }
}

/// `to_px` as a 64-bit value; the resolved value always fits, being
/// clamped into the style range.
pub open spec fn spec_px64(v: Value, pfs: int, vw: int, vh: int) -> Option<i64> {
    match spec_to_px(v, pfs, vw, vh) {
        Some(x) => Some(x as i64),
        None => None,
    }
}

/// Pixel values of a value list, in order, skipping what has none.
pub open spec fn spec_px_list_from(vals: Seq<Value>, i: int, pfs: int, vw: int, vh: int) -> Seq<
    i64,
>
    decreases vals.len() - i,
{
    if i < 0 || i >= vals.len() {
        Seq::empty()
    } else {
        match spec_px64(vals[i], pfs, vw, vh) {
            Some(px) => seq![px] + spec_px_list_from(vals, i + 1, pfs, vw, vh),
            None => spec_px_list_from(vals, i + 1, pfs, vw, vh),
        }
    }
}

/// Resolve every value of a shorthand list to pixels, keeping order.
#[verifier::loop_isolation(false)]
fn px_list(values: &Vec<Value>, pfs: i64, vw: i64, vh: i64) -> (r: Vec<i64>)
    ensures
        r@ == spec_px_list_from(values@, 0, pfs as int, vw as int, vh as int),
{
    let mut out: Vec<i64> = Vec::new();
    let mut i: usize = 0;
    while i < values.len()
        invariant
            i <= values@.len(),
            spec_px_list_from(values@, 0, pfs as int, vw as int, vh as int) == out@
                + spec_px_list_from(values@, i as int, pfs as int, vw as int, vh as int),
        decreases values@.len() - i,
    {
        let v = &values[i];
        match v.to_px(pfs, vw, vh) {
            Some(px) => {
                out.push(px);
                proof {
                    assert(spec_px_list_from(values@, 0, pfs as int, vw as int, vh as int)
                        =~= out@ + spec_px_list_from(
                        values@,
                        i + 1,
                        pfs as int,
                        vw as int,
                        vh as int,
                    ));
                }
            },
            None => {},
        }
        i = i + 1;
    }
    proof {
        assert(spec_px_list_from(values@, 0, pfs as int, vw as int, vh as int) =~= out@
            + spec_px_list_from(values@, values@.len() as int, pfs as int, vw as int, vh as int));
        assert(out@ + Seq::<i64>::empty() =~= out@);
    }
    out
}


/// One step of the border-shorthand scan over a single value.
pub open spec fn spec_border_scan_one(
    v: Value,
    w: Option<i64>,
    st: Option<BorderStyle>,
    c: Option<Color>,
    pfs: int,
    vw: int,
    vh: int,
) -> (Option<i64>, Option<BorderStyle>, Option<Color>) {
    let kw_style = match v {
        Value::Keyword(kw) => if spec_kw_border_style(kw@) != BorderStyle::NoneKw || kw@
            == "none"@ {
            Some(spec_kw_border_style(kw@))
        } else {
            None
        },
        _ => None,
    };
    if kw_style is Some {
        (w, kw_style, c)
    } else if spec_to_color(v) is Some {
        (w, st, Some(spec_to_color(v)->0))
    } else if spec_px64(v, pfs, vw, vh) is Some {
        (Some(spec_px64(v, pfs, vw, vh)->0), st, c)
    } else {
        match v {
            Value::Keyword(kw) => if kw@ == "thin"@ {
                (Some(1i64), st, c)
            } else if kw@ == "medium"@ {
                (Some(3i64), st, c)
            } else if kw@ == "thick"@ {
                (Some(5i64), st, c)
            } else {
                (w, st, c)
            },
            _ => (w, st, c),
        }
    }
}

/// The border-shorthand scan folded over a value list from `i`.
pub open spec fn spec_border_scan(
    vals: Seq<Value>,
    i: int,
    w: Option<i64>,
    st: Option<BorderStyle>,
    c: Option<Color>,
    pfs: int,
    vw: int,
    vh: int,
) -> (Option<i64>, Option<BorderStyle>, Option<Color>)
    decreases vals.len() - i,
{
    if i < 0 || i >= vals.len() {
        (w, st, c)
    } else {
        let step = spec_border_scan_one(vals[i], w, st, c, pfs, vw, vh);
        spec_border_scan(vals, i + 1, step.0, step.1, step.2, pfs, vw, vh)
    }
}

/// What a `border` shorthand value denotes: width, style and color parts,
/// each optional.
pub open spec fn spec_border_shorthand(v: Value, pfs: int, vw: int, vh: int) -> (
    Option<i64>,
    Option<BorderStyle>,
    Option<Color>,
) {
    match v {
        Value::List(vs) => spec_border_scan(vs@, 0, None, None, None, pfs, vw, vh),
        _ => spec_border_scan_one(v, None, None, None, pfs, vw, vh),
    }
}

/// One scan step, on a borrowed value.
#[verifier::loop_isolation(false)]
fn border_scan_one(
    v: &Value,
    w: Option<i64>,
    st: Option<BorderStyle>,
    c: Option<Color>,
    pfs: i64,
    vw: i64,
    vh: i64,
) -> (r: (Option<i64>, Option<BorderStyle>, Option<Color>))
    ensures
        r == spec_border_scan_one(*v, w, st, c, pfs as int, vw as int, vh as int),
{
    match v {
        Value::Keyword(kw) => {
            let kc = chars_of(kw.as_str());
            let parsed = kw_border_style(&kc);
            let none_kw = chars_of("none");
            if !matches!(parsed, BorderStyle::NoneKw) || chars_eq(&kc, &none_kw) {
                return (w, Some(parsed), c);
            }
        },
        _ => {},
    }
    match v.to_color() {
        Some(col) => { return (w, st, Some(col)) },
        None => {},
    }
    match v.to_px(pfs, vw, vh) {
        Some(px) => { return (Some(px), st, c) },
        None => {},
    }
    match v {
        Value::Keyword(kw) => {
            let kc = chars_of(kw.as_str());
            let thin = chars_of("thin");
            if chars_eq(&kc, &thin) {
                return (Some(1), st, c);
            }
            let medium = chars_of("medium");
            if chars_eq(&kc, &medium) {
                return (Some(3), st, c);
            }
            let thick = chars_of("thick");
            if chars_eq(&kc, &thick) {
                return (Some(5), st, c);
            }
            (w, st, c)
        },
        _ => (w, st, c),
    }
}

/// Read a `border` shorthand value into width, style and color parts.
#[verifier::loop_isolation(false)]
fn border_shorthand(value: &Value, pfs: i64, vw: i64, vh: i64) -> (r: (
    Option<i64>,
    Option<BorderStyle>,
    Option<Color>,
))
    ensures
        r == spec_border_shorthand(*value, pfs as int, vw as int, vh as int),
{
    match value {
        Value::List(vs) => {
            let mut w: Option<i64> = None;
            let mut st: Option<BorderStyle> = None;
            let mut c: Option<Color> = None;
            let mut i: usize = 0;
            while i < vs.len()
                invariant
                    i <= vs@.len(),
                    spec_border_scan(vs@, 0, None, None, None, pfs as int, vw as int, vh as int)
                        == spec_border_scan(vs@, i as int, w, st, c, pfs as int, vw as int, vh as int),
                decreases vs@.len() - i,
            {
                let v = &vs[i];
                let step = border_scan_one(v, w, st, c, pfs, vw, vh);
                w = step.0;
                st = step.1;
                c = step.2;
                i = i + 1;
            }
            (w, st, c)
        },
        _ => border_scan_one(value, None, None, None, pfs, vw, vh),
    }
}

/// A shorthand's parts applied to all four borders.
pub open spec fn spec_apply_border_all(
    s: ComputedStyle,
    parts: (Option<i64>, Option<BorderStyle>, Option<Color>),
) -> ComputedStyle {
    let s1 = match parts.0 {
        Some(px) => ComputedStyle {
            border_top_width: px,
            border_right_width: px,
            border_bottom_width: px,
            border_left_width: px,
            ..s
        },
        None => s,
    };
    let s2 = match parts.1 {
        Some(bs) => ComputedStyle {
            border_style: bs,
            border_top_style: bs,
            border_right_style: bs,
            border_bottom_style: bs,
            border_left_style: bs,
            ..s1
        },
        None => s1,
    };
    match parts.2 {
        Some(c) => ComputedStyle { border_color: c, ..s2 },
        None => s2,
    }
}

/// A shorthand's parts applied to the top border.
pub open spec fn spec_apply_border_side_top(
    s: ComputedStyle,
    parts: (Option<i64>, Option<BorderStyle>, Option<Color>),
) -> ComputedStyle {
    let s1 = match parts.0 {
        Some(px) => ComputedStyle { border_top_width: px, ..s },
        None => s,
    };
    let s2 = match parts.1 {
        Some(bs) => ComputedStyle { border_top_style: bs, ..s1 },
        None => s1,
    };
    match parts.2 {
        Some(c) => ComputedStyle { border_color: c, ..s2 },
        None => s2,
    }
}

/// A shorthand's parts applied to the right border.
pub open spec fn spec_apply_border_side_right(
    s: ComputedStyle,
    parts: (Option<i64>, Option<BorderStyle>, Option<Color>),
) -> ComputedStyle {
    let s1 = match parts.0 {
        Some(px) => ComputedStyle { border_right_width: px, ..s },
        None => s,
    };
    let s2 = match parts.1 {
        Some(bs) => ComputedStyle { border_right_style: bs, ..s1 },
        None => s1,
    };
    match parts.2 {
        Some(c) => ComputedStyle { border_color: c, ..s2 },
        None => s2,
    }
}

/// A shorthand's parts applied to the bottom border.
pub open spec fn spec_apply_border_side_bottom(
    s: ComputedStyle,
    parts: (Option<i64>, Option<BorderStyle>, Option<Color>),
) -> ComputedStyle {
    let s1 = match parts.0 {
        Some(px) => ComputedStyle { border_bottom_width: px, ..s },
        None => s,
    };
    let s2 = match parts.1 {
        Some(bs) => ComputedStyle { border_bottom_style: bs, ..s1 },
        None => s1,
    };
    match parts.2 {
        Some(c) => ComputedStyle { border_color: c, ..s2 },
        None => s2,
    }
}

/// A shorthand's parts applied to the left border.
pub open spec fn spec_apply_border_side_left(
    s: ComputedStyle,
    parts: (Option<i64>, Option<BorderStyle>, Option<Color>),
) -> ComputedStyle {
    let s1 = match parts.0 {
        Some(px) => ComputedStyle { border_left_width: px, ..s },
        None => s,
    };
    let s2 = match parts.1 {
        Some(bs) => ComputedStyle { border_left_style: bs, ..s1 },
        None => s1,
    };
    match parts.2 {
        Some(c) => ComputedStyle { border_color: c, ..s2 },
        None => s2,
    }
}

/// Effect of the `display` declaration.
#[verifier::opaque]
pub open spec fn spec_arm_display(s: ComputedStyle, v: Value, pfs: int, vw: int, vh: int) -> ComputedStyle {
    match v {
            Value::Keyword(kw) => ComputedStyle { display: spec_kw_display(kw@), ..s },
            _ => s,
        }
}

impl ComputedStyle {
    #[verifier::loop_isolation(false)]
    fn arm_display(&mut self, value: &Value, pfs: i64, vw: i64, vh: i64)
        ensures
            *final(self) == spec_arm_display(*old(self), *value, pfs as int, vw as int, vh as int),
    {
        proof {
            reveal(spec_arm_display);
        }
        match value.as_keyword() {
                Some(kw) => {
                    let kc = chars_of(kw.as_str());
                    self.display = kw_display(&kc);
                },
                None => {},
            }
    }
}

/// Effect of the `color` declaration.
#[verifier::opaque]
pub open spec fn spec_arm_color(s: ComputedStyle, v: Value, pfs: int, vw: int, vh: int) -> ComputedStyle {
    match spec_to_color(v) {
            Some(c) => ComputedStyle { color: c, ..s },
            None => s,
        }
}

impl ComputedStyle {
    #[verifier::loop_isolation(false)]
    fn arm_color(&mut self, value: &Value, pfs: i64, vw: i64, vh: i64)
        ensures
            *final(self) == spec_arm_color(*old(self), *value, pfs as int, vw as int, vh as int),
    {
        proof {
            reveal(spec_arm_color);
        }
        match value.to_color() {
                Some(c) => {
                    self.color = c;
                },
                None => {},
            }
    }
}

/// Effect of the `background-color` declaration.
#[verifier::opaque]
pub open spec fn spec_arm_background_color(s: ComputedStyle, v: Value, pfs: int, vw: int, vh: int) -> ComputedStyle {
    match spec_to_color(v) {
            Some(c) => ComputedStyle { background_color: c, ..s },
            None => s,
        }
}

impl ComputedStyle {
    #[verifier::loop_isolation(false)]
    fn arm_background_color(&mut self, value: &Value, pfs: i64, vw: i64, vh: i64)
        ensures
            *final(self) == spec_arm_background_color(*old(self), *value, pfs as int, vw as int, vh as int),
    {
        proof {
            reveal(spec_arm_background_color);
        }
        match value.to_color() {
                Some(c) => {
                    self.background_color = c;
                },
                None => {},
            }
    }
}

/// Effect of the `font-size` declaration.
#[verifier::opaque]
pub open spec fn spec_arm_font_size(s: ComputedStyle, v: Value, pfs: int, vw: int, vh: int) -> ComputedStyle {
    match spec_px64(v, pfs, vw, vh) {
            Some(px) => ComputedStyle { font_size: px, ..s },
            None => s,
        }
}

impl ComputedStyle {
    #[verifier::loop_isolation(false)]
    fn arm_font_size(&mut self, value: &Value, pfs: i64, vw: i64, vh: i64)
        ensures
            *final(self) == spec_arm_font_size(*old(self), *value, pfs as int, vw as int, vh as int),
    {
        proof {
            reveal(spec_arm_font_size);
        }
        match value.to_px(pfs, vw, vh) {
                Some(px) => {
                    self.font_size = px;
                },
                None => {},
            }
    }
}

/// Effect of the `font-weight` declaration.
#[verifier::opaque]
pub open spec fn spec_arm_font_weight(s: ComputedStyle, v: Value, pfs: int, vw: int, vh: int) -> ComputedStyle {
    match v {
            Value::Keyword(kw) => if kw@ == "bold"@ {
                ComputedStyle { font_weight: FontWeight::Bold, ..s }
            } else {
                ComputedStyle { font_weight: FontWeight::Normal, ..s }
            },
            Value::Number(n) => ComputedStyle {
                font_weight: FontWeight::Numeric(
                    spec_clamp(spec_tdiv(n as int, 100), 0, 65535) as u16,
                ),
                ..s
            },
            _ => s,
        }
}

impl ComputedStyle {
    #[verifier::loop_isolation(false)]
    fn arm_font_weight(&mut self, value: &Value, pfs: i64, vw: i64, vh: i64)
        ensures
            *final(self) == spec_arm_font_weight(*old(self), *value, pfs as int, vw as int, vh as int),
    {
        proof {
            reveal(spec_arm_font_weight);
        }
        match value {
                Value::Keyword(kw) => {
                    let kc = chars_of(kw.as_str());
                    let bold = chars_of("bold");
                    if chars_eq(&kc, &bold) {
                        self.font_weight = FontWeight::Bold;
                    } else {
                        self.font_weight = FontWeight::Normal;
                    }
                },
                Value::Number(n) => {
                    let w = clamp64(div100(*n), 0, 65535);
                    self.font_weight = FontWeight::Numeric(w as u16);
                },
                _ => {},
            }
    }
}

/// Effect of the `text-align` declaration.
#[verifier::opaque]
pub open spec fn spec_arm_text_align(s: ComputedStyle, v: Value, pfs: int, vw: int, vh: int) -> ComputedStyle {
    match v {
            Value::Keyword(kw) => ComputedStyle { text_align: spec_kw_text_align(kw@), ..s },
            _ => s,
        }
}

impl ComputedStyle {
    #[verifier::loop_isolation(false)]
    fn arm_text_align(&mut self, value: &Value, pfs: i64, vw: i64, vh: i64)
        ensures
            *final(self) == spec_arm_text_align(*old(self), *value, pfs as int, vw as int, vh as int),
    {
        proof {
            reveal(spec_arm_text_align);
        }
        match value.as_keyword() {
                Some(kw) => {
                    let kc = chars_of(kw.as_str());
                    self.text_align = kw_text_align(&kc);
                },
                None => {},
            }
    }
}

/// Effect of the `text-decoration` declaration.
#[verifier::opaque]
pub open spec fn spec_arm_text_decoration(s: ComputedStyle, v: Value, pfs: int, vw: int, vh: int) -> ComputedStyle {
    match v {
            Value::Keyword(kw) => ComputedStyle { text_decoration: spec_kw_text_decoration(kw@), ..s },
            _ => s,
        }
}

impl ComputedStyle {
    #[verifier::loop_isolation(false)]
    fn arm_text_decoration(&mut self, value: &Value, pfs: i64, vw: i64, vh: i64)
        ensures
            *final(self) == spec_arm_text_decoration(*old(self), *value, pfs as int, vw as int, vh as int),
    {
        proof {
            reveal(spec_arm_text_decoration);
        }
        match value.as_keyword() {
                Some(kw) => {
                    let kc = chars_of(kw.as_str());
                    self.text_decoration = kw_text_decoration(&kc);
                },
                None => {},
            }
    }
}

/// Effect of the `line-height` declaration.
#[verifier::opaque]
pub open spec fn spec_arm_line_height(s: ComputedStyle, v: Value, pfs: int, vw: int, vh: int) -> ComputedStyle {
    match v {
            Value::Number(n) => ComputedStyle { line_height: n, ..s },
            _ => match spec_px64(v, pfs, vw, vh) {
                Some(px) => if s.font_size > 0 {
                    ComputedStyle {
                        line_height: spec_style_clamp(
                            spec_tdiv(px * 100, s.font_size as int),
                        ) as i64,
                        ..s
                    }
                } else {
                    s
                },
                None => s,
            },
        }
}

impl ComputedStyle {
    #[verifier::loop_isolation(false)]
    fn arm_line_height(&mut self, value: &Value, pfs: i64, vw: i64, vh: i64)
        ensures
            *final(self) == spec_arm_line_height(*old(self), *value, pfs as int, vw as int, vh as int),
    {
        proof {
            reveal(spec_arm_line_height);
        }
        match value {
                Value::Number(n) => {
                    self.line_height = *n;
                },
                _ => {
                    match value.to_px(pfs, vw, vh) {
                        Some(px) => {
                            if self.font_size > 0 {
                                self.line_height = crate::stylesheet::mul_div_clamp(
                                    px,
                                    100,
                                    self.font_size,
                                );
                            }
                        },
                        None => {},
                    }
                },
            }
    }
}

/// Effect of the `margin` declaration.
#[verifier::opaque]
pub open spec fn spec_arm_margin(s: ComputedStyle, v: Value, pfs: int, vw: int, vh: int) -> ComputedStyle {
    match v {
            Value::List(values) => {
                let vals = spec_px_list_from(values@, 0, pfs, vw, vh);
                if vals.len() == 1 {
                    ComputedStyle {
                        margin_top: vals[0],
                        margin_right: vals[0],
                        margin_bottom: vals[0],
                        margin_left: vals[0],
                        ..s
                    }
                } else if vals.len() == 2 {
                    ComputedStyle {
                        margin_top: vals[0],
                        margin_bottom: vals[0],
                        margin_right: vals[1],
                        margin_left: vals[1],
                        ..s
                    }
                } else if vals.len() == 3 {
                    ComputedStyle {
                        margin_top: vals[0],
                        margin_right: vals[1],
                        margin_left: vals[1],
                        margin_bottom: vals[2],
                        ..s
                    }
                } else if vals.len() == 4 {
                    ComputedStyle {
                        margin_top: vals[0],
                        margin_right: vals[1],
                        margin_bottom: vals[2],
                        margin_left: vals[3],
                        ..s
                    }
                } else {
                    s
                }
            },
            _ => match spec_px64(v, pfs, vw, vh) {
                Some(px) => ComputedStyle { margin_top: px, margin_right: px, margin_bottom: px, margin_left: px, ..s },
                None => s,
            },
        }
}

impl ComputedStyle {
    #[verifier::loop_isolation(false)]
    #[verifier::rlimit(100)]
    #[verifier::spinoff_prover]
    fn arm_margin(&mut self, value: &Value, pfs: i64, vw: i64, vh: i64)
        ensures
            *final(self) == spec_arm_margin(*old(self), *value, pfs as int, vw as int, vh as int),
    {
        proof {
            reveal(spec_arm_margin);
        }
        let mut et: i64 = self.margin_top;
            let mut er: i64 = self.margin_right;
            let mut eb: i64 = self.margin_bottom;
            let mut el: i64 = self.margin_left;
            match value {
                Value::List(values) => {
                    let vals = px_list(values, pfs, vw, vh);
                    if vals.len() == 1 {
                        et = vals[0];
                        er = vals[0];
                        eb = vals[0];
                        el = vals[0];
                    } else if vals.len() == 2 {
                        et = vals[0];
                        eb = vals[0];
                        er = vals[1];
                        el = vals[1];
                    } else if vals.len() == 3 {
                        et = vals[0];
                        er = vals[1];
                        el = vals[1];
                        eb = vals[2];
                    } else if vals.len() == 4 {
                        et = vals[0];
                        er = vals[1];
                        eb = vals[2];
                        el = vals[3];
                    }
                },
                _ => {
                    match value.to_px(pfs, vw, vh) {
                        Some(px) => {
                            et = px;
                            er = px;
                            eb = px;
                            el = px;
                        },
                        None => {},
                    }
                },
            }
            self.margin_top = et;
            self.margin_right = er;
            self.margin_bottom = eb;
            self.margin_left = el;
    }
}

/// Effect of the `margin-top` declaration.
#[verifier::opaque]
pub open spec fn spec_arm_margin_top(s: ComputedStyle, v: Value, pfs: int, vw: int, vh: int) -> ComputedStyle {
    match spec_px64(v, pfs, vw, vh) {
            Some(px) => ComputedStyle { margin_top: px, ..s },
            None => s,
        }
}

impl ComputedStyle {
    #[verifier::loop_isolation(false)]
    fn arm_margin_top(&mut self, value: &Value, pfs: i64, vw: i64, vh: i64)
        ensures
            *final(self) == spec_arm_margin_top(*old(self), *value, pfs as int, vw as int, vh as int),
    {
        proof {
            reveal(spec_arm_margin_top);
        }
        match value.to_px(pfs, vw, vh) {
                Some(px) => {
                    self.margin_top = px;
                },
                None => {},
            }
    }
}

/// Effect of the `margin-right` declaration.
#[verifier::opaque]
pub open spec fn spec_arm_margin_right(s: ComputedStyle, v: Value, pfs: int, vw: int, vh: int) -> ComputedStyle {
    match spec_px64(v, pfs, vw, vh) {
            Some(px) => ComputedStyle { margin_right: px, ..s },
            None => s,
        }
}

impl ComputedStyle {
    #[verifier::loop_isolation(false)]
    fn arm_margin_right(&mut self, value: &Value, pfs: i64, vw: i64, vh: i64)
        ensures
            *final(self) == spec_arm_margin_right(*old(self), *value, pfs as int, vw as int, vh as int),
    {
        proof {
            reveal(spec_arm_margin_right);
        }
        match value.to_px(pfs, vw, vh) {
                Some(px) => {
                    self.margin_right = px;
                },
                None => {},
            }
    }
}

/// Effect of the `margin-bottom` declaration.
#[verifier::opaque]
pub open spec fn spec_arm_margin_bottom(s: ComputedStyle, v: Value, pfs: int, vw: int, vh: int) -> ComputedStyle {
    match spec_px64(v, pfs, vw, vh) {
            Some(px) => ComputedStyle { margin_bottom: px, ..s },
            None => s,
        }
}

impl ComputedStyle {
    #[verifier::loop_isolation(false)]
    fn arm_margin_bottom(&mut self, value: &Value, pfs: i64, vw: i64, vh: i64)
        ensures
            *final(self) == spec_arm_margin_bottom(*old(self), *value, pfs as int, vw as int, vh as int),
    {
        proof {
            reveal(spec_arm_margin_bottom);
        }
        match value.to_px(pfs, vw, vh) {
                Some(px) => {
                    self.margin_bottom = px;
                },
                None => {},
            }
    }
}

/// Effect of the `margin-left` declaration.
#[verifier::opaque]
pub open spec fn spec_arm_margin_left(s: ComputedStyle, v: Value, pfs: int, vw: int, vh: int) -> ComputedStyle {
    match spec_px64(v, pfs, vw, vh) {
            Some(px) => ComputedStyle { margin_left: px, ..s },
            None => s,
        }
}

impl ComputedStyle {
    #[verifier::loop_isolation(false)]
    fn arm_margin_left(&mut self, value: &Value, pfs: i64, vw: i64, vh: i64)
        ensures
            *final(self) == spec_arm_margin_left(*old(self), *value, pfs as int, vw as int, vh as int),
    {
        proof {
            reveal(spec_arm_margin_left);
        }
        match value.to_px(pfs, vw, vh) {
                Some(px) => {
                    self.margin_left = px;
                },
                None => {},
            }
    }
}

/// Effect of the `padding` declaration.
#[verifier::opaque]
pub open spec fn spec_arm_padding(s: ComputedStyle, v: Value, pfs: int, vw: int, vh: int) -> ComputedStyle {
    match v {
            Value::List(values) => {
                let vals = spec_px_list_from(values@, 0, pfs, vw, vh);
                if vals.len() == 1 {
                    ComputedStyle {
                        padding_top: vals[0],
                        padding_right: vals[0],
                        padding_bottom: vals[0],
                        padding_left: vals[0],
                        ..s
                    }
                } else if vals.len() == 2 {
                    ComputedStyle {
                        padding_top: vals[0],
                        padding_bottom: vals[0],
                        padding_right: vals[1],
                        padding_left: vals[1],
                        ..s
                    }
                } else if vals.len() == 3 {
                    ComputedStyle {
                        padding_top: vals[0],
                        padding_right: vals[1],
                        padding_left: vals[1],
                        padding_bottom: vals[2],
                        ..s
                    }
                } else if vals.len() == 4 {
                    ComputedStyle {
                        padding_top: vals[0],
                        padding_right: vals[1],
                        padding_bottom: vals[2],
                        padding_left: vals[3],
                        ..s
                    }
                } else {
                    s
                }
            },
            _ => match spec_px64(v, pfs, vw, vh) {
                Some(px) => ComputedStyle { padding_top: px, padding_right: px, padding_bottom: px, padding_left: px, ..s },
                None => s,
            },
        }
}

impl ComputedStyle {
    #[verifier::loop_isolation(false)]
    #[verifier::rlimit(100)]
    #[verifier::spinoff_prover]
    fn arm_padding(&mut self, value: &Value, pfs: i64, vw: i64, vh: i64)
        ensures
            *final(self) == spec_arm_padding(*old(self), *value, pfs as int, vw as int, vh as int),
    {
        proof {
            reveal(spec_arm_padding);
        }
        let mut et: i64 = self.padding_top;
            let mut er: i64 = self.padding_right;
            let mut eb: i64 = self.padding_bottom;
            let mut el: i64 = self.padding_left;
            match value {
                Value::List(values) => {
                    let vals = px_list(values, pfs, vw, vh);
                    if vals.len() == 1 {
                        et = vals[0];
                        er = vals[0];
                        eb = vals[0];
                        el = vals[0];
                    } else if vals.len() == 2 {
                        et = vals[0];
                        eb = vals[0];
                        er = vals[1];
                        el = vals[1];
                    } else if vals.len() == 3 {
                        et = vals[0];
                        er = vals[1];
                        el = vals[1];
                        eb = vals[2];
                    } else if vals.len() == 4 {
                        et = vals[0];
                        er = vals[1];
                        eb = vals[2];
                        el = vals[3];
                    }
                },
                _ => {
                    match value.to_px(pfs, vw, vh) {
                        Some(px) => {
                            et = px;
                            er = px;
                            eb = px;
                            el = px;
                        },
                        None => {},
                    }
                },
            }
            self.padding_top = et;
            self.padding_right = er;
            self.padding_bottom = eb;
            self.padding_left = el;
    }
}

/// Effect of the `padding-top` declaration.
#[verifier::opaque]
pub open spec fn spec_arm_padding_top(s: ComputedStyle, v: Value, pfs: int, vw: int, vh: int) -> ComputedStyle {
    match spec_px64(v, pfs, vw, vh) {
            Some(px) => ComputedStyle { padding_top: px, ..s },
            None => s,
        }
}

impl ComputedStyle {
    #[verifier::loop_isolation(false)]
    fn arm_padding_top(&mut self, value: &Value, pfs: i64, vw: i64, vh: i64)
        ensures
            *final(self) == spec_arm_padding_top(*old(self), *value, pfs as int, vw as int, vh as int),
    {
        proof {
            reveal(spec_arm_padding_top);
        }
        match value.to_px(pfs, vw, vh) {
                Some(px) => {
                    self.padding_top = px;
                },
                None => {},
            }
    }
}

/// Effect of the `padding-right` declaration.
#[verifier::opaque]
pub open spec fn spec_arm_padding_right(s: ComputedStyle, v: Value, pfs: int, vw: int, vh: int) -> ComputedStyle {
    match spec_px64(v, pfs, vw, vh) {
            Some(px) => ComputedStyle { padding_right: px, ..s },
            None => s,
        }
}

impl ComputedStyle {
    #[verifier::loop_isolation(false)]
    fn arm_padding_right(&mut self, value: &Value, pfs: i64, vw: i64, vh: i64)
        ensures
            *final(self) == spec_arm_padding_right(*old(self), *value, pfs as int, vw as int, vh as int),
    {
        proof {
            reveal(spec_arm_padding_right);
        }
        match value.to_px(pfs, vw, vh) {
                Some(px) => {
                    self.padding_right = px;
                },
                None => {},
            }
    }
}

/// Effect of the `padding-bottom` declaration.
#[verifier::opaque]
pub open spec fn spec_arm_padding_bottom(s: ComputedStyle, v: Value, pfs: int, vw: int, vh: int) -> ComputedStyle {
    match spec_px64(v, pfs, vw, vh) {
            Some(px) => ComputedStyle { padding_bottom: px, ..s },
            None => s,
        }
}

impl ComputedStyle {
    #[verifier::loop_isolation(false)]
    fn arm_padding_bottom(&mut self, value: &Value, pfs: i64, vw: i64, vh: i64)
        ensures
            *final(self) == spec_arm_padding_bottom(*old(self), *value, pfs as int, vw as int, vh as int),
    {
        proof {
            reveal(spec_arm_padding_bottom);
        }
        match value.to_px(pfs, vw, vh) {
                Some(px) => {
                    self.padding_bottom = px;
                },
                None => {},
            }
    }
}

/// Effect of the `padding-left` declaration.
#[verifier::opaque]
pub open spec fn spec_arm_padding_left(s: ComputedStyle, v: Value, pfs: int, vw: int, vh: int) -> ComputedStyle {
    match spec_px64(v, pfs, vw, vh) {
            Some(px) => ComputedStyle { padding_left: px, ..s },
            None => s,
        }
}

impl ComputedStyle {
    #[verifier::loop_isolation(false)]
    fn arm_padding_left(&mut self, value: &Value, pfs: i64, vw: i64, vh: i64)
        ensures
            *final(self) == spec_arm_padding_left(*old(self), *value, pfs as int, vw as int, vh as int),
    {
        proof {
            reveal(spec_arm_padding_left);
        }
        match value.to_px(pfs, vw, vh) {
                Some(px) => {
                    self.padding_left = px;
                },
                None => {},
            }
    }
}

/// Effect of the `border-width` declaration.
#[verifier::opaque]
pub open spec fn spec_arm_border_width(s: ComputedStyle, v: Value, pfs: int, vw: int, vh: int) -> ComputedStyle {
    match spec_px64(v, pfs, vw, vh) {
            Some(px) => ComputedStyle {
                border_top_width: px,
                border_right_width: px,
                border_bottom_width: px,
                border_left_width: px,
                ..s
            },
            None => s,
        }
}

impl ComputedStyle {
    #[verifier::loop_isolation(false)]
    fn arm_border_width(&mut self, value: &Value, pfs: i64, vw: i64, vh: i64)
        ensures
            *final(self) == spec_arm_border_width(*old(self), *value, pfs as int, vw as int, vh as int),
    {
        proof {
            reveal(spec_arm_border_width);
        }
        match value.to_px(pfs, vw, vh) {
                Some(px) => {
                    self.border_top_width = px;
                    self.border_right_width = px;
                    self.border_bottom_width = px;
                    self.border_left_width = px;
                },
                None => {},
            }
    }
}

/// Effect of the `border-color` declaration.
#[verifier::opaque]
pub open spec fn spec_arm_border_color(s: ComputedStyle, v: Value, pfs: int, vw: int, vh: int) -> ComputedStyle {
    match spec_to_color(v) {
            Some(c) => ComputedStyle { border_color: c, ..s },
            None => s,
        }
}

impl ComputedStyle {
    #[verifier::loop_isolation(false)]
    fn arm_border_color(&mut self, value: &Value, pfs: i64, vw: i64, vh: i64)
        ensures
            *final(self) == spec_arm_border_color(*old(self), *value, pfs as int, vw as int, vh as int),
    {
        proof {
            reveal(spec_arm_border_color);
        }
        match value.to_color() {
                Some(c) => {
                    self.border_color = c;
                },
                None => {},
            }
    }
}

/// Effect of the `width` declaration.
#[verifier::opaque]
pub open spec fn spec_arm_width(s: ComputedStyle, v: Value, pfs: int, vw: int, vh: int) -> ComputedStyle {
    if v is Auto {
            ComputedStyle { width: None, ..s }
        } else {
            match spec_px64(v, pfs, vw, vh) {
            Some(px) => ComputedStyle { width: Some(px), ..s },
            None => s,
            }
        }
}

impl ComputedStyle {
    #[verifier::loop_isolation(false)]
    fn arm_width(&mut self, value: &Value, pfs: i64, vw: i64, vh: i64)
        ensures
            *final(self) == spec_arm_width(*old(self), *value, pfs as int, vw as int, vh as int),
    {
        proof {
            reveal(spec_arm_width);
        }
        if matches!(value, Value::Auto) {
                self.width = None;
                return ;
            }
            match value.to_px(pfs, vw, vh) {
                Some(px) => {
                    self.width = Some(px);
                },
                None => {},
            }
    }
}

/// Effect of the `height` declaration.
#[verifier::opaque]
pub open spec fn spec_arm_height(s: ComputedStyle, v: Value, pfs: int, vw: int, vh: int) -> ComputedStyle {
    if v is Auto {
            ComputedStyle { height: None, ..s }
        } else {
            match spec_px64(v, pfs, vw, vh) {
            Some(px) => ComputedStyle { height: Some(px), ..s },
            None => s,
            }
        }
}

impl ComputedStyle {
    #[verifier::loop_isolation(false)]
    fn arm_height(&mut self, value: &Value, pfs: i64, vw: i64, vh: i64)
        ensures
            *final(self) == spec_arm_height(*old(self), *value, pfs as int, vw as int, vh as int),
    {
        proof {
            reveal(spec_arm_height);
        }
        if matches!(value, Value::Auto) {
                self.height = None;
                return ;
            }
            match value.to_px(pfs, vw, vh) {
                Some(px) => {
                    self.height = Some(px);
                },
                None => {},
            }
    }
}

/// Effect of the `position` declaration.
#[verifier::opaque]
pub open spec fn spec_arm_position(s: ComputedStyle, v: Value, pfs: int, vw: int, vh: int) -> ComputedStyle {
    match v {
            Value::Keyword(kw) => ComputedStyle { position: spec_kw_position(kw@), ..s },
            _ => s,
        }
}

impl ComputedStyle {
    #[verifier::loop_isolation(false)]
    fn arm_position(&mut self, value: &Value, pfs: i64, vw: i64, vh: i64)
        ensures
            *final(self) == spec_arm_position(*old(self), *value, pfs as int, vw as int, vh as int),
    {
        proof {
            reveal(spec_arm_position);
        }
        match value.as_keyword() {
                Some(kw) => {
                    let kc = chars_of(kw.as_str());
                    self.position = kw_position(&kc);
                },
                None => {},
            }
    }
}

/// Effect of the `top` declaration.
#[verifier::opaque]
pub open spec fn spec_arm_top(s: ComputedStyle, v: Value, pfs: int, vw: int, vh: int) -> ComputedStyle {
    match spec_px64(v, pfs, vw, vh) {
            Some(px) => ComputedStyle { top: Some(px), ..s },
            None => s,
        }
}

impl ComputedStyle {
    #[verifier::loop_isolation(false)]
    fn arm_top(&mut self, value: &Value, pfs: i64, vw: i64, vh: i64)
        ensures
            *final(self) == spec_arm_top(*old(self), *value, pfs as int, vw as int, vh as int),
    {
        proof {
            reveal(spec_arm_top);
        }
        match value.to_px(pfs, vw, vh) {
                Some(px) => {
                    self.top = Some(px);
                },
                None => {},
            }
    }
}

/// Effect of the `right` declaration.
#[verifier::opaque]
pub open spec fn spec_arm_right(s: ComputedStyle, v: Value, pfs: int, vw: int, vh: int) -> ComputedStyle {
    match spec_px64(v, pfs, vw, vh) {
            Some(px) => ComputedStyle { right: Some(px), ..s },
            None => s,
        }
}

impl ComputedStyle {
    #[verifier::loop_isolation(false)]
    fn arm_right(&mut self, value: &Value, pfs: i64, vw: i64, vh: i64)
        ensures
            *final(self) == spec_arm_right(*old(self), *value, pfs as int, vw as int, vh as int),
    {
        proof {
            reveal(spec_arm_right);
        }
        match value.to_px(pfs, vw, vh) {
                Some(px) => {
                    self.right = Some(px);
                },
                None => {},
            }
    }
}

/// Effect of the `bottom` declaration.
#[verifier::opaque]
pub open spec fn spec_arm_bottom(s: ComputedStyle, v: Value, pfs: int, vw: int, vh: int) -> ComputedStyle {
    match spec_px64(v, pfs, vw, vh) {
            Some(px) => ComputedStyle { bottom: Some(px), ..s },
            None => s,
        }
}

impl ComputedStyle {
    #[verifier::loop_isolation(false)]
    fn arm_bottom(&mut self, value: &Value, pfs: i64, vw: i64, vh: i64)
        ensures
            *final(self) == spec_arm_bottom(*old(self), *value, pfs as int, vw as int, vh as int),
    {
        proof {
            reveal(spec_arm_bottom);
        }
        match value.to_px(pfs, vw, vh) {
                Some(px) => {
                    self.bottom = Some(px);
                },
                None => {},
            }
    }
}

/// Effect of the `left` declaration.
#[verifier::opaque]
pub open spec fn spec_arm_left(s: ComputedStyle, v: Value, pfs: int, vw: int, vh: int) -> ComputedStyle {
    match spec_px64(v, pfs, vw, vh) {
            Some(px) => ComputedStyle { left: Some(px), ..s },
            None => s,
        }
}

impl ComputedStyle {
    #[verifier::loop_isolation(false)]
    fn arm_left(&mut self, value: &Value, pfs: i64, vw: i64, vh: i64)
        ensures
            *final(self) == spec_arm_left(*old(self), *value, pfs as int, vw as int, vh as int),
    {
        proof {
            reveal(spec_arm_left);
        }
        match value.to_px(pfs, vw, vh) {
                Some(px) => {
                    self.left = Some(px);
                },
                None => {},
            }
    }
}

/// Effect of the `flex-direction` declaration.
#[verifier::opaque]
pub open spec fn spec_arm_flex_direction(s: ComputedStyle, v: Value, pfs: int, vw: int, vh: int) -> ComputedStyle {
    match v {
            Value::Keyword(kw) => ComputedStyle { flex_direction: spec_kw_flex_direction(kw@), ..s },
            _ => s,
        }
}

impl ComputedStyle {
    #[verifier::loop_isolation(false)]
    fn arm_flex_direction(&mut self, value: &Value, pfs: i64, vw: i64, vh: i64)
        ensures
            *final(self) == spec_arm_flex_direction(*old(self), *value, pfs as int, vw as int, vh as int),
    {
        proof {
            reveal(spec_arm_flex_direction);
        }
        match value.as_keyword() {
                Some(kw) => {
                    let kc = chars_of(kw.as_str());
                    self.flex_direction = kw_flex_direction(&kc);
                },
                None => {},
            }
    }
}

/// Effect of the `flex-wrap` declaration.
#[verifier::opaque]
pub open spec fn spec_arm_flex_wrap(s: ComputedStyle, v: Value, pfs: int, vw: int, vh: int) -> ComputedStyle {
    match v {
            Value::Keyword(kw) => ComputedStyle { flex_wrap: spec_kw_flex_wrap(kw@), ..s },
            _ => s,
        }
}

impl ComputedStyle {
    #[verifier::loop_isolation(false)]
    fn arm_flex_wrap(&mut self, value: &Value, pfs: i64, vw: i64, vh: i64)
        ensures
            *final(self) == spec_arm_flex_wrap(*old(self), *value, pfs as int, vw as int, vh as int),
    {
        proof {
            reveal(spec_arm_flex_wrap);
        }
        match value.as_keyword() {
                Some(kw) => {
                    let kc = chars_of(kw.as_str());
                    self.flex_wrap = kw_flex_wrap(&kc);
                },
                None => {},
            }
    }
}

/// Effect of the `justify-content` declaration.
#[verifier::opaque]
pub open spec fn spec_arm_justify_content(s: ComputedStyle, v: Value, pfs: int, vw: int, vh: int) -> ComputedStyle {
    match v {
            Value::Keyword(kw) => ComputedStyle { justify_content: spec_kw_justify_content(kw@), ..s },
            _ => s,
        }
}

impl ComputedStyle {
    #[verifier::loop_isolation(false)]
    fn arm_justify_content(&mut self, value: &Value, pfs: i64, vw: i64, vh: i64)
        ensures
            *final(self) == spec_arm_justify_content(*old(self), *value, pfs as int, vw as int, vh as int),
    {
        proof {
            reveal(spec_arm_justify_content);
        }
        match value.as_keyword() {
                Some(kw) => {
                    let kc = chars_of(kw.as_str());
                    self.justify_content = kw_justify_content(&kc);
                },
                None => {},
            }
    }
}

/// Effect of the `align-items` declaration.
#[verifier::opaque]
pub open spec fn spec_arm_align_items(s: ComputedStyle, v: Value, pfs: int, vw: int, vh: int) -> ComputedStyle {
    match v {
            Value::Keyword(kw) => ComputedStyle { align_items: spec_kw_align_items(kw@), ..s },
            _ => s,
        }
}

impl ComputedStyle {
    #[verifier::loop_isolation(false)]
    fn arm_align_items(&mut self, value: &Value, pfs: i64, vw: i64, vh: i64)
        ensures
            *final(self) == spec_arm_align_items(*old(self), *value, pfs as int, vw as int, vh as int),
    {
        proof {
            reveal(spec_arm_align_items);
        }
        match value.as_keyword() {
                Some(kw) => {
                    let kc = chars_of(kw.as_str());
                    self.align_items = kw_align_items(&kc);
                },
                None => {},
            }
    }
}

/// Effect of the `align-content` declaration.
#[verifier::opaque]
pub open spec fn spec_arm_align_content(s: ComputedStyle, v: Value, pfs: int, vw: int, vh: int) -> ComputedStyle {
    match v {
            Value::Keyword(kw) => ComputedStyle { align_content: spec_kw_align_content(kw@), ..s },
            _ => s,
        }
}

impl ComputedStyle {
    #[verifier::loop_isolation(false)]
    fn arm_align_content(&mut self, value: &Value, pfs: i64, vw: i64, vh: i64)
        ensures
            *final(self) == spec_arm_align_content(*old(self), *value, pfs as int, vw as int, vh as int),
    {
        proof {
            reveal(spec_arm_align_content);
        }
        match value.as_keyword() {
                Some(kw) => {
                    let kc = chars_of(kw.as_str());
                    self.align_content = kw_align_content(&kc);
                },
                None => {},
            }
    }
}

/// Effect of the `gap` declaration.
#[verifier::opaque]
pub open spec fn spec_arm_gap(s: ComputedStyle, v: Value, pfs: int, vw: int, vh: int) -> ComputedStyle {
    match spec_px64(v, pfs, vw, vh) {
            Some(px) => ComputedStyle { gap: px, row_gap: px, column_gap: px, ..s },
            None => s,
        }
}

impl ComputedStyle {
    #[verifier::loop_isolation(false)]
    fn arm_gap(&mut self, value: &Value, pfs: i64, vw: i64, vh: i64)
        ensures
            *final(self) == spec_arm_gap(*old(self), *value, pfs as int, vw as int, vh as int),
    {
        proof {
            reveal(spec_arm_gap);
        }
        match value.to_px(pfs, vw, vh) {
                Some(px) => {
                    self.gap = px;
                    self.row_gap = px;
                    self.column_gap = px;
                },
                None => {},
            }
    }
}

/// Effect of the `row-gap` declaration.
#[verifier::opaque]
pub open spec fn spec_arm_row_gap(s: ComputedStyle, v: Value, pfs: int, vw: int, vh: int) -> ComputedStyle {
    match spec_px64(v, pfs, vw, vh) {
            Some(px) => ComputedStyle { row_gap: px, ..s },
            None => s,
        }
}

impl ComputedStyle {
    #[verifier::loop_isolation(false)]
    fn arm_row_gap(&mut self, value: &Value, pfs: i64, vw: i64, vh: i64)
        ensures
            *final(self) == spec_arm_row_gap(*old(self), *value, pfs as int, vw as int, vh as int),
    {
        proof {
            reveal(spec_arm_row_gap);
        }
        match value.to_px(pfs, vw, vh) {
                Some(px) => {
                    self.row_gap = px;
                },
                None => {},
            }
    }
}

/// Effect of the `column-gap` declaration.
#[verifier::opaque]
pub open spec fn spec_arm_column_gap(s: ComputedStyle, v: Value, pfs: int, vw: int, vh: int) -> ComputedStyle {
    match spec_px64(v, pfs, vw, vh) {
            Some(px) => ComputedStyle { column_gap: px, ..s },
            None => s,
        }
}

impl ComputedStyle {
    #[verifier::loop_isolation(false)]
    fn arm_column_gap(&mut self, value: &Value, pfs: i64, vw: i64, vh: i64)
        ensures
            *final(self) == spec_arm_column_gap(*old(self), *value, pfs as int, vw as int, vh as int),
    {
        proof {
            reveal(spec_arm_column_gap);
        }
        match value.to_px(pfs, vw, vh) {
                Some(px) => {
                    self.column_gap = px;
                },
                None => {},
            }
    }
}

/// Effect of the `flex-grow` declaration.
#[verifier::opaque]
pub open spec fn spec_arm_flex_grow(s: ComputedStyle, v: Value, pfs: int, vw: int, vh: int) -> ComputedStyle {
    match v {
            Value::Number(n) => ComputedStyle { flex_grow: n, ..s },
            _ => s,
        }
}

impl ComputedStyle {
    #[verifier::loop_isolation(false)]
    fn arm_flex_grow(&mut self, value: &Value, pfs: i64, vw: i64, vh: i64)
        ensures
            *final(self) == spec_arm_flex_grow(*old(self), *value, pfs as int, vw as int, vh as int),
    {
        proof {
            reveal(spec_arm_flex_grow);
        }
        match value {
                Value::Number(n) => {
                    self.flex_grow = *n;
                },
                _ => {},
            }
    }
}

/// Effect of the `flex-shrink` declaration.
#[verifier::opaque]
pub open spec fn spec_arm_flex_shrink(s: ComputedStyle, v: Value, pfs: int, vw: int, vh: int) -> ComputedStyle {
    match v {
            Value::Number(n) => ComputedStyle { flex_shrink: n, ..s },
            _ => s,
        }
}

impl ComputedStyle {
    #[verifier::loop_isolation(false)]
    fn arm_flex_shrink(&mut self, value: &Value, pfs: i64, vw: i64, vh: i64)
        ensures
            *final(self) == spec_arm_flex_shrink(*old(self), *value, pfs as int, vw as int, vh as int),
    {
        proof {
            reveal(spec_arm_flex_shrink);
        }
        match value {
                Value::Number(n) => {
                    self.flex_shrink = *n;
                },
                _ => {},
            }
    }
}

/// Effect of the `flex-basis` declaration.
#[verifier::opaque]
pub open spec fn spec_arm_flex_basis(s: ComputedStyle, v: Value, pfs: int, vw: int, vh: int) -> ComputedStyle {
    if v is Auto {
            ComputedStyle { flex_basis: None, ..s }
        } else {
            match spec_px64(v, pfs, vw, vh) {
            Some(px) => ComputedStyle { flex_basis: Some(px), ..s },
            None => s,
            }
        }
}

impl ComputedStyle {
    #[verifier::loop_isolation(false)]
    fn arm_flex_basis(&mut self, value: &Value, pfs: i64, vw: i64, vh: i64)
        ensures
            *final(self) == spec_arm_flex_basis(*old(self), *value, pfs as int, vw as int, vh as int),
    {
        proof {
            reveal(spec_arm_flex_basis);
        }
        if matches!(value, Value::Auto) {
                self.flex_basis = None;
                return ;
            }
            match value.to_px(pfs, vw, vh) {
                Some(px) => {
                    self.flex_basis = Some(px);
                },
                None => {},
            }
    }
}

/// Effect of the `flex` declaration.
#[verifier::opaque]
pub open spec fn spec_arm_flex(s: ComputedStyle, v: Value, pfs: int, vw: int, vh: int) -> ComputedStyle {
    match v {
            Value::Number(n) => ComputedStyle {
                flex_grow: n,
                flex_shrink: 100i64,
                flex_basis: Some(0i64),
                ..s
            },
            Value::Keyword(kw) => if kw@ == "auto"@ {
                ComputedStyle { flex_grow: 100i64, flex_shrink: 100i64, flex_basis: None, ..s }
            } else if kw@ == "none"@ {
                ComputedStyle { flex_grow: 0i64, flex_shrink: 0i64, flex_basis: None, ..s }
            } else {
                s
            },
            _ => s,
        }
}

impl ComputedStyle {
    #[verifier::loop_isolation(false)]
    #[verifier::rlimit(100)]
    #[verifier::spinoff_prover]
    fn arm_flex(&mut self, value: &Value, pfs: i64, vw: i64, vh: i64)
        ensures
            *final(self) == spec_arm_flex(*old(self), *value, pfs as int, vw as int, vh as int),
    {
        proof {
            reveal(spec_arm_flex);
        }
        let mut g: i64 = self.flex_grow;
            let mut sh: i64 = self.flex_shrink;
            let mut ba: Option<i64> = self.flex_basis;
            match value {
                Value::Number(n) => {
                    g = *n;
                    sh = 100;
                    ba = Some(0);
                },
                Value::Keyword(kw) => {
                    let kc = chars_of(kw.as_str());
                    let auto_kw = chars_of("auto");
                    let none_kw = chars_of("none");
                    if chars_eq(&kc, &auto_kw) {
                        g = 100;
                        sh = 100;
                        ba = None;
                    } else if chars_eq(&kc, &none_kw) {
                        g = 0;
                        sh = 0;
                        ba = None;
                    }
                },
                _ => {},
            }
            self.flex_grow = g;
            self.flex_shrink = sh;
            self.flex_basis = ba;
    }
}

/// Effect of the `align-self` declaration.
#[verifier::opaque]
pub open spec fn spec_arm_align_self(s: ComputedStyle, v: Value, pfs: int, vw: int, vh: int) -> ComputedStyle {
    match v {
            Value::Keyword(kw) => if kw@ == "auto"@ {
                s
            } else {
                ComputedStyle { align_self: Some(spec_kw_align_items(kw@)), ..s }
            },
            _ => s,
        }
}

impl ComputedStyle {
    #[verifier::loop_isolation(false)]
    fn arm_align_self(&mut self, value: &Value, pfs: i64, vw: i64, vh: i64)
        ensures
            *final(self) == spec_arm_align_self(*old(self), *value, pfs as int, vw as int, vh as int),
    {
        proof {
            reveal(spec_arm_align_self);
        }
        match value.as_keyword() {
                Some(kw) => {
                    let kc = chars_of(kw.as_str());
                    let auto_kw = chars_of("auto");
                    if chars_eq(&kc, &auto_kw) {
                        // `auto` keeps the container's alignment
                    } else {
                        self.align_self = Some(kw_align_items(&kc));
                    }
                },
                None => {},
            }
    }
}

/// Effect of the `order` declaration.
#[verifier::opaque]
pub open spec fn spec_arm_order(s: ComputedStyle, v: Value, pfs: int, vw: int, vh: int) -> ComputedStyle {
    match v {
            Value::Number(n) => ComputedStyle {
                order: spec_clamp(spec_tdiv(n as int, 100), -0x8000_0000, 0x7fff_ffff) as i32,
                ..s
            },
            _ => s,
        }
}

impl ComputedStyle {
    #[verifier::loop_isolation(false)]
    fn arm_order(&mut self, value: &Value, pfs: i64, vw: i64, vh: i64)
        ensures
            *final(self) == spec_arm_order(*old(self), *value, pfs as int, vw as int, vh as int),
    {
        proof {
            reveal(spec_arm_order);
        }
        match value {
                Value::Number(n) => {
                    self.order = clamp_i32(div100(*n));
                },
                _ => {},
            }
    }
}

/// Effect of the `grid-gap` declaration.
#[verifier::opaque]
pub open spec fn spec_arm_grid_gap(s: ComputedStyle, v: Value, pfs: int, vw: int, vh: int) -> ComputedStyle {
    match spec_px64(v, pfs, vw, vh) {
            Some(px) => ComputedStyle {
                grid_gap: px,
                grid_row_gap: px,
                grid_column_gap: px,
                ..s
            },
            None => s,
        }
}

impl ComputedStyle {
    #[verifier::loop_isolation(false)]
    fn arm_grid_gap(&mut self, value: &Value, pfs: i64, vw: i64, vh: i64)
        ensures
            *final(self) == spec_arm_grid_gap(*old(self), *value, pfs as int, vw as int, vh as int),
    {
        proof {
            reveal(spec_arm_grid_gap);
        }
        match value.to_px(pfs, vw, vh) {
                Some(px) => {
                    self.grid_gap = px;
                    self.grid_row_gap = px;
                    self.grid_column_gap = px;
                },
                None => {},
            }
    }
}

/// Effect of the `grid-row-gap` declaration.
#[verifier::opaque]
pub open spec fn spec_arm_grid_row_gap(s: ComputedStyle, v: Value, pfs: int, vw: int, vh: int) -> ComputedStyle {
    match spec_px64(v, pfs, vw, vh) {
            Some(px) => ComputedStyle { grid_row_gap: px, ..s },
            None => s,
        }
}

impl ComputedStyle {
    #[verifier::loop_isolation(false)]
    fn arm_grid_row_gap(&mut self, value: &Value, pfs: i64, vw: i64, vh: i64)
        ensures
            *final(self) == spec_arm_grid_row_gap(*old(self), *value, pfs as int, vw as int, vh as int),
    {
        proof {
            reveal(spec_arm_grid_row_gap);
        }
        match value.to_px(pfs, vw, vh) {
                Some(px) => {
                    self.grid_row_gap = px;
                },
                None => {},
            }
    }
}

/// Effect of the `grid-column-gap` declaration.
#[verifier::opaque]
pub open spec fn spec_arm_grid_column_gap(s: ComputedStyle, v: Value, pfs: int, vw: int, vh: int) -> ComputedStyle {
    match spec_px64(v, pfs, vw, vh) {
            Some(px) => ComputedStyle { grid_column_gap: px, ..s },
            None => s,
        }
}

impl ComputedStyle {
    #[verifier::loop_isolation(false)]
    fn arm_grid_column_gap(&mut self, value: &Value, pfs: i64, vw: i64, vh: i64)
        ensures
            *final(self) == spec_arm_grid_column_gap(*old(self), *value, pfs as int, vw as int, vh as int),
    {
        proof {
            reveal(spec_arm_grid_column_gap);
        }
        match value.to_px(pfs, vw, vh) {
                Some(px) => {
                    self.grid_column_gap = px;
                },
                None => {},
            }
    }
}

/// Effect of the `grid-column-start` declaration.
#[verifier::opaque]
pub open spec fn spec_arm_grid_column_start(s: ComputedStyle, v: Value, pfs: int, vw: int, vh: int) -> ComputedStyle {
    match v {
            Value::Number(n) => ComputedStyle {
                grid_column: GridPlacement {
                    start: Some(
                        spec_clamp(spec_tdiv(n as int, 100), -0x8000_0000, 0x7fff_ffff) as i32,
                    ),
                    ..s.grid_column
                },
                ..s
            },
            _ => s,
        }
}

impl ComputedStyle {
    #[verifier::loop_isolation(false)]
    fn arm_grid_column_start(&mut self, value: &Value, pfs: i64, vw: i64, vh: i64)
        ensures
            *final(self) == spec_arm_grid_column_start(*old(self), *value, pfs as int, vw as int, vh as int),
    {
        proof {
            reveal(spec_arm_grid_column_start);
        }
        match value {
                Value::Number(n) => {
                    self.grid_column.start = Some(clamp_i32(div100(*n)));
                },
                _ => {},
            }
    }
}

/// Effect of the `grid-column-end` declaration.
#[verifier::opaque]
pub open spec fn spec_arm_grid_column_end(s: ComputedStyle, v: Value, pfs: int, vw: int, vh: int) -> ComputedStyle {
    match v {
            Value::Number(n) => ComputedStyle {
                grid_column: GridPlacement {
                    end: Some(
                        spec_clamp(spec_tdiv(n as int, 100), -0x8000_0000, 0x7fff_ffff) as i32,
                    ),
                    ..s.grid_column
                },
                ..s
            },
            _ => s,
        }
}

impl ComputedStyle {
    #[verifier::loop_isolation(false)]
    fn arm_grid_column_end(&mut self, value: &Value, pfs: i64, vw: i64, vh: i64)
        ensures
            *final(self) == spec_arm_grid_column_end(*old(self), *value, pfs as int, vw as int, vh as int),
    {
        proof {
            reveal(spec_arm_grid_column_end);
        }
        match value {
                Value::Number(n) => {
                    self.grid_column.end = Some(clamp_i32(div100(*n)));
                },
                _ => {},
            }
    }
}

/// Effect of the `grid-row-start` declaration.
#[verifier::opaque]
pub open spec fn spec_arm_grid_row_start(s: ComputedStyle, v: Value, pfs: int, vw: int, vh: int) -> ComputedStyle {
    match v {
            Value::Number(n) => ComputedStyle {
                grid_row: GridPlacement {
                    start: Some(
                        spec_clamp(spec_tdiv(n as int, 100), -0x8000_0000, 0x7fff_ffff) as i32,
                    ),
                    ..s.grid_row
                },
                ..s
            },
            _ => s,
        }
}

impl ComputedStyle {
    #[verifier::loop_isolation(false)]
    fn arm_grid_row_start(&mut self, value: &Value, pfs: i64, vw: i64, vh: i64)
        ensures
            *final(self) == spec_arm_grid_row_start(*old(self), *value, pfs as int, vw as int, vh as int),
    {
        proof {
            reveal(spec_arm_grid_row_start);
        }
        match value {
                Value::Number(n) => {
                    self.grid_row.start = Some(clamp_i32(div100(*n)));
                },
                _ => {},
            }
    }
}

/// Effect of the `grid-row-end` declaration.
#[verifier::opaque]
pub open spec fn spec_arm_grid_row_end(s: ComputedStyle, v: Value, pfs: int, vw: int, vh: int) -> ComputedStyle {
    match v {
            Value::Number(n) => ComputedStyle {
                grid_row: GridPlacement {
                    end: Some(
                        spec_clamp(spec_tdiv(n as int, 100), -0x8000_0000, 0x7fff_ffff) as i32,
                    ),
                    ..s.grid_row
                },
                ..s
            },
            _ => s,
        }
}

impl ComputedStyle {
    #[verifier::loop_isolation(false)]
    fn arm_grid_row_end(&mut self, value: &Value, pfs: i64, vw: i64, vh: i64)
        ensures
            *final(self) == spec_arm_grid_row_end(*old(self), *value, pfs as int, vw as int, vh as int),
    {
        proof {
            reveal(spec_arm_grid_row_end);
        }
        match value {
                Value::Number(n) => {
                    self.grid_row.end = Some(clamp_i32(div100(*n)));
                },
                _ => {},
            }
    }
}

/// Effect of the `border-radius` declaration.
#[verifier::opaque]
pub open spec fn spec_arm_border_radius(s: ComputedStyle, v: Value, pfs: int, vw: int, vh: int) -> ComputedStyle {
    match spec_px64(v, pfs, vw, vh) {
            Some(px) => ComputedStyle {
                border_radius: px,
                border_top_left_radius: px,
                border_top_right_radius: px,
                border_bottom_left_radius: px,
                border_bottom_right_radius: px,
                ..s
            },
            None => s,
        }
}

impl ComputedStyle {
    #[verifier::loop_isolation(false)]
    fn arm_border_radius(&mut self, value: &Value, pfs: i64, vw: i64, vh: i64)
        ensures
            *final(self) == spec_arm_border_radius(*old(self), *value, pfs as int, vw as int, vh as int),
    {
        proof {
            reveal(spec_arm_border_radius);
        }
        match value.to_px(pfs, vw, vh) {
                Some(px) => {
                    self.border_radius = px;
                    self.border_top_left_radius = px;
                    self.border_top_right_radius = px;
                    self.border_bottom_left_radius = px;
                    self.border_bottom_right_radius = px;
                },
                None => {},
            }
    }
}

/// Effect of the `border-top-left-radius` declaration.
#[verifier::opaque]
pub open spec fn spec_arm_border_top_left_radius(s: ComputedStyle, v: Value, pfs: int, vw: int, vh: int) -> ComputedStyle {
    match spec_px64(v, pfs, vw, vh) {
            Some(px) => ComputedStyle { border_top_left_radius: px, ..s },
            None => s,
        }
}

impl ComputedStyle {
    #[verifier::loop_isolation(false)]
    fn arm_border_top_left_radius(&mut self, value: &Value, pfs: i64, vw: i64, vh: i64)
        ensures
            *final(self) == spec_arm_border_top_left_radius(*old(self), *value, pfs as int, vw as int, vh as int),
    {
        proof {
            reveal(spec_arm_border_top_left_radius);
        }
        match value.to_px(pfs, vw, vh) {
                Some(px) => {
                    self.border_top_left_radius = px;
                },
                None => {},
            }
    }
}

/// Effect of the `border-top-right-radius` declaration.
#[verifier::opaque]
pub open spec fn spec_arm_border_top_right_radius(s: ComputedStyle, v: Value, pfs: int, vw: int, vh: int) -> ComputedStyle {
    match spec_px64(v, pfs, vw, vh) {
            Some(px) => ComputedStyle { border_top_right_radius: px, ..s },
            None => s,
        }
}

impl ComputedStyle {
    #[verifier::loop_isolation(false)]
    fn arm_border_top_right_radius(&mut self, value: &Value, pfs: i64, vw: i64, vh: i64)
        ensures
            *final(self) == spec_arm_border_top_right_radius(*old(self), *value, pfs as int, vw as int, vh as int),
    {
        proof {
            reveal(spec_arm_border_top_right_radius);
        }
        match value.to_px(pfs, vw, vh) {
                Some(px) => {
                    self.border_top_right_radius = px;
                },
                None => {},
            }
    }
}

/// Effect of the `border-bottom-left-radius` declaration.
#[verifier::opaque]
pub open spec fn spec_arm_border_bottom_left_radius(s: ComputedStyle, v: Value, pfs: int, vw: int, vh: int) -> ComputedStyle {
    match spec_px64(v, pfs, vw, vh) {
            Some(px) => ComputedStyle { border_bottom_left_radius: px, ..s },
            None => s,
        }
}

impl ComputedStyle {
    #[verifier::loop_isolation(false)]
    fn arm_border_bottom_left_radius(&mut self, value: &Value, pfs: i64, vw: i64, vh: i64)
        ensures
            *final(self) == spec_arm_border_bottom_left_radius(*old(self), *value, pfs as int, vw as int, vh as int),
    {
        proof {
            reveal(spec_arm_border_bottom_left_radius);
        }
        match value.to_px(pfs, vw, vh) {
                Some(px) => {
                    self.border_bottom_left_radius = px;
                },
                None => {},
            }
    }
}

/// Effect of the `border-bottom-right-radius` declaration.
#[verifier::opaque]
pub open spec fn spec_arm_border_bottom_right_radius(s: ComputedStyle, v: Value, pfs: int, vw: int, vh: int) -> ComputedStyle {
    match spec_px64(v, pfs, vw, vh) {
            Some(px) => ComputedStyle { border_bottom_right_radius: px, ..s },
            None => s,
        }
}

impl ComputedStyle {
    #[verifier::loop_isolation(false)]
    fn arm_border_bottom_right_radius(&mut self, value: &Value, pfs: i64, vw: i64, vh: i64)
        ensures
            *final(self) == spec_arm_border_bottom_right_radius(*old(self), *value, pfs as int, vw as int, vh as int),
    {
        proof {
            reveal(spec_arm_border_bottom_right_radius);
        }
        match value.to_px(pfs, vw, vh) {
                Some(px) => {
                    self.border_bottom_right_radius = px;
                },
                None => {},
            }
    }
}

/// Effect of the `opacity` declaration.
#[verifier::opaque]
pub open spec fn spec_arm_opacity(s: ComputedStyle, v: Value, pfs: int, vw: int, vh: int) -> ComputedStyle {
    match v {
            Value::Number(n) => ComputedStyle {
                opacity: spec_clamp(n as int, 0, 100) as i64,
                ..s
            },
            _ => s,
        }
}

impl ComputedStyle {
    #[verifier::loop_isolation(false)]
    fn arm_opacity(&mut self, value: &Value, pfs: i64, vw: i64, vh: i64)
        ensures
            *final(self) == spec_arm_opacity(*old(self), *value, pfs as int, vw as int, vh as int),
    {
        proof {
            reveal(spec_arm_opacity);
        }
        match value {
                Value::Number(n) => {
                    self.opacity = clamp64(*n, 0, 100);
                },
                _ => {},
            }
    }
}

/// Effect of the `overflow` declaration.
#[verifier::opaque]
pub open spec fn spec_arm_overflow(s: ComputedStyle, v: Value, pfs: int, vw: int, vh: int) -> ComputedStyle {
    match v {
            Value::Keyword(kw) => ComputedStyle {
                overflow: spec_kw_overflow(kw@),
                overflow_x: spec_kw_overflow(kw@),
                overflow_y: spec_kw_overflow(kw@),
                ..s
            },
            _ => s,
        }
}

impl ComputedStyle {
    #[verifier::loop_isolation(false)]
    fn arm_overflow(&mut self, value: &Value, pfs: i64, vw: i64, vh: i64)
        ensures
            *final(self) == spec_arm_overflow(*old(self), *value, pfs as int, vw as int, vh as int),
    {
        proof {
            reveal(spec_arm_overflow);
        }
        match value.as_keyword() {
                Some(kw) => {
                    let kc = chars_of(kw.as_str());
                    let o = kw_overflow(&kc);
                    self.overflow = o;
                    self.overflow_x = o;
                    self.overflow_y = o;
                },
                None => {},
            }
    }
}

/// Effect of the `overflow-x` declaration.
#[verifier::opaque]
pub open spec fn spec_arm_overflow_x(s: ComputedStyle, v: Value, pfs: int, vw: int, vh: int) -> ComputedStyle {
    match v {
            Value::Keyword(kw) => ComputedStyle { overflow_x: spec_kw_overflow(kw@), ..s },
            _ => s,
        }
}

impl ComputedStyle {
    #[verifier::loop_isolation(false)]
    fn arm_overflow_x(&mut self, value: &Value, pfs: i64, vw: i64, vh: i64)
        ensures
            *final(self) == spec_arm_overflow_x(*old(self), *value, pfs as int, vw as int, vh as int),
    {
        proof {
            reveal(spec_arm_overflow_x);
        }
        match value.as_keyword() {
                Some(kw) => {
                    let kc = chars_of(kw.as_str());
                    self.overflow_x = kw_overflow(&kc);
                },
                None => {},
            }
    }
}

/// Effect of the `overflow-y` declaration.
#[verifier::opaque]
pub open spec fn spec_arm_overflow_y(s: ComputedStyle, v: Value, pfs: int, vw: int, vh: int) -> ComputedStyle {
    match v {
            Value::Keyword(kw) => ComputedStyle { overflow_y: spec_kw_overflow(kw@), ..s },
            _ => s,
        }
}

impl ComputedStyle {
    #[verifier::loop_isolation(false)]
    fn arm_overflow_y(&mut self, value: &Value, pfs: i64, vw: i64, vh: i64)
        ensures
            *final(self) == spec_arm_overflow_y(*old(self), *value, pfs as int, vw as int, vh as int),
    {
        proof {
            reveal(spec_arm_overflow_y);
        }
        match value.as_keyword() {
                Some(kw) => {
                    let kc = chars_of(kw.as_str());
                    self.overflow_y = kw_overflow(&kc);
                },
                None => {},
            }
    }
}

/// Effect of the `box-sizing` declaration.
#[verifier::opaque]
pub open spec fn spec_arm_box_sizing(s: ComputedStyle, v: Value, pfs: int, vw: int, vh: int) -> ComputedStyle {
    match v {
            Value::Keyword(kw) => ComputedStyle { box_sizing: spec_kw_box_sizing(kw@), ..s },
            _ => s,
        }
}

impl ComputedStyle {
    #[verifier::loop_isolation(false)]
    fn arm_box_sizing(&mut self, value: &Value, pfs: i64, vw: i64, vh: i64)
        ensures
            *final(self) == spec_arm_box_sizing(*old(self), *value, pfs as int, vw as int, vh as int),
    {
        proof {
            reveal(spec_arm_box_sizing);
        }
        match value.as_keyword() {
                Some(kw) => {
                    let kc = chars_of(kw.as_str());
                    self.box_sizing = kw_box_sizing(&kc);
                },
                None => {},
            }
    }
}

/// Effect of the `white-space` declaration.
#[verifier::opaque]
pub open spec fn spec_arm_white_space(s: ComputedStyle, v: Value, pfs: int, vw: int, vh: int) -> ComputedStyle {
    match v {
            Value::Keyword(kw) => ComputedStyle { white_space: spec_kw_white_space(kw@), ..s },
            _ => s,
        }
}

impl ComputedStyle {
    #[verifier::loop_isolation(false)]
    fn arm_white_space(&mut self, value: &Value, pfs: i64, vw: i64, vh: i64)
        ensures
            *final(self) == spec_arm_white_space(*old(self), *value, pfs as int, vw as int, vh as int),
    {
        proof {
            reveal(spec_arm_white_space);
        }
        match value.as_keyword() {
                Some(kw) => {
                    let kc = chars_of(kw.as_str());
                    self.white_space = kw_white_space(&kc);
                },
                None => {},
            }
    }
}

/// Effect of the `vertical-align` declaration.
#[verifier::opaque]
pub open spec fn spec_arm_vertical_align(s: ComputedStyle, v: Value, pfs: int, vw: int, vh: int) -> ComputedStyle {
    match v {
            Value::Keyword(kw) => ComputedStyle { vertical_align: spec_kw_vertical_align(kw@), ..s },
            _ => s,
        }
}

impl ComputedStyle {
    #[verifier::loop_isolation(false)]
    fn arm_vertical_align(&mut self, value: &Value, pfs: i64, vw: i64, vh: i64)
        ensures
            *final(self) == spec_arm_vertical_align(*old(self), *value, pfs as int, vw as int, vh as int),
    {
        proof {
            reveal(spec_arm_vertical_align);
        }
        match value.as_keyword() {
                Some(kw) => {
                    let kc = chars_of(kw.as_str());
                    self.vertical_align = kw_vertical_align(&kc);
                },
                None => {},
            }
    }
}

/// Effect of the `visibility` declaration.
#[verifier::opaque]
pub open spec fn spec_arm_visibility(s: ComputedStyle, v: Value, pfs: int, vw: int, vh: int) -> ComputedStyle {
    match v {
            Value::Keyword(kw) => ComputedStyle { visibility: spec_kw_visibility(kw@), ..s },
            _ => s,
        }
}

impl ComputedStyle {
    #[verifier::loop_isolation(false)]
    fn arm_visibility(&mut self, value: &Value, pfs: i64, vw: i64, vh: i64)
        ensures
            *final(self) == spec_arm_visibility(*old(self), *value, pfs as int, vw as int, vh as int),
    {
        proof {
            reveal(spec_arm_visibility);
        }
        match value.as_keyword() {
                Some(kw) => {
                    let kc = chars_of(kw.as_str());
                    self.visibility = kw_visibility(&kc);
                },
                None => {},
            }
    }
}

/// Effect of the `z-index` declaration.
#[verifier::opaque]
pub open spec fn spec_arm_z_index(s: ComputedStyle, v: Value, pfs: int, vw: int, vh: int) -> ComputedStyle {
    match v {
            Value::Number(n) => ComputedStyle {
                z_index: Some(
                    spec_clamp(spec_tdiv(n as int, 100), -0x8000_0000, 0x7fff_ffff) as i32,
                ),
                ..s
            },
            Value::Keyword(kw) => if kw@ == "auto"@ {
                ComputedStyle { z_index: None, ..s }
            } else {
                s
            },
            _ => s,
        }
}

impl ComputedStyle {
    #[verifier::loop_isolation(false)]
    fn arm_z_index(&mut self, value: &Value, pfs: i64, vw: i64, vh: i64)
        ensures
            *final(self) == spec_arm_z_index(*old(self), *value, pfs as int, vw as int, vh as int),
    {
        proof {
            reveal(spec_arm_z_index);
        }
        match value {
                Value::Number(n) => {
                    self.z_index = Some(clamp_i32(div100(*n)));
                },
                Value::Keyword(kw) => {
                    let kc = chars_of(kw.as_str());
                    let auto_kw = chars_of("auto");
                    if chars_eq(&kc, &auto_kw) {
                        self.z_index = None;
                    }
                },
                _ => {},
            }
    }
}

/// Effect of the `min-width` declaration.
#[verifier::opaque]
pub open spec fn spec_arm_min_width(s: ComputedStyle, v: Value, pfs: int, vw: int, vh: int) -> ComputedStyle {
    match spec_px64(v, pfs, vw, vh) {
            Some(px) => ComputedStyle { min_width: Some(px), ..s },
            None => s,
        }
}

impl ComputedStyle {
    #[verifier::loop_isolation(false)]
    fn arm_min_width(&mut self, value: &Value, pfs: i64, vw: i64, vh: i64)
        ensures
            *final(self) == spec_arm_min_width(*old(self), *value, pfs as int, vw as int, vh as int),
    {
        proof {
            reveal(spec_arm_min_width);
        }
        match value.to_px(pfs, vw, vh) {
                Some(px) => {
                    self.min_width = Some(px);
                },
                None => {},
            }
    }
}

/// Effect of the `max-width` declaration.
#[verifier::opaque]
pub open spec fn spec_arm_max_width(s: ComputedStyle, v: Value, pfs: int, vw: int, vh: int) -> ComputedStyle {
    if v is NoneVal {
            ComputedStyle { max_width: None, ..s }
        } else {
            match spec_px64(v, pfs, vw, vh) {
            Some(px) => ComputedStyle { max_width: Some(px), ..s },
            None => s,
            }
        }
}

impl ComputedStyle {
    #[verifier::loop_isolation(false)]
    fn arm_max_width(&mut self, value: &Value, pfs: i64, vw: i64, vh: i64)
        ensures
            *final(self) == spec_arm_max_width(*old(self), *value, pfs as int, vw as int, vh as int),
    {
        proof {
            reveal(spec_arm_max_width);
        }
        if matches!(value, Value::NoneVal) {
                self.max_width = None;
                return ;
            }
            match value.to_px(pfs, vw, vh) {
                Some(px) => {
                    self.max_width = Some(px);
                },
                None => {},
            }
    }
}

/// Effect of the `min-height` declaration.
#[verifier::opaque]
pub open spec fn spec_arm_min_height(s: ComputedStyle, v: Value, pfs: int, vw: int, vh: int) -> ComputedStyle {
    match spec_px64(v, pfs, vw, vh) {
            Some(px) => ComputedStyle { min_height: Some(px), ..s },
            None => s,
        }
}

impl ComputedStyle {
    #[verifier::loop_isolation(false)]
    fn arm_min_height(&mut self, value: &Value, pfs: i64, vw: i64, vh: i64)
        ensures
            *final(self) == spec_arm_min_height(*old(self), *value, pfs as int, vw as int, vh as int),
    {
        proof {
            reveal(spec_arm_min_height);
        }
        match value.to_px(pfs, vw, vh) {
                Some(px) => {
                    self.min_height = Some(px);
                },
                None => {},
            }
    }
}

/// Effect of the `max-height` declaration.
#[verifier::opaque]
pub open spec fn spec_arm_max_height(s: ComputedStyle, v: Value, pfs: int, vw: int, vh: int) -> ComputedStyle {
    if v is NoneVal {
            ComputedStyle { max_height: None, ..s }
        } else {
            match spec_px64(v, pfs, vw, vh) {
            Some(px) => ComputedStyle { max_height: Some(px), ..s },
            None => s,
            }
        }
}

impl ComputedStyle {
    #[verifier::loop_isolation(false)]
    fn arm_max_height(&mut self, value: &Value, pfs: i64, vw: i64, vh: i64)
        ensures
            *final(self) == spec_arm_max_height(*old(self), *value, pfs as int, vw as int, vh as int),
    {
        proof {
            reveal(spec_arm_max_height);
        }
        if matches!(value, Value::NoneVal) {
                self.max_height = None;
                return ;
            }
            match value.to_px(pfs, vw, vh) {
                Some(px) => {
                    self.max_height = Some(px);
                },
                None => {},
            }
    }
}

/// Effect of the `border` declaration.
#[verifier::opaque]
pub open spec fn spec_arm_border(s: ComputedStyle, v: Value, pfs: int, vw: int, vh: int) -> ComputedStyle {
    spec_apply_border_all(s, spec_border_shorthand(v, pfs, vw, vh))
}

impl ComputedStyle {
    #[verifier::loop_isolation(false)]
    #[verifier::rlimit(100)]
    #[verifier::spinoff_prover]
    fn arm_border(&mut self, value: &Value, pfs: i64, vw: i64, vh: i64)
        ensures
            *final(self) == spec_arm_border(*old(self), *value, pfs as int, vw as int, vh as int),
    {
        proof {
            reveal(spec_arm_border);
        }
        let (w, st, c) = border_shorthand(value, pfs, vw, vh);
            match w {
                Some(px) => {
                    self.border_top_width = px;
                    self.border_right_width = px;
                    self.border_bottom_width = px;
                    self.border_left_width = px;
                },
                None => {},
            }
            match st {
                Some(bs) => {
                    self.border_style = bs;
                    self.border_top_style = bs;
                    self.border_right_style = bs;
                    self.border_bottom_style = bs;
                    self.border_left_style = bs;
                },
                None => {},
            }
            match c {
                Some(col) => {
                    self.border_color = col;
                },
                None => {},
            }
    }
}

/// Effect of the `border-top` declaration.
#[verifier::opaque]
pub open spec fn spec_arm_border_top(s: ComputedStyle, v: Value, pfs: int, vw: int, vh: int) -> ComputedStyle {
    spec_apply_border_side_top(s, spec_border_shorthand(v, pfs, vw, vh))
}

impl ComputedStyle {
    #[verifier::loop_isolation(false)]
    #[verifier::rlimit(100)]
    #[verifier::spinoff_prover]
    fn arm_border_top(&mut self, value: &Value, pfs: i64, vw: i64, vh: i64)
        ensures
            *final(self) == spec_arm_border_top(*old(self), *value, pfs as int, vw as int, vh as int),
    {
        proof {
            reveal(spec_arm_border_top);
        }
        let (w, st, c) = border_shorthand(value, pfs, vw, vh);
            match w {
                Some(px) => {
                    self.border_top_width = px;
                },
                None => {},
            }
            match st {
                Some(bs) => {
                    self.border_top_style = bs;
                },
                None => {},
            }
            match c {
                Some(col) => {
                    self.border_color = col;
                },
                None => {},
            }
    }
}

/// Effect of the `border-right` declaration.
#[verifier::opaque]
pub open spec fn spec_arm_border_right(s: ComputedStyle, v: Value, pfs: int, vw: int, vh: int) -> ComputedStyle {
    spec_apply_border_side_right(s, spec_border_shorthand(v, pfs, vw, vh))
}

impl ComputedStyle {
    #[verifier::loop_isolation(false)]
    #[verifier::rlimit(100)]
    #[verifier::spinoff_prover]
    fn arm_border_right(&mut self, value: &Value, pfs: i64, vw: i64, vh: i64)
        ensures
            *final(self) == spec_arm_border_right(*old(self), *value, pfs as int, vw as int, vh as int),
    {
        proof {
            reveal(spec_arm_border_right);
        }
        let (w, st, c) = border_shorthand(value, pfs, vw, vh);
            match w {
                Some(px) => {
                    self.border_right_width = px;
                },
                None => {},
            }
            match st {
                Some(bs) => {
                    self.border_right_style = bs;
                },
                None => {},
            }
            match c {
                Some(col) => {
                    self.border_color = col;
                },
                None => {},
            }
    }
}

/// Effect of the `border-bottom` declaration.
#[verifier::opaque]
pub open spec fn spec_arm_border_bottom(s: ComputedStyle, v: Value, pfs: int, vw: int, vh: int) -> ComputedStyle {
    spec_apply_border_side_bottom(s, spec_border_shorthand(v, pfs, vw, vh))
}

impl ComputedStyle {
    #[verifier::loop_isolation(false)]
    #[verifier::rlimit(100)]
    #[verifier::spinoff_prover]
    fn arm_border_bottom(&mut self, value: &Value, pfs: i64, vw: i64, vh: i64)
        ensures
            *final(self) == spec_arm_border_bottom(*old(self), *value, pfs as int, vw as int, vh as int),
    {
        proof {
            reveal(spec_arm_border_bottom);
        }
        let (w, st, c) = border_shorthand(value, pfs, vw, vh);
            match w {
                Some(px) => {
                    self.border_bottom_width = px;
                },
                None => {},
            }
            match st {
                Some(bs) => {
                    self.border_bottom_style = bs;
                },
                None => {},
            }
            match c {
                Some(col) => {
                    self.border_color = col;
                },
                None => {},
            }
    }
}

/// Effect of the `border-left` declaration.
#[verifier::opaque]
pub open spec fn spec_arm_border_left(s: ComputedStyle, v: Value, pfs: int, vw: int, vh: int) -> ComputedStyle {
    spec_apply_border_side_left(s, spec_border_shorthand(v, pfs, vw, vh))
}

impl ComputedStyle {
    #[verifier::loop_isolation(false)]
    #[verifier::rlimit(100)]
    #[verifier::spinoff_prover]
    fn arm_border_left(&mut self, value: &Value, pfs: i64, vw: i64, vh: i64)
        ensures
            *final(self) == spec_arm_border_left(*old(self), *value, pfs as int, vw as int, vh as int),
    {
        proof {
            reveal(spec_arm_border_left);
        }
        let (w, st, c) = border_shorthand(value, pfs, vw, vh);
            match w {
                Some(px) => {
                    self.border_left_width = px;
                },
                None => {},
            }
            match st {
                Some(bs) => {
                    self.border_left_style = bs;
                },
                None => {},
            }
            match c {
                Some(col) => {
                    self.border_color = col;
                },
                None => {},
            }
    }
}

/// Effect of the `border-style` declaration.
#[verifier::opaque]
pub open spec fn spec_arm_border_style(s: ComputedStyle, v: Value, pfs: int, vw: int, vh: int) -> ComputedStyle {
    match v {
            Value::Keyword(kw) => ComputedStyle {
                border_style: spec_kw_border_style(kw@),
                border_top_style: spec_kw_border_style(kw@),
                border_right_style: spec_kw_border_style(kw@),
                border_bottom_style: spec_kw_border_style(kw@),
                border_left_style: spec_kw_border_style(kw@),
                ..s
            },
            _ => s,
        }
}

impl ComputedStyle {
    #[verifier::loop_isolation(false)]
    fn arm_border_style(&mut self, value: &Value, pfs: i64, vw: i64, vh: i64)
        ensures
            *final(self) == spec_arm_border_style(*old(self), *value, pfs as int, vw as int, vh as int),
    {
        proof {
            reveal(spec_arm_border_style);
        }
        match value.as_keyword() {
                Some(kw) => {
                    let kc = chars_of(kw.as_str());
                    let bs = kw_border_style(&kc);
                    self.border_style = bs;
                    self.border_top_style = bs;
                    self.border_right_style = bs;
                    self.border_bottom_style = bs;
                    self.border_left_style = bs;
                },
                None => {},
            }
    }
}

/// Effect of the `border-collapse` declaration.
#[verifier::opaque]
pub open spec fn spec_arm_border_collapse(s: ComputedStyle, v: Value, pfs: int, vw: int, vh: int) -> ComputedStyle {
    match v {
            Value::Keyword(kw) => ComputedStyle { border_collapse: kw@ == "collapse"@, ..s },
            _ => s,
        }
}

impl ComputedStyle {
    #[verifier::loop_isolation(false)]
    fn arm_border_collapse(&mut self, value: &Value, pfs: i64, vw: i64, vh: i64)
        ensures
            *final(self) == spec_arm_border_collapse(*old(self), *value, pfs as int, vw as int, vh as int),
    {
        proof {
            reveal(spec_arm_border_collapse);
        }
        match value.as_keyword() {
                Some(kw) => {
                    let kc = chars_of(kw.as_str());
                    let coll = chars_of("collapse");
                    self.border_collapse = chars_eq(&kc, &coll);
                },
                None => {},
            }
    }
}

/// Effect of the `border-spacing` declaration.
#[verifier::opaque]
pub open spec fn spec_arm_border_spacing(s: ComputedStyle, v: Value, pfs: int, vw: int, vh: int) -> ComputedStyle {
    match spec_px64(v, pfs, vw, vh) {
            Some(px) => ComputedStyle { border_spacing: px, ..s },
            None => s,
        }
}

impl ComputedStyle {
    #[verifier::loop_isolation(false)]
    fn arm_border_spacing(&mut self, value: &Value, pfs: i64, vw: i64, vh: i64)
        ensures
            *final(self) == spec_arm_border_spacing(*old(self), *value, pfs as int, vw as int, vh as int),
    {
        proof {
            reveal(spec_arm_border_spacing);
        }
        match value.to_px(pfs, vw, vh) {
                Some(px) => {
                    self.border_spacing = px;
                },
                None => {},
            }
    }
}

/// Effect of the `grid-template-columns` declaration.
#[verifier::opaque]
pub open spec fn spec_arm_grid_template_columns(s: ComputedStyle, v: Value, pfs: int, vw: int, vh: int) -> ComputedStyle {
    match v {
            Value::Keyword(kw) => if kw@ == "none"@ {
                ComputedStyle { grid_template_columns: spec_empty_tracks(), ..s }
            } else {
                s
            },
            _ => s,
        }
}

impl ComputedStyle {
    #[verifier::loop_isolation(false)]
    fn arm_grid_template_columns(&mut self, value: &Value, pfs: i64, vw: i64, vh: i64)
        ensures
            *final(self) == spec_arm_grid_template_columns(*old(self), *value, pfs as int, vw as int, vh as int),
    {
        proof {
            reveal(spec_arm_grid_template_columns);
        }
        match value.as_keyword() {
                Some(kw) => {
                    let kc = chars_of(kw.as_str());
                    let none_kw = chars_of("none");
                    if chars_eq(&kc, &none_kw) {
                        self.grid_template_columns = GridTrackList::empty();
                    }
                },
                None => {},
            }
    }
}

/// Effect of the `grid-template-rows` declaration.
#[verifier::opaque]
pub open spec fn spec_arm_grid_template_rows(s: ComputedStyle, v: Value, pfs: int, vw: int, vh: int) -> ComputedStyle {
    match v {
            Value::Keyword(kw) => if kw@ == "none"@ {
                ComputedStyle { grid_template_rows: spec_empty_tracks(), ..s }
            } else {
                s
            },
            _ => s,
        }
}

impl ComputedStyle {
    #[verifier::loop_isolation(false)]
    fn arm_grid_template_rows(&mut self, value: &Value, pfs: i64, vw: i64, vh: i64)
        ensures
            *final(self) == spec_arm_grid_template_rows(*old(self), *value, pfs as int, vw as int, vh as int),
    {
        proof {
            reveal(spec_arm_grid_template_rows);
        }
        match value.as_keyword() {
                Some(kw) => {
                    let kc = chars_of(kw.as_str());
                    let none_kw = chars_of("none");
                    if chars_eq(&kc, &none_kw) {
                        self.grid_template_rows = GridTrackList::empty();
                    }
                },
                None => {},
            }
    }
}

/// The style after one declaration is applied: unrecognized properties
/// and unreadable values leave the style unchanged.
pub open spec fn spec_apply_value(
    s: ComputedStyle,
    prop: Seq<char>,
    v: Value,
    pfs: int,
    vw: int,
    vh: int,
) -> ComputedStyle {
    if false {
        s
    } else if prop == "display"@ {
        spec_arm_display(s, v, pfs, vw, vh)
    } else if prop == "color"@ {
        spec_arm_color(s, v, pfs, vw, vh)
    } else if prop == "background-color"@ || prop == "background"@ {
        spec_arm_background_color(s, v, pfs, vw, vh)
    } else if prop == "font-size"@ {
        spec_arm_font_size(s, v, pfs, vw, vh)
    } else if prop == "font-weight"@ {
        spec_arm_font_weight(s, v, pfs, vw, vh)
    } else if prop == "text-align"@ {
        spec_arm_text_align(s, v, pfs, vw, vh)
    } else if prop == "text-decoration"@ {
        spec_arm_text_decoration(s, v, pfs, vw, vh)
    } else if prop == "line-height"@ {
        spec_arm_line_height(s, v, pfs, vw, vh)
    } else if prop == "margin"@ {
        spec_arm_margin(s, v, pfs, vw, vh)
    } else if prop == "margin-top"@ {
        spec_arm_margin_top(s, v, pfs, vw, vh)
    } else if prop == "margin-right"@ {
        spec_arm_margin_right(s, v, pfs, vw, vh)
    } else if prop == "margin-bottom"@ {
        spec_arm_margin_bottom(s, v, pfs, vw, vh)
    } else if prop == "margin-left"@ {
        spec_arm_margin_left(s, v, pfs, vw, vh)
    } else if prop == "padding"@ {
        spec_arm_padding(s, v, pfs, vw, vh)
    } else if prop == "padding-top"@ {
        spec_arm_padding_top(s, v, pfs, vw, vh)
    } else if prop == "padding-right"@ {
        spec_arm_padding_right(s, v, pfs, vw, vh)
    } else if prop == "padding-bottom"@ {
        spec_arm_padding_bottom(s, v, pfs, vw, vh)
    } else if prop == "padding-left"@ {
        spec_arm_padding_left(s, v, pfs, vw, vh)
    } else if prop == "border-width"@ {
        spec_arm_border_width(s, v, pfs, vw, vh)
    } else if prop == "border-color"@ {
        spec_arm_border_color(s, v, pfs, vw, vh)
    } else if prop == "width"@ {
        spec_arm_width(s, v, pfs, vw, vh)
    } else if prop == "height"@ {
        spec_arm_height(s, v, pfs, vw, vh)
    } else if prop == "position"@ {
        spec_arm_position(s, v, pfs, vw, vh)
    } else if prop == "top"@ {
        spec_arm_top(s, v, pfs, vw, vh)
    } else if prop == "right"@ {
        spec_arm_right(s, v, pfs, vw, vh)
    } else if prop == "bottom"@ {
        spec_arm_bottom(s, v, pfs, vw, vh)
    } else if prop == "left"@ {
        spec_arm_left(s, v, pfs, vw, vh)
    } else if prop == "flex-direction"@ {
        spec_arm_flex_direction(s, v, pfs, vw, vh)
    } else if prop == "flex-wrap"@ {
        spec_arm_flex_wrap(s, v, pfs, vw, vh)
    } else if prop == "justify-content"@ {
        spec_arm_justify_content(s, v, pfs, vw, vh)
    } else if prop == "align-items"@ {
        spec_arm_align_items(s, v, pfs, vw, vh)
    } else if prop == "align-content"@ {
        spec_arm_align_content(s, v, pfs, vw, vh)
    } else if prop == "gap"@ {
        spec_arm_gap(s, v, pfs, vw, vh)
    } else if prop == "row-gap"@ {
        spec_arm_row_gap(s, v, pfs, vw, vh)
    } else if prop == "column-gap"@ {
        spec_arm_column_gap(s, v, pfs, vw, vh)
    } else if prop == "flex-grow"@ {
        spec_arm_flex_grow(s, v, pfs, vw, vh)
    } else if prop == "flex-shrink"@ {
        spec_arm_flex_shrink(s, v, pfs, vw, vh)
    } else if prop == "flex-basis"@ {
        spec_arm_flex_basis(s, v, pfs, vw, vh)
    } else if prop == "flex"@ {
        spec_arm_flex(s, v, pfs, vw, vh)
    } else if prop == "align-self"@ {
        spec_arm_align_self(s, v, pfs, vw, vh)
    } else if prop == "order"@ {
        spec_arm_order(s, v, pfs, vw, vh)
    } else if prop == "grid-gap"@ {
        spec_arm_grid_gap(s, v, pfs, vw, vh)
    } else if prop == "grid-row-gap"@ {
        spec_arm_grid_row_gap(s, v, pfs, vw, vh)
    } else if prop == "grid-column-gap"@ {
        spec_arm_grid_column_gap(s, v, pfs, vw, vh)
    } else if prop == "grid-column-start"@ {
        spec_arm_grid_column_start(s, v, pfs, vw, vh)
    } else if prop == "grid-column-end"@ {
        spec_arm_grid_column_end(s, v, pfs, vw, vh)
    } else if prop == "grid-row-start"@ {
        spec_arm_grid_row_start(s, v, pfs, vw, vh)
    } else if prop == "grid-row-end"@ {
        spec_arm_grid_row_end(s, v, pfs, vw, vh)
    } else if prop == "border-radius"@ {
        spec_arm_border_radius(s, v, pfs, vw, vh)
    } else if prop == "border-top-left-radius"@ {
        spec_arm_border_top_left_radius(s, v, pfs, vw, vh)
    } else if prop == "border-top-right-radius"@ {
        spec_arm_border_top_right_radius(s, v, pfs, vw, vh)
    } else if prop == "border-bottom-left-radius"@ {
        spec_arm_border_bottom_left_radius(s, v, pfs, vw, vh)
    } else if prop == "border-bottom-right-radius"@ {
        spec_arm_border_bottom_right_radius(s, v, pfs, vw, vh)
    } else if prop == "opacity"@ {
        spec_arm_opacity(s, v, pfs, vw, vh)
    } else if prop == "overflow"@ {
        spec_arm_overflow(s, v, pfs, vw, vh)
    } else if prop == "overflow-x"@ {
        spec_arm_overflow_x(s, v, pfs, vw, vh)
    } else if prop == "overflow-y"@ {
        spec_arm_overflow_y(s, v, pfs, vw, vh)
    } else if prop == "box-sizing"@ {
        spec_arm_box_sizing(s, v, pfs, vw, vh)
    } else if prop == "white-space"@ {
        spec_arm_white_space(s, v, pfs, vw, vh)
    } else if prop == "vertical-align"@ {
        spec_arm_vertical_align(s, v, pfs, vw, vh)
    } else if prop == "visibility"@ {
        spec_arm_visibility(s, v, pfs, vw, vh)
    } else if prop == "z-index"@ {
        spec_arm_z_index(s, v, pfs, vw, vh)
    } else if prop == "min-width"@ {
        spec_arm_min_width(s, v, pfs, vw, vh)
    } else if prop == "max-width"@ {
        spec_arm_max_width(s, v, pfs, vw, vh)
    } else if prop == "min-height"@ {
        spec_arm_min_height(s, v, pfs, vw, vh)
    } else if prop == "max-height"@ {
        spec_arm_max_height(s, v, pfs, vw, vh)
    } else if prop == "border"@ {
        spec_arm_border(s, v, pfs, vw, vh)
    } else if prop == "border-top"@ {
        spec_arm_border_top(s, v, pfs, vw, vh)
    } else if prop == "border-right"@ {
        spec_arm_border_right(s, v, pfs, vw, vh)
    } else if prop == "border-bottom"@ {
        spec_arm_border_bottom(s, v, pfs, vw, vh)
    } else if prop == "border-left"@ {
        spec_arm_border_left(s, v, pfs, vw, vh)
    } else if prop == "border-style"@ {
        spec_arm_border_style(s, v, pfs, vw, vh)
    } else if prop == "border-collapse"@ {
        spec_arm_border_collapse(s, v, pfs, vw, vh)
    } else if prop == "border-spacing"@ {
        spec_arm_border_spacing(s, v, pfs, vw, vh)
    } else if prop == "grid-template-columns"@ {
        spec_arm_grid_template_columns(s, v, pfs, vw, vh)
    } else if prop == "grid-template-rows"@ {
        spec_arm_grid_template_rows(s, v, pfs, vw, vh)
    } else {
        s
    }
}

impl ComputedStyle {
    /// Apply one declaration to this style. `parent_font_size`,
    /// `viewport_width` and `viewport_height` resolve relative units.
    /// The grid track-list properties only support clearing with the
    /// keyword `none`.
    #[verifier::loop_isolation(false)]
    #[verifier::rlimit(60)]
    pub fn apply_value(
        &mut self,
        property: &str,
        value: &Value,
        parent_font_size: i64,
        viewport_width: i64,
        viewport_height: i64,
    )
        ensures
            *final(self) == spec_apply_value(
                *old(self),
                property@,
                *value,
                parent_font_size as int,
                viewport_width as int,
                viewport_height as int,
            ),
    {
        let p = chars_of(property);
        let pfs = parent_font_size;
        let vw = viewport_width;
        let vh = viewport_height;
        let p_display = chars_of("display");
        if chars_eq(&p, &p_display) {
            self.arm_display(value, pfs, vw, vh);
            return ;
        }
        let p_color = chars_of("color");
        if chars_eq(&p, &p_color) {
            self.arm_color(value, pfs, vw, vh);
            return ;
        }
        let p_background_color = chars_of("background-color");
        let p_background = chars_of("background");
        if chars_eq(&p, &p_background_color) || chars_eq(&p, &p_background) {
            self.arm_background_color(value, pfs, vw, vh);
            return ;
        }
        let p_font_size = chars_of("font-size");
        if chars_eq(&p, &p_font_size) {
            self.arm_font_size(value, pfs, vw, vh);
            return ;
        }
        let p_font_weight = chars_of("font-weight");
        if chars_eq(&p, &p_font_weight) {
            self.arm_font_weight(value, pfs, vw, vh);
            return ;
        }
        let p_text_align = chars_of("text-align");
        if chars_eq(&p, &p_text_align) {
            self.arm_text_align(value, pfs, vw, vh);
            return ;
        }
        let p_text_decoration = chars_of("text-decoration");
        if chars_eq(&p, &p_text_decoration) {
            self.arm_text_decoration(value, pfs, vw, vh);
            return ;
        }
        let p_line_height = chars_of("line-height");
        if chars_eq(&p, &p_line_height) {
            self.arm_line_height(value, pfs, vw, vh);
            return ;
        }
        let p_margin = chars_of("margin");
        if chars_eq(&p, &p_margin) {
            self.arm_margin(value, pfs, vw, vh);
            return ;
        }
        let p_margin_top = chars_of("margin-top");
        if chars_eq(&p, &p_margin_top) {
            self.arm_margin_top(value, pfs, vw, vh);
            return ;
        }
        let p_margin_right = chars_of("margin-right");
        if chars_eq(&p, &p_margin_right) {
            self.arm_margin_right(value, pfs, vw, vh);
            return ;
        }
        let p_margin_bottom = chars_of("margin-bottom");
        if chars_eq(&p, &p_margin_bottom) {
            self.arm_margin_bottom(value, pfs, vw, vh);
            return ;
        }
        let p_margin_left = chars_of("margin-left");
        if chars_eq(&p, &p_margin_left) {
            self.arm_margin_left(value, pfs, vw, vh);
            return ;
        }
        let p_padding = chars_of("padding");
        if chars_eq(&p, &p_padding) {
            self.arm_padding(value, pfs, vw, vh);
            return ;
        }
        let p_padding_top = chars_of("padding-top");
        if chars_eq(&p, &p_padding_top) {
            self.arm_padding_top(value, pfs, vw, vh);
            return ;
        }
        let p_padding_right = chars_of("padding-right");
        if chars_eq(&p, &p_padding_right) {
            self.arm_padding_right(value, pfs, vw, vh);
            return ;
        }
        let p_padding_bottom = chars_of("padding-bottom");
        if chars_eq(&p, &p_padding_bottom) {
            self.arm_padding_bottom(value, pfs, vw, vh);
            return ;
        }
        let p_padding_left = chars_of("padding-left");
        if chars_eq(&p, &p_padding_left) {
            self.arm_padding_left(value, pfs, vw, vh);
            return ;
        }
        let p_border_width = chars_of("border-width");
        if chars_eq(&p, &p_border_width) {
            self.arm_border_width(value, pfs, vw, vh);
            return ;
        }
        let p_border_color = chars_of("border-color");
        if chars_eq(&p, &p_border_color) {
            self.arm_border_color(value, pfs, vw, vh);
            return ;
        }
        let p_width = chars_of("width");
        if chars_eq(&p, &p_width) {
            self.arm_width(value, pfs, vw, vh);
            return ;
        }
        let p_height = chars_of("height");
        if chars_eq(&p, &p_height) {
            self.arm_height(value, pfs, vw, vh);
            return ;
        }
        let p_position = chars_of("position");
        if chars_eq(&p, &p_position) {
            self.arm_position(value, pfs, vw, vh);
            return ;
        }
        let p_top = chars_of("top");
        if chars_eq(&p, &p_top) {
            self.arm_top(value, pfs, vw, vh);
            return ;
        }
        let p_right = chars_of("right");
        if chars_eq(&p, &p_right) {
            self.arm_right(value, pfs, vw, vh);
            return ;
        }
        let p_bottom = chars_of("bottom");
        if chars_eq(&p, &p_bottom) {
            self.arm_bottom(value, pfs, vw, vh);
            return ;
        }
        let p_left = chars_of("left");
        if chars_eq(&p, &p_left) {
            self.arm_left(value, pfs, vw, vh);
            return ;
        }
        let p_flex_direction = chars_of("flex-direction");
        if chars_eq(&p, &p_flex_direction) {
            self.arm_flex_direction(value, pfs, vw, vh);
            return ;
        }
        let p_flex_wrap = chars_of("flex-wrap");
        if chars_eq(&p, &p_flex_wrap) {
            self.arm_flex_wrap(value, pfs, vw, vh);
            return ;
        }
        let p_justify_content = chars_of("justify-content");
        if chars_eq(&p, &p_justify_content) {
            self.arm_justify_content(value, pfs, vw, vh);
            return ;
        }
        let p_align_items = chars_of("align-items");
        if chars_eq(&p, &p_align_items) {
            self.arm_align_items(value, pfs, vw, vh);
            return ;
        }
        let p_align_content = chars_of("align-content");
        if chars_eq(&p, &p_align_content) {
            self.arm_align_content(value, pfs, vw, vh);
            return ;
        }
        let p_gap = chars_of("gap");
        if chars_eq(&p, &p_gap) {
            self.arm_gap(value, pfs, vw, vh);
            return ;
        }
        let p_row_gap = chars_of("row-gap");
        if chars_eq(&p, &p_row_gap) {
            self.arm_row_gap(value, pfs, vw, vh);
            return ;
        }
        let p_column_gap = chars_of("column-gap");
        if chars_eq(&p, &p_column_gap) {
            self.arm_column_gap(value, pfs, vw, vh);
            return ;
        }
        let p_flex_grow = chars_of("flex-grow");
        if chars_eq(&p, &p_flex_grow) {
            self.arm_flex_grow(value, pfs, vw, vh);
            return ;
        }
        let p_flex_shrink = chars_of("flex-shrink");
        if chars_eq(&p, &p_flex_shrink) {
            self.arm_flex_shrink(value, pfs, vw, vh);
            return ;
        }
        let p_flex_basis = chars_of("flex-basis");
        if chars_eq(&p, &p_flex_basis) {
            self.arm_flex_basis(value, pfs, vw, vh);
            return ;
        }
        let p_flex = chars_of("flex");
        if chars_eq(&p, &p_flex) {
            self.arm_flex(value, pfs, vw, vh);
            return ;
        }
        let p_align_self = chars_of("align-self");
        if chars_eq(&p, &p_align_self) {
            self.arm_align_self(value, pfs, vw, vh);
            return ;
        }
        let p_order = chars_of("order");
        if chars_eq(&p, &p_order) {
            self.arm_order(value, pfs, vw, vh);
            return ;
        }
        let p_grid_gap = chars_of("grid-gap");
        if chars_eq(&p, &p_grid_gap) {
            self.arm_grid_gap(value, pfs, vw, vh);
            return ;
        }
        let p_grid_row_gap = chars_of("grid-row-gap");
        if chars_eq(&p, &p_grid_row_gap) {
            self.arm_grid_row_gap(value, pfs, vw, vh);
            return ;
        }
        let p_grid_column_gap = chars_of("grid-column-gap");
        if chars_eq(&p, &p_grid_column_gap) {
            self.arm_grid_column_gap(value, pfs, vw, vh);
            return ;
        }
        let p_grid_column_start = chars_of("grid-column-start");
        if chars_eq(&p, &p_grid_column_start) {
            self.arm_grid_column_start(value, pfs, vw, vh);
            return ;
        }
        let p_grid_column_end = chars_of("grid-column-end");
        if chars_eq(&p, &p_grid_column_end) {
            self.arm_grid_column_end(value, pfs, vw, vh);
            return ;
        }
        let p_grid_row_start = chars_of("grid-row-start");
        if chars_eq(&p, &p_grid_row_start) {
            self.arm_grid_row_start(value, pfs, vw, vh);
            return ;
        }
        let p_grid_row_end = chars_of("grid-row-end");
        if chars_eq(&p, &p_grid_row_end) {
            self.arm_grid_row_end(value, pfs, vw, vh);
            return ;
        }
        let p_border_radius = chars_of("border-radius");
        if chars_eq(&p, &p_border_radius) {
            self.arm_border_radius(value, pfs, vw, vh);
            return ;
        }
        let p_border_top_left_radius = chars_of("border-top-left-radius");
        if chars_eq(&p, &p_border_top_left_radius) {
            self.arm_border_top_left_radius(value, pfs, vw, vh);
            return ;
        }
        let p_border_top_right_radius = chars_of("border-top-right-radius");
        if chars_eq(&p, &p_border_top_right_radius) {
            self.arm_border_top_right_radius(value, pfs, vw, vh);
            return ;
        }
        let p_border_bottom_left_radius = chars_of("border-bottom-left-radius");
        if chars_eq(&p, &p_border_bottom_left_radius) {
            self.arm_border_bottom_left_radius(value, pfs, vw, vh);
            return ;
        }
        let p_border_bottom_right_radius = chars_of("border-bottom-right-radius");
        if chars_eq(&p, &p_border_bottom_right_radius) {
            self.arm_border_bottom_right_radius(value, pfs, vw, vh);
            return ;
        }
        let p_opacity = chars_of("opacity");
        if chars_eq(&p, &p_opacity) {
            self.arm_opacity(value, pfs, vw, vh);
            return ;
        }
        let p_overflow = chars_of("overflow");
        if chars_eq(&p, &p_overflow) {
            self.arm_overflow(value, pfs, vw, vh);
            return ;
        }
        let p_overflow_x = chars_of("overflow-x");
        if chars_eq(&p, &p_overflow_x) {
            self.arm_overflow_x(value, pfs, vw, vh);
            return ;
        }
        let p_overflow_y = chars_of("overflow-y");
        if chars_eq(&p, &p_overflow_y) {
            self.arm_overflow_y(value, pfs, vw, vh);
            return ;
        }
        let p_box_sizing = chars_of("box-sizing");
        if chars_eq(&p, &p_box_sizing) {
            self.arm_box_sizing(value, pfs, vw, vh);
            return ;
        }
        let p_white_space = chars_of("white-space");
        if chars_eq(&p, &p_white_space) {
            self.arm_white_space(value, pfs, vw, vh);
            return ;
        }
        let p_vertical_align = chars_of("vertical-align");
        if chars_eq(&p, &p_vertical_align) {
            self.arm_vertical_align(value, pfs, vw, vh);
            return ;
        }
        let p_visibility = chars_of("visibility");
        if chars_eq(&p, &p_visibility) {
            self.arm_visibility(value, pfs, vw, vh);
            return ;
        }
        let p_z_index = chars_of("z-index");
        if chars_eq(&p, &p_z_index) {
            self.arm_z_index(value, pfs, vw, vh);
            return ;
        }
        let p_min_width = chars_of("min-width");
        if chars_eq(&p, &p_min_width) {
            self.arm_min_width(value, pfs, vw, vh);
            return ;
        }
        let p_max_width = chars_of("max-width");
        if chars_eq(&p, &p_max_width) {
            self.arm_max_width(value, pfs, vw, vh);
            return ;
        }
        let p_min_height = chars_of("min-height");
        if chars_eq(&p, &p_min_height) {
            self.arm_min_height(value, pfs, vw, vh);
            return ;
        }
        let p_max_height = chars_of("max-height");
        if chars_eq(&p, &p_max_height) {
            self.arm_max_height(value, pfs, vw, vh);
            return ;
        }
        let p_border = chars_of("border");
        if chars_eq(&p, &p_border) {
            self.arm_border(value, pfs, vw, vh);
            return ;
        }
        let p_border_top = chars_of("border-top");
        if chars_eq(&p, &p_border_top) {
            self.arm_border_top(value, pfs, vw, vh);
            return ;
        }
        let p_border_right = chars_of("border-right");
        if chars_eq(&p, &p_border_right) {
            self.arm_border_right(value, pfs, vw, vh);
            return ;
        }
        let p_border_bottom = chars_of("border-bottom");
        if chars_eq(&p, &p_border_bottom) {
            self.arm_border_bottom(value, pfs, vw, vh);
            return ;
        }
        let p_border_left = chars_of("border-left");
        if chars_eq(&p, &p_border_left) {
            self.arm_border_left(value, pfs, vw, vh);
            return ;
        }
        let p_border_style = chars_of("border-style");
        if chars_eq(&p, &p_border_style) {
            self.arm_border_style(value, pfs, vw, vh);
            return ;
        }
        let p_border_collapse = chars_of("border-collapse");
        if chars_eq(&p, &p_border_collapse) {
            self.arm_border_collapse(value, pfs, vw, vh);
            return ;
        }
        let p_border_spacing = chars_of("border-spacing");
        if chars_eq(&p, &p_border_spacing) {
            self.arm_border_spacing(value, pfs, vw, vh);
            return ;
        }
        let p_grid_template_columns = chars_of("grid-template-columns");
        if chars_eq(&p, &p_grid_template_columns) {
            self.arm_grid_template_columns(value, pfs, vw, vh);
            return ;
        }
        let p_grid_template_rows = chars_of("grid-template-rows");
        if chars_eq(&p, &p_grid_template_rows) {
            self.arm_grid_template_rows(value, pfs, vw, vh);
            return ;
        }
    }
}

/// The user-agent seed style for a tag: heading sizes and margins,
/// paragraph and list margins, link color and underline, table display
/// types; unknown tags start from the initial style.
#[verifier::opaque]
pub open spec fn spec_for_tag(t: Seq<char>) -> ComputedStyle {
    if false {
        spec_initial_style()
    } else if t == "h1"@ {
        ComputedStyle {
            font_size: 32i64,
            font_weight: FontWeight::Bold,
            margin_top: 21i64,
            margin_bottom: 21i64,
            ..spec_initial_style()
        }
    } else if t == "h2"@ {
        ComputedStyle {
            font_size: 24i64,
            font_weight: FontWeight::Bold,
            margin_top: 20i64,
            margin_bottom: 20i64,
            ..spec_initial_style()
        }
    } else if t == "h3"@ {
        ComputedStyle {
            font_size: 19i64,
            font_weight: FontWeight::Bold,
            margin_top: 19i64,
            margin_bottom: 19i64,
            ..spec_initial_style()
        }
    } else if t == "h4"@ {
        ComputedStyle {
            font_size: 16i64,
            font_weight: FontWeight::Bold,
            margin_top: 21i64,
            margin_bottom: 21i64,
            ..spec_initial_style()
        }
    } else if t == "h5"@ {
        ComputedStyle {
            font_size: 13i64,
            font_weight: FontWeight::Bold,
            margin_top: 22i64,
            margin_bottom: 22i64,
            ..spec_initial_style()
        }
    } else if t == "h6"@ {
        ComputedStyle {
            font_size: 11i64,
            font_weight: FontWeight::Bold,
            margin_top: 25i64,
            margin_bottom: 25i64,
            ..spec_initial_style()
        }
    } else if t == "p"@ {
        ComputedStyle {
            margin_top: 16i64,
            margin_bottom: 16i64,
            ..spec_initial_style()
        }
    } else if t == "a"@ {
        ComputedStyle {
            display: Display::Inline,
            color: Color { r: 0, g: 0, b: 238, a: 255 },
            text_decoration: TextDecoration::Underline,
            ..spec_initial_style()
        }
    } else if t == "strong"@ || t == "b"@ {
        ComputedStyle {
            display: Display::Inline,
            font_weight: FontWeight::Bold,
            ..spec_initial_style()
        }
    } else if t == "em"@ || t == "i"@ {
        ComputedStyle {
            display: Display::Inline,
            ..spec_initial_style()
        }
    } else if t == "span"@ {
        ComputedStyle {
            display: Display::Inline,
            ..spec_initial_style()
        }
    } else if t == "div"@ {
        ComputedStyle {
            display: Display::Block,
            ..spec_initial_style()
        }
    } else if t == "ul"@ || t == "ol"@ {
        ComputedStyle {
            margin_top: 16i64,
            margin_bottom: 16i64,
            padding_left: 40i64,
            ..spec_initial_style()
        }
    } else if t == "li"@ {
        ComputedStyle {
            display: Display::Block,
            ..spec_initial_style()
        }
    } else if t == "img"@ {
        ComputedStyle {
            display: Display::InlineBlock,
            ..spec_initial_style()
        }
    } else if t == "br"@ {
        ComputedStyle {
            display: Display::Block,
            ..spec_initial_style()
        }
    } else if t == "table"@ {
        ComputedStyle {
            display: Display::Table,
            border_collapse: false,
            border_spacing: 2i64,
            ..spec_initial_style()
        }
    } else if t == "tr"@ {
        ComputedStyle {
            display: Display::TableRow,
            ..spec_initial_style()
        }
    } else if t == "td"@ {
        ComputedStyle {
            display: Display::TableCell,
            padding_top: 1i64,
            padding_right: 1i64,
            padding_bottom: 1i64,
            padding_left: 1i64,
            ..spec_initial_style()
        }
    } else if t == "th"@ {
        ComputedStyle {
            display: Display::TableCell,
            font_weight: FontWeight::Bold,
            text_align: TextAlign::Center,
            padding_top: 1i64,
            padding_right: 1i64,
            padding_bottom: 1i64,
            padding_left: 1i64,
            ..spec_initial_style()
        }
    } else if t == "thead"@ {
        ComputedStyle {
            display: Display::TableHeaderGroup,
            ..spec_initial_style()
        }
    } else if t == "tbody"@ {
        ComputedStyle {
            display: Display::TableRowGroup,
            ..spec_initial_style()
        }
    } else if t == "tfoot"@ {
        ComputedStyle {
            display: Display::TableFooterGroup,
            ..spec_initial_style()
        }
    } else if t == "caption"@ {
        ComputedStyle {
            display: Display::TableCaption,
            text_align: TextAlign::Center,
            ..spec_initial_style()
        }
    } else if t == "col"@ {
        ComputedStyle {
            display: Display::TableColumn,
            ..spec_initial_style()
        }
    } else if t == "colgroup"@ {
        ComputedStyle {
            display: Display::TableColumnGroup,
            ..spec_initial_style()
        }
    } else if t == "input"@ || t == "button"@ || t == "select"@ || t == "textarea"@ {
        ComputedStyle {
            display: Display::InlineBlock,
            ..spec_initial_style()
        }
    } else {
        spec_initial_style()
    }
}

impl ComputedStyle {
    /// Seed a style with the user-agent defaults for a tag name.
    #[verifier::loop_isolation(false)]
    #[verifier::rlimit(60)]
    pub fn for_tag(tag: &str) -> (r: ComputedStyle)
        ensures
            r == spec_for_tag(tag@),
    {
        proof {
            reveal(spec_for_tag);
        }
        let t = chars_of(tag);
        let mut style = ComputedStyle::default();
        let t_h1 = chars_of("h1");
        if chars_eq(&t, &t_h1) {
            style.font_size = 32;
            style.font_weight = FontWeight::Bold;
            style.margin_top = 21;
            style.margin_bottom = 21;
            return style;
        }
        let t_h2 = chars_of("h2");
        if chars_eq(&t, &t_h2) {
            style.font_size = 24;
            style.font_weight = FontWeight::Bold;
            style.margin_top = 20;
            style.margin_bottom = 20;
            return style;
        }
        let t_h3 = chars_of("h3");
        if chars_eq(&t, &t_h3) {
            style.font_size = 19;
            style.font_weight = FontWeight::Bold;
            style.margin_top = 19;
            style.margin_bottom = 19;
            return style;
        }
        let t_h4 = chars_of("h4");
        if chars_eq(&t, &t_h4) {
            style.font_size = 16;
            style.font_weight = FontWeight::Bold;
            style.margin_top = 21;
            style.margin_bottom = 21;
            return style;
        }
        let t_h5 = chars_of("h5");
        if chars_eq(&t, &t_h5) {
            style.font_size = 13;
            style.font_weight = FontWeight::Bold;
            style.margin_top = 22;
            style.margin_bottom = 22;
            return style;
        }
        let t_h6 = chars_of("h6");
        if chars_eq(&t, &t_h6) {
            style.font_size = 11;
            style.font_weight = FontWeight::Bold;
            style.margin_top = 25;
            style.margin_bottom = 25;
            return style;
        }
        let t_p = chars_of("p");
        if chars_eq(&t, &t_p) {
            style.margin_top = 16;
            style.margin_bottom = 16;
            return style;
        }
        let t_a = chars_of("a");
        if chars_eq(&t, &t_a) {
            style.display = Display::Inline;
            style.color = Color { r: 0, g: 0, b: 238, a: 255 };
            style.text_decoration = TextDecoration::Underline;
            return style;
        }
        let t_strong = chars_of("strong");
        let t_b = chars_of("b");
        if chars_eq(&t, &t_strong) || chars_eq(&t, &t_b) {
            style.display = Display::Inline;
            style.font_weight = FontWeight::Bold;
            return style;
        }
        let t_em = chars_of("em");
        let t_i = chars_of("i");
        if chars_eq(&t, &t_em) || chars_eq(&t, &t_i) {
            style.display = Display::Inline;
            return style;
        }
        let t_span = chars_of("span");
        if chars_eq(&t, &t_span) {
            style.display = Display::Inline;
            return style;
        }
        let t_div = chars_of("div");
        if chars_eq(&t, &t_div) {
            style.display = Display::Block;
            return style;
        }
        let t_ul = chars_of("ul");
        let t_ol = chars_of("ol");
        if chars_eq(&t, &t_ul) || chars_eq(&t, &t_ol) {
            style.margin_top = 16;
            style.margin_bottom = 16;
            style.padding_left = 40;
            return style;
        }
        let t_li = chars_of("li");
        if chars_eq(&t, &t_li) {
            style.display = Display::Block;
            return style;
        }
        let t_img = chars_of("img");
        if chars_eq(&t, &t_img) {
            style.display = Display::InlineBlock;
            return style;
        }
        let t_br = chars_of("br");
        if chars_eq(&t, &t_br) {
            style.display = Display::Block;
            return style;
        }
        let t_table = chars_of("table");
        if chars_eq(&t, &t_table) {
            style.display = Display::Table;
            style.border_collapse = false;
            style.border_spacing = 2;
            return style;
        }
        let t_tr = chars_of("tr");
        if chars_eq(&t, &t_tr) {
            style.display = Display::TableRow;
            return style;
        }
        let t_td = chars_of("td");
        if chars_eq(&t, &t_td) {
            style.display = Display::TableCell;
            style.padding_top = 1;
            style.padding_right = 1;
            style.padding_bottom = 1;
            style.padding_left = 1;
            return style;
        }
        let t_th = chars_of("th");
        if chars_eq(&t, &t_th) {
            style.display = Display::TableCell;
            style.font_weight = FontWeight::Bold;
            style.text_align = TextAlign::Center;
            style.padding_top = 1;
            style.padding_right = 1;
            style.padding_bottom = 1;
            style.padding_left = 1;
            return style;
        }
        let t_thead = chars_of("thead");
        if chars_eq(&t, &t_thead) {
            style.display = Display::TableHeaderGroup;
            return style;
        }
        let t_tbody = chars_of("tbody");
        if chars_eq(&t, &t_tbody) {
            style.display = Display::TableRowGroup;
            return style;
        }
        let t_tfoot = chars_of("tfoot");
        if chars_eq(&t, &t_tfoot) {
            style.display = Display::TableFooterGroup;
            return style;
        }
        let t_caption = chars_of("caption");
        if chars_eq(&t, &t_caption) {
            style.display = Display::TableCaption;
            style.text_align = TextAlign::Center;
            return style;
        }
        let t_col = chars_of("col");
        if chars_eq(&t, &t_col) {
            style.display = Display::TableColumn;
            return style;
        }
        let t_colgroup = chars_of("colgroup");
        if chars_eq(&t, &t_colgroup) {
            style.display = Display::TableColumnGroup;
            return style;
        }
        let t_input = chars_of("input");
        let t_button = chars_of("button");
        let t_select = chars_of("select");
        let t_textarea = chars_of("textarea");
        if chars_eq(&t, &t_input) || chars_eq(&t, &t_button) || chars_eq(&t, &t_select) || chars_eq(&t, &t_textarea) {
            style.display = Display::InlineBlock;
            return style;
        }
        style
    }
}

} // verus!
