use std::rc::Rc;
use weblayout::boxtree::build_layout_tree;
use weblayout::cascade::StyleComputer;
use weblayout::painter::DisplayList;
use weblayout::computed::{BoxSizing, ComputedStyle, Display, FontWeight};
use weblayout::dom::Document;
use weblayout::painter::Color;
use weblayout::selector::parse_selector;
use weblayout::stylesheet::{Declaration, Rule, Stylesheet, Value};

fn decl(property: &str, value: Value, important: bool) -> Declaration {
    Declaration { property: property.to_string(), value, important }
}

fn rule(selector: &str, declarations: Vec<Declaration>) -> Rule {
    let mut r = Rule::new();
    r.selectors.push(parse_selector(selector).unwrap());
    r.declarations = declarations;
    r
}

fn one_paragraph_doc() -> (Document, usize) {
    let mut doc = Document::new();
    let body = doc.create_element("body");
    doc.append_child(doc.root(), body);
    let p = doc.create_element("p");
    doc.append_child(body, p);
    doc.set_attribute(p, "id", "main");
    doc.set_attribute(p, "class", "text");
    (doc, p)
}

fn red() -> Color {
    Color { r: 255, g: 0, b: 0, a: 255 }
}

fn blue() -> Color {
    Color { r: 0, g: 0, b: 255, a: 255 }
}

#[test]
fn test_specificity_id_beats_class() {
    let (doc, p) = one_paragraph_doc();
    let mut sheet = Stylesheet::new();
    sheet.add_rule(rule("#main", vec![decl("color", Value::Keyword("red".into()), false)]));
    sheet.add_rule(rule(".text", vec![decl("color", Value::Keyword("blue".into()), false)]));
    let mut computer = StyleComputer::new(800, 600);
    computer.add_stylesheet(Rc::new(sheet));
    computer.compute_styles(&doc);
    let style = computer.get_style(p).unwrap();
    assert_eq!(style.color, red());
}

#[test]
fn test_source_order_tie_break() {
    let (doc, p) = one_paragraph_doc();
    let mut sheet = Stylesheet::new();
    sheet.add_rule(rule("p", vec![decl("color", Value::Keyword("red".into()), false)]));
    sheet.add_rule(rule("p", vec![decl("color", Value::Keyword("blue".into()), false)]));
    let mut computer = StyleComputer::new(800, 600);
    computer.add_stylesheet(Rc::new(sheet));
    computer.compute_styles(&doc);
    let style = computer.get_style(p).unwrap();
    assert_eq!(style.color, blue());
}

#[test]
fn test_important_beats_specificity() {
    let (doc, p) = one_paragraph_doc();
    let mut sheet = Stylesheet::new();
    sheet.add_rule(rule("p", vec![decl("color", Value::Keyword("red".into()), true)]));
    sheet.add_rule(rule("#main", vec![decl("color", Value::Keyword("blue".into()), false)]));
    let mut computer = StyleComputer::new(800, 600);
    computer.add_stylesheet(Rc::new(sheet));
    computer.compute_styles(&doc);
    let style = computer.get_style(p).unwrap();
    assert_eq!(style.color, red());
}

#[test]
fn test_inheritance_of_color_and_font_size() {
    let mut doc = Document::new();
    let body = doc.create_element("body");
    doc.append_child(doc.root(), body);
    let div = doc.create_element("div");
    doc.append_child(body, div);
    let span = doc.create_element("span");
    doc.append_child(div, span);
    let mut sheet = Stylesheet::new();
    sheet.add_rule(rule(
        "div",
        vec![
            decl("color", Value::Keyword("red".into()), false),
            decl("font-size", Value::Length(2400, weblayout::stylesheet::Unit::Px), false),
        ],
    ));
    let mut computer = StyleComputer::new(800, 600);
    computer.add_stylesheet(Rc::new(sheet));
    computer.compute_styles(&doc);
    let style = computer.get_style(span).unwrap();
    assert_eq!(style.color, red());
    assert_eq!(style.font_size, 24);
}

#[test]
fn test_apply_value_display_none() {
    let mut style = ComputedStyle::default();
    style.apply_value("display", &Value::Keyword("none".into()), 16, 800, 600);
    assert_eq!(style.display, Display::NoneKw);
}

#[test]
fn test_apply_value_margin_shorthand() {
    let mut style = ComputedStyle::default();
    let v = Value::List(vec![
        Value::Length(1000, weblayout::stylesheet::Unit::Px),
        Value::Length(2000, weblayout::stylesheet::Unit::Px),
    ]);
    style.apply_value("margin", &v, 16, 800, 600);
    assert_eq!(style.margin_top, 10);
    assert_eq!(style.margin_bottom, 10);
    assert_eq!(style.margin_left, 20);
    assert_eq!(style.margin_right, 20);
}

#[test]
fn test_apply_value_em_resolves_against_parent() {
    let mut style = ComputedStyle::default();
    style.apply_value(
        "font-size",
        &Value::Length(150, weblayout::stylesheet::Unit::Em),
        20,
        800,
        600,
    );
    assert_eq!(style.font_size, 30);
}

#[test]
fn test_for_tag_h1() {
    let style = ComputedStyle::for_tag("h1");
    assert_eq!(style.font_size, 32);
    assert_eq!(style.font_weight, FontWeight::Bold);
}

#[test]
fn test_for_tag_table_defaults() {
    let style = ComputedStyle::for_tag("table");
    assert_eq!(style.display, Display::Table);
    assert!(!style.border_collapse);
    assert_eq!(style.border_spacing, 2);
}

#[test]
fn test_to_color_named_and_hex() {
    assert_eq!(
        Value::Keyword("rebeccapurple".into()).to_color(),
        Some(Color { r: 102, g: 51, b: 153, a: 255 })
    );
    assert_eq!(Color::from_hex("#ff0000"), Some(Color { r: 255, g: 0, b: 0, a: 255 }));
    assert_eq!(Color::from_hex("f00"), Some(Color { r: 255, g: 0, b: 0, a: 255 }));
    assert_eq!(Color::from_hex("#11223344"), Some(Color { r: 17, g: 34, b: 51, a: 68 }));
    assert_eq!(Color::from_hex("#12345"), None);
}

#[test]
fn test_box_sizing_border_box_round_trip() {
    let mut style = ComputedStyle::default();
    style.width = Some(200);
    style.padding_left = 10;
    style.padding_right = 10;
    style.border_left_width = 5;
    style.border_right_width = 5;
    style.box_sizing = BoxSizing::BorderBox;
    let w = weblayout::layout::block_content_width(&style, 800);
    assert_eq!(w, 200 - 20 - 10);
}

#[test]
fn test_block_auto_width_fills_containing() {
    let mut style = ComputedStyle::default();
    style.margin_left = 7;
    style.margin_right = 3;
    style.padding_left = 4;
    style.padding_right = 6;
    style.border_left_width = 1;
    style.border_right_width = 2;
    let w = weblayout::layout::block_content_width(&style, 500);
    assert_eq!(w + 7 + 3 + 4 + 6 + 1 + 2, 500);
}

#[test]
fn test_display_none_produces_no_commands() {
    let mut doc = Document::new();
    let body = doc.create_element("body");
    doc.append_child(doc.root(), body);
    let div = doc.create_element("div");
    doc.append_child(body, div);
    let child = doc.create_element("p");
    doc.append_child(div, child);

    let mut sheet = Stylesheet::new();
    sheet.add_rule(rule(
        "div",
        vec![
            decl("display", Value::Keyword("none".into()), false),
            decl("background-color", Value::Keyword("red".into()), false),
        ],
    ));
    let mut computer = StyleComputer::new(800, 600);
    computer.add_stylesheet(Rc::new(sheet));
    computer.compute_styles(&doc);

    let hidden_box = build_layout_tree(&doc, &computer, div);
    assert_eq!(hidden_box.children.len(), 0);
    let mut list = DisplayList::new();
    hidden_box.emit_commands(&mut list, 0, 0);
    assert_eq!(list.len(), 0);

    // without the display:none rule the same subtree paints its background
    let mut sheet2 = Stylesheet::new();
    sheet2.add_rule(rule(
        "div",
        vec![decl("background-color", Value::Keyword("red".into()), false)],
    ));
    let mut computer2 = StyleComputer::new(800, 600);
    computer2.add_stylesheet(Rc::new(sheet2));
    computer2.compute_styles(&doc);
    let shown_box = build_layout_tree(&doc, &computer2, div);
    assert_eq!(shown_box.children.len(), 1);
    let mut list2 = DisplayList::new();
    shown_box.emit_commands(&mut list2, 0, 0);
    assert_eq!(list2.len(), 1);
}

#[test]
fn test_presentational_bgcolor_alone() {
    let mut doc = Document::new();
    let div = doc.create_element("div");
    doc.append_child(doc.root(), div);
    doc.set_attribute(div, "bgcolor", "red");
    let mut computer = StyleComputer::new(800, 600);
    computer.compute_styles(&doc);
    let style = computer.get_style(div).unwrap();
    assert_eq!(style.background_color, red());
}

#[test]
fn test_inline_style_beats_presentational_bgcolor() {
    let mut doc = Document::new();
    let div = doc.create_element("div");
    doc.append_child(doc.root(), div);
    doc.set_attribute(div, "bgcolor", "red");
    doc.set_attribute(div, "style", "background-color:blue");
    let mut computer = StyleComputer::new(800, 600);
    computer.compute_styles(&doc);
    let style = computer.get_style(div).unwrap();
    assert_eq!(style.background_color, blue());
}

#[test]
fn test_inline_style_beats_stylesheet_rule() {
    let (doc2, p) = {
        let mut doc = Document::new();
        let body = doc.create_element("body");
        doc.append_child(doc.root(), body);
        let p = doc.create_element("p");
        doc.append_child(body, p);
        doc.set_attribute(p, "style", "color: blue; margin: 4px 8px");
        (doc, p)
    };
    let mut sheet = Stylesheet::new();
    sheet.add_rule(rule("p", vec![decl("color", Value::Keyword("red".into()), false)]));
    let mut computer = StyleComputer::new(800, 600);
    computer.add_stylesheet(Rc::new(sheet));
    computer.compute_styles(&doc2);
    let style = computer.get_style(p).unwrap();
    assert_eq!(style.color, blue());
    assert_eq!(style.margin_top, 4);
    assert_eq!(style.margin_bottom, 4);
    assert_eq!(style.margin_left, 8);
    assert_eq!(style.margin_right, 8);
}

#[test]
fn test_presentational_attrs_between_rules_and_inline() {
    // stylesheet rule -> presentational attribute -> inline style
    let mut doc = Document::new();
    let table = doc.create_element("table");
    doc.append_child(doc.root(), table);
    doc.set_attribute(table, "width", "300px");
    doc.set_attribute(table, "border", "2");
    doc.set_attribute(table, "cellpadding", "5");
    doc.set_attribute(table, "align", "center");
    let mut sheet = Stylesheet::new();
    sheet.add_rule(rule(
        "table",
        vec![decl("width", Value::Length(10000, weblayout::stylesheet::Unit::Px), false)],
    ));
    let mut computer = StyleComputer::new(800, 600);
    computer.add_stylesheet(Rc::new(sheet));
    computer.compute_styles(&doc);
    let style = computer.get_style(table).unwrap();
    // the width attribute overwrites the stylesheet's 100px
    assert_eq!(style.width, Some(300));
    assert_eq!(style.border_top_width, 2);
    assert_eq!(style.border_color, Color { r: 0, g: 0, b: 0, a: 255 });
    assert_eq!(style.padding_left, 5);
    assert_eq!(style.text_align, weblayout::computed::TextAlign::Center);
}

#[test]
fn test_inline_style_hex_color_and_important_suffix() {
    let mut doc = Document::new();
    let div = doc.create_element("div");
    doc.append_child(doc.root(), div);
    doc.set_attribute(div, "style", "color: #ff0000 !important; font-size: 1.5em");
    let mut computer = StyleComputer::new(800, 600);
    computer.compute_styles(&doc);
    let style = computer.get_style(div).unwrap();
    assert_eq!(style.color, red());
    assert_eq!(style.font_size, 24);
}

#[test]
fn test_presentational_color_named_and_hex() {
    let mut doc = Document::new();
    let font = doc.create_element("font");
    doc.append_child(doc.root(), font);
    doc.set_attribute(font, "color", "#0000ff");
    let mut computer = StyleComputer::new(800, 600);
    computer.compute_styles(&doc);
    let style = computer.get_style(font).unwrap();
    assert_eq!(style.color, blue());
}

#[test]
fn test_inline_parse_tokens() {
    let text: Vec<char> = "width: 50%; height: 10px; opacity: 0.5".chars().collect();
    let ds = weblayout::attrstyle::parse_inline_declarations(&text);
    assert_eq!(ds.len(), 3);
    assert_eq!(ds[0].property, "width");
    assert!(matches!(ds[0].value, Value::Percentage(5000)));
    assert!(matches!(ds[1].value, Value::Length(1000, weblayout::stylesheet::Unit::Px)));
    assert!(matches!(ds[2].value, Value::Number(50)));
    assert!(!ds[0].important);
}
