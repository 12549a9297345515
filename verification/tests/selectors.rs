use weblayout::dom::Document;
use weblayout::selector::{
    parse_nth_formula, parse_selector, AttributeSelector, Combinator, PseudoClass, SimpleSelector,
};

#[test]
fn test_parse_tag_selector() {
    let sel = parse_selector("div").unwrap();
    assert_eq!(sel.complex.parts.len(), 1);
    assert_eq!(
        sel.complex.parts[0].0.simple_selectors,
        vec![SimpleSelector::Tag("div".to_string())]
    );
}

#[test]
fn test_parse_class_selector() {
    let sel = parse_selector(".container").unwrap();
    assert_eq!(sel.complex.parts.len(), 1);
    assert_eq!(
        sel.complex.parts[0].0.simple_selectors,
        vec![SimpleSelector::Class("container".to_string())]
    );
}

#[test]
fn test_parse_id_selector() {
    let sel = parse_selector("#main").unwrap();
    assert_eq!(sel.complex.parts.len(), 1);
    assert_eq!(
        sel.complex.parts[0].0.simple_selectors,
        vec![SimpleSelector::Id("main".to_string())]
    );
}

#[test]
fn test_parse_compound_selector() {
    let sel = parse_selector("div.container#main").unwrap();
    assert_eq!(sel.complex.parts.len(), 1);
    assert_eq!(
        sel.complex.parts[0].0.simple_selectors,
        vec![
            SimpleSelector::Tag("div".to_string()),
            SimpleSelector::Class("container".to_string()),
            SimpleSelector::Id("main".to_string()),
        ]
    );
}

#[test]
fn test_parse_descendant_combinator() {
    let sel = parse_selector("div p").unwrap();
    assert_eq!(sel.complex.parts.len(), 2);
    assert_eq!(
        sel.complex.parts[0].0.simple_selectors,
        vec![SimpleSelector::Tag("p".to_string())]
    );
    assert_eq!(sel.complex.parts[0].1, None);
    assert_eq!(
        sel.complex.parts[1].0.simple_selectors,
        vec![SimpleSelector::Tag("div".to_string())]
    );
    assert_eq!(sel.complex.parts[1].1, Some(Combinator::Descendant));
}

#[test]
fn test_parse_child_combinator() {
    let sel = parse_selector("div > p").unwrap();
    assert_eq!(sel.complex.parts.len(), 2);
    assert_eq!(
        sel.complex.parts[0].0.simple_selectors,
        vec![SimpleSelector::Tag("p".to_string())]
    );
    assert_eq!(
        sel.complex.parts[1].0.simple_selectors,
        vec![SimpleSelector::Tag("div".to_string())]
    );
    assert_eq!(sel.complex.parts[1].1, Some(Combinator::Child));
}

#[test]
fn test_parse_pseudo_class_first_child() {
    let sel = parse_selector("p:first-child").unwrap();
    assert_eq!(sel.complex.parts.len(), 1);
    assert_eq!(
        sel.complex.parts[0].0.simple_selectors,
        vec![
            SimpleSelector::Tag("p".to_string()),
            SimpleSelector::PseudoClass(PseudoClass::FirstChild),
        ]
    );
}

#[test]
fn test_parse_pseudo_class_nth_child() {
    let sel = parse_selector("li:nth-child(2n+1)").unwrap();
    assert_eq!(sel.complex.parts.len(), 1);
    assert_eq!(
        sel.complex.parts[0].0.simple_selectors,
        vec![
            SimpleSelector::Tag("li".to_string()),
            SimpleSelector::PseudoClass(PseudoClass::NthChild(2, 1)),
        ]
    );
}

#[test]
fn test_parse_attribute_exists() {
    let sel = parse_selector("[disabled]").unwrap();
    assert_eq!(sel.complex.parts.len(), 1);
    assert_eq!(
        sel.complex.parts[0].0.simple_selectors,
        vec![SimpleSelector::Attribute(AttributeSelector::Exists("disabled".to_string()))]
    );
}

#[test]
fn test_parse_attribute_equals() {
    let sel = parse_selector("[type=\"text\"]").unwrap();
    assert_eq!(sel.complex.parts.len(), 1);
    assert_eq!(
        sel.complex.parts[0].0.simple_selectors,
        vec![SimpleSelector::Attribute(AttributeSelector::Equals(
            "type".to_string(),
            "text".to_string()
        ))]
    );
}

#[test]
fn test_parse_attribute_contains() {
    let sel = parse_selector("[class*=\"btn\"]").unwrap();
    assert_eq!(sel.complex.parts.len(), 1);
    assert_eq!(
        sel.complex.parts[0].0.simple_selectors,
        vec![SimpleSelector::Attribute(AttributeSelector::Contains(
            "class".to_string(),
            "btn".to_string()
        ))]
    );
}

#[test]
fn test_nth_formula_odd() {
    assert_eq!(parse_nth_formula("odd"), Some((2, 1)));
}

#[test]
fn test_nth_formula_even() {
    assert_eq!(parse_nth_formula("even"), Some((2, 0)));
}

#[test]
fn test_nth_formula_number() {
    assert_eq!(parse_nth_formula("3"), Some((0, 3)));
}

#[test]
fn test_nth_formula_an_plus_b() {
    assert_eq!(parse_nth_formula("2n+1"), Some((2, 1)));
    assert_eq!(parse_nth_formula("3n-2"), Some((3, -2)));
    assert_eq!(parse_nth_formula("n"), Some((1, 0)));
    assert_eq!(parse_nth_formula("-n+3"), Some((-1, 3)));
}

#[test]
fn test_specificity() {
    let sel = parse_selector("div.container#main").unwrap();
    let spec = sel.specificity();
    assert_eq!(spec.ids, 1);
    assert_eq!(spec.classes, 1);
    assert_eq!(spec.tags, 1);
}

#[test]
fn test_complex_selector_specificity() {
    let sel = parse_selector("div > p.intro").unwrap();
    let spec = sel.specificity();
    assert_eq!(spec.ids, 0);
    assert_eq!(spec.classes, 1);
    assert_eq!(spec.tags, 2);
}

#[test]
fn test_nth_child_positions_one_three_five() {
    let mut doc = Document::new();
    let ul = doc.create_element("ul");
    doc.append_child(doc.root(), ul);
    let mut lis = Vec::new();
    for _ in 0..5 {
        let li = doc.create_element("li");
        doc.append_child(ul, li);
        lis.push(li);
    }
    let sel = parse_selector("li:nth-child(2n+1)").unwrap();
    let hits: Vec<bool> = lis.iter().map(|&li| sel.matches(&doc, li)).collect();
    assert_eq!(hits, vec![true, false, true, false, true]);
}

#[test]
fn test_descendant_match_with_backtracking() {
    let mut doc = Document::new();
    let outer = doc.create_element("div");
    doc.append_child(doc.root(), outer);
    let mid = doc.create_element("section");
    doc.append_child(outer, mid);
    let inner = doc.create_element("p");
    doc.append_child(mid, inner);
    let sel = parse_selector("div p").unwrap();
    assert!(sel.matches(&doc, inner));
    let sel2 = parse_selector("div > p").unwrap();
    assert!(!sel2.matches(&doc, inner));
}
