use weblayout::history::History;

#[test]
fn test_history_navigation() {
    let mut history = History::new();

    history.push("https://example.com".to_string());
    history.push("https://example.com/page1".to_string());
    history.push("https://example.com/page2".to_string());

    assert_eq!(history.current(), Some(&"https://example.com/page2".to_string()));
    assert!(history.can_go_back());
    assert!(!history.can_go_forward());

    history.go_back();
    assert_eq!(history.current(), Some(&"https://example.com/page1".to_string()));

    history.go_back();
    assert_eq!(history.current(), Some(&"https://example.com".to_string()));
    assert!(!history.can_go_back());
    assert!(history.can_go_forward());

    history.go_forward();
    assert_eq!(history.current(), Some(&"https://example.com/page1".to_string()));
}

#[test]
fn test_history_push_truncates_forward() {
    let mut history = History::new();
    history.push("a".to_string());
    history.push("b".to_string());
    history.go_back();
    history.push("c".to_string());
    assert_eq!(history.len(), 2);
    assert_eq!(history.current(), Some(&"c".to_string()));
    assert!(!history.can_go_forward());
}
