use weblayout::layout::{build_flex_lines, resolve_flex_grow, FlexItemData};
use weblayout::scroll::{scrollbar_hit_test, ScrollAnimator, ScrollbarHit};

fn item(outer: i64, hyp: i64, grow: i64) -> FlexItemData {
    FlexItemData { outer_main: outer, hyp_main: hyp, grow, shrink: 100 }
}

#[test]
fn test_flex_grow_splits_free_space_evenly() {
    let items = vec![item(50, 50, 100), item(50, 50, 100), item(50, 50, 100)];
    let sizes = resolve_flex_grow(&items, 150);
    assert_eq!(sizes, vec![100, 100, 100]);
}

#[test]
fn test_flex_grow_zero_keeps_hypothetical() {
    let items = vec![item(50, 50, 0), item(50, 50, 0)];
    let sizes = resolve_flex_grow(&items, 200);
    assert_eq!(sizes, vec![50, 50]);
}

#[test]
fn test_flex_wrap_starts_new_line() {
    let items = vec![item(120, 120, 0), item(120, 120, 0), item(120, 120, 0)];
    let lines = build_flex_lines(&items, 300, 0, true);
    assert_eq!(lines.len(), 2);
    assert_eq!((lines[0].start, lines[0].end), (0, 2));
    assert_eq!((lines[1].start, lines[1].end), (2, 3));
    assert!(lines[0].main_size <= 300);
}

#[test]
fn test_flex_single_overwide_item_keeps_its_line() {
    let items = vec![item(500, 500, 0), item(100, 100, 0)];
    let lines = build_flex_lines(&items, 300, 0, true);
    assert_eq!(lines.len(), 2);
    assert_eq!((lines[0].start, lines[0].end), (0, 1));
}

#[test]
fn test_no_wrap_single_line() {
    let items = vec![item(200, 200, 0), item(200, 200, 0)];
    let lines = build_flex_lines(&items, 300, 0, false);
    assert_eq!(lines.len(), 1);
    assert_eq!((lines[0].start, lines[0].end), (0, 2));
}

#[test]
fn test_scroll_clamp_and_convergence() {
    let mut anim = ScrollAnimator::new();
    anim.scroll_by(1_000_000_000, 500);
    assert_eq!(anim.target, 500);
    let mut steps = 0;
    while anim.update(16, 500) {
        steps += 1;
        assert!(steps < 10_000);
    }
    assert_eq!(anim.current, anim.target);
    assert!(!anim.animating);
    anim.scroll_by(-1_000_000_000, 500);
    assert_eq!(anim.target, 0);
}

#[test]
fn test_scroll_immediate_lands_exactly() {
    let mut anim = ScrollAnimator::new();
    anim.scroll_immediate(123, 500);
    assert_eq!(anim.current, 123);
    assert_eq!(anim.target, 123);
    assert!(!anim.animating);
    anim.scroll_immediate(900, 500);
    assert_eq!(anim.current, 500);
}

#[test]
fn test_flex_shrink_proportional_to_weight() {
    // two items of widths 200 and 100, shrink 1 each (hundredths: 100);
    // deficit 90 splits 60/30 by shrink x hypothetical size
    let items = vec![
        FlexItemData { outer_main: 200, hyp_main: 200, grow: 0, shrink: 100 },
        FlexItemData { outer_main: 100, hyp_main: 100, grow: 0, shrink: 100 },
    ];
    let sizes = weblayout::layout::resolve_flex_shrink(&items, 90);
    assert_eq!(sizes, vec![140, 70]);
}

#[test]
fn test_flex_shrink_floors_at_zero() {
    let items = vec![FlexItemData { outer_main: 50, hyp_main: 50, grow: 0, shrink: 100 }];
    let sizes = weblayout::layout::resolve_flex_shrink(&items, 80);
    assert_eq!(sizes, vec![0]);
}

#[test]
fn test_flex_line_main_size_is_item_sum() {
    let items = vec![
        FlexItemData { outer_main: 100, hyp_main: 100, grow: 0, shrink: 100 },
        FlexItemData { outer_main: 120, hyp_main: 120, grow: 0, shrink: 100 },
        FlexItemData { outer_main: 150, hyp_main: 150, grow: 0, shrink: 100 },
    ];
    let lines = weblayout::layout::build_flex_lines(&items, 250, 10, true);
    assert_eq!(lines.len(), 2);
    assert_eq!(lines[0].main_size, 230); // 100 + gap 10 + 120
    assert_eq!(lines[1].main_size, 150);
}

#[test]
fn test_scrollbar_thumb_geometry() {
    // viewport 600 over content 1200: thumb is 600*600/1200 = 300
    let h = weblayout::scroll::scrollbar_thumb_height(600, 1200, 30);
    assert_eq!(h, 300);
    // min thumb wins on very long content
    let h2 = weblayout::scroll::scrollbar_thumb_height(600, 600_000, 30);
    assert_eq!(h2, 30);
    // scrolled halfway: thumb halfway down the free track
    let y = weblayout::scroll::scrollbar_thumb_y(300, 600, 600, 300);
    assert_eq!(y, 150);
}

#[test]
fn test_scrollbar_hit_test_regions() {
    assert_eq!(scrollbar_hit_test(5, 0, 600, 100, 200), ScrollbarHit::Track);
    assert_eq!(scrollbar_hit_test(150, 0, 600, 100, 200), ScrollbarHit::Thumb);
    assert_eq!(scrollbar_hit_test(700, 0, 600, 100, 200), ScrollbarHit::Miss);
}

#[test]
fn test_thumb_drag_scales_from_drag_start() {
    // thumb travel 300 maps to scroll range 600: 30px of mouse is 60px of scroll
    let s = weblayout::scroll::update_thumb_drag(100, 30, 300, 600);
    assert_eq!(s, 160);
    // huge drags clamp at the ends
    let s2 = weblayout::scroll::update_thumb_drag(100, 100_000, 300, 600);
    assert_eq!(s2, 600);
    let s3 = weblayout::scroll::update_thumb_drag(100, -100_000, 300, 600);
    assert_eq!(s3, 0);
}
