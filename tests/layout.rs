use megaui::cursor::{Cursor, Layout};
use megaui::scroll_bar::{scroll_bar, ScrollInput};
use megaui::types::{Rect, Vec2};

#[test]
fn vertical_rows_are_height_plus_margin_apart() {
    let mut c = Cursor::new(Rect::new(0, 0, 200, 100), 2);
    let a = c.fit(Vec2::new(50, 20), Layout::Vertical);
    let b = c.fit(Vec2::new(120, 20), Layout::Vertical);
    let d = c.fit(Vec2::new(10, 20), Layout::Vertical);
    assert_eq!(a, Vec2::new(2, 2));
    assert_eq!(b, Vec2::new(2, 24));
    assert_eq!(d, Vec2::new(2, 46));
}

#[test]
fn vertical_positions_are_offset_by_area_scroll_and_indent() {
    let mut c = Cursor::new(Rect::new(100, 50, 200, 100), 2);
    c.scroll.scroll = Vec2::new(0, -10);
    c.ident = 4;
    let a = c.fit(Vec2::new(50, 20), Layout::Vertical);
    assert_eq!(a, Vec2::new(106, 42));
}

#[test]
fn horizontal_wraps_when_row_is_full() {
    let mut c = Cursor::new(Rect::new(0, 0, 100, 100), 2);
    let a = c.fit(Vec2::new(40, 10), Layout::Horizontal);
    let b = c.fit(Vec2::new(40, 30), Layout::Horizontal);
    let d = c.fit(Vec2::new(40, 10), Layout::Horizontal);
    assert_eq!(a, Vec2::new(2, 2));
    assert_eq!(b, Vec2::new(44, 2));
    // 86 + 40 does not fit in 100 - 4: a new row below the tallest (30) plus margin
    assert_eq!(d, Vec2::new(2, 34));
}

#[test]
fn free_layout_returns_point_and_grows_content() {
    let mut c = Cursor::new(Rect::new(0, 0, 100, 100), 2);
    let p = c.fit(Vec2::new(10, 10), Layout::Free(Vec2::new(5, 300)));
    assert_eq!(p, Vec2::new(5, 300));
    assert_eq!(c.scroll.inner_rect, Rect::new(0, 0, 100, 310));
    c.reset();
    assert_eq!(c.scroll.inner_rect_previous_frame, Rect::new(0, 0, 100, 310));
    assert_eq!(c.scroll.inner_rect, Rect::new(0, 0, 0, 0));
    assert_eq!(c.pos(), Vec2::new(2, 2));
}

#[test]
fn same_line_forces_horizontal_once() {
    let mut c = Cursor::new(Rect::new(0, 0, 200, 100), 2);
    let _ = c.fit(Vec2::new(50, 20), Layout::Vertical);
    c.next_same_line = Some(0);
    let b = c.fit(Vec2::new(30, 20), Layout::Vertical);
    assert_eq!(b, Vec2::new(54, 2));
    let d = c.fit(Vec2::new(30, 20), Layout::Vertical);
    assert_eq!(d, Vec2::new(2, 24));
}

#[test]
fn scroll_is_clamped_to_content() {
    let mut c = Cursor::new(Rect::new(0, 0, 100, 100), 2);
    c.scroll.inner_rect_previous_frame = Rect::new(0, 0, 100, 300);
    c.scroll.scroll_to(1000);
    assert_eq!(c.scroll.rect.y, 200);
    c.scroll.scroll_to(-5);
    assert_eq!(c.scroll.rect.y, 0);
    c.scroll.scroll_to(120);
    assert_eq!(c.scroll.rect.y, 120);
    c.scroll.inner_rect_previous_frame = Rect::new(0, 0, 100, 150);
    c.scroll.update();
    assert_eq!(c.scroll.rect.y, 50);
}

#[test]
fn scroll_on_short_content_stays_at_top() {
    let mut c = Cursor::new(Rect::new(0, 0, 100, 100), 2);
    c.scroll.inner_rect_previous_frame = Rect::new(0, 0, 100, 40);
    c.scroll.scroll_to(30);
    assert_eq!(c.scroll.rect.y, 0);
}

#[test]
fn wheel_scrolls_by_content_share() {
    let c = Cursor::new(Rect::new(0, 0, 100, 100), 2);
    let mut s = c.scroll;
    s.inner_rect_previous_frame = Rect::new(0, 0, 100, 400);
    let input = ScrollInput {
        mouse_position: Vec2::new(50, 50),
        click_down: false,
        is_mouse_down: false,
        wheel_y: 1,
    };
    let track = Rect::new(90, 0, 10, 100);
    let f = scroll_bar(s, track, Rect::new(0, 0, 100, 100), input, true, 3);
    // one notch times 3 times 400 / 100
    assert_eq!(f.scroll.rect.y, 12);
    assert_eq!(f.bar, Rect::new(91, 0, 9, 25));
    assert!(!f.hovered);
}

#[test]
fn dragging_the_thumb_moves_the_scroll() {
    let c = Cursor::new(Rect::new(0, 0, 100, 100), 2);
    let mut s = c.scroll;
    s.inner_rect_previous_frame = Rect::new(0, 0, 100, 400);
    let track = Rect::new(90, 0, 10, 100);
    let press = ScrollInput {
        mouse_position: Vec2::new(95, 10),
        click_down: true,
        is_mouse_down: true,
        wheel_y: 0,
    };
    let f = scroll_bar(s, track, Rect::new(0, 0, 100, 100), press, true, 3);
    assert!(f.hovered && f.clicked);
    let hold = ScrollInput {
        mouse_position: Vec2::new(95, 30),
        click_down: false,
        is_mouse_down: true,
        wheel_y: 0,
    };
    let g = scroll_bar(f.scroll, track, Rect::new(0, 0, 100, 100), hold, true, 3);
    assert_eq!(g.scroll.rect.y, 80);
}

#[test]
fn wrap_uses_previous_row_height() {
    let mut c = Cursor::new(Rect::new(0, 0, 100, 100), 2);
    let a = c.fit(Vec2::new(60, 10), Layout::Horizontal);
    let b = c.fit(Vec2::new(60, 50), Layout::Horizontal);
    assert_eq!(a, Vec2::new(2, 2));
    // the row so far is 10 high: the new row starts at 2 + 10 + 2
    assert_eq!(b, Vec2::new(2, 14));
    assert_eq!(c.x, 2 * 2 + 60);
    let d = c.fit(Vec2::new(60, 10), Layout::Horizontal);
    assert_eq!(d, Vec2::new(2, 66));
}
