use megaui::drag::{drag_step, Drag, DragState, PointerFrame};
use megaui::types::Vec2;

fn frame(x: i32, y: i32, down: bool, click: bool, hovered: bool) -> PointerFrame {
    PointerFrame { position: Vec2::new(x, y), is_mouse_down: down, click_down: click, hovered }
}

#[test]
fn short_press_never_drags() {
    let id = 7;
    let s1 = drag_step(None, id, true, frame(10, 10, true, true, true), None);
    assert_eq!(s1.dragging, Some((id, DragState::Clicked(Vec2::new(10, 10)))));
    assert_eq!(s1.drag, Drag::No);
    let s2 = drag_step(s1.dragging, id, true, frame(13, 14, true, false, true), None);
    assert_eq!(s2.dragging, Some((id, DragState::Clicked(Vec2::new(10, 10)))));
    assert_eq!(s2.drag, Drag::No);
    let s3 = drag_step(s2.dragging, id, true, frame(13, 14, false, false, true), None);
    assert_eq!(s3.dragging, None);
    assert_eq!(s3.drag, Drag::No);
}

#[test]
fn press_move_release_drops_once() {
    let id = 7;
    let s1 = drag_step(None, id, true, frame(10, 10, true, true, true), Some(3));
    let s2 = drag_step(s1.dragging, id, true, frame(20, 10, true, false, true), Some(3));
    assert_eq!(s2.dragging, Some((id, DragState::Dragging(Vec2::new(10, 10)))));
    assert_eq!(s2.drag, Drag::Dragging(Vec2::new(20, 10), Some(3)));
    let s3 = drag_step(s2.dragging, id, true, frame(25, 12, false, false, true), Some(3));
    assert_eq!(s3.dragging, None);
    assert_eq!(s3.drag, Drag::Dropped(Vec2::new(25, 12), Some(3)));
    let s4 = drag_step(s3.dragging, id, true, frame(25, 12, false, false, true), Some(3));
    assert_eq!(s4.drag, Drag::No);
}

#[test]
fn other_region_under_a_drag_is_a_drop_target() {
    let dragging = Some((1, DragState::Dragging(Vec2::new(0, 0))));
    let s = drag_step(dragging, 2, true, frame(50, 50, true, false, true), None);
    assert!(s.drop_target);
    assert_eq!(s.drag, Drag::No);
    let t = drag_step(dragging, 2, true, frame(50, 50, true, false, false), None);
    assert!(!t.drop_target);
}

#[test]
fn exactly_five_pixels_is_not_a_drag() {
    let id = 1;
    let s1 = drag_step(None, id, true, frame(0, 0, true, true, true), None);
    let s2 = drag_step(s1.dragging, id, true, frame(3, 4, true, false, true), None);
    assert_eq!(s2.dragging, Some((id, DragState::Clicked(Vec2::new(0, 0)))));
    let s3 = drag_step(s2.dragging, id, true, frame(4, 4, true, false, true), None);
    assert_eq!(s3.dragging, Some((id, DragState::Dragging(Vec2::new(0, 0)))));
}
