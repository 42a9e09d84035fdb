use megaui::draw_list::{DrawCommand, DrawList, LabelParams};
use megaui::types::{Color, Rect, Vec2};

#[test]
fn rect_edges_and_containment() {
    let r = Rect::new(10, 20, 30, 40);
    assert_eq!(r.left(), 10);
    assert_eq!(r.right(), 40);
    assert_eq!(r.top(), 20);
    assert_eq!(r.bottom(), 60);
    assert!(r.contains(Vec2::new(10, 20)));
    assert!(r.contains(Vec2::new(40, 60)));
    assert!(!r.contains(Vec2::new(41, 30)));
    assert!(!r.contains(Vec2::new(15, 19)));
}

#[test]
fn rect_overlap_and_union() {
    let a = Rect::new(0, 0, 10, 10);
    let b = Rect::new(5, 5, 10, 10);
    let c = Rect::new(11, 0, 3, 3);
    assert!(a.overlaps(&b));
    assert!(!a.overlaps(&c));
    assert_eq!(a.combine_with(b), Rect::new(0, 0, 15, 15));
    assert_eq!(a.combine_with(c), Rect::new(0, 0, 14, 10));
}

#[test]
fn rect_offset_saturates() {
    let r = Rect::new(i32::MAX - 1, 0, 5, 5);
    assert_eq!(r.offset(Vec2::new(10, 3)), Rect::new(i32::MAX, 3, 5, 5));
}

#[test]
fn clip_rejects_rect_entirely_outside() {
    let mut list = DrawList::new();
    list.clip(Some(Rect::new(0, 0, 100, 100)));
    assert_eq!(list.commands.len(), 1);
    list.draw_rect(Rect::new(200, 200, 10, 10), None, Some(Color::from_rgb(1, 2, 3)));
    assert_eq!(list.commands.len(), 1);
}

#[test]
fn clip_keeps_rect_partly_or_fully_inside() {
    let mut list = DrawList::new();
    list.clip(Some(Rect::new(0, 0, 100, 100)));
    list.draw_rect(Rect::new(90, 90, 50, 50), None, None);
    assert_eq!(list.commands.len(), 2);
    list.draw_rect(Rect::new(10, 10, 5, 5), None, None);
    assert_eq!(list.commands.len(), 3);
}

#[test]
fn lines_and_labels_are_filtered_by_clip() {
    let mut list = DrawList::new();
    let black = Color::from_rgba(0, 0, 0, 255);
    list.draw_line(Vec2::new(500, 500), Vec2::new(600, 600), black);
    assert_eq!(list.commands.len(), 1);
    list.clip(Some(Rect::new(0, 0, 100, 100)));
    list.draw_line(Vec2::new(500, 500), Vec2::new(600, 600), black);
    assert_eq!(list.commands.len(), 2);
    list.draw_line(Vec2::new(50, 50), Vec2::new(600, 600), black);
    assert_eq!(list.commands.len(), 3);
    list.draw_label("far", Vec2::new(1000, 1000), LabelParams::default());
    assert_eq!(list.commands.len(), 3);
    list.draw_label("near", Vec2::new(120, 50), LabelParams::default());
    assert_eq!(list.commands.len(), 4);
    list.clip(None);
    list.draw_raw_texture(7, Vec2::new(1000, 1000), Vec2::new(4, 4));
    assert_eq!(list.commands.len(), 6);
}

#[test]
fn command_offset_moves_geometry_only() {
    let cmd = DrawCommand::DrawLabel {
        position: Vec2::new(1, 2),
        label: "hi".to_string(),
        params: LabelParams::default(),
    };
    match cmd.offset(Vec2::new(10, 20)) {
        DrawCommand::DrawLabel { position, label, .. } => {
            assert_eq!(position, Vec2::new(11, 22));
            assert_eq!(label, "hi");
        }
        _ => panic!("wrong command"),
    }
    let clip = DrawCommand::Clip { rect: Some(Rect::new(0, 0, 5, 5)) };
    match clip.offset(Vec2::new(-3, 4)) {
        DrawCommand::Clip { rect } => assert_eq!(rect, Some(Rect::new(-3, 4, 5, 5))),
        _ => panic!("wrong command"),
    }
}

#[test]
fn label_params_conversions() {
    let red = Color::from_rgb(255, 0, 0);
    let p = LabelParams::from(Some(red));
    assert_eq!(p.color, red);
    let q = LabelParams::from(None::<Color>);
    assert_eq!(q.color, Color::from_rgba(0, 0, 0, 255));
    let r = LabelParams::from((red, megaui::draw_list::Aligment::Center));
    assert_eq!(r.aligment, megaui::draw_list::Aligment::Center);
}

#[test]
fn line_crossing_the_clip_is_kept() {
    let mut list = DrawList::new();
    list.clip(Some(Rect::new(0, 0, 100, 100)));
    let black = Color::from_rgba(0, 0, 0, 255);
    list.draw_line(Vec2::new(-10, 50), Vec2::new(200, 50), black);
    assert_eq!(list.commands.len(), 2);
    list.draw_line(Vec2::new(-10, 150), Vec2::new(200, 160), black);
    assert_eq!(list.commands.len(), 2);
}
