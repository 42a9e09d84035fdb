use megaui::cursor::Layout;
use megaui::draw_list::DrawCommand;
use megaui::style::Style;
use megaui::types::{Color, Rect, Vec2};
use megaui::ui::{Ui, ROOT_WINDOW};
use megaui::widgets::checkbox::Checkbox;
use megaui::widgets::combobox::ComboBox;
use megaui::widgets::group::Group;
use megaui::drag::Drag;

#[test]
fn window_scenario_two_vertical_widgets() {
    let mut ui = Ui::new(Style::default());
    let ctx = ui.begin_window(1, None, Vec2::new(0, 0), Vec2::new(200, 100), true);
    let m = ui.style.margin;
    let area = ui.windows[ctx.index].cursor.area;
    let a = ui.fit_in(ctx.index, Vec2::new(50, 20), Layout::Vertical);
    let b = ui.fit_in(ctx.index, Vec2::new(50, 20), Layout::Vertical);
    assert_eq!((a.x - area.x, a.y - area.y), (m, m));
    assert_eq!((b.x - area.x, b.y - area.y), (m, m + 20 + m));
    assert_eq!(area, Rect::new(0, 14, 200, 86));
    ui.end_window();
    assert_eq!(ui.active_window, Some(ROOT_WINDOW));
}

#[test]
fn click_on_overlapping_window_brings_it_to_front() {
    let mut ui = Ui::new(Style::default());
    ui.begin_window(1, None, Vec2::new(0, 0), Vec2::new(200, 100), true);
    ui.end_window();
    ui.begin_window(2, None, Vec2::new(50, 50), Vec2::new(200, 100), true);
    ui.end_window();
    ui.new_frame(16);
    ui.begin_window(1, None, Vec2::new(0, 0), Vec2::new(200, 100), true);
    ui.end_window();
    ui.begin_window(2, None, Vec2::new(50, 50), Vec2::new(200, 100), true);
    ui.end_window();
    assert_eq!(ui.windows_focus_order, vec![1, 2]);
    ui.mouse_down(Vec2::new(220, 120));
    assert_eq!(ui.windows_focus_order, vec![2, 1]);
    assert!(ui.is_focused(2));
    assert!(!ui.is_focused(1));
}

#[test]
fn click_on_empty_space_keeps_focus_order() {
    let mut ui = Ui::new(Style::default());
    ui.begin_window(1, None, Vec2::new(0, 0), Vec2::new(100, 100), true);
    ui.end_window();
    ui.begin_window(2, None, Vec2::new(200, 0), Vec2::new(100, 100), true);
    ui.end_window();
    ui.mouse_down(Vec2::new(250, 50));
    assert_eq!(ui.windows_focus_order, vec![1, 2]);
    ui.mouse_up(Vec2::new(250, 50));
    ui.new_frame(16);
    ui.mouse_down(Vec2::new(150, 500));
    assert_eq!(ui.windows_focus_order, vec![1, 2]);
    ui.mouse_up(Vec2::new(150, 500));
    ui.mouse_down(Vec2::new(250, 50));
    assert_eq!(ui.windows_focus_order, vec![2, 1]);
}

#[test]
fn title_bar_drag_moves_window() {
    let mut ui = Ui::new(Style::default());
    ui.begin_window(1, None, Vec2::new(10, 10), Vec2::new(100, 100), true);
    ui.end_window();
    ui.new_frame(16);
    ui.mouse_down(Vec2::new(20, 15));
    assert_eq!(ui.moving, Some((1, Vec2::new(10, 5))));
    ui.mouse_move(Vec2::new(70, 45));
    let i = ui.find_window(1).unwrap();
    assert_eq!(ui.windows[i].position, Vec2::new(60, 40));
    assert_eq!(ui.windows[i].cursor.area.y, 54);
    ui.mouse_up(Vec2::new(70, 45));
    assert_eq!(ui.moving, None);
    ui.mouse_move(Vec2::new(0, 0));
    assert_eq!(ui.windows[i].position, Vec2::new(60, 40));
}

#[test]
fn idle_frames_record_nothing() {
    let mut ui = Ui::new(Style::default());
    let ctx = ui.begin_window(1, None, Vec2::new(0, 0), Vec2::new(100, 100), true);
    ui.draw_rect_in(ctx.index, Rect::new(0, 0, 10, 10), None, Some(Color::from_rgb(1, 1, 1)));
    ui.end_window();
    let w = ui.find_window(1).unwrap();
    assert_eq!(ui.windows[w].draw_list.commands.len(), 1);
    ui.new_frame(16);
    assert_eq!(ui.windows[w].draw_list.commands.len(), 0);
    assert!(ui.windows[w].was_active);
    ui.new_frame(16);
    ui.new_frame(16);
    assert_eq!(ui.windows[w].draw_list.commands.len(), 0);
    assert!(!ui.windows[w].was_active);
    assert_eq!(ui.frame, 3);
    assert_eq!(ui.active_window, Some(ROOT_WINDOW));
}

#[test]
fn render_draws_back_to_front() {
    let mut ui = Ui::new(Style::default());
    ui.begin_window(1, None, Vec2::new(0, 0), Vec2::new(100, 100), true);
    ui.end_window();
    ui.begin_window(2, None, Vec2::new(0, 0), Vec2::new(100, 100), true);
    ui.end_window();
    ui.new_frame(16);
    let a = ui.begin_window(1, None, Vec2::new(0, 0), Vec2::new(100, 100), true);
    ui.draw_rect_in(a.index, Rect::new(1, 1, 1, 1), None, None);
    ui.end_window();
    let b = ui.begin_window(2, None, Vec2::new(0, 0), Vec2::new(100, 100), true);
    ui.draw_rect_in(b.index, Rect::new(2, 2, 2, 2), None, None);
    ui.end_window();
    let out = ui.render();
    assert_eq!(out.len(), 2);
    match (&out[0], &out[1]) {
        (DrawCommand::DrawRect { rect: r0, .. }, DrawCommand::DrawRect { rect: r1, .. }) => {
            assert_eq!(*r0, Rect::new(2, 2, 2, 2));
            assert_eq!(*r1, Rect::new(1, 1, 1, 1));
        }
        _ => panic!("expected two rects"),
    }
}

#[test]
fn checkbox_toggles_on_release_over_box() {
    let mut ui = Ui::new(Style::default());
    ui.begin_window(1, None, Vec2::new(0, 0), Vec2::new(200, 100), true);
    let mut flag = false;
    // box of the unlabelled row: width 196, centred: x = 2 + 98 - 9 = 91, y = 14 + 2
    ui.input.mouse_position = Vec2::new(95, 20);
    ui.input.click_up = true;
    Checkbox::new(5).ui(&mut ui, &mut flag);
    assert!(flag);
    ui.input.click_up = false;
    ui.checkbox(6, "", &mut flag);
    assert!(flag);
    ui.end_window();
}

#[test]
fn checkbox_outside_any_window_does_nothing() {
    let mut ui = Ui::new(Style::default());
    ui.end_window();
    assert_eq!(ui.active_window, None);
    let mut flag = true;
    ui.input.click_up = true;
    ui.input.mouse_position = Vec2::new(5, 5);
    ui.checkbox(6, "x", &mut flag);
    assert!(flag);
    assert_eq!(ui.windows.len(), 1);
}

#[test]
fn widgets_without_a_window_go_to_the_focused_root() {
    let mut ui = Ui::new(Style::default());
    assert!(ui.is_focused(ROOT_WINDOW));
    let t = Group::new(9, Vec2::new(50, 30)).layout(Layout::Vertical).begin(&mut ui);
    assert_eq!(t.pos, Vec2::new(2, 2));
    assert!(ui.is_focused(9));
    t.end(&mut ui);
    let root = ui.find_window(ROOT_WINDOW).unwrap();
    assert_eq!(ui.windows[root].childs, vec![9]);
    ui.new_frame(16);
    let out = ui.render();
    assert!(out.is_empty());
}

#[test]
fn group_is_a_child_window_placed_by_layout() {
    let mut ui = Ui::new(Style::default());
    ui.begin_window(1, None, Vec2::new(0, 0), Vec2::new(200, 100), true);
    let token = Group::new(9, Vec2::new(50, 30)).layout(Layout::Vertical).begin(&mut ui);
    assert_eq!(token.pos, Vec2::new(2, 16));
    assert_eq!(ui.active_window, Some(9));
    let drag = token.end(&mut ui);
    assert_eq!(drag, Drag::No);
    assert_eq!(ui.active_window, Some(1));
    let parent = ui.find_window(1).unwrap();
    assert_eq!(ui.windows[parent].childs, vec![9]);
    let child = ui.find_window(9).unwrap();
    assert_eq!(ui.windows[child].parent, Some(1));
    assert_eq!(ui.windows_focus_order, vec![1]);
}

#[test]
fn draggable_group_reports_drop() {
    let mut ui = Ui::new(Style::default());
    let frame = |ui: &mut Ui| -> Drag {
        ui.begin_window(1, None, Vec2::new(0, 0), Vec2::new(200, 100), true);
        let t = Group::new(9, Vec2::new(50, 30)).draggable(true).begin(ui);
        let d = t.end(ui);
        ui.end_window();
        d
    };
    ui.mouse_move(Vec2::new(10, 20));
    ui.mouse_down(Vec2::new(10, 20));
    assert_eq!(frame(&mut ui), Drag::No);
    assert!(ui.is_dragging());
    ui.new_frame(16);
    ui.mouse_move(Vec2::new(40, 40));
    assert_eq!(frame(&mut ui), Drag::Dragging(Vec2::new(40, 40), None));
    ui.new_frame(16);
    ui.mouse_up(Vec2::new(40, 40));
    assert_eq!(frame(&mut ui), Drag::Dropped(Vec2::new(40, 40), None));
    assert!(!ui.is_dragging());
}

#[test]
fn separator_draws_a_line() {
    let mut ui = Ui::new(Style::default());
    let ctx = ui.begin_window(1, None, Vec2::new(0, 0), Vec2::new(200, 100), true);
    ui.separator();
    let cmds = &ui.windows[ctx.index].draw_list.commands;
    assert_eq!(cmds.len(), 1);
    match &cmds[0] {
        DrawCommand::DrawLine { start, end, .. } => {
            assert_eq!(*start, Vec2::new(2, 18));
            assert_eq!(*end, Vec2::new(198, 18));
        }
        _ => panic!("expected a line"),
    }
}

#[test]
fn is_mouse_over_looks_at_last_frame() {
    let mut ui = Ui::new(Style::default());
    ui.begin_window(1, None, Vec2::new(0, 0), Vec2::new(100, 100), true);
    ui.end_window();
    assert!(!ui.is_mouse_over(Vec2::new(5, 5)));
    ui.new_frame(16);
    assert!(ui.is_mouse_over(Vec2::new(5, 5)));
    assert!(!ui.is_mouse_over(Vec2::new(500, 5)));
}

#[test]
fn focus_window_and_move_window() {
    let mut ui = Ui::new(Style::default());
    ui.begin_window(1, None, Vec2::new(0, 0), Vec2::new(100, 100), true);
    ui.end_window();
    ui.begin_window(2, None, Vec2::new(0, 0), Vec2::new(100, 100), true);
    ui.end_window();
    ui.focus_window(2);
    assert_eq!(ui.windows_focus_order, vec![2, 1]);
    ui.focus_window(42);
    assert_eq!(ui.windows_focus_order, vec![2, 1]);
    ui.move_window(1, Vec2::new(30, 40));
    assert_eq!(ui.windows[ui.find_window(1).unwrap()].position, Vec2::new(30, 40));
}

#[test]
fn combobox_builders_keep_fields() {
    let variants = ["a", "b"];
    let c = ComboBox::new(3, &variants).label("pick");
    assert_eq!(c.id, 3);
    assert_eq!(c.label, "pick");
    assert_eq!(c.variants.len(), 2);
    let k = Checkbox::new(4).label("on");
    assert_eq!(k.label, "on");
}

#[test]
fn combobox_opens_then_selects_a_variant() {
    let mut ui = Ui::new(Style::default());
    let variants = ["first", "second"];
    let mut data = 0usize;
    ui.begin_window(1, None, Vec2::new(0, 0), Vec2::new(200, 100), true);
    ui.input.mouse_position = Vec2::new(10, 20);
    ui.input.click_up = true;
    let r = ComboBox::new(3, &variants).label("pick").ui(&mut ui, &mut data);
    assert_eq!(r, 0);
    assert_eq!(ui.get_storage(3), 1);
    assert_eq!(ui.modal, Some(3));
    ui.end_window();
    ui.new_frame(16);
    ui.begin_window(1, None, Vec2::new(0, 0), Vec2::new(200, 100), true);
    ui.input.mouse_position = Vec2::new(10, 61);
    ui.input.click_up = true;
    let r = ui.combo_box(3, "pick", &variants, &mut data);
    assert_eq!(r, 1);
    assert_eq!(data, 1);
    assert_eq!(ui.get_storage(3), 0);
    ui.end_window();
}

#[test]
fn combobox_closes_on_press_elsewhere() {
    let mut ui = Ui::new(Style::default());
    let variants = ["a", "b", "c"];
    let mut data = 2usize;
    ui.set_storage(3, 1);
    ui.begin_window(1, None, Vec2::new(0, 0), Vec2::new(200, 100), true);
    ui.end_window();
    ui.new_frame(16);
    ui.begin_window(1, None, Vec2::new(0, 0), Vec2::new(200, 100), true);
    ui.input.mouse_position = Vec2::new(190, 95);
    ui.input.click_down = true;
    ui.input.escape = true;
    let r = ui.combo_box(3, "", &variants, &mut data);
    assert_eq!(r, 2);
    assert_eq!(ui.get_storage(3), 0);
}

#[test]
fn modal_takes_presses_and_focus() {
    let mut ui = Ui::new(Style::default());
    ui.begin_window(1, None, Vec2::new(0, 0), Vec2::new(100, 100), true);
    ui.end_window();
    ui.begin_window(2, None, Vec2::new(0, 0), Vec2::new(100, 100), true);
    ui.end_window();
    ui.begin_modal(50, Vec2::new(300, 300), Vec2::new(40, 40));
    ui.end_modal();
    assert!(ui.is_focused(50));
    assert_eq!(ui.windows_focus_order, vec![1, 2]);
    ui.new_frame(16);
    ui.begin_window(1, None, Vec2::new(0, 0), Vec2::new(100, 100), true);
    ui.end_window();
    let ctx = ui.begin_modal(50, Vec2::new(300, 300), Vec2::new(40, 40));
    assert!(ctx.focused);
    ui.draw_rect_in(ctx.index, Rect::new(500, 500, 5, 5), None, None);
    ui.draw_rect_in(ctx.index, Rect::new(310, 310, 5, 5), None, None);
    assert_eq!(ui.windows[ctx.index].draw_list.commands.len(), 2);
    ui.end_modal();
    ui.mouse_move(Vec2::new(50, 50));
    assert_eq!(ui.hovered_window, Some(50));
    ui.focus_window(1);
    ui.mouse_down(Vec2::new(50, 50));
    assert_eq!(ui.windows_focus_order, vec![1, 2]);
    let out = ui.render();
    assert!(out.len() >= 2);
}

#[test]
fn canvas_reserves_space_and_draws() {
    let mut ui = Ui::new(Style::default());
    assert!(ui.canvas().is_some());
    ui.end_window();
    assert!(ui.canvas().is_none());
    ui.begin_window(1, None, Vec2::new(10, 10), Vec2::new(200, 100), true);
    let canvas = ui.canvas().unwrap();
    assert_eq!(canvas.cursor(&ui), Vec2::new(12, 26));
    let at = canvas.request_space(&mut ui, Vec2::new(30, 30));
    assert_eq!(at, Vec2::new(12, 26));
    canvas.rect(&mut ui, Rect::new(12, 26, 30, 30), None, Some(Color::from_rgb(9, 9, 9)));
    canvas.line(&mut ui, Vec2::new(0, 0), Vec2::new(5, 5), Color::from_rgb(0, 0, 0));
    canvas.image(&mut ui, Rect::new(0, 0, 8, 8), 3);
    let i = canvas.context.index;
    assert_eq!(ui.windows[i].draw_list.commands.len(), 3);
    match &ui.windows[i].draw_list.commands[2] {
        DrawCommand::DrawRawTexture { position, size, texture } => {
            assert_eq!((*position, *size, *texture), (Vec2::new(0, 0), Vec2::new(8, 8), 3));
        }
        _ => panic!("expected a texture"),
    }
}

#[test]
fn storage_keeps_values_per_id() {
    let mut ui = Ui::new(Style::default());
    assert_eq!(ui.get_storage(11), 0);
    ui.set_storage(11, 42);
    ui.set_storage(12, 7);
    assert_eq!(ui.get_storage(11), 42);
    assert_eq!(ui.get_storage(12), 7);
    ui.begin_window(5, None, Vec2::new(0, 0), Vec2::new(10, 10), false);
    assert_eq!(ui.find_window(5), Some(1));
    assert_eq!(ui.find_window(6), None);
}

#[test]
fn child_of_focused_window_is_focused() {
    let mut ui = Ui::new(Style::default());
    ui.begin_window(1, None, Vec2::new(0, 0), Vec2::new(200, 100), true);
    ui.end_window();
    ui.begin_window(2, None, Vec2::new(300, 0), Vec2::new(200, 100), true);
    ui.end_window();
    ui.new_frame(16);
    ui.begin_window(1, None, Vec2::new(0, 0), Vec2::new(200, 100), true);
    let inner = ui.begin_window(10, Some(1), Vec2::new(5, 20), Vec2::new(50, 50), false);
    assert!(inner.focused);
    ui.end_window();
    ui.end_window();
    let other = ui.begin_window(2, None, Vec2::new(300, 0), Vec2::new(200, 100), true);
    assert!(!other.focused);
    let inner2 = ui.begin_window(20, Some(2), Vec2::new(305, 20), Vec2::new(50, 50), false);
    assert!(!inner2.focused);
    let child = ui.find_window(20).unwrap();
    match &ui.windows[child].draw_list.commands[0] {
        DrawCommand::Clip { rect } => assert_eq!(*rect, Some(Rect::new(300, 14, 200, 86))),
        _ => panic!("expected the parent's clip"),
    }
    let parent = ui.find_window(2).unwrap();
    assert!(ui.windows[parent].childs.is_empty());
}

#[test]
fn window_first_begun_this_frame_does_not_take_clicks() {
    let mut ui = Ui::new(Style::default());
    ui.begin_window(2, None, Vec2::new(0, 0), Vec2::new(100, 100), true);
    ui.end_window();
    ui.new_frame(16);
    ui.begin_window(1, None, Vec2::new(0, 0), Vec2::new(100, 100), true);
    ui.end_window();
    ui.begin_window(2, None, Vec2::new(0, 0), Vec2::new(100, 100), true);
    ui.end_window();
    ui.focus_window(1);
    assert_eq!(ui.windows_focus_order, vec![1, 2]);
    ui.mouse_down(Vec2::new(50, 50));
    assert_eq!(ui.windows_focus_order, vec![2, 1]);
}

#[test]
fn new_frame_deactivates_every_window() {
    let mut ui = Ui::new(Style::default());
    ui.new_frame(16);
    let root = ui.find_window(ROOT_WINDOW).unwrap();
    assert!(ui.windows[root].was_active);
    assert!(!ui.windows[root].active);
    ui.new_frame(16);
    assert!(!ui.windows[root].was_active);
    assert_eq!(ui.active_window, Some(ROOT_WINDOW));
}

#[test]
fn window_scenario_after_a_frame_starts() {
    let mut ui = Ui::new(Style::default());
    ui.new_frame(16);
    assert_eq!(ui.style.margin, 2);
    assert_eq!(ui.style.title_height, 14);
    let ctx = ui.begin_window(1, None, Vec2::new(0, 0), Vec2::new(200, 100), true);
    let area = ui.windows[ctx.index].cursor.area;
    let a = ui.fit_in(ctx.index, Vec2::new(50, 20), Layout::Vertical);
    let b = ui.fit_in(ctx.index, Vec2::new(50, 20), Layout::Vertical);
    assert_eq!((a.x - area.x, a.y - area.y), (2, 2));
    assert_eq!((b.x - area.x, b.y - area.y), (2, 24));
}

#[test]
fn scroll_bar_only_when_content_taller_than_content_rect() {
    let mut ui = Ui::new(Style::default());
    ui.begin_window(1, None, Vec2::new(0, 0), Vec2::new(200, 100), true);
    ui.end_window();
    // the window grows: its content rect is now 286 high
    let ctx = ui.begin_window(1, None, Vec2::new(0, 0), Vec2::new(200, 300), true);
    ui.windows[ctx.index].cursor.scroll.inner_rect_previous_frame = Rect::new(0, 0, 200, 150);
    let before = ui.windows[ctx.index].draw_list.commands.len();
    ui.scroll_area(ctx);
    assert_eq!(ui.windows[ctx.index].draw_list.commands.len(), before);
    ui.windows[ctx.index].cursor.scroll.inner_rect_previous_frame = Rect::new(0, 0, 200, 400);
    ui.scroll_area(ctx);
    assert_eq!(ui.windows[ctx.index].draw_list.commands.len(), before + 2);
}
