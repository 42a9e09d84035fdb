//! A box that toggles a flag when clicked.
use vstd::prelude::*;

use crate::cursor::Layout;
use crate::draw_list::LabelParams;
use crate::scroll_bar::div_toward_zero;
use crate::types::{sat, saturate, Color, Rect, Vec2};
use crate::ui::Ui;
use crate::Id;

verus! {

/// Side of the box, in pixels.
pub const CHECKBOX_SIZE: i32 = 19;

/// A labelled check box.
pub struct Checkbox<'a> {
    pub id: Id,
    pub label: &'a str,
}

/// Half of `v`, rounded toward zero.
pub fn half(v: i32) -> (r: i32)
    ensures
        r == div_toward_zero(v as int, 2),
{
    if v >= 0 {
        v / 2
    } else {
        -((-(v as i64)) / 2) as i32
    }
}

impl<'a> Checkbox<'a> {
    pub fn new(id: Id) -> (r: Checkbox<'a>)
        ensures
            r.id == id,
            r.label@.len() == 0,
    {
        proof {
            reveal_strlit("");
        }
        Checkbox { id, label: "" }
    }

    pub fn label<'b>(self, label: &'b str) -> (r: Checkbox<'b>)
        ensures
            r.id == self.id,
            r.label@ == label@,
    {
        Checkbox { id: self.id, label }
    }

    /// The row the check box takes in the current window `a`.
    pub open spec fn row(ui: Ui, a: Id) -> Vec2 {
        Vec2 { x: ui.full_width(a) as i32, y: CHECKBOX_SIZE }
    }

    /// The box itself, for a row placed at `pos`: centred in the row, or in its left
    /// half when there is a label.
    pub open spec fn spec_box(self, pos: Vec2, row: Vec2) -> Rect {
        let whole = if self.label@.len() == 0 {
            row.x as int
        } else {
            div_toward_zero(row.x as int, 2)
        };
        Rect {
            x: sat(pos.x + div_toward_zero(whole, 2) - CHECKBOX_SIZE / 2) as i32,
            y: pos.y,
            w: CHECKBOX_SIZE,
            h: CHECKBOX_SIZE,
        }
    }

    /// Shows the check box in the current window; a click released over the box
    /// flips `data`. Outside of any window nothing happens.
    pub fn ui(self, ui: &mut Ui, data: &mut bool)
        requires
            old(ui).wf(),
        ensures
            final(ui).wf(),
            match old(ui).active_window {
                Some(a) => {
                    let row = Self::row(*old(ui), a);
                    let pos = old(ui).window(a).cursor.spec_fit_pos(row, Layout::Vertical);
                    let hovered = self.spec_box(pos, row).spec_contains(old(ui).input.mouse_position);
                    &&& *final(data) == (*old(data) != (hovered && old(ui).input.click_up))
                    &&& final(ui).windows@[old(ui).window_index@[a] as int].cursor == old(
                        ui,
                    ).window(a).cursor.spec_fit(row, Layout::Vertical)
                },
                None => *final(data) == *old(data) && *final(ui) == *old(ui),
            },
    {
        let ctx = match ui.get_active_window_context() {
            Some(c) => c,
            None => {
                return ;
            },
        };
        let i = ctx.index;
        let c = ui.windows[i].cursor;
        let width = saturate(c.area.w as i64 - ui.style.margin as i64 * 2 - c.ident as i64);
        let size = Vec2::new(width, CHECKBOX_SIZE);
        let pos = ui.fit_in(i, size, Layout::Vertical);
        let whole = if self.label.is_empty() {
            size.x
        } else {
            half(size.x)
        };
        let box_x = saturate(pos.x as i64 + half(whole) as i64 - (CHECKBOX_SIZE / 2) as i64);
        let rect = Rect::new(box_x, pos.y, CHECKBOX_SIZE, CHECKBOX_SIZE);
        let hovered = rect.contains(ui.input.mouse_position);
        let background = ui.style.button_background(ctx.focused, hovered, false);
        ui.draw_rect_in(i, rect, None, Some(background));
        if *data {
            let mark = ui.style.text(ctx.focused);
            ui.draw_rect_in(
                i,
                Rect::new(saturate(box_x as i64 + 3), saturate(pos.y as i64 + 3), CHECKBOX_SIZE - 6, CHECKBOX_SIZE - 6),
                None,
                Some(mark),
            );
        }
        if hovered && ui.input.click_up {
            *data = !*data;
        }
        if !self.label.is_empty() {
            ui.draw_label_in(
                i,
                self.label,
                Vec2::new(
                    saturate(pos.x as i64 + half(size.x) as i64 + 5),
                    saturate(pos.y as i64 + 2),
                ),
                LabelParams::from(Color::from_rgba(0, 0, 0, 255)),
            );
        }
    }
}

impl Ui {
    /// A check box with a label, in the current window.
    pub fn checkbox(&mut self, id: Id, label: &str, data: &mut bool)
        requires
            old(self).wf(),
        ensures
            final(self).wf(),
            match old(self).active_window {
                Some(a) => {
                    let cb = Checkbox { id, label };
                    let row = Checkbox::row(*old(self), a);
                    let pos = old(self).window(a).cursor.spec_fit_pos(row, Layout::Vertical);
                    let hovered = cb.spec_box(pos, row).spec_contains(old(self).input.mouse_position);
                    *final(data) == (*old(data) != (hovered && old(self).input.click_up))
                },
                None => *final(data) == *old(data),
            },
    {
        Checkbox::new(id).label(label).ui(self, data)
    }
}

} // verus!
