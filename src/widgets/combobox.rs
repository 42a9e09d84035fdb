//! A drop-down choice among labelled variants.
use vstd::prelude::*;

use crate::cursor::Layout;
use crate::draw_list::LabelParams;
use crate::scroll_bar::div_toward_zero;
use crate::types::{sat, saturate, saturate_wide, Color, Rect, Vec2};
use crate::ui::Ui;
use crate::widgets::checkbox::half;
use crate::Id;

verus! {

/// Height of the closed box and of each variant row, in pixels.
pub const ROW_HEIGHT: i32 = 20;

/// A combo box over a list of variant names.
pub struct ComboBox<'a, 'b, 'c> {
    pub id: Id,
    pub label: &'a str,
    pub variants: &'b [&'c str],
}

/// The row of variant `i` in the open list of a box at `pos` whose clickable part
/// is `active_w` wide.
pub open spec fn variant_row(pos: Vec2, active_w: int, i: int) -> Rect {
    Rect {
        x: sat(pos.x + 5) as i32,
        y: sat(pos.y + ROW_HEIGHT * i + ROW_HEIGHT) as i32,
        w: sat(active_w - 5) as i32,
        h: ROW_HEIGHT,
    }
}

/// The selection after the first `k` rows of the open list have been offered a
/// release at `mouse`, and whether the list is still open: the last row released on wins.
pub open spec fn pick(pos: Vec2, active_w: int, mouse: Vec2, click_up: bool, data: usize, k: int) -> (
    usize,
    bool,
)
    decreases k,
{
    if k <= 0 {
        (data, true)
    } else {
        let prev = pick(pos, active_w, mouse, click_up, data, k - 1);
        if click_up && variant_row(pos, active_w, k - 1).spec_contains(mouse) {
            ((k - 1) as usize, false)
        } else {
            prev
        }
    }
}

impl<'a, 'b, 'c> ComboBox<'a, 'b, 'c> {
    pub fn new(id: Id, variants: &'b [&'c str]) -> (r: ComboBox<'a, 'b, 'c>)
        ensures
            r.id == id,
            r.label@.len() == 0,
            r.variants@ == variants@,
    {
        proof {
            reveal_strlit("");
        }
        ComboBox { id, label: "", variants }
    }

    pub fn label<'x>(self, label: &'x str) -> (r: ComboBox<'x, 'b, 'c>)
        ensures
            r.id == self.id,
            r.label@ == label@,
            r.variants@ == self.variants@,
    {
        ComboBox { id: self.id, variants: self.variants, label }
    }

    /// Whether the list is open after this frame's clicks, given whether it was.
    pub open spec fn spec_open(self, ui: Ui, a: Id, was_open: bool) -> bool {
        let row = Vec2 { x: ui.full_width(a) as i32, y: 19 };
        let pos = ui.window(a).cursor.spec_fit_pos(row, Layout::Vertical);
        let active_w = div_toward_zero(row.x as int, 2);
        let hovered = (Rect { x: pos.x, y: pos.y, w: active_w as i32, h: row.y }).spec_contains(
            ui.input.mouse_position,
        );
        let open1 = if ui.spec_is_focused(a) && hovered && ui.input.click_up {
            !was_open
        } else {
            was_open
        };
        let list = Rect {
            x: pos.x,
            y: pos.y,
            w: 200,
            h: sat(ROW_HEIGHT * self.variants@.len() + ROW_HEIGHT) as i32,
        };
        open1 && !(ui.input.escape || (!list.spec_contains(ui.input.mouse_position)
            && ui.input.click_down))
    }

    /// Shows the box in the current window: a click on it opens or closes the list
    /// of variants, a release on a variant selects it and closes the list, and a press
    /// elsewhere (or Escape) closes it. Returns the selected variant. Outside of any
    /// window nothing happens.
    pub fn ui(self, ui: &mut Ui, data: &mut usize) -> (r: usize)
        requires
            old(ui).wf(),
            *old(data) < self.variants@.len(),
        ensures
            final(ui).wf(),
            r == *final(data),
            match old(ui).active_window {
                Some(a) => {
                    let was_open = old(ui).stored(self.id) == 1 && old(ui).window(a).was_active;
                    let open = self.spec_open(*old(ui), a, was_open);
                    let row = Vec2 { x: old(ui).full_width(a) as i32, y: 19 };
                    let pos = old(ui).window(a).cursor.spec_fit_pos(row, Layout::Vertical);
                    let active_w = div_toward_zero(row.x as int, 2);
                    let (picked, still_open) = pick(
                        pos,
                        active_w,
                        old(ui).input.mouse_position,
                        old(ui).input.click_up,
                        *old(data),
                        self.variants@.len() as int,
                    );
                    &&& r == if open {
                        picked
                    } else {
                        *old(data)
                    }
                    &&& final(ui).stored(self.id) == if open && still_open {
                        1u32
                    } else {
                        0u32
                    }
                },
                None => r == *old(data),
            },
    {
        let ctx = match ui.get_active_window_context() {
            Some(c) => c,
            None => {
                return *data;
            },
        };
        let i = ctx.index;
        let c = ui.windows[i].cursor;
        let width = saturate(c.area.w as i64 - ui.style.margin as i64 * 2 - c.ident as i64);
        let size = Vec2::new(width, 19);
        let pos = ui.fit_in(i, size, Layout::Vertical);
        let active_area_w = half(size.x);
        let clickable = Rect::new(pos.x, pos.y, active_area_w, size.y);
        let hovered = clickable.contains(ui.input.mouse_position);
        let mut open = ui.get_storage(self.id) == 1 && ui.windows[i].was_active;
        let background = ui.style.button_background(ctx.focused, false, false);
        ui.draw_rect_in(i, clickable, Some(background), None);
        ui.draw_label_in(
            i,
            self.variants[*data],
            Vec2::new(saturate(pos.x as i64 + 5), saturate(pos.y as i64 + 2)),
            LabelParams::from(Color::from_rgba(0, 0, 0, 255)),
        );
        ui.draw_rect_in(
            i,
            Rect::new(saturate(pos.x as i64 + active_area_w as i64 - 19), pos.y, 19, size.y),
            Some(background),
            None,
        );
        ui.draw_label_in(
            i,
            self.label,
            Vec2::new(saturate(pos.x as i64 + half(size.x) as i64 + 5), saturate(pos.y as i64 + 2)),
            LabelParams::from(Color::from_rgba(0, 0, 0, 255)),
        );
        if ctx.focused && hovered && ui.input.click_up {
            open = !open;
        }
        let list_h = saturate_wide(
            ROW_HEIGHT as i128 * self.variants.len() as i128 + ROW_HEIGHT as i128,
        );
        let list = Rect::new(pos.x, pos.y, 200, list_h);
        if open && (ui.input.escape || (!list.contains(ui.input.mouse_position)
            && ui.input.click_down)) {
            open = false;
        }
        if open {
            let m = ui.begin_modal(self.id, pos, Vec2::new(200, list_h));
            let mut k: usize = 0;
            while k < self.variants.len()
                invariant
                    ui.wf(),
                    m.index < ui.windows@.len(),
                    k <= self.variants@.len(),
                    *data < self.variants@.len(),
                    ui.input == old(ui).input,
                    ui.modal == Some(self.id),
                    (*data, open) == pick(
                        pos,
                        active_area_w as int,
                        old(ui).input.mouse_position,
                        old(ui).input.click_up,
                        *old(data),
                        k as int,
                    ),
                decreases self.variants@.len() - k,
            {
                let row = Rect::new(
                    saturate(pos.x as i64 + 5),
                    saturate_wide(pos.y as i128 + ROW_HEIGHT as i128 * k as i128 + ROW_HEIGHT as i128),
                    saturate(active_area_w as i64 - 5),
                    ROW_HEIGHT,
                );
                let row_hovered = row.contains(ui.input.mouse_position);
                let selected = *data == k;
                let fill = ui.style.button_background(true, row_hovered, selected);
                ui.draw_rect_in(m.index, row, None, Some(fill));
                ui.draw_label_in(
                    m.index,
                    self.variants[k],
                    Vec2::new(saturate(pos.x as i64 + 7), saturate(row.y as i64 + 2)),
                    LabelParams::from(Color::from_rgba(0, 0, 0, 255)),
                );
                if row_hovered && ui.input.click_up {
                    *data = k;
                    open = false;
                }
                k += 1;
            }
            ui.end_modal();
        }
        ui.set_storage(
            self.id,
            if open {
                1
            } else {
                0
            },
        );
        *data
    }
}

impl Ui {
    /// A labelled combo box in the current window; see `ComboBox::ui`.
    pub fn combo_box(&mut self, id: Id, label: &str, variants: &[&str], data: &mut usize) -> (r:
        usize)
        requires
            old(self).wf(),
            *old(data) < variants@.len(),
        ensures
            final(self).wf(),
            r == *final(data),
            match old(self).active_window {
                Some(a) => {
                    let cb = ComboBox { id, label, variants };
                    let was_open = old(self).stored(id) == 1 && old(self).window(a).was_active;
                    let open = cb.spec_open(*old(self), a, was_open);
                    let row = Vec2 { x: old(self).full_width(a) as i32, y: 19 };
                    let pos = old(self).window(a).cursor.spec_fit_pos(row, Layout::Vertical);
                    let (picked, still_open) = pick(
                        pos,
                        div_toward_zero(row.x as int, 2),
                        old(self).input.mouse_position,
                        old(self).input.click_up,
                        *old(data),
                        variants@.len() as int,
                    );
                    &&& r == if open {
                        picked
                    } else {
                        *old(data)
                    }
                    &&& final(self).stored(id) == if open && still_open {
                        1u32
                    } else {
                        0u32
                    }
                },
                None => r == *old(data),
            },
    {
        ComboBox::new(id, variants).label(label).ui(self, data)
    }
}

} // verus!
