//! A horizontal rule across the current window.
use vstd::prelude::*;

use crate::cursor::Layout;
use crate::draw_list::{clip_admits_line, CommandView};
use crate::types::{sat, saturate, Vec2};
use crate::ui::Ui;

verus! {

impl Ui {
    /// The width of a widget that spans window `w`'s content between its margins.
    pub open spec fn full_width(self, a: crate::Id) -> int {
        let c = self.window(a).cursor;
        sat(c.area.w - self.style.margin * 2 - c.ident)
    }

    /// Draws a horizontal line on a row of its own in the current window; outside of
    /// any window nothing happens.
    pub fn separator(&mut self)
        requires
            old(self).wf(),
        ensures
            final(self).wf(),
            match old(self).active_window {
                Some(a) => {
                    let size = Vec2 { x: old(self).full_width(a) as i32, y: 5 };
                    let i = old(self).window_index@[a] as int;
                    &&& final(self).windows@[i].cursor == old(self).window(a).cursor.spec_fit(
                        size,
                        Layout::Vertical,
                    )
                    &&& final(self).windows@[i].draw_list.log() == {
                        let w = old(self).window(a);
                        let pos = w.cursor.spec_fit_pos(size, Layout::Vertical);
                        let start = pos.spec_add(Vec2 { x: 0, y: 2 });
                        let end = pos.spec_add(Vec2 { x: size.x, y: 2 });
                        let color = if old(self).spec_is_focused(a) {
                            old(self).style.window_border_focused
                        } else {
                            old(self).style.window_border_inactive
                        };
                        if clip_admits_line(w.draw_list.clipping_zone, start, end) {
                            w.draw_list.log().push(CommandView::Line { start, end, color })
                        } else {
                            w.draw_list.log()
                        }
                    }
                },
                None => *final(self) == *old(self),
            },
    {
        let ctx = match self.get_active_window_context() {
            Some(c) => c,
            None => {
                return ;
            },
        };
        let i = ctx.index;
        let c = self.windows[i].cursor;
        let width = saturate(c.area.w as i64 - self.style.margin as i64 * 2 - c.ident as i64);
        let size = Vec2::new(width, 5);
        let pos = self.fit_in(i, size, Layout::Vertical);
        let color = self.style.window_border(ctx.focused);
        self.draw_line_in(
            i,
            pos.add(Vec2::new(0, 2)),
            pos.add(Vec2::new(size.x, 2)),
            color,
        );
    }
}

} // verus!
