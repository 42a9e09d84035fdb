//! In-window drawing canvas for custom primitives like lines, rects and textures.
use vstd::prelude::*;

use crate::cursor::Layout;
use crate::draw_list::{clip_admits, CommandView};
use crate::types::{Color, Rect, Vec2};
use crate::ui::{Ui, WindowContext};

verus! {

/// A drawing handle on one window, used between `Ui::canvas` and the end of the window.
#[derive(Clone, Copy, Debug)]
pub struct DrawCanvas {
    pub context: WindowContext,
}

impl Ui {
    /// A canvas on the current window, if there is one.
    pub fn canvas(&self) -> (r: Option<DrawCanvas>)
        requires
            self.wf(),
        ensures
            match self.active_window {
                Some(a) => r == Some(
                    DrawCanvas {
                        context: WindowContext {
                            index: self.window_index@[a],
                            focused: self.spec_is_focused(a),
                        },
                    },
                ),
                None => r.is_none(),
            },
    {
        match self.get_active_window_context() {
            Some(context) => Some(DrawCanvas { context }),
            None => None,
        }
    }
}

impl DrawCanvas {
    /// The pen position of the window on screen: content origin, pen and scroll offset.
    pub fn cursor(&self, ui: &Ui) -> (r: Vec2)
        requires
            self.context.index < ui.windows@.len(),
        ensures
            ({
                let c = ui.windows@[self.context.index as int].cursor;
                r == (Vec2 { x: c.x, y: c.y }).spec_add(Vec2 { x: c.area.x, y: c.area.y }).spec_add(
                    c.scroll.scroll,
                )
            }),
    {
        let c = &ui.windows[self.context.index].cursor;
        c.pos().add(c.area.position()).add(c.scroll.scroll)
    }

    /// Reserves `space` on a row of its own and returns where it starts on screen.
    pub fn request_space(&self, ui: &mut Ui, space: Vec2) -> (r: Vec2)
        requires
            old(ui).wf(),
            self.context.index < old(ui).windows@.len(),
        ensures
            final(ui).wf(),
            r == old(ui).windows@[self.context.index as int].cursor.spec_fit_pos(
                space,
                Layout::Vertical,
            ),
            final(ui).windows@[self.context.index as int].cursor == old(
                ui,
            ).windows@[self.context.index as int].cursor.spec_fit(space, Layout::Vertical),
    {
        ui.fit_in(self.context.index, space, Layout::Vertical)
    }

    /// Draws a rect, unless it lies outside the clip region.
    pub fn rect(&self, ui: &mut Ui, rect: Rect, stroke: Option<Color>, fill: Option<Color>)
        requires
            old(ui).wf(),
            self.context.index < old(ui).windows@.len(),
        ensures
            final(ui).wf(),
            final(ui).windows@[self.context.index as int].draw_list.log() == if clip_admits(
                old(ui).windows@[self.context.index as int].draw_list.clipping_zone,
                rect,
            ) {
                old(ui).windows@[self.context.index as int].draw_list.log().push(
                    CommandView::Rect { rect, stroke, fill },
                )
            } else {
                old(ui).windows@[self.context.index as int].draw_list.log()
            },
    {
        ui.draw_rect_in(self.context.index, rect, stroke, fill)
    }

    /// Draws a line, unless both ends lie outside the clip region.
    pub fn line(&self, ui: &mut Ui, start: Vec2, end: Vec2, color: Color)
        requires
            old(ui).wf(),
            self.context.index < old(ui).windows@.len(),
        ensures
            final(ui).wf(),
            final(ui).windows@[self.context.index as int].draw_list.log() == if crate::draw_list::clip_admits_line(
                old(ui).windows@[self.context.index as int].draw_list.clipping_zone,
                start,
                end,
            ) {
                old(ui).windows@[self.context.index as int].draw_list.log().push(
                    CommandView::Line { start, end, color },
                )
            } else {
                old(ui).windows@[self.context.index as int].draw_list.log()
            },
    {
        ui.draw_line_in(self.context.index, start, end, color)
    }

    /// Draws a texture stretched over `rect`, unless it lies outside the clip region.
    pub fn image(&self, ui: &mut Ui, rect: Rect, texture: u32)
        requires
            old(ui).wf(),
            self.context.index < old(ui).windows@.len(),
        ensures
            final(ui).wf(),
            final(ui).windows@[self.context.index as int].draw_list.log() == if clip_admits(
                old(ui).windows@[self.context.index as int].draw_list.clipping_zone,
                rect,
            ) {
                old(ui).windows@[self.context.index as int].draw_list.log().push(
                    CommandView::RawTexture {
                        position: Vec2 { x: rect.x, y: rect.y },
                        size: Vec2 { x: rect.w, y: rect.h },
                        texture,
                    },
                )
            } else {
                old(ui).windows@[self.context.index as int].draw_list.log()
            },
    {
        ui.draw_texture_in(self.context.index, texture, rect.position(), rect.size())
    }
}

} // verus!
