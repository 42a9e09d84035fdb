//! A child window placed by the parent's cursor, optionally draggable.
use vstd::prelude::*;

use crate::cursor::Layout;
use crate::drag::{drag_step, spec_drag_step, Drag, PointerFrame};
use crate::types::{Rect, Vec2};
use crate::ui::Ui;
use crate::Id;

verus! {

/// A child window with its own scrolling and clipping.
#[derive(Debug, Clone, Copy)]
pub struct Group {
    pub id: Id,
    pub position: Option<Vec2>,
    pub layout: Layout,
    pub size: Vec2,
    pub draggable: bool,
    pub highlight: bool,
    pub hoverable: bool,
}

/// What `Group::begin` hands to `GroupToken::end`.
#[must_use]
#[derive(Debug, Clone, Copy)]
pub struct GroupToken {
    pub draggable: bool,
    pub drag: Drag,
    pub pos: Vec2,
    pub size: Vec2,
    /// Whether a window was begun, so that `end` has one to end.
    pub begun: bool,
}

impl Group {
    pub fn new(id: Id, size: Vec2) -> (r: Group)
        ensures
            r == (Group {
                id,
                size,
                position: None,
                layout: Layout::Horizontal,
                draggable: false,
                highlight: false,
                hoverable: false,
            }),
    {
        Group {
            id,
            size,
            position: None,
            layout: Layout::Horizontal,
            draggable: false,
            highlight: false,
            hoverable: false,
        }
    }

    /// Places the group at a fixed point of the parent instead of by layout.
    pub fn position(self, position: Vec2) -> (r: Group)
        ensures
            r == (Group { position: Some(position), ..self }),
    {
        Group { position: Some(position), ..self }
    }

    pub fn layout(self, layout: Layout) -> (r: Group)
        ensures
            r == (Group { layout, ..self }),
    {
        Group { layout, ..self }
    }

    pub fn draggable(self, draggable: bool) -> (r: Group)
        ensures
            r == (Group { draggable, ..self }),
    {
        Group { draggable, ..self }
    }

    pub fn hoverable(self, hoverable: bool) -> (r: Group)
        ensures
            r == (Group { hoverable, ..self }),
    {
        Group { hoverable, ..self }
    }

    pub fn highlight(self, highlight: bool) -> (r: Group)
        ensures
            r == (Group { highlight, ..self }),
    {
        Group { highlight, ..self }
    }

    /// The layout the parent's cursor places the group with.
    pub open spec fn placement(self) -> Layout {
        match self.position {
            Some(p) => Layout::Free(p),
            None => self.layout,
        }
    }

    /// Where the group goes inside the current window of `ui`.
    pub open spec fn spec_pos(self, ui: Ui, a: Id) -> Vec2 {
        ui.window(a).cursor.spec_fit_pos(self.size, self.placement())
    }

    /// Whether the pointer is over a group placed at `pos` that reacts to it.
    pub open spec fn spec_hovered(self, ui: Ui, pos: Vec2) -> bool {
        (self.hoverable || self.draggable) && (Rect {
            x: pos.x,
            y: pos.y,
            w: self.size.x,
            h: self.size.y,
        }).spec_contains(ui.input.mouse_position)
    }

    /// Begins the group inside the current window: it is recorded among the parent's
    /// children, placed by the parent's cursor, begun as a child window (clipped to the
    /// parent), runs the drag machine when draggable, and draws its border. Outside of any window nothing happens.
    pub fn begin(self, ui: &mut Ui) -> (r: GroupToken)
        requires
            old(ui).wf(),
        ensures
            final(ui).wf(),
            r.draggable == self.draggable,
            r.size == self.size,
            match old(ui).active_window {
                Some(a) => {
                    let pos = self.spec_pos(*old(ui), a);
                    let hovered = self.spec_hovered(*old(ui), pos);
                    let frame = PointerFrame {
                        position: old(ui).input.mouse_position,
                        is_mouse_down: old(ui).input.is_mouse_down,
                        click_down: old(ui).input.click_down,
                        hovered,
                    };
                    let step = spec_drag_step(
                        old(ui).dragging,
                        self.id,
                        self.draggable,
                        frame,
                        old(ui).drag_hovered_previous_frame,
                    );
                    &&& r.begun
                    &&& r.pos == pos
                    &&& r.drag == step.drag
                    &&& final(ui).dragging == step.dragging
                    &&& final(ui).drag_hovered == if step.drop_target {
                        Some(self.id)
                    } else {
                        old(ui).drag_hovered
                    }
                    &&& final(ui).active_window == Some(self.id)
                    &&& final(ui).has_window(self.id)
                    &&& final(ui).window(self.id).active
                    &&& (self.id != a ==> final(ui).window(self.id).position == pos)
                    &&& final(ui).child_window_stack@ == old(ui).child_window_stack@.push(a)
                    &&& (self.id != a ==> final(ui).window(a).childs@ == old(ui).window(
                        a,
                    ).childs@.push(self.id))
                },
                None => {
                    &&& !r.begun
                    &&& r.drag == Drag::No
                    &&& *final(ui) == *old(ui)
                },
            },
    {
        let parent = match ui.get_active_window_context() {
            Some(c) => c,
            None => {
                return GroupToken {
                    draggable: self.draggable,
                    drag: Drag::No,
                    pos: Vec2::zero(),
                    size: self.size,
                    begun: false,
                };
            },
        };
        let pi = parent.index;
        let parent_id = ui.windows[pi].id;
        let ghost a = ui.active_window.unwrap();
        assert(ui.window_index@.contains_key(a));
        ui.add_child(pi, self.id);
        let ghost kids = ui.windows@[pi as int].childs@;
        let placement = match self.position {
            Some(p) => Layout::Free(p),
            None => self.layout,
        };
        let pos = ui.fit_in(pi, self.size, placement);
        let rect = Rect::from_parts(pos, self.size);
        assert(ui.windows@[pi as int].childs@ == kids);
        assert(ui.has_window(a));
        let ctx = ui.begin_window(self.id, Some(parent_id), pos, self.size, false);
        assert(ui.has_window(a));
        assert(self.id != a ==> ui.window(a).childs@ == kids);
        let hovered = (self.hoverable || self.draggable) && rect.contains(ui.input.mouse_position);
        let frame = PointerFrame {
            position: ui.input.mouse_position,
            is_mouse_down: ui.input.is_mouse_down,
            click_down: ui.input.click_down,
            hovered,
        };
        let step = drag_step(ui.dragging, self.id, self.draggable, frame, ui.drag_hovered_previous_frame);
        ui.dragging = step.dragging;
        if step.drop_target {
            ui.drag_hovered = Some(self.id);
        }
        proof {
            if self.id != a {
                assert(ui.window_index@.contains_key(a));
                assert(ui.window_index@.contains_key(self.id));
                assert(ui.windows@[ui.window_index@[a] as int].id == a);
                assert(ui.windows@[ui.window_index@[self.id] as int].id == self.id);
                assert(ui.window_index@[a] != ctx.index);
            }
        }
        ui.scroll_area(ctx);
        assert(self.id != a ==> ui.window(a).childs@ == kids);
        let clip_rect = ui.windows[ctx.index].content_rect();
        ui.clip_in(ctx.index, Some(clip_rect));
        assert(self.id != a ==> ui.window(a).childs@ == kids);
        let border = ui.style.drag_border(ctx.focused, hovered, self.highlight);
        ui.draw_rect_in(ctx.index, rect, Some(border), None);
        assert(self.id != a ==> ui.window(a).childs@ == kids);
        GroupToken { draggable: self.draggable, drag: step.drag, pos, size: self.size, begun: true }
    }
}

impl GroupToken {
    /// Ends the group: its clipping is lifted and the parent becomes current again.
    pub fn end(self, ui: &mut Ui) -> (r: Drag)
        requires
            old(ui).wf(),
        ensures
            r == self.drag,
            final(ui).wf(),
            self.begun ==> final(ui).active_window == if old(ui).child_window_stack@.len() > 0 {
                Some(old(ui).child_window_stack@.last())
            } else {
                None
            },
            !self.begun ==> *final(ui) == *old(ui),
    {
        if self.begun {
            if let Some(ctx) = ui.get_active_window_context() {
                ui.clip_in(ctx.index, None);
            }
            ui.end_window();
        }
        self.drag
    }
}

} // verus!
