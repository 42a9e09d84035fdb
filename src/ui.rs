//! The window registry and frame lifecycle: windows keyed by id, focus order,
//! input routing, drag state and the render pass.
use vstd::prelude::*;

use rustc_hash::FxHashMap;

use crate::cursor::{clamp_to, Cursor, Layout, Scroll};
use crate::drag::DragState;
use crate::draw_list::{
    clip_admits, clip_admits_line, label_probe, CommandView, DrawCommand, DrawList, LabelParams,
};
use crate::scroll_bar::{scroll_bar, spec_scroll_bar, ScrollInput};
use crate::input::Input;
use crate::style::Style;
use crate::types::{sat, saturate, Color, Rect, Vec2};
use crate::widgets::editbox::text_editor::EditboxState;
use crate::Id;

verus! {

/// Relies on `HashMap::get` on rustc_hash's `FxHashMap`: the value stored under the key, if any.
#[verifier::external_body]
fn fx_get<V: Copy>(m: &FxHashMap<Id, V>, k: Id) -> (r: Option<V>)
    ensures
        r == (if m@.contains_key(k) {
            Some(m@[k])
        } else {
            None
        }),
{
    m.get(&k).copied()
}

/// Relies on `HashMap::insert` on rustc_hash's `FxHashMap`: afterwards the key maps to
/// the value and every other key to what it mapped to before.
#[verifier::external_body]
fn fx_insert<V>(m: &mut FxHashMap<Id, V>, k: Id, v: V)
    ensures
        final(m)@ == old(m)@.insert(k, v),
{
    m.insert(k, v);
}

/// The hasher builder of rustc_hash's `FxHashMap`, held as an opaque type.
#[verifier::external_type_specification]
#[verifier::external_body]
#[verifier::reject_recursive_types(H)]
pub struct ExBuildHasherDefault<H>(std::hash::BuildHasherDefault<H>);

/// rustc_hash's hasher, held as an opaque type.
#[verifier::external_type_specification]
#[verifier::external_body]
pub struct ExFxHasher(rustc_hash::FxHasher);


/// Each window stands in the index at its own position, and each indexed id names
/// the window at the position it maps to.
pub open spec fn index_agrees(windows: Seq<Window>, index: Map<Id, usize>) -> bool {
    &&& forall|i: int|
        0 <= i < windows.len() ==> {
            &&& #[trigger] index.contains_key(windows[i].id)
            &&& index[windows[i].id] == i
        }
    &&& forall|k: Id|
        (#[trigger] index.contains_key(k)) ==> {
            &&& index[k] < windows.len()
            &&& windows[index[k] as int].id == k
        }
}

/// Changing windows without changing their ids keeps the index in agreement.
pub proof fn lemma_same_ids(w1: Seq<Window>, w2: Seq<Window>, index: Map<Id, usize>)
    requires
        index_agrees(w1, index),
        w1.len() == w2.len(),
        forall|i: int| 0 <= i < w1.len() ==> #[trigger] w2[i].id == w1[i].id,
    ensures
        index_agrees(w2, index),
{
    assert forall|i: int| 0 <= i < w2.len() implies {
        &&& #[trigger] index.contains_key(w2[i].id)
        &&& index[w2[i].id] == i
    } by {
        assert(w2[i].id == w1[i].id);
        assert(index.contains_key(w1[i].id));
    }
    assert forall|k: Id| (#[trigger] index.contains_key(k)) implies {
        &&& index[k] < w2.len()
        &&& w2[index[k] as int].id == k
    } by {
        assert(w2[index[k] as int].id == w1[index[k] as int].id);
    }
}

/// The scroll state after its position is clamped to last frame's content.
pub open spec fn clamped_scroll(s: Scroll) -> Scroll {
    Scroll {
        rect: Rect { y: clamp_to(s.rect.y as int, s.min_scroll(), s.max_scroll()) as i32, ..s.rect },
        ..s
    }
}

/// Window `w` begun in this frame with `size`, moved to `position` when one is given.
pub open spec fn activated(w: Window, size: Vec2, position: Option<Vec2>) -> Window {
    let moved = match position {
        Some(p) => Window {
            position: p,
            cursor: Cursor {
                area: Rect { x: p.x, y: sat(p.y + w.title_height) as i32, ..w.cursor.area },
                ..w.cursor
            },
            ..w
        },
        None => w,
    };
    Window { size, want_close: false, active: true, ..moved }
}

/// The commands as plain values.
pub open spec fn views(s: Seq<DrawCommand>) -> Seq<CommandView> {
    s.map_values(|c: DrawCommand| c@)
}

/// `v` is window `w` at the start of the next frame.
pub open spec fn next_frame_window(w: Window, v: Window) -> bool {
    &&& v.id == w.id
    &&& v.parent == w.parent
    &&& v.position == w.position
    &&& v.size == w.size
    &&& v.title_height == w.title_height
    &&& v.was_active == w.active
    &&& !v.active
    &&& v.draw_list.log().len() == 0
    &&& v.draw_list.clipping_zone.is_none()
    &&& v.cursor == w.cursor.spec_reset()
    &&& v.childs@.len() == 0
    &&& v.want_close == w.want_close
    &&& v.input_focus == w.input_focus
    &&& v.movable == w.movable
    &&& v.force_focus == w.force_focus
}

/// A window: its place, its layout cursor, its recorded draw commands and its children.
#[derive(Debug)]
pub struct Window {
    pub id: Id,
    pub parent: Option<Id>,
    pub visible: bool,
    pub was_active: bool,
    pub active: bool,
    pub title_height: i32,
    pub position: Vec2,
    pub size: Vec2,
    pub draw_list: DrawList,
    pub cursor: Cursor,
    pub childs: Vec<Id>,
    pub want_close: bool,
    pub input_focus: Option<Id>,
    pub movable: bool,
    /// Whether the window always has the focus: the root window and its descendants.
    pub force_focus: bool,
}

/// The part of a window below its title bar.
pub open spec fn content_area(position: Vec2, size: Vec2, title_height: i32) -> Rect {
    Rect {
        x: position.x,
        y: sat(position.y + title_height) as i32,
        w: size.x,
        h: sat(size.y - title_height) as i32,
    }
}

impl Window {
    /// Whether the window was drawn last frame or has been begun in this one.
    pub open spec fn shown(self) -> bool {
        self.was_active || self.active
    }

    pub open spec fn spec_top_level(self) -> bool {
        self.parent.is_none()
    }

    pub open spec fn spec_full_rect(self) -> Rect {
        Rect { x: self.position.x, y: self.position.y, w: self.size.x, h: self.size.y }
    }

    pub open spec fn spec_content_rect(self) -> Rect {
        content_area(self.position, self.size, self.title_height)
    }

    pub open spec fn spec_title_rect(self) -> Rect {
        Rect { x: self.position.x, y: self.position.y, w: self.size.x, h: self.title_height }
    }

    /// A new window, not yet active, with an empty draw list and no children.
    pub fn new(
        id: Id,
        parent: Option<Id>,
        position: Vec2,
        size: Vec2,
        title_height: i32,
        margin: i32,
        movable: bool,
    ) -> (r: Window)
        ensures
            r.id == id,
            r.parent == parent,
            r.visible,
            !r.was_active,
            !r.active,
            r.title_height == title_height,
            r.position == position,
            r.size == size,
            r.draw_list.log().len() == 0,
            r.draw_list.clipping_zone.is_none(),
            r.cursor == Cursor::spec_new(content_area(position, size, title_height), margin),
            r.childs@.len() == 0,
            !r.want_close,
            r.input_focus.is_none(),
            r.movable == movable,
            !r.force_focus,
    {
        let area = Rect::new(
            position.x,
            saturate(position.y as i64 + title_height as i64),
            size.x,
            saturate(size.y as i64 - title_height as i64),
        );
        Window {
            id,
            parent,
            visible: true,
            was_active: false,
            active: false,
            title_height,
            position,
            size,
            draw_list: DrawList::new(),
            cursor: Cursor::new(area, margin),
            childs: Vec::new(),
            want_close: false,
            input_focus: None,
            movable,
            force_focus: false,
        }
    }

    /// Whether the window has no parent.
    pub fn top_level(&self) -> (r: bool)
        ensures
            r == self.spec_top_level(),
    {
        self.parent.is_none()
    }

    /// The whole window, title bar included.
    pub fn full_rect(&self) -> (r: Rect)
        ensures
            r == self.spec_full_rect(),
    {
        Rect::new(self.position.x, self.position.y, self.size.x, self.size.y)
    }

    /// The window below its title bar.
    pub fn content_rect(&self) -> (r: Rect)
        ensures
            r == self.spec_content_rect(),
    {
        Rect::new(
            self.position.x,
            saturate(self.position.y as i64 + self.title_height as i64),
            self.size.x,
            saturate(self.size.y as i64 - self.title_height as i64),
        )
    }

    /// The title bar.
    pub fn title_rect(&self) -> (r: Rect)
        ensures
            r == self.spec_title_rect(),
    {
        Rect::new(self.position.x, self.position.y, self.size.x, self.title_height)
    }

    /// Moves the window, and its layout area with it.
    pub fn set_position(&mut self, position: Vec2)
        ensures
            final(self).position == position,
            final(self).cursor == (Cursor {
                area: Rect {
                    x: position.x,
                    y: sat(position.y + old(self).title_height) as i32,
                    ..old(self).cursor.area
                },
                ..old(self).cursor
            }),
            final(self).id == old(self).id,
            final(self).parent == old(self).parent,
            final(self).was_active == old(self).was_active,
            final(self).active == old(self).active,
            final(self).size == old(self).size,
            final(self).title_height == old(self).title_height,
            final(self).draw_list == old(self).draw_list,
            final(self).childs == old(self).childs,
            final(self).want_close == old(self).want_close,
            final(self).movable == old(self).movable,
            final(self).force_focus == old(self).force_focus,
            final(self).input_focus == old(self).input_focus,
            final(self).visible == old(self).visible,
    {
        self.position = position;
        self.cursor.area.x = position.x;
        self.cursor.area.y = saturate(position.y as i64 + self.title_height as i64);
    }
}

/// The id of the root window: the implicit window that holds widgets placed outside
/// of any other window.
pub const ROOT_WINDOW: Id = 0xffff_ffff_ffff_ffff;

/// The window that a widget call works in, as an index into the registry, and
/// whether that window has the focus.
#[derive(Copy, Clone, Debug)]
pub struct WindowContext {
    pub index: usize,
    pub focused: bool,
}

/// The state of the whole user interface across frames.
pub struct Ui {
    pub input: Input,
    pub style: Style,
    pub frame: u64,
    /// The clock, in milliseconds, advanced by each frame's duration.
    pub time_ms: u64,
    /// The top-level window being moved by its title bar, and the pointer's offset from its corner.
    pub moving: Option<(Id, Vec2)>,
    /// Every window ever begun, in order of creation.
    pub windows: Vec<Window>,
    /// Where each window stands in `windows`.
    pub window_index: FxHashMap<Id, usize>,
    /// Top-level windows, the topmost first.
    pub windows_focus_order: Vec<Id>,
    /// Small per-id state kept for widgets across frames.
    pub storage: FxHashMap<Id, u32>,
    pub dragging: Option<(Id, DragState)>,
    pub drag_hovered: Option<Id>,
    pub drag_hovered_previous_frame: Option<Id>,
    pub active_window: Option<Id>,
    pub child_window_stack: Vec<Id>,
    /// The top-level window under the pointer, if any.
    pub hovered_window: Option<Id>,
    /// The modal window, drawn above all others and always focused.
    pub modal: Option<Id>,
    /// The editing state of each edit box, kept across frames.
    pub editbox_states: FxHashMap<Id, EditboxState>,
}

impl Ui {
    /// Whether a window with this id exists.
    pub open spec fn has_window(self, id: Id) -> bool {
        self.window_index@.contains_key(id)
    }

    /// The window with this id.
    pub open spec fn window(self, id: Id) -> Window {
        self.windows@[self.window_index@[id] as int]
    }

    /// `window_index` and `windows` agree.
    pub open spec fn indexed(self) -> bool {
        index_agrees(self.windows@, self.window_index@)
    }

    /// The registry's invariant: the index agrees with the windows, and every id that
    /// the focus order, the window stack and the active window name exists.
    pub open spec fn wf(self) -> bool {
        &&& self.indexed()
        &&& forall|j: int|
            0 <= j < self.windows_focus_order@.len() ==> #[trigger] self.window_index@.contains_key(
                self.windows_focus_order@[j],
            )
        &&& forall|j: int|
            0 <= j < self.child_window_stack@.len() ==> #[trigger] self.window_index@.contains_key(
                self.child_window_stack@[j],
            )
        &&& match self.active_window {
            Some(a) => self.window_index@.contains_key(a),
            None => true,
        }
        &&& match self.modal {
            Some(m) => self.window_index@.contains_key(m),
            None => true,
        }
        &&& self.window_index@.contains_key(ROOT_WINDOW)
    }

    /// The first window in focus order, from position `j` on, that is shown.
    pub open spec fn first_shown_from(self, j: int) -> Option<Id>
        decreases self.windows_focus_order@.len() - j,
    {
        if j < 0 || j >= self.windows_focus_order@.len() {
            None
        } else if self.window(self.windows_focus_order@[j]).shown() {
            Some(self.windows_focus_order@[j])
        } else {
            self.first_shown_from(j + 1)
        }
    }

    /// Whether window `id` has the focus while `stack` holds the enclosing windows:
    /// it is the first shown window in focus order, or its nearest enclosing window is.
    pub open spec fn focused_under(self, id: Id, stack: Seq<Id>) -> bool {
        match self.first_shown_from(0) {
            Some(f) => id == f || (stack.len() > 0 && stack.last() == f),
            None => false,
        }
    }

    /// Whether window `id` has the focus: the modal window, the root window and the
    /// root's descendants always have it.
    pub open spec fn spec_is_focused(self, id: Id) -> bool {
        ||| self.modal == Some(id)
        ||| (self.has_window(id) && self.window(id).force_focus)
        ||| self.focused_under(id, self.child_window_stack@)
    }

    /// An interface with only the root window, no input and the given style; the
    /// root window is current.
    pub fn new(style: Style) -> (r: Ui)
        ensures
            r.wf(),
            r.windows@.len() == 1,
            r.window_index@ == map![ROOT_WINDOW => 0usize],
            r.window(ROOT_WINDOW).force_focus,
            r.window(ROOT_WINDOW).active,
            r.window(ROOT_WINDOW).parent.is_none(),
            r.window(ROOT_WINDOW).position == (Vec2 { x: 0, y: 0 }),
            r.window(ROOT_WINDOW).size == (Vec2 { x: i32::MAX, y: i32::MAX }),
            r.windows_focus_order@.len() == 0,
            r.storage@ == Map::<Id, u32>::empty(),
            r.editbox_states@ == Map::<Id, EditboxState>::empty(),
            r.style == style,
            r.frame == 0,
            r.time_ms == 0,
            r.moving.is_none(),
            r.dragging.is_none(),
            r.drag_hovered.is_none(),
            r.drag_hovered_previous_frame.is_none(),
            r.active_window == Some(ROOT_WINDOW),
            r.child_window_stack@.len() == 0,
            r.hovered_window.is_none(),
            r.modal.is_none(),
            !r.input.is_mouse_down,
            r.input.transient_cleared(),
    {
        let mut root = Window::new(
            ROOT_WINDOW,
            None,
            Vec2::zero(),
            Vec2::new(i32::MAX, i32::MAX),
            0,
            style.margin,
            false,
        );
        root.force_focus = true;
        root.active = true;
        let mut windows: Vec<Window> = Vec::new();
        windows.push(root);
        let mut window_index: FxHashMap<Id, usize> = FxHashMap::default();
        fx_insert(&mut window_index, ROOT_WINDOW, 0);
        let r = Ui {
            input: Input::default(),
            style,
            frame: 0,
            time_ms: 0,
            moving: None,
            windows,
            window_index,
            windows_focus_order: Vec::new(),
            storage: FxHashMap::default(),
            dragging: None,
            drag_hovered: None,
            drag_hovered_previous_frame: None,
            active_window: Some(ROOT_WINDOW),
            child_window_stack: Vec::new(),
            hovered_window: None,
            modal: None,
            editbox_states: FxHashMap::default(),
        };
        proof {
            assert(r.window_index@ =~= map![ROOT_WINDOW => 0usize]);
            assert(r.window_index@.contains_key(ROOT_WINDOW));
        }
        r
    }

    /// Where the window with this id stands in `windows`, if it exists.
    pub fn find_window(&self, id: Id) -> (r: Option<usize>)
        requires
            self.wf(),
        ensures
            r == (if self.has_window(id) {
                Some(self.window_index@[id])
            } else {
                None
            }),
            r matches Some(i) ==> i < self.windows@.len() && self.windows@[i as int].id == id,
    {
        fx_get(&self.window_index, id)
    }

    /// Whether window `id` has the focus.
    pub fn is_focused(&self, id: Id) -> (r: bool)
        requires
            self.wf(),
        ensures
            r == self.spec_is_focused(id),
    {
        if let Some(m) = self.modal {
            if m == id {
                return true;
            }
        }
        if let Some(i) = self.find_window(id) {
            if self.windows[i].force_focus {
                return true;
            }
        }
        match self.first_shown() {
            Some(f) => {
                if id == f {
                    return true;
                }
                if self.child_window_stack.len() > 0 {
                    return self.child_window_stack[self.child_window_stack.len() - 1] == f;
                }
                false
            },
            None => false,
        }
    }

    /// The first window in focus order that is shown.
    fn first_shown(&self) -> (r: Option<Id>)
        requires
            self.wf(),
        ensures
            r == self.first_shown_from(0),
    {
        let mut j: usize = 0;
        while j < self.windows_focus_order.len()
            invariant
                self.wf(),
                j <= self.windows_focus_order@.len(),
                self.first_shown_from(0) == self.first_shown_from(j as int),
            decreases self.windows_focus_order@.len() - j,
        {
            let id = self.windows_focus_order[j];
            assert(self.has_window(id));
            let i = self.window_index_of(id);
            if self.windows[i].was_active || self.windows[i].active {
                return Some(id);
            }
            j += 1;
        }
        None
    }

    /// Where an existing window stands in `windows`.
    fn window_index_of(&self, id: Id) -> (r: usize)
        requires
            self.wf(),
            self.has_window(id),
        ensures
            r == self.window_index@[id],
            r < self.windows@.len(),
            self.windows@[r as int].id == id,
    {
        match self.find_window(id) {
            Some(i) => i,
            None => 0,
        }
    }

    /// The window stack after a window is begun inside the active one.
    pub open spec fn pushed_stack(self) -> Seq<Id> {
        match self.active_window {
            Some(a) => self.child_window_stack@.push(a),
            None => self.child_window_stack@,
        }
    }

    /// Begins window `id` for this frame, creating it on first use, and makes it the
    /// window that widget calls work in. A top-level window (`parent` is `None`) keeps
    /// the position it has (only a move changes it); a child window is placed at
    /// `position` every frame and clipped to its parent's content rect. Recording the
    /// child among its parent's children is the caller's part (`add_child`).
    #[verifier::rlimit(80)]
    #[verifier::spinoff_prover]
    pub fn begin_window(
        &mut self,
        id: Id,
        parent: Option<Id>,
        position: Vec2,
        size: Vec2,
        movable: bool,
    ) -> (r: WindowContext)
        requires
            old(self).wf(),
        ensures
            final(self).wf(),
            final(self).has_window(id),
            r.index == final(self).window_index@[id],
            r.focused == final(self).spec_is_focused(id),
            !old(self).has_window(id) ==> final(self).window(id).force_focus == match parent {
                Some(p) => old(self).has_window(p) && old(self).window(p).force_focus,
                None => false,
            },
            old(self).has_window(id) ==> final(self).window(id).force_focus == old(self).window(
                id,
            ).force_focus,
            final(self).modal == old(self).modal,
            final(self).active_window == Some(id),
            final(self).child_window_stack@ == old(self).pushed_stack(),
            final(self).windows_focus_order@ == if !old(self).has_window(id) && parent.is_none() {
                old(self).windows_focus_order@.push(id)
            } else {
                old(self).windows_focus_order@
            },
            final(self).window(id).active,
            final(self).window(id).size == size,
            !final(self).window(id).want_close,
            final(self).window(id).was_active == (old(self).has_window(id) && old(self).window(
                id,
            ).was_active),
            old(self).has_window(id) ==> final(self).window(id).parent == old(self).window(id).parent,
            !old(self).has_window(id) ==> final(self).window(id).parent == parent,
            parent.is_some() || !old(self).has_window(id) ==> final(self).window(id).position
                == position,
            parent.is_none() && old(self).has_window(id) ==> final(self).window(id).position
                == old(self).window(id).position,
            forall|k: Id| #[trigger] final(self).has_window(k) <==> (old(self).has_window(k) || k == id),
            forall|k: Id|
                old(self).has_window(k) && k != id ==> #[trigger] final(self).window(k) == old(
                    self,
                ).window(k),
            !old(self).has_window(id) ==> final(self).window(id).cursor == Cursor::spec_new(
                content_area(
                    position,
                    size,
                    if parent.is_none() {
                        old(self).style.title_height
                    } else {
                        0
                    },
                ),
                old(self).style.margin,
            ),
            old(self).has_window(id) ==> final(self).window(id).cursor.scroll == old(self).window(
                id,
            ).cursor.scroll,
            ({
                let before_log = if old(self).has_window(id) {
                    old(self).window(id).draw_list.log()
                } else {
                    Seq::<CommandView>::empty()
                };
                let before_zone = if old(self).has_window(id) {
                    old(self).window(id).draw_list.clipping_zone
                } else {
                    None
                };
                match parent {
                    Some(p) => if old(self).has_window(p) && p != id {
                        let clip = Some(old(self).window(p).spec_content_rect());
                        &&& final(self).window(id).draw_list.clipping_zone == clip
                        &&& final(self).window(id).draw_list.log() == before_log.push(
                            CommandView::Clip { rect: clip },
                        )
                    } else {
                        &&& final(self).window(id).draw_list.clipping_zone == before_zone
                        &&& final(self).window(id).draw_list.log() == before_log
                    },
                    None => {
                        &&& final(self).window(id).draw_list.clipping_zone == before_zone
                        &&& final(self).window(id).draw_list.log() == before_log
                    },
                }
            }),
            final(self).input == old(self).input,
            final(self).style == old(self).style,
            final(self).dragging == old(self).dragging,
            final(self).drag_hovered == old(self).drag_hovered,
            final(self).drag_hovered_previous_frame == old(self).drag_hovered_previous_frame,
            final(self).modal == old(self).modal,
            final(self).storage == old(self).storage,
            final(self).moving == old(self).moving,
    {
        if let Some(active_window) = self.active_window {
            self.child_window_stack.push(active_window);
        }
        proof {
            assert forall|j: int| 0 <= j < self.child_window_stack@.len() implies #[trigger] self.window_index@.contains_key(
                self.child_window_stack@[j],
            ) by {
                if j < old(self).child_window_stack@.len() {
                    assert(self.child_window_stack@[j] == old(self).child_window_stack@[j]);
                    assert(old(self).has_window(old(self).child_window_stack@[j]));
                }
            }
        }
        let inherit = match parent {
            Some(p) => match self.find_window(p) {
                Some(pi) => self.windows[pi].force_focus,
                None => false,
            },
            None => false,
        };
        let title_height = if parent.is_none() {
            self.style.title_height
        } else {
            0
        };
        let margin = self.style.margin;
        let idx = match self.find_window(id) {
            Some(i) => i,
            None => {
                let mut w = Window::new(id, parent, position, size, title_height, margin, movable);
                w.force_focus = inherit;
                self.register_window(w, parent.is_none())
            },
        };
        let ghost mid = *self;
        self.activate_window(
            idx,
            size,
            if parent.is_some() {
                Some(position)
            } else {
                None
            },
        );
        proof {
            assert forall|k: Id| mid.has_window(k) && k != id implies #[trigger] self.window(k)
                == mid.window(k) by {
                assert(mid.window_index@[k] != idx);
            }
        }
        if let Some(p) = parent {
            if let Some(pi) = self.find_window(p) {
                if pi != idx {
                    let parent_rect = self.windows[pi].content_rect();
                    let ghost mid2 = *self;
                    self.clip_in(idx, Some(parent_rect));
                    proof {
                        assert forall|k: Id| mid2.has_window(k) && k != id implies #[trigger] self.window(
                            k,
                        ) == mid2.window(k) by {
                            assert(mid2.window_index@[k] != idx);
                        }
                    }
                }
            }
        }
        self.active_window = Some(id);
        let focused = self.is_focused(id);
        WindowContext { index: idx, focused }
    }

    /// Marks the window at position `idx` begun this frame with `size`, moving it to
    /// `position` when one is given.
    fn activate_window(&mut self, idx: usize, size: Vec2, position: Option<Vec2>)
        requires
            old(self).wf(),
            idx < old(self).windows@.len(),
        ensures
            final(self).wf(),
            final(self).windows@ == old(self).windows@.update(
                idx as int,
                activated(old(self).windows@[idx as int], size, position),
            ),
            *final(self) == (Ui { windows: final(self).windows, ..*old(self) }),
    {
        self.windows[idx].size = size;
        self.windows[idx].want_close = false;
        self.windows[idx].active = true;
        if let Some(p) = position {
            self.windows[idx].set_position(p);
        }
        proof {
            assert(self.windows@ =~= old(self).windows@.update(
                idx as int,
                activated(old(self).windows@[idx as int], size, position),
            ));
            assert forall|i2: int| 0 <= i2 < self.windows@.len() implies #[trigger] self.windows@[i2].id
                == old(self).windows@[i2].id by {}
            lemma_same_ids(old(self).windows@, self.windows@, self.window_index@);
            lemma_wf_kept(*old(self), Ui { windows: old(self).windows, ..*self });
        }
    }

    /// Adds a window not yet registered, at the end of `windows`; a top-level window
    /// also goes to the back of the focus order.
    fn register_window(&mut self, w: Window, top_level: bool) -> (r: usize)
        requires
            old(self).wf(),
            !old(self).has_window(w.id),
        ensures
            final(self).wf(),
            r == old(self).windows@.len(),
            final(self).windows@ == old(self).windows@.push(w),
            final(self).window_index@ == old(self).window_index@.insert(w.id, r),
            final(self).has_window(w.id),
            final(self).window(w.id) == w,
            forall|k: Id| #[trigger] final(self).has_window(k) <==> (old(self).has_window(k) || k == w.id),
            forall|k: Id| old(self).has_window(k) ==> #[trigger] final(self).window(k) == old(self).window(k),
            final(self).windows_focus_order@ == if top_level {
                old(self).windows_focus_order@.push(w.id)
            } else {
                old(self).windows_focus_order@
            },
            final(self).input == old(self).input,
            final(self).style == old(self).style,
            final(self).dragging == old(self).dragging,
            final(self).drag_hovered == old(self).drag_hovered,
            final(self).drag_hovered_previous_frame == old(self).drag_hovered_previous_frame,
            final(self).modal == old(self).modal,
            final(self).storage == old(self).storage,
            final(self).moving == old(self).moving,
            final(self).active_window == old(self).active_window,
            final(self).child_window_stack == old(self).child_window_stack,
    {
        let ghost before = *self;
        let id = w.id;
        let i = self.windows.len();
        self.windows.push(w);
        fx_insert(&mut self.window_index, id, i);
        if top_level {
            self.windows_focus_order.push(id);
        }
        proof {
            assert forall|k: Id| #[trigger]
                self.window_index@.contains_key(k) implies {
                &&& self.window_index@[k] < self.windows@.len()
                &&& self.windows@[self.window_index@[k] as int].id == k
            } by {
                if k != id {
                    assert(before.window_index@.contains_key(k));
                }
            }
            assert forall|i2: int| 0 <= i2 < self.windows@.len() implies {
                &&& #[trigger] self.window_index@.contains_key(self.windows@[i2].id)
                &&& self.window_index@[self.windows@[i2].id] == i2
            } by {
                if i2 < before.windows@.len() {
                    assert(self.windows@[i2] == before.windows@[i2]);
                    assert(before.window_index@.contains_key(before.windows@[i2].id));
                }
            }
            assert forall|j: int| 0 <= j < self.windows_focus_order@.len() implies #[trigger] self.window_index@.contains_key(
                self.windows_focus_order@[j],
            ) by {
                if j < before.windows_focus_order@.len() {
                    assert(self.windows_focus_order@[j] == before.windows_focus_order@[j]);
                    assert(before.has_window(before.windows_focus_order@[j]));
                }
            }
            assert forall|j: int| 0 <= j < self.child_window_stack@.len() implies #[trigger] self.window_index@.contains_key(
                self.child_window_stack@[j],
            ) by {
                assert(before.has_window(before.child_window_stack@[j]));
            }
            assert(self.indexed());
            assert forall|k: Id| before.has_window(k) implies #[trigger] self.window(k)
                == before.window(k) by {
                assert(before.window_index@[k] < before.windows@.len());
            }
        }
        i
    }

    /// Ends the current window; the window it was begun in becomes current again.
    pub fn end_window(&mut self)
        requires
            old(self).wf(),
        ensures
            final(self).wf(),
            old(self).child_window_stack@.len() == 0 ==> final(self).active_window.is_none()
                && final(self).child_window_stack@ == old(self).child_window_stack@,
            old(self).child_window_stack@.len() > 0 ==> final(self).active_window == Some(
                old(self).child_window_stack@.last(),
            ) && final(self).child_window_stack@ == old(self).child_window_stack@.drop_last(),
            final(self).windows == old(self).windows,
            final(self).window_index == old(self).window_index,
            final(self).windows_focus_order == old(self).windows_focus_order,
            final(self).input == old(self).input,
            final(self).modal == old(self).modal,
            final(self).dragging == old(self).dragging,
    {
        self.active_window = self.child_window_stack.pop();
        proof {
            assert forall|j: int| 0 <= j < self.child_window_stack@.len() implies #[trigger] self.window_index@.contains_key(
                self.child_window_stack@[j],
            ) by {
                assert(self.child_window_stack@[j] == old(self).child_window_stack@[j]);
                assert(old(self).has_window(old(self).child_window_stack@[j]));
            }
            if old(self).child_window_stack@.len() > 0 {
                let l = old(self).child_window_stack@.len() - 1;
                assert(old(self).has_window(old(self).child_window_stack@[l]));
                assert(self.active_window == Some(old(self).child_window_stack@[l]));
            }
            assert(self.indexed());
        }
    }

    /// The position in focus order, from `j` on, of the first top-level window drawn
    /// last frame whose rect holds `p`: the window that a press at `p` lands on.
    pub open spec fn hit_from(self, p: Vec2, j: int) -> Option<int>
        decreases self.windows_focus_order@.len() - j,
    {
        if j < 0 || j >= self.windows_focus_order@.len() {
            None
        } else if self.window(self.windows_focus_order@[j]).was_active && self.window(
            self.windows_focus_order@[j],
        ).spec_top_level() && self.window(self.windows_focus_order@[j]).spec_full_rect().spec_contains(p) {
            Some(j)
        } else {
            self.hit_from(p, j + 1)
        }
    }

    /// Whether the modal window was shown last frame and is begun in this one: it then
    /// takes every press.
    pub open spec fn spec_modal_occludes(self) -> bool {
        match self.modal {
            Some(m) => self.has_window(m) && self.window(m).was_active && self.window(m).active,
            None => false,
        }
    }

    /// Where in focus order the window that a press at `p` brings to the front stands:
    /// none while the modal window takes presses.
    pub open spec fn press_target(self, p: Vec2) -> Option<int> {
        if self.spec_modal_occludes() {
            None
        } else {
            self.hit_from(p, 0)
        }
    }

    pub fn modal_occludes(&self) -> (r: bool)
        requires
            self.wf(),
        ensures
            r == self.spec_modal_occludes(),
    {
        match self.modal {
            Some(m) => match self.find_window(m) {
                Some(i) => self.windows[i].was_active && self.windows[i].active,
                None => false,
            },
            None => false,
        }
    }

    /// The top-level window under `p`, if any.
    pub open spec fn window_at(self, p: Vec2) -> Option<Id> {
        match self.hit_from(p, 0) {
            Some(n) => Some(self.windows_focus_order@[n]),
            None => None,
        }
    }

    /// Where in focus order the window that a press at `p` lands on stands.
    fn hit_window(&self, p: Vec2) -> (r: Option<usize>)
        requires
            self.wf(),
        ensures
            match self.hit_from(p, 0) {
                Some(n) => 0 <= n < self.windows_focus_order@.len() && (r matches Some(k) && k == n),
                None => r.is_none(),
            },
    {
        let mut j: usize = 0;
        while j < self.windows_focus_order.len()
            invariant
                self.wf(),
                j <= self.windows_focus_order@.len(),
                self.hit_from(p, 0) == self.hit_from(p, j as int),
            decreases self.windows_focus_order@.len() - j,
        {
            let id = self.windows_focus_order[j];
            assert(self.window_index@.contains_key(self.windows_focus_order@[j as int]));
            let i = self.window_index_of(id);
            let w = &self.windows[i];
            if w.was_active && w.top_level() && w.full_rect().contains(p) {
                return Some(j);
            }
            j += 1;
        }
        None
    }

    /// Records a button press at `position`. The shown top-level window under it comes
    /// to the front of focus order; if the press is on its title bar and it is
    /// movable, it starts moving. A press on empty space changes no order.
    pub fn mouse_down(&mut self, position: Vec2)
        requires
            old(self).wf(),
        ensures
            final(self).wf(),
            final(self).input == (Input {
                is_mouse_down: true,
                click_down: true,
                mouse_position: position,
                ..old(self).input
            }),
            final(self).windows == old(self).windows,
            final(self).window_index == old(self).window_index,
            match old(self).press_target(position) {
                Some(n) => {
                    let id = old(self).windows_focus_order@[n];
                    let w = old(self).window(id);
                    &&& final(self).windows_focus_order@ == old(self).windows_focus_order@.remove(
                        n,
                    ).insert(0, id)
                    &&& final(self).moving == if w.movable && w.spec_title_rect().spec_contains(
                        position,
                    ) {
                        Some((id, position.spec_sub(w.position)))
                    } else {
                        old(self).moving
                    }
                },
                None => {
                    &&& final(self).windows_focus_order@ == old(self).windows_focus_order@
                    &&& final(self).moving == old(self).moving
                },
            },
            final(self).dragging == old(self).dragging,
            final(self).active_window == old(self).active_window,
            final(self).child_window_stack == old(self).child_window_stack,
            final(self).windows_focus_order@.len() == old(self).windows_focus_order@.len(),
            old(self).press_target(position) matches Some(n) ==> final(self).windows_focus_order@[0]
                == old(self).windows_focus_order@[n],
            final(self).modal == old(self).modal,
    {
        let occluded = self.modal_occludes();
        let hit = if occluded {
            None
        } else {
            self.hit_window(position)
        };
        proof {
            lemma_hit_bounds(*self, position, 0);
        }
        self.input.is_mouse_down = true;
        self.input.click_down = true;
        self.input.mouse_position = position;
        if let Some(n) = hit {
            let id = self.windows_focus_order[n];
            let i = self.window_index_of(id);
            if self.windows[i].movable && self.windows[i].title_rect().contains(position) {
                self.moving = Some((id, position.sub(self.windows[i].position)));
            }
            let w = self.windows_focus_order.remove(n);
            self.windows_focus_order.insert(0, w);
            proof {
                let old_order = old(self).windows_focus_order@;
                assert forall|j: int| 0 <= j < self.windows_focus_order@.len() implies #[trigger] self.window_index@.contains_key(
                    self.windows_focus_order@[j],
                ) by {
                    if j == 0 {
                        assert(old(self).window_index@.contains_key(old_order[n as int]));
                    } else if j - 1 < n {
                        assert(self.windows_focus_order@[j] == old_order[j - 1]);
                        assert(old(self).window_index@.contains_key(old_order[j - 1]));
                    } else {
                        assert(self.windows_focus_order@[j] == old_order[j]);
                        assert(old(self).window_index@.contains_key(old_order[j]));
                    }
                }
            }
        }
    }

    /// Records the release of the button; a window move ends.
    pub fn mouse_up(&mut self, _position: Vec2)
        requires
            old(self).wf(),
        ensures
            final(self).wf(),
            final(self).input == (Input { is_mouse_down: false, click_up: true, ..old(self).input }),
            final(self).moving.is_none(),
            final(self).windows == old(self).windows,
            final(self).window_index == old(self).window_index,
            final(self).windows_focus_order == old(self).windows_focus_order,
            final(self).dragging == old(self).dragging,
    {
        self.input.is_mouse_down = false;
        self.input.click_up = true;
        self.moving = None;
        proof {
            lemma_wf_kept(*old(self), *self);
        }
    }

    /// Records a turn of the wheel.
    pub fn mouse_wheel(&mut self, x: i32, y: i32)
        requires
            old(self).wf(),
        ensures
            final(self).wf(),
            final(self).input == (Input { mouse_wheel: Vec2 { x, y }, ..old(self).input }),
            final(self).windows == old(self).windows,
            final(self).window_index == old(self).window_index,
            final(self).windows_focus_order == old(self).windows_focus_order,
            final(self).moving == old(self).moving,
    {
        self.input.mouse_wheel = Vec2::new(x, y);
        proof {
            lemma_wf_kept(*old(self), *self);
        }
    }

    /// Records a pointer move: the hovered window is found again, and a window being
    /// moved follows the pointer.
    pub fn mouse_move(&mut self, position: Vec2)
        requires
            old(self).wf(),
        ensures
            final(self).wf(),
            final(self).input == (Input { mouse_position: position, ..old(self).input }),
            final(self).hovered_window == if old(self).spec_modal_occludes() {
                old(self).modal
            } else {
                old(self).window_at(position)
            },
            final(self).modal == old(self).modal,
            final(self).window_index == old(self).window_index,
            final(self).windows_focus_order == old(self).windows_focus_order,
            final(self).moving == old(self).moving,
            match old(self).moving {
                Some((id, grab)) => old(self).has_window(id) ==> {
                    &&& final(self).window(id).position == position.spec_sub(grab)
                    &&& final(self).window(id).cursor == (Cursor {
                        area: Rect {
                            x: position.spec_sub(grab).x,
                            y: sat(position.spec_sub(grab).y + old(self).window(id).title_height) as i32,
                            ..old(self).window(id).cursor.area
                        },
                        ..old(self).window(id).cursor
                    })
                    &&& final(self).window(id).size == old(self).window(id).size
                    &&& forall|k: Id|
                        k != id && old(self).has_window(k) ==> #[trigger] final(self).window(k)
                            == old(self).window(k)
                },
                None => final(self).windows == old(self).windows,
            },
            final(self).windows@.len() == old(self).windows@.len(),
    {
        let hit = self.hit_window(position);
        proof {
            lemma_hit_bounds(*self, position, 0);
        }
        self.hovered_window = match hit {
            Some(n) => Some(self.windows_focus_order[n]),
            None => None,
        };
        if self.modal_occludes() {
            self.hovered_window = self.modal;
        }

        self.input.mouse_position = position;
        proof {
            lemma_wf_kept(*old(self), *self);
        }
        if let Some((id, grab)) = self.moving {
            if let Some(i) = self.find_window(id) {
                let ghost mid = *self;
                self.windows[i].set_position(position.sub(grab));
                proof {
                    assert forall|k: Id| k != id && mid.has_window(k) implies #[trigger] self.window(k)
                        == mid.window(k) by {
                        assert(mid.window_index@[k] != i);
                    }
                    assert forall|i2: int| 0 <= i2 < self.windows@.len() implies #[trigger] self.windows@[i2].id
                        == mid.windows@[i2].id by {}
                    lemma_same_ids(mid.windows@, self.windows@, self.window_index@);
                }
            }
        }
    }

    /// Queues a typed character for the widget holding keyboard focus.
    pub fn char_event(&mut self, character: char, _shift: bool, _ctrl: bool)
        requires
            old(self).wf(),
        ensures
            final(self).wf(),
            final(self).input.input_buffer@ == old(self).input.input_buffer@.push(
                crate::input::InputCharacter::Char(character),
            ),
            final(self).windows == old(self).windows,
            final(self).window_index == old(self).window_index,
            final(self).windows_focus_order == old(self).windows_focus_order,
    {
        self.input.input_buffer.push(crate::input::InputCharacter::Char(character));
        proof {
            lemma_wf_kept(*old(self), *self);
        }
    }

    /// Queues a control key for the widget holding keyboard focus.
    pub fn key_down(&mut self, key_code: crate::input::KeyCode, shift: bool, _ctrl: bool)
        requires
            old(self).wf(),
        ensures
            final(self).wf(),
            final(self).input.input_buffer@ == old(self).input.input_buffer@.push(
                crate::input::InputCharacter::ControlCode { key_code, modifier_shift: shift },
            ),
            final(self).windows == old(self).windows,
            final(self).window_index == old(self).window_index,
            final(self).windows_focus_order == old(self).windows_focus_order,
    {
        self.input.input_buffer.push(
            crate::input::InputCharacter::ControlCode { key_code, modifier_shift: shift },
        );
        proof {
            lemma_wf_kept(*old(self), *self);
        }
    }

    /// The first position, from `j` on, at which `id` stands in focus order.
    pub open spec fn order_position_from(self, id: Id, j: int) -> Option<int>
        decreases self.windows_focus_order@.len() - j,
    {
        if j < 0 || j >= self.windows_focus_order@.len() {
            None
        } else if self.windows_focus_order@[j] == id {
            Some(j)
        } else {
            self.order_position_from(id, j + 1)
        }
    }

    /// Brings top-level window `id` to the front of focus order; any other id changes nothing.
    pub fn focus_window(&mut self, id: Id)
        requires
            old(self).wf(),
        ensures
            final(self).wf(),
            match old(self).order_position_from(id, 0) {
                Some(n) => final(self).windows_focus_order@ == old(self).windows_focus_order@.remove(
                    n,
                ).insert(0, id),
                None => final(self).windows_focus_order@ == old(self).windows_focus_order@,
            },
            final(self).windows == old(self).windows,
            final(self).window_index == old(self).window_index,
            final(self).input == old(self).input,
    {
        let mut j: usize = 0;
        while j < self.windows_focus_order.len()
            invariant
                self == old(self),
                self.wf(),
                j <= self.windows_focus_order@.len(),
                self.order_position_from(id, 0) == self.order_position_from(id, j as int),
            decreases self.windows_focus_order@.len() - j,
        {
            if self.windows_focus_order[j] == id {
                let ghost before = *self;
                let w = self.windows_focus_order.remove(j);
                self.windows_focus_order.insert(0, w);
                proof {
                    let old_order = before.windows_focus_order@;
                    assert forall|k: int| 0 <= k < self.windows_focus_order@.len() implies #[trigger] self.window_index@.contains_key(
                        self.windows_focus_order@[k],
                    ) by {
                        if k == 0 {
                            assert(before.window_index@.contains_key(old_order[j as int]));
                        } else if k - 1 < j {
                            assert(self.windows_focus_order@[k] == old_order[k - 1]);
                            assert(before.window_index@.contains_key(old_order[k - 1]));
                        } else {
                            assert(self.windows_focus_order@[k] == old_order[k]);
                            assert(before.window_index@.contains_key(old_order[k]));
                        }
                    }
                    lemma_wf_order(before, *self);
                }
                return;
            }
            j += 1;
        }
    }

    /// Moves window `id` to `position`; an unknown id changes nothing.
    pub fn move_window(&mut self, id: Id, position: Vec2)
        requires
            old(self).wf(),
        ensures
            final(self).wf(),
            final(self).window_index == old(self).window_index,
            final(self).windows_focus_order == old(self).windows_focus_order,
            final(self).windows@.len() == old(self).windows@.len(),
            old(self).has_window(id) ==> final(self).window(id).position == position
                && final(self).window(id).size == old(self).window(id).size,
            forall|k: Id|
                k != id && old(self).has_window(k) ==> #[trigger] final(self).window(k) == old(
                    self,
                ).window(k),
            !old(self).has_window(id) ==> final(self).windows == old(self).windows,
    {
        if let Some(i) = self.find_window(id) {
            self.windows[i].set_position(position);
            proof {
                assert forall|k: Id| k != id && old(self).has_window(k) implies #[trigger] self.window(k)
                    == old(self).window(k) by {
                    assert(old(self).window_index@[k] != i);
                }
                assert forall|i2: int| 0 <= i2 < self.windows@.len() implies #[trigger] self.windows@[i2].id
                    == old(self).windows@[i2].id by {}
                lemma_same_ids(old(self).windows@, self.windows@, self.window_index@);
                lemma_wf_kept(
                    *old(self),
                    Ui { windows: old(self).windows, ..*self },
                );
            }
        }
    }

    /// Whether some window drawn last frame covers `mouse_position`.
    pub fn is_mouse_over(&self, mouse_position: Vec2) -> (r: bool)
        requires
            self.wf(),
        ensures
            r == exists|j: int|
                0 <= j < self.windows_focus_order@.len() && #[trigger] self.window(
                    self.windows_focus_order@[j],
                ).was_active && self.window(self.windows_focus_order@[j]).spec_full_rect().spec_contains(
                    mouse_position,
                ),
    {
        let mut j: usize = 0;
        while j < self.windows_focus_order.len()
            invariant
                self.wf(),
                j <= self.windows_focus_order@.len(),
                forall|k: int|
                    0 <= k < j ==> !(#[trigger] self.window(self.windows_focus_order@[k]).was_active
                        && self.window(self.windows_focus_order@[k]).spec_full_rect().spec_contains(
                        mouse_position,
                    )),
            decreases self.windows_focus_order@.len() - j,
        {
            let id = self.windows_focus_order[j];
            assert(self.window_index@.contains_key(self.windows_focus_order@[j as int]));
            let i = self.window_index_of(id);
            if self.windows[i].was_active && self.windows[i].full_rect().contains(mouse_position) {
                assert(self.window(self.windows_focus_order@[j as int]).was_active);
                return true;
            }
            j += 1;
        }
        false
    }

    /// Whether a press or a drag is in progress.
    pub fn is_dragging(&self) -> (r: bool)
        ensures
            r == self.dragging.is_some(),
    {
        self.dragging.is_some()
    }

    /// Whether the window that widget calls work in has the focus.
    pub fn active_window_focused(&self) -> (r: bool)
        requires
            self.wf(),
        ensures
            r == match self.active_window {
                Some(w) => self.spec_is_focused(w),
                None => false,
            },
    {
        match self.active_window {
            Some(w) => self.is_focused(w),
            None => false,
        }
    }

    /// Asks for the current window to be closed; with no current window, nothing happens.
    pub fn close_current_window(&mut self)
        requires
            old(self).wf(),
        ensures
            final(self).wf(),
            final(self).window_index == old(self).window_index,
            final(self).windows_focus_order == old(self).windows_focus_order,
            final(self).windows@.len() == old(self).windows@.len(),
            match old(self).active_window {
                Some(a) => final(self).windows@ == old(self).windows@.update(
                    old(self).window_index@[a] as int,
                    Window { want_close: true, ..old(self).window(a) },
                ),
                None => final(self).windows == old(self).windows,
            },
    {
        if let Some(a) = self.active_window {
            let i = self.window_index_of(a);
            self.windows[i].want_close = true;
            proof {
                assert forall|i2: int| 0 <= i2 < self.windows@.len() implies #[trigger] self.windows@[i2].id
                    == old(self).windows@[i2].id by {}
                lemma_same_ids(old(self).windows@, self.windows@, self.window_index@);
                lemma_wf_kept(
                    *old(self),
                    Ui { windows: old(self).windows, ..*self },
                );
            }
        }
    }

    /// Starts a frame that follows one of `delta_ms` milliseconds: the frame counter
    /// and the clock advance, last frame's drag target is kept
    /// aside, the input forgets its one-frame events, and every window clears its draw
    /// list and children, rewinds its cursor and remembers whether it was active, and
    /// becomes inactive until begun again. The root window becomes current.
    pub fn new_frame(&mut self, delta_ms: u64)
        requires
            old(self).wf(),
        ensures
            final(self).wf(),
            final(self).frame == if old(self).frame < u64::MAX {
                old(self).frame + 1
            } else {
                old(self).frame as int
            },
            final(self).time_ms == if old(self).time_ms + delta_ms <= u64::MAX {
                old(self).time_ms + delta_ms
            } else {
                u64::MAX as int
            },
            final(self).drag_hovered_previous_frame == old(self).drag_hovered,
            final(self).drag_hovered.is_none(),
            final(self).input.transient_cleared(),
            final(self).input.mouse_position == old(self).input.mouse_position,
            final(self).input.is_mouse_down == old(self).input.is_mouse_down,
            final(self).windows@.len() == old(self).windows@.len(),
            forall|i: int|
                0 <= i < final(self).windows@.len() ==> next_frame_window(
                    old(self).windows@[i],
                    #[trigger] final(self).windows@[i],
                ),
            final(self).window_index == old(self).window_index,
            final(self).windows_focus_order == old(self).windows_focus_order,
            final(self).dragging == old(self).dragging,
            final(self).moving == old(self).moving,
            final(self).modal == old(self).modal,
            final(self).style == old(self).style,
            final(self).storage == old(self).storage,
            final(self).editbox_states == old(self).editbox_states,
            final(self).hovered_window == old(self).hovered_window,
            final(self).active_window == Some(ROOT_WINDOW),
            final(self).child_window_stack@.len() == 0,
    {
        if self.frame < u64::MAX {
            self.frame = self.frame + 1;
        }
        self.time_ms = self.time_ms.saturating_add(delta_ms);
        self.drag_hovered_previous_frame = self.drag_hovered;
        self.drag_hovered = None;
        self.input.reset();
        let mut i: usize = 0;
        while i < self.windows.len()
            invariant
                i <= self.windows@.len(),
                self.windows@.len() == old(self).windows@.len(),
                forall|k: int| 0 <= k < i ==> next_frame_window(old(self).windows@[k], #[trigger] self.windows@[k]),
                forall|k: int| i <= k < self.windows@.len() ==> #[trigger] self.windows@[k] == old(self).windows@[k],
                self.window_index == old(self).window_index,
                self.windows_focus_order == old(self).windows_focus_order,
                self.child_window_stack == old(self).child_window_stack,
                self.active_window == old(self).active_window,
                self.modal == old(self).modal,
                self.dragging == old(self).dragging,
                self.moving == old(self).moving,
                self.input.transient_cleared(),
                self.input.mouse_position == old(self).input.mouse_position,
                self.input.is_mouse_down == old(self).input.is_mouse_down,
                self.time_ms == if old(self).time_ms + delta_ms <= u64::MAX {
                    old(self).time_ms + delta_ms
                } else {
                    u64::MAX as int
                },
                self.drag_hovered_previous_frame == old(self).drag_hovered,
                self.drag_hovered.is_none(),
                self.frame == if old(self).frame < u64::MAX {
                    old(self).frame + 1
                } else {
                    old(self).frame as int
                },
                self.style == old(self).style,
                self.storage == old(self).storage,
                self.editbox_states == old(self).editbox_states,
                self.hovered_window == old(self).hovered_window,
            decreases self.windows@.len() - i,
        {
            self.windows[i].draw_list.clear();
            self.windows[i].cursor.reset();
            let active = self.windows[i].active;
            self.windows[i].was_active = active;
            self.windows[i].active = false;
            self.windows[i].childs.clear();
            i += 1;
        }
        proof {
            assert forall|i2: int| 0 <= i2 < self.windows@.len() implies #[trigger] self.windows@[i2].id
                == old(self).windows@[i2].id by {
                assert(next_frame_window(old(self).windows@[i2], self.windows@[i2]));
            }
            lemma_same_ids(old(self).windows@, self.windows@, self.window_index@);
            lemma_wf_kept(*old(self), Ui { windows: old(self).windows, ..*self });
        }
        self.active_window = Some(ROOT_WINDOW);
        self.child_window_stack = Vec::new();
    }

    /// Ends a frame: the input forgets its one-frame events.
    pub fn end_frame(&mut self)
        requires
            old(self).wf(),
        ensures
            final(self).wf(),
            final(self).input.transient_cleared(),
            final(self).input.mouse_position == old(self).input.mouse_position,
            final(self).input.is_mouse_down == old(self).input.is_mouse_down,
            final(self).windows == old(self).windows,
            final(self).window_index == old(self).window_index,
            final(self).windows_focus_order == old(self).windows_focus_order,
            final(self).dragging == old(self).dragging,
    {
        self.input.reset();
        proof {
            lemma_wf_kept(*old(self), *self);
        }
    }

    /// What rendering the window at position `i` of `windows` emits, moved by
    /// `offset`: its own commands, then each child that meets its content rect,
    /// clipped to that rect, looking at most `depth` levels of children deep.
    pub open spec fn rendered(self, i: int, offset: Vec2, depth: nat) -> Seq<CommandView>
        decreases depth, self.windows@[i].childs@.len() + 1,
    {
        self.windows@[i].draw_list.log().map_values(|c: CommandView| c.offset(offset))
            + self.rendered_children(i, offset, depth, self.windows@[i].childs@.len() as int)
    }

    /// What rendering the first `k` children of the window at position `i` emits.
    pub open spec fn rendered_children(self, i: int, offset: Vec2, depth: nat, k: int) -> Seq<
        CommandView,
    >
        decreases depth, k,
    {
        if k <= 0 || depth == 0 || k > self.windows@[i].childs@.len() {
            Seq::empty()
        } else {
            let c = self.windows@[i].childs@[k - 1];
            let content = self.windows@[i].spec_content_rect();
            self.rendered_children(i, offset, depth, k - 1) + if self.has_window(c)
                && content.spec_overlaps(self.window(c).spec_full_rect()) {
                seq![CommandView::Clip { rect: Some(content) }]
                    + self.rendered(self.window_index@[c] as int, offset, (depth - 1) as nat)
                    + seq![CommandView::Clip { rect: None }]
            } else {
                Seq::empty()
            }
        }
    }

    /// Appends to `out` what rendering the window at position `i` emits.
    fn render_window(&self, i: usize, offset: Vec2, depth: usize, out: &mut Vec<DrawCommand>)
        requires
            self.wf(),
            i < self.windows@.len(),
        ensures
            views(final(out)@) == views(old(out)@) + self.rendered(i as int, offset, depth as nat),
        decreases depth, self.windows@[i as int].childs@.len() + 1,
    {
        let ghost start = views(out@);
        let w = &self.windows[i];
        let mut j: usize = 0;
        while j < w.draw_list.commands.len()
            invariant
                w == self.windows@[i as int],
                j <= w.draw_list.commands@.len(),
                views(out@) == start + w.draw_list.log().take(j as int).map_values(
                    |c: CommandView| c.offset(offset),
                ),
            decreases w.draw_list.commands@.len() - j,
        {
            let cmd = w.draw_list.commands[j].offset(offset);
            let ghost before = views(out@);
            out.push(cmd);
            proof {
                assert(views(out@) =~= before.push(cmd@));
                assert(w.draw_list.log().take(j + 1) =~= w.draw_list.log().take(j as int).push(
                    w.draw_list.commands@[j as int]@,
                ));
                assert(views(out@) =~= start + w.draw_list.log().take(j + 1).map_values(
                    |c: CommandView| c.offset(offset),
                ));
            }
            j += 1;
        }
        proof {
            assert(w.draw_list.log().take(j as int) =~= w.draw_list.log());
        }
        let ghost own = views(out@);
        let content = w.content_rect();
        let mut k: usize = 0;
        while k < w.childs.len()
            invariant
                self.wf(),
                i < self.windows@.len(),
                w == self.windows@[i as int],
                content == w.spec_content_rect(),
                k <= w.childs@.len(),
                views(out@) == own + self.rendered_children(i as int, offset, depth as nat, k as int),
            decreases w.childs@.len() - k,
        {
            let c = w.childs[k];
            if depth > 0 {
                if let Some(ci) = self.find_window(c) {
                    if content.overlaps(&self.windows[ci].full_rect()) {
                        let ghost v0 = views(out@);
                        let clip = DrawCommand::Clip { rect: Some(content) };
                        out.push(clip);
                        assert(views(out@) =~= v0.push(clip@));
                        self.render_window(ci, offset, depth - 1, out);
                        let ghost v2 = views(out@);
                        out.push(DrawCommand::Clip { rect: None });
                        assert(views(out@) =~= v2.push(CommandView::Clip { rect: None }));
                        proof {
                            let tail = seq![CommandView::Clip { rect: Some(content) }]
                                + self.rendered(ci as int, offset, (depth - 1) as nat)
                                + seq![CommandView::Clip { rect: None }];
                            assert(self.window(c) == self.windows@[ci as int]);
                            assert(self.rendered_children(i as int, offset, depth as nat, k + 1)
                                == self.rendered_children(i as int, offset, depth as nat, k as int) + tail);
                            assert(views(out@) =~= own + self.rendered_children(
                                i as int,
                                offset,
                                depth as nat,
                                k + 1,
                            ));
                        }
                    } else {
                        assert(views(out@) =~= own + self.rendered_children(
                            i as int,
                            offset,
                            depth as nat,
                            k + 1,
                        ));
                    }
                } else {
                    assert(views(out@) =~= own + self.rendered_children(
                        i as int,
                        offset,
                        depth as nat,
                        k + 1,
                    ));
                }
            } else {
                assert(views(out@) =~= own + self.rendered_children(i as int, offset, depth as nat, k + 1));
            }
            k += 1;
        }
    }

    /// What rendering the `k` rearmost top-level windows emits, rearmost first: each
    /// window that was active last frame, with its children.
    pub open spec fn rendered_layers(self, k: int) -> Seq<CommandView>
        decreases k,
    {
        let n = self.windows_focus_order@.len();
        if k <= 0 || k > n {
            Seq::empty()
        } else {
            let id = self.windows_focus_order@[n - k];
            self.rendered_layers(k - 1) + if self.has_window(id) && self.window(id).was_active {
                self.rendered(
                    self.window_index@[id] as int,
                    Vec2 { x: 0, y: 0 },
                    self.windows@.len(),
                )
            } else {
                Seq::empty()
            }
        }
    }

    /// What rendering the root window emits: it is always drawn, beneath everything.
    pub open spec fn rendered_root(self) -> Seq<CommandView> {
        self.rendered(self.window_index@[ROOT_WINDOW] as int, Vec2 { x: 0, y: 0 }, self.windows@.len())
    }

    /// What rendering the modal window emits, if it is begun in this frame.
    pub open spec fn rendered_modal(self) -> Seq<CommandView> {
        match self.modal {
            Some(m) => if self.has_window(m) && self.window(m).active {
                self.rendered(self.window_index@[m] as int, Vec2 { x: 0, y: 0 }, self.windows@.len())
            } else {
                Seq::empty()
            },
            None => Seq::empty(),
        }
    }

    /// Everything one frame renders: the root window, the top-level windows from the
    /// back to the front, the modal window, then the window being dragged once more, moved along with the
    /// pointer.
    pub open spec fn rendered_frame(self) -> Seq<CommandView> {
        self.rendered_root() + self.rendered_layers(self.windows_focus_order@.len() as int)
            + self.rendered_modal()
            + match self.dragging {
            Some((id, DragState::Dragging(origin))) => if self.has_window(id) {
                self.rendered(
                    self.window_index@[id] as int,
                    self.input.mouse_position.spec_sub(origin),
                    self.windows@.len(),
                )
            } else {
                Seq::empty()
            },
            _ => Seq::empty(),
        }
    }

    /// Flattens the frame into one ordered list of draw commands, and ends the frame.
    pub fn render(&mut self) -> (r: Vec<DrawCommand>)
        requires
            old(self).wf(),
        ensures
            views(r@) == old(self).rendered_frame(),
            final(self).wf(),
            final(self).input.transient_cleared(),
            final(self).input.mouse_position == old(self).input.mouse_position,
            final(self).input.is_mouse_down == old(self).input.is_mouse_down,
            final(self).windows == old(self).windows,
            final(self).window_index == old(self).window_index,
            final(self).windows_focus_order == old(self).windows_focus_order,
            final(self).dragging == old(self).dragging,
    {
        let mut out: Vec<DrawCommand> = Vec::new();
        let n = self.windows_focus_order.len();
        let depth = self.windows.len();
        let root = self.window_index_of(ROOT_WINDOW);
        self.render_window(root, Vec2::zero(), depth, &mut out);
        assert(views(out@) =~= self.rendered_root());
        let ghost root_part = views(out@);
        let mut k: usize = 0;
        assert(views(out@) =~= root_part + self.rendered_layers(0));
        while k < n
            invariant
                self == old(self),
                self.wf(),
                n == self.windows_focus_order@.len(),
                depth == self.windows@.len(),
                k <= n,
                root_part == self.rendered_root(),
                views(out@) == root_part + self.rendered_layers(k as int),
            decreases n - k,
        {
            let id = self.windows_focus_order[n - 1 - k];
            assert(self.window_index@.contains_key(self.windows_focus_order@[n - 1 - k]));
            let i = self.window_index_of(id);
            if self.windows[i].was_active {
                self.render_window(i, Vec2::zero(), depth, &mut out);
            }
            assert(views(out@) =~= root_part + self.rendered_layers(k + 1));
            k += 1;
        }
        if let Some(m) = self.modal {
            if let Some(i) = self.find_window(m) {
                if self.windows[i].active {
                    self.render_window(i, Vec2::zero(), depth, &mut out);
                }
            }
        }
        if let Some((id, DragState::Dragging(origin))) = self.dragging {
            if let Some(i) = self.find_window(id) {
                self.render_window(i, self.input.mouse_position.sub(origin), depth, &mut out);
            }
        }
        assert(views(out@) =~= old(self).rendered_frame());
        self.end_frame();
        out
    }

    /// The track of the vertical scroll bar of window `w`: a strip along its right edge.
    pub open spec fn scroll_track(self, w: Window) -> Rect {
        let content = w.spec_content_rect();
        Rect {
            x: sat(content.x + content.w - self.style.scroll_width) as i32,
            y: content.y,
            w: self.style.scroll_width,
            h: content.h,
        }
    }

    /// The pointer and wheel as a scroll bar reads them.
    pub open spec fn scroll_input(self) -> ScrollInput {
        ScrollInput {
            mouse_position: self.input.mouse_position,
            click_down: self.input.click_down,
            is_mouse_down: self.input.is_mouse_down,
            wheel_y: self.input.mouse_wheel.y,
        }
    }

    /// The scroll state of window `w` after its scroll area is handled: widget
    /// positions follow the scroll position; where last frame's content is taller
    /// than the window's content rect, a scroll bar may move the scroll position; then the position is
    /// clamped again.
    pub open spec fn scrolled(self, w: Window, focused: bool) -> Scroll {
        let sc = w.cursor.scroll;
        let s0 = Scroll {
            scroll: Vec2 { x: sat(-sc.rect.x) as i32, y: sat(-sc.rect.y) as i32 },
            ..sc
        };
        if s0.inner_rect_previous_frame.h > w.spec_content_rect().h && s0.rect.h > 0
            && s0.inner_rect_previous_frame.h > 0 {
            clamped_scroll(
                spec_scroll_bar(
                    s0,
                    self.scroll_track(w),
                    w.spec_content_rect(),
                    self.scroll_input(),
                    focused,
                    self.style.scroll_multiplier,
                ).scroll,
            )
        } else {
            clamped_scroll(s0)
        }
    }

    /// The log of window `w` after its scroll area is handled.
    pub open spec fn scrolled_log(self, w: Window, focused: bool) -> Seq<CommandView> {
        let sc = w.cursor.scroll;
        let s0 = Scroll {
            scroll: Vec2 { x: sat(-sc.rect.x) as i32, y: sat(-sc.rect.y) as i32 },
            ..sc
        };
        let track = self.scroll_track(w);
        if s0.inner_rect_previous_frame.h > w.spec_content_rect().h && s0.rect.h > 0
            && s0.inner_rect_previous_frame.h > 0 {
            let f = spec_scroll_bar(
                s0,
                track,
                w.spec_content_rect(),
                self.scroll_input(),
                focused,
                self.style.scroll_multiplier,
            );
            let border = if focused {
                self.style.window_border_focused
            } else {
                self.style.window_border_inactive
            };
            let handle = if !focused {
                self.style.scrollbar_background_focused_inactive
            } else if f.clicked {
                self.style.scrollbar_background_focused_clicked
            } else if f.hovered {
                self.style.scrollbar_background_focused_hovered
            } else {
                self.style.scrollbar_background_focused
            };
            let line_start = Vec2 { x: track.x, y: track.y };
            let line_end = Vec2 { x: track.x, y: sat(track.y + track.h) as i32 };
            let log1 = if clip_admits_line(w.draw_list.clipping_zone, line_start, line_end) {
                w.draw_list.log().push(
                    CommandView::Line { start: line_start, end: line_end, color: border },
                )
            } else {
                w.draw_list.log()
            };
            if clip_admits(w.draw_list.clipping_zone, f.bar) {
                log1.push(CommandView::Rect { rect: f.bar, stroke: None, fill: Some(handle) })
            } else {
                log1
            }
        } else {
            w.draw_list.log()
        }
    }

    /// Handles the scroll area of the window at `ctx.index`: see `scrolled` and `scrolled_log`.
    pub fn scroll_area(&mut self, ctx: WindowContext)
        requires
            old(self).wf(),
            ctx.index < old(self).windows@.len(),
        ensures
            final(self).wf(),
            final(self).windows@.len() == old(self).windows@.len(),
            forall|k: int|
                0 <= k < old(self).windows@.len() && k != ctx.index ==> #[trigger] final(self).windows@[k]
                    == old(self).windows@[k],
            final(self).windows@[ctx.index as int].cursor == (Cursor {
                scroll: old(self).scrolled(old(self).windows@[ctx.index as int], ctx.focused),
                ..old(self).windows@[ctx.index as int].cursor
            }),
            final(self).windows@[ctx.index as int].draw_list.log() == old(self).scrolled_log(
                old(self).windows@[ctx.index as int],
                ctx.focused,
            ),
            final(self).windows@[ctx.index as int].draw_list.clipping_zone == old(self).windows@[ctx.index as int].draw_list.clipping_zone,
            final(self).windows@[ctx.index as int].id == old(self).windows@[ctx.index as int].id,
            final(self).windows@[ctx.index as int].position == old(self).windows@[ctx.index as int].position,
            final(self).windows@[ctx.index as int].size == old(self).windows@[ctx.index as int].size,
            final(self).windows@[ctx.index as int].childs == old(self).windows@[ctx.index as int].childs,
            final(self).windows@[ctx.index as int].active == old(self).windows@[ctx.index as int].active,
            final(self).windows@[ctx.index as int].was_active == old(self).windows@[ctx.index as int].was_active,
            final(self).window_index == old(self).window_index,
            final(self).windows_focus_order == old(self).windows_focus_order,
            final(self).input == old(self).input,
            final(self).style == old(self).style,
            final(self).dragging == old(self).dragging,
            final(self).drag_hovered == old(self).drag_hovered,
            final(self).drag_hovered_previous_frame == old(self).drag_hovered_previous_frame,
            final(self).modal == old(self).modal,
            final(self).storage == old(self).storage,
            final(self).active_window == old(self).active_window,
            final(self).child_window_stack == old(self).child_window_stack,
    {
        let i = ctx.index;
        let rect_x = self.windows[i].cursor.scroll.rect.x;
        let rect_y = self.windows[i].cursor.scroll.rect.y;
        self.windows[i].cursor.scroll.scroll = Vec2::new(
            saturate(-(rect_x as i64)),
            saturate(-(rect_y as i64)),
        );
        let sc = self.windows[i].cursor.scroll;
        let content = self.windows[i].content_rect();
        if sc.inner_rect_previous_frame.h > content.h && sc.rect.h > 0
            && sc.inner_rect_previous_frame.h > 0 {
            let track = Rect::new(
                saturate(content.x as i64 + content.w as i64 - self.style.scroll_width as i64),
                content.y,
                self.style.scroll_width,
                content.h,
            );
            let input = ScrollInput {
                mouse_position: self.input.mouse_position,
                click_down: self.input.click_down,
                is_mouse_down: self.input.is_mouse_down,
                wheel_y: self.input.mouse_wheel.y,
            };
            let f = scroll_bar(sc, track, content, input, ctx.focused, self.style.scroll_multiplier);
            let border = self.style.window_border(ctx.focused);
            let handle = self.style.scroll_bar_handle(ctx.focused, f.hovered, f.clicked);
            self.windows[i].draw_list.draw_line(
                Vec2::new(track.x, track.y),
                Vec2::new(track.x, saturate(track.y as i64 + track.h as i64)),
                border,
            );
            self.windows[i].draw_list.draw_rect(f.bar, None, Some(handle));
            self.windows[i].cursor.scroll = f.scroll;
        }
        self.windows[i].cursor.scroll.update();
        proof {
            assert forall|i2: int| 0 <= i2 < self.windows@.len() implies #[trigger] self.windows@[i2].id
                == old(self).windows@[i2].id by {}
            lemma_same_ids(old(self).windows@, self.windows@, self.window_index@);
            lemma_wf_kept(*old(self), Ui { windows: old(self).windows, ..*self });
        }
    }

    /// Records a rect in the draw list of the window at position `i`, unless clipped away.
    pub fn draw_rect_in(&mut self, i: usize, rect: Rect, stroke: Option<Color>, fill: Option<Color>)
        requires
            old(self).wf(),
            i < old(self).windows@.len(),
        ensures
            final(self).wf(),
            final(self).windows@.len() == old(self).windows@.len(),
            forall|k: int|
                0 <= k < old(self).windows@.len() && k != i ==> #[trigger] final(self).windows@[k]
                    == old(self).windows@[k],
            final(self).windows@[i as int] == (Window {
                draw_list: final(self).windows@[i as int].draw_list,
                ..old(self).windows@[i as int]
            }),
            final(self).windows@[i as int].draw_list.log() == if clip_admits(old(self).windows@[i as int].draw_list.clipping_zone, rect) {
                old(self).windows@[i as int].draw_list.log().push(CommandView::Rect { rect, stroke, fill })
            } else {
                old(self).windows@[i as int].draw_list.log()
            },
            final(self).windows@[i as int].draw_list.clipping_zone == old(self).windows@[i as int].draw_list.clipping_zone,
            final(self).window_index == old(self).window_index,
            final(self).windows_focus_order == old(self).windows_focus_order,
            final(self).input == old(self).input,
            final(self).style == old(self).style,
            final(self).dragging == old(self).dragging,
            final(self).drag_hovered == old(self).drag_hovered,
            final(self).drag_hovered_previous_frame == old(self).drag_hovered_previous_frame,
            final(self).modal == old(self).modal,
            final(self).storage == old(self).storage,
            final(self).active_window == old(self).active_window,
            final(self).child_window_stack == old(self).child_window_stack,
            final(self).moving == old(self).moving,
    {
        self.windows[i].draw_list.draw_rect(rect, stroke, fill);
        proof {
            assert forall|i2: int| 0 <= i2 < self.windows@.len() implies #[trigger] self.windows@[i2].id
                == old(self).windows@[i2].id by {}
            lemma_same_ids(old(self).windows@, self.windows@, self.window_index@);
            lemma_wf_kept(*old(self), Ui { windows: old(self).windows, ..*self });
        }
    }

    /// Records a textured quad in the draw list of the window at position `i`, unless clipped away.
    pub fn draw_texture_in(&mut self, i: usize, texture: u32, position: Vec2, size: Vec2)
        requires
            old(self).wf(),
            i < old(self).windows@.len(),
        ensures
            final(self).wf(),
            final(self).windows@.len() == old(self).windows@.len(),
            forall|k: int|
                0 <= k < old(self).windows@.len() && k != i ==> #[trigger] final(self).windows@[k]
                    == old(self).windows@[k],
            final(self).windows@[i as int] == (Window {
                draw_list: final(self).windows@[i as int].draw_list,
                ..old(self).windows@[i as int]
            }),
            final(self).windows@[i as int].draw_list.log() == if clip_admits(
                old(self).windows@[i as int].draw_list.clipping_zone,
                Rect { x: position.x, y: position.y, w: size.x, h: size.y },
            ) {
                old(self).windows@[i as int].draw_list.log().push(
                    CommandView::RawTexture { position, size, texture },
                )
            } else {
                old(self).windows@[i as int].draw_list.log()
            },
            final(self).windows@[i as int].draw_list.clipping_zone == old(self).windows@[i as int].draw_list.clipping_zone,
            final(self).window_index == old(self).window_index,
            final(self).windows_focus_order == old(self).windows_focus_order,
            final(self).input == old(self).input,
            final(self).style == old(self).style,
            final(self).dragging == old(self).dragging,
            final(self).drag_hovered == old(self).drag_hovered,
            final(self).drag_hovered_previous_frame == old(self).drag_hovered_previous_frame,
            final(self).modal == old(self).modal,
            final(self).storage == old(self).storage,
            final(self).active_window == old(self).active_window,
            final(self).child_window_stack == old(self).child_window_stack,
            final(self).moving == old(self).moving,
    {
        self.windows[i].draw_list.draw_raw_texture(texture, position, size);
        proof {
            assert forall|i2: int| 0 <= i2 < self.windows@.len() implies #[trigger] self.windows@[i2].id
                == old(self).windows@[i2].id by {}
            lemma_same_ids(old(self).windows@, self.windows@, self.window_index@);
            lemma_wf_kept(*old(self), Ui { windows: old(self).windows, ..*self });
        }
    }

    /// Records a line in the draw list of the window at position `i`, unless clipped away.
    pub fn draw_line_in(&mut self, i: usize, start: Vec2, end: Vec2, color: Color)
        requires
            old(self).wf(),
            i < old(self).windows@.len(),
        ensures
            final(self).wf(),
            final(self).windows@.len() == old(self).windows@.len(),
            forall|k: int|
                0 <= k < old(self).windows@.len() && k != i ==> #[trigger] final(self).windows@[k]
                    == old(self).windows@[k],
            final(self).windows@[i as int] == (Window {
                draw_list: final(self).windows@[i as int].draw_list,
                ..old(self).windows@[i as int]
            }),
            final(self).windows@[i as int].draw_list.log() == if clip_admits_line(old(self).windows@[i as int].draw_list.clipping_zone, start, end) {
                old(self).windows@[i as int].draw_list.log().push(CommandView::Line { start, end, color })
            } else {
                old(self).windows@[i as int].draw_list.log()
            },
            final(self).windows@[i as int].draw_list.clipping_zone == old(self).windows@[i as int].draw_list.clipping_zone,
            final(self).window_index == old(self).window_index,
            final(self).windows_focus_order == old(self).windows_focus_order,
            final(self).input == old(self).input,
            final(self).style == old(self).style,
            final(self).dragging == old(self).dragging,
            final(self).drag_hovered == old(self).drag_hovered,
            final(self).drag_hovered_previous_frame == old(self).drag_hovered_previous_frame,
            final(self).modal == old(self).modal,
            final(self).storage == old(self).storage,
            final(self).active_window == old(self).active_window,
            final(self).child_window_stack == old(self).child_window_stack,
            final(self).moving == old(self).moving,
    {
        self.windows[i].draw_list.draw_line(start, end, color);
        proof {
            assert forall|i2: int| 0 <= i2 < self.windows@.len() implies #[trigger] self.windows@[i2].id
                == old(self).windows@[i2].id by {}
            lemma_same_ids(old(self).windows@, self.windows@, self.window_index@);
            lemma_wf_kept(*old(self), Ui { windows: old(self).windows, ..*self });
        }
    }

    /// Records a label in the draw list of the window at position `i`, unless clipped away.
    pub fn draw_label_in(&mut self, i: usize, label: &str, position: Vec2, params: LabelParams)
        requires
            old(self).wf(),
            i < old(self).windows@.len(),
        ensures
            final(self).wf(),
            final(self).windows@.len() == old(self).windows@.len(),
            forall|k: int|
                0 <= k < old(self).windows@.len() && k != i ==> #[trigger] final(self).windows@[k]
                    == old(self).windows@[k],
            final(self).windows@[i as int] == (Window {
                draw_list: final(self).windows@[i as int].draw_list,
                ..old(self).windows@[i as int]
            }),
            final(self).windows@[i as int].draw_list.log() == if clip_admits(old(self).windows@[i as int].draw_list.clipping_zone, label_probe(position)) {
                old(self).windows@[i as int].draw_list.log().push(
                    CommandView::Label { position, label: label@, params },
                )
            } else {
                old(self).windows@[i as int].draw_list.log()
            },
            final(self).windows@[i as int].draw_list.clipping_zone == old(self).windows@[i as int].draw_list.clipping_zone,
            final(self).window_index == old(self).window_index,
            final(self).windows_focus_order == old(self).windows_focus_order,
            final(self).input == old(self).input,
            final(self).style == old(self).style,
            final(self).dragging == old(self).dragging,
            final(self).drag_hovered == old(self).drag_hovered,
            final(self).drag_hovered_previous_frame == old(self).drag_hovered_previous_frame,
            final(self).modal == old(self).modal,
            final(self).storage == old(self).storage,
            final(self).active_window == old(self).active_window,
            final(self).child_window_stack == old(self).child_window_stack,
            final(self).moving == old(self).moving,
    {
        self.windows[i].draw_list.draw_label(label, position, params);
        proof {
            assert forall|i2: int| 0 <= i2 < self.windows@.len() implies #[trigger] self.windows@[i2].id
                == old(self).windows@[i2].id by {}
            lemma_same_ids(old(self).windows@, self.windows@, self.window_index@);
            lemma_wf_kept(*old(self), Ui { windows: old(self).windows, ..*self });
        }
    }

    /// Records a character in the draw list of the window at position `i`, unless clipped away.
    pub fn draw_character_in(&mut self, i: usize, character: char, position: Vec2, color: Color)
        requires
            old(self).wf(),
            i < old(self).windows@.len(),
        ensures
            final(self).wf(),
            final(self).windows@.len() == old(self).windows@.len(),
            forall|k: int|
                0 <= k < old(self).windows@.len() && k != i ==> #[trigger] final(self).windows@[k]
                    == old(self).windows@[k],
            final(self).windows@[i as int] == (Window {
                draw_list: final(self).windows@[i as int].draw_list,
                ..old(self).windows@[i as int]
            }),
            final(self).windows@[i as int].draw_list.log() == if clip_admits(old(self).windows@[i as int].draw_list.clipping_zone, label_probe(position)) {
                old(self).windows@[i as int].draw_list.log().push(
                    CommandView::Character { position, character, color },
                )
            } else {
                old(self).windows@[i as int].draw_list.log()
            },
            final(self).windows@[i as int].draw_list.clipping_zone == old(self).windows@[i as int].draw_list.clipping_zone,
            final(self).window_index == old(self).window_index,
            final(self).windows_focus_order == old(self).windows_focus_order,
            final(self).input == old(self).input,
            final(self).style == old(self).style,
            final(self).dragging == old(self).dragging,
            final(self).drag_hovered == old(self).drag_hovered,
            final(self).drag_hovered_previous_frame == old(self).drag_hovered_previous_frame,
            final(self).modal == old(self).modal,
            final(self).storage == old(self).storage,
            final(self).active_window == old(self).active_window,
            final(self).child_window_stack == old(self).child_window_stack,
            final(self).moving == old(self).moving,
    {
        self.windows[i].draw_list.draw_character(character, position, color);
        proof {
            assert forall|i2: int| 0 <= i2 < self.windows@.len() implies #[trigger] self.windows@[i2].id
                == old(self).windows@[i2].id by {}
            lemma_same_ids(old(self).windows@, self.windows@, self.window_index@);
            lemma_wf_kept(*old(self), Ui { windows: old(self).windows, ..*self });
        }
    }

    /// Sets the clip region of the window at position `i`, and records the change.
    pub fn clip_in(&mut self, i: usize, rect: Option<Rect>)
        requires
            old(self).wf(),
            i < old(self).windows@.len(),
        ensures
            final(self).wf(),
            final(self).windows@.len() == old(self).windows@.len(),
            forall|k: int|
                0 <= k < old(self).windows@.len() && k != i ==> #[trigger] final(self).windows@[k]
                    == old(self).windows@[k],
            final(self).windows@[i as int] == (Window {
                draw_list: final(self).windows@[i as int].draw_list,
                ..old(self).windows@[i as int]
            }),
            final(self).windows@[i as int].draw_list.log() == old(self).windows@[i as int].draw_list.log().push(CommandView::Clip { rect }),
            final(self).windows@[i as int].draw_list.clipping_zone == rect,
            final(self).window_index == old(self).window_index,
            final(self).windows_focus_order == old(self).windows_focus_order,
            final(self).input == old(self).input,
            final(self).style == old(self).style,
            final(self).dragging == old(self).dragging,
            final(self).drag_hovered == old(self).drag_hovered,
            final(self).drag_hovered_previous_frame == old(self).drag_hovered_previous_frame,
            final(self).modal == old(self).modal,
            final(self).storage == old(self).storage,
            final(self).active_window == old(self).active_window,
            final(self).child_window_stack == old(self).child_window_stack,
            final(self).moving == old(self).moving,
    {
        self.windows[i].draw_list.clip(rect);
        proof {
            assert forall|i2: int| 0 <= i2 < self.windows@.len() implies #[trigger] self.windows@[i2].id
                == old(self).windows@[i2].id by {}
            lemma_same_ids(old(self).windows@, self.windows@, self.window_index@);
            lemma_wf_kept(*old(self), Ui { windows: old(self).windows, ..*self });
        }
    }

    /// Places a widget of `size` with the cursor of the window at position `i`, and
    /// returns its screen position.
    pub fn fit_in(&mut self, i: usize, size: Vec2, layout: Layout) -> (r: Vec2)
        requires
            old(self).wf(),
            i < old(self).windows@.len(),
        ensures
            r == old(self).windows@[i as int].cursor.spec_fit_pos(size, layout),
            final(self).wf(),
            final(self).windows@.len() == old(self).windows@.len(),
            forall|k: int|
                0 <= k < old(self).windows@.len() && k != i ==> #[trigger] final(self).windows@[k]
                    == old(self).windows@[k],
            final(self).windows@[i as int] == (Window {
                cursor: old(self).windows@[i as int].cursor.spec_fit(size, layout),
                ..old(self).windows@[i as int]
            }),
            final(self).window_index == old(self).window_index,
            final(self).windows_focus_order == old(self).windows_focus_order,
            final(self).input == old(self).input,
            final(self).style == old(self).style,
            final(self).dragging == old(self).dragging,
            final(self).drag_hovered == old(self).drag_hovered,
            final(self).drag_hovered_previous_frame == old(self).drag_hovered_previous_frame,
            final(self).modal == old(self).modal,
            final(self).storage == old(self).storage,
            final(self).active_window == old(self).active_window,
            final(self).child_window_stack == old(self).child_window_stack,
            final(self).editbox_states == old(self).editbox_states,
            final(self).time_ms == old(self).time_ms,
    {
        let r = self.windows[i].cursor.fit(size, layout);
        proof {
            assert forall|i2: int| 0 <= i2 < self.windows@.len() implies #[trigger] self.windows@[i2].id
                == old(self).windows@[i2].id by {}
            lemma_same_ids(old(self).windows@, self.windows@, self.window_index@);
            lemma_wf_kept(*old(self), Ui { windows: old(self).windows, ..*self });
        }
        r
    }

    /// Records window `child` among the children of the window at position `i`, to be
    /// rendered inside it.
    pub fn add_child(&mut self, i: usize, child: Id)
        requires
            old(self).wf(),
            i < old(self).windows@.len(),
        ensures
            final(self).wf(),
            final(self).windows@.len() == old(self).windows@.len(),
            forall|k: int|
                0 <= k < old(self).windows@.len() && k != i ==> #[trigger] final(self).windows@[k]
                    == old(self).windows@[k],
            final(self).windows@[i as int].childs@ == old(self).windows@[i as int].childs@.push(child),
            final(self).windows@[i as int] == (Window {
                childs: final(self).windows@[i as int].childs,
                ..old(self).windows@[i as int]
            }),
            final(self).window_index == old(self).window_index,
            final(self).windows_focus_order == old(self).windows_focus_order,
            final(self).input == old(self).input,
            final(self).style == old(self).style,
            final(self).dragging == old(self).dragging,
            final(self).drag_hovered == old(self).drag_hovered,
            final(self).drag_hovered_previous_frame == old(self).drag_hovered_previous_frame,
            final(self).modal == old(self).modal,
            final(self).storage == old(self).storage,
            final(self).active_window == old(self).active_window,
            final(self).child_window_stack == old(self).child_window_stack,
    {
        self.windows[i].childs.push(child);
        proof {
            assert forall|i2: int| 0 <= i2 < self.windows@.len() implies #[trigger] self.windows@[i2].id
                == old(self).windows@[i2].id by {}
            lemma_same_ids(old(self).windows@, self.windows@, self.window_index@);
            lemma_wf_kept(*old(self), Ui { windows: old(self).windows, ..*self });
        }
    }

    /// Puts the next widget of the current window on the current row, at `x` from the
    /// left of the content area (`0` keeps the pen where it is).
    pub fn same_line(&mut self, x: i32)
        requires
            old(self).wf(),
        ensures
            final(self).wf(),
            final(self).windows@.len() == old(self).windows@.len(),
            match old(self).active_window {
                Some(a) => final(self).windows@ == old(self).windows@.update(
                    old(self).window_index@[a] as int,
                    Window {
                        cursor: Cursor { next_same_line: Some(x), ..old(self).window(a).cursor },
                        ..old(self).window(a)
                    },
                ),
                None => final(self).windows == old(self).windows,
            },
            final(self).window_index == old(self).window_index,
            final(self).windows_focus_order == old(self).windows_focus_order,
            final(self).input == old(self).input,
            final(self).active_window == old(self).active_window,
    {
        if let Some(a) = self.active_window {
            let i = self.window_index_of(a);
            self.windows[i].cursor.next_same_line = Some(x);
            proof {
                assert forall|i2: int| 0 <= i2 < self.windows@.len() implies #[trigger] self.windows@[i2].id
                    == old(self).windows@[i2].id by {}
                lemma_same_ids(old(self).windows@, self.windows@, self.window_index@);
                lemma_wf_kept(*old(self), Ui { windows: old(self).windows, ..*self });
            }
        }
    }

    /// Where the current window stands in `windows`, and whether it has the focus.
    pub fn get_active_window_context(&self) -> (r: Option<WindowContext>)
        requires
            self.wf(),
        ensures
            match self.active_window {
                Some(a) => r == Some(
                    WindowContext { index: self.window_index@[a], focused: self.spec_is_focused(a) },
                ),
                None => r.is_none(),
            },
            r matches Some(c) ==> c.index < self.windows@.len(),
    {
        match self.active_window {
            Some(a) => Some(WindowContext { index: self.window_index_of(a), focused: self.is_focused(a) }),
            None => None,
        }
    }

    /// Begins the modal window `id` at `position` with `size`, creating it on first
    /// use. It stays out of the focus order, always has the focus, is clipped to its
    /// own rect, and replaces any other modal window.
    pub fn begin_modal(&mut self, id: Id, position: Vec2, size: Vec2) -> (r: WindowContext)
        requires
            old(self).wf(),
        ensures
            final(self).wf(),
            final(self).has_window(id),
            r.index == final(self).window_index@[id],
            r.focused,
            final(self).modal == Some(id),
            final(self).active_window == Some(id),
            final(self).child_window_stack@ == old(self).pushed_stack(),
            final(self).windows_focus_order == old(self).windows_focus_order,
            final(self).window(id).active,
            final(self).window(id).size == size,
            final(self).window(id).position == position,
            final(self).window(id).draw_list.clipping_zone == Some(
                Rect { x: position.x, y: position.y, w: size.x, h: size.y },
            ),
            forall|k: Id| #[trigger] final(self).has_window(k) <==> (old(self).has_window(k) || k == id),
            forall|k: Id|
                old(self).has_window(k) && k != id ==> #[trigger] final(self).window(k) == old(
                    self,
                ).window(k),
            final(self).input == old(self).input,
            final(self).style == old(self).style,
            final(self).dragging == old(self).dragging,
            final(self).drag_hovered == old(self).drag_hovered,
            final(self).drag_hovered_previous_frame == old(self).drag_hovered_previous_frame,
    {
        if let Some(active_window) = self.active_window {
            self.child_window_stack.push(active_window);
        }
        proof {
            assert forall|j: int| 0 <= j < self.child_window_stack@.len() implies #[trigger] self.window_index@.contains_key(
                self.child_window_stack@[j],
            ) by {
                if j < old(self).child_window_stack@.len() {
                    assert(self.child_window_stack@[j] == old(self).child_window_stack@[j]);
                    assert(old(self).has_window(old(self).child_window_stack@[j]));
                }
            }
        }
        let margin = self.style.margin;
        let ghost before = *self;
        let idx = match self.find_window(id) {
            Some(i) => i,
            None => {
                let i = self.windows.len();
                self.windows.push(Window::new(id, None, position, size, 0, margin, false));
                fx_insert(&mut self.window_index, id, i);
                proof {
                    assert forall|k: Id| #[trigger]
                        self.window_index@.contains_key(k) implies {
                        &&& self.window_index@[k] < self.windows@.len()
                        &&& self.windows@[self.window_index@[k] as int].id == k
                    } by {
                        if k != id {
                            assert(before.window_index@.contains_key(k));
                        }
                    }
                    assert forall|i2: int| 0 <= i2 < self.windows@.len() implies {
                        &&& #[trigger] self.window_index@.contains_key(self.windows@[i2].id)
                        &&& self.window_index@[self.windows@[i2].id] == i2
                    } by {
                        if i2 < before.windows@.len() {
                            assert(self.windows@[i2] == before.windows@[i2]);
                            assert(before.window_index@.contains_key(before.windows@[i2].id));
                        }
                    }
                    assert(self.indexed());
                    assert forall|j: int| 0 <= j < self.windows_focus_order@.len() implies #[trigger] self.window_index@.contains_key(
                        self.windows_focus_order@[j],
                    ) by {
                        assert(before.window_index@.contains_key(before.windows_focus_order@[j]));
                    }
                    assert forall|j: int| 0 <= j < self.child_window_stack@.len() implies #[trigger] self.window_index@.contains_key(
                        self.child_window_stack@[j],
                    ) by {
                        assert(before.has_window(before.child_window_stack@[j]));
                    }
                    assert forall|k: Id| before.has_window(k) implies #[trigger] self.window(k)
                        == before.window(k) by {
                        assert(before.window_index@[k] < before.windows@.len());
                    }
                }
                i
            },
        };
        let ghost mid = *self;
        self.windows[idx].size = size;
        self.windows[idx].want_close = false;
        self.windows[idx].active = true;
        self.windows[idx].set_position(position);
        proof {
            assert forall|k: Id| mid.has_window(k) && k != id implies #[trigger] self.window(k)
                == mid.window(k) by {
                assert(mid.window_index@[k] != idx);
            }
            assert forall|i2: int| 0 <= i2 < self.windows@.len() implies #[trigger] self.windows@[i2].id
                == mid.windows@[i2].id by {}
            lemma_same_ids(mid.windows@, self.windows@, self.window_index@);
        }
        self.clip_in(idx, Some(Rect::from_parts(position, size)));
        self.modal = Some(id);
        self.active_window = Some(id);
        WindowContext { index: idx, focused: true }
    }

    /// Ends the modal window; the window it was begun in becomes current again.
    pub fn end_modal(&mut self)
        requires
            old(self).wf(),
        ensures
            final(self).wf(),
            old(self).child_window_stack@.len() == 0 ==> final(self).active_window.is_none(),
            old(self).child_window_stack@.len() > 0 ==> final(self).active_window == Some(
                old(self).child_window_stack@.last(),
            ),
            final(self).windows == old(self).windows,
            final(self).window_index == old(self).window_index,
            final(self).modal == old(self).modal,
            final(self).input == old(self).input,
    {
        self.end_window();
    }

    /// The editing state kept for edit box `id`, or a fresh one.
    pub open spec fn stored_editbox(self, id: Id) -> EditboxState {
        if self.editbox_states@.contains_key(id) {
            self.editbox_states@[id]
        } else {
            EditboxState::spec_fresh()
        }
    }

    /// The editing state kept for edit box `id`, or a fresh one.
    pub fn get_editbox_state(&self, id: Id) -> (r: EditboxState)
        ensures
            r == self.stored_editbox(id),
    {
        match fx_get(&self.editbox_states, id) {
            Some(s) => s,
            None => EditboxState::default(),
        }
    }

    /// Keeps `state` for edit box `id` across frames.
    pub fn set_editbox_state(&mut self, id: Id, state: EditboxState)
        requires
            old(self).wf(),
        ensures
            final(self).wf(),
            final(self).editbox_states@ == old(self).editbox_states@.insert(id, state),
            final(self).windows == old(self).windows,
            final(self).window_index == old(self).window_index,
            final(self).windows_focus_order == old(self).windows_focus_order,
            final(self).input == old(self).input,
            final(self).active_window == old(self).active_window,
            final(self).modal == old(self).modal,
    {
        fx_insert(&mut self.editbox_states, id, state);
        proof {
            lemma_wf_kept(*old(self), *self);
        }
    }

    /// Gives the keyboard of the window at position `i` to widget `focus`.
    pub fn set_input_focus(&mut self, i: usize, focus: Option<Id>)
        requires
            old(self).wf(),
            i < old(self).windows@.len(),
        ensures
            final(self).wf(),
            final(self).windows@ == old(self).windows@.update(
                i as int,
                Window { input_focus: focus, ..old(self).windows@[i as int] },
            ),
            final(self).window_index == old(self).window_index,
            final(self).windows_focus_order == old(self).windows_focus_order,
            final(self).input == old(self).input,
            final(self).style == old(self).style,
            final(self).active_window == old(self).active_window,
            final(self).child_window_stack == old(self).child_window_stack,
            final(self).modal == old(self).modal,
            final(self).editbox_states == old(self).editbox_states,
    {
        self.windows[i].input_focus = focus;
        proof {
            assert(self.windows@ =~= old(self).windows@.update(
                i as int,
                Window { input_focus: focus, ..old(self).windows@[i as int] },
            ));
            assert forall|i2: int| 0 <= i2 < self.windows@.len() implies #[trigger] self.windows@[i2].id
                == old(self).windows@[i2].id by {}
            lemma_same_ids(old(self).windows@, self.windows@, self.window_index@);
            lemma_wf_kept(*old(self), Ui { windows: old(self).windows, ..*self });
        }
    }

    /// The value kept for `id`, or `0` when none was kept yet.
    pub open spec fn stored(self, id: Id) -> u32 {
        if self.storage@.contains_key(id) {
            self.storage@[id]
        } else {
            0
        }
    }

    /// The value kept for `id`, or `0` when none was kept yet.
    pub fn get_storage(&self, id: Id) -> (r: u32)
        ensures
            r == self.stored(id),
    {
        match fx_get(&self.storage, id) {
            Some(v) => v,
            None => 0,
        }
    }

    /// Keeps `value` for `id` across frames.
    pub fn set_storage(&mut self, id: Id, value: u32)
        requires
            old(self).wf(),
        ensures
            final(self).wf(),
            final(self).storage@ == old(self).storage@.insert(id, value),
            final(self).windows == old(self).windows,
            final(self).window_index == old(self).window_index,
            final(self).windows_focus_order == old(self).windows_focus_order,
            final(self).input == old(self).input,
            final(self).style == old(self).style,
            final(self).active_window == old(self).active_window,
            final(self).child_window_stack == old(self).child_window_stack,
            final(self).modal == old(self).modal,
            final(self).dragging == old(self).dragging,
    {
        fx_insert(&mut self.storage, id, value);
        proof {
            lemma_wf_kept(*old(self), *self);
        }
    }
}

/// Which window is first shown in focus order depends only on the windows and the order.
pub proof fn lemma_first_shown_same(a: Ui, b: Ui, j: int)
    requires
        a.windows@ == b.windows@,
        a.window_index@ == b.window_index@,
        a.windows_focus_order@ == b.windows_focus_order@,
    ensures
        a.first_shown_from(j) == b.first_shown_from(j),
    decreases a.windows_focus_order@.len() - j,
{
    if 0 <= j < a.windows_focus_order@.len() {
        lemma_first_shown_same(a, b, j + 1);
    }
}

/// The registry's invariant depends only on the windows, the index, the order, the
/// window stack and the active window.
pub proof fn lemma_wf_kept(a: Ui, b: Ui)
    requires
        a.wf(),
        b.windows@ == a.windows@,
        b.window_index@ == a.window_index@,
        b.windows_focus_order@ == a.windows_focus_order@,
        b.child_window_stack@ == a.child_window_stack@,
        b.active_window == a.active_window,
        b.modal == a.modal,
    ensures
        b.wf(),
{
    assert forall|i: int| 0 <= i < b.windows@.len() implies {
        &&& #[trigger] b.window_index@.contains_key(b.windows@[i].id)
        &&& b.window_index@[b.windows@[i].id] == i
    } by {
        assert(a.window_index@.contains_key(a.windows@[i].id));
    }
    assert forall|k: Id| #[trigger] b.window_index@.contains_key(k) implies {
        &&& b.window_index@[k] < b.windows@.len()
        &&& b.windows@[b.window_index@[k] as int].id == k
    } by {
        assert(a.window_index@.contains_key(k));
    }
    assert forall|j: int| 0 <= j < b.windows_focus_order@.len() implies #[trigger] b.window_index@.contains_key(
        b.windows_focus_order@[j],
    ) by {
        assert(a.window_index@.contains_key(a.windows_focus_order@[j]));
    }
    assert forall|j: int| 0 <= j < b.child_window_stack@.len() implies #[trigger] b.window_index@.contains_key(
        b.child_window_stack@[j],
    ) by {
        assert(a.window_index@.contains_key(a.child_window_stack@[j]));
    }
    assert(b.indexed());
    assert(match b.active_window {
        Some(x) => b.window_index@.contains_key(x),
        None => true,
    });
}

/// A press lands, if anywhere, at a position of the focus order at or after `j`.
pub proof fn lemma_hit_bounds(u: Ui, p: Vec2, j: int)
    ensures
        u.hit_from(p, j) matches Some(n) ==> j <= n < u.windows_focus_order@.len() && 0 <= n,
    decreases u.windows_focus_order@.len() - j,
{
    if 0 <= j < u.windows_focus_order@.len() {
        lemma_hit_bounds(u, p, j + 1);
    }
}

/// Reordering the focus order among the same ids keeps the invariant, given each id exists.
pub proof fn lemma_wf_order(a: Ui, b: Ui)
    requires
        a.wf(),
        b.windows@ == a.windows@,
        b.window_index@ == a.window_index@,
        b.child_window_stack@ == a.child_window_stack@,
        b.active_window == a.active_window,
        b.modal == a.modal,
        forall|j: int|
            0 <= j < b.windows_focus_order@.len() ==> #[trigger] b.window_index@.contains_key(
                b.windows_focus_order@[j],
            ),
    ensures
        b.wf(),
{
    assert forall|j: int| 0 <= j < b.child_window_stack@.len() implies #[trigger] b.window_index@.contains_key(
        b.child_window_stack@[j],
    ) by {
        assert(a.window_index@.contains_key(a.child_window_stack@[j]));
    }
}

/// Whether window `id` would take a press at `p`: it was drawn last frame, is
/// top-level, and its rect holds `p`.
pub open spec fn takes_press(u: Ui, id: Id, p: Vec2) -> bool {
    u.window(id).was_active && u.window(id).spec_top_level() && u.window(id).spec_full_rect().spec_contains(p)
}

/// A press inside the rect of a top-level window drawn last frame lands on it when no window
/// before it in focus order also holds the point; `mouse_down` then brings it to the
/// front of focus order.
pub proof fn lemma_press_lands_on_topmost(u: Ui, p: Vec2, j: int)
    requires
        0 <= j < u.windows_focus_order@.len(),
        takes_press(u, u.windows_focus_order@[j], p),
        forall|k: int| 0 <= k < j ==> !takes_press(u, #[trigger] u.windows_focus_order@[k], p),
    ensures
        u.hit_from(p, 0) == Some(j),
{
    lemma_hit_from_skips(u, p, 0, j);
}

/// A press where no top-level window drawn last frame holds the point lands nowhere; `mouse_down`
/// then leaves the focus order as it is.
pub proof fn lemma_press_on_empty_space(u: Ui, p: Vec2)
    requires
        forall|k: int|
            0 <= k < u.windows_focus_order@.len() ==> !takes_press(
                u,
                #[trigger] u.windows_focus_order@[k],
                p,
            ),
    ensures
        u.hit_from(p, 0).is_none(),
{
    lemma_hit_from_none(u, p, 0);
}

proof fn lemma_hit_from_skips(u: Ui, p: Vec2, i: int, j: int)
    requires
        0 <= i <= j < u.windows_focus_order@.len(),
        takes_press(u, u.windows_focus_order@[j], p),
        forall|k: int| 0 <= k < j ==> !takes_press(u, #[trigger] u.windows_focus_order@[k], p),
    ensures
        u.hit_from(p, i) == Some(j),
    decreases j - i,
{
    if i < j {
        assert(!takes_press(u, u.windows_focus_order@[i], p));
        lemma_hit_from_skips(u, p, i + 1, j);
    }
}

proof fn lemma_hit_from_none(u: Ui, p: Vec2, i: int)
    requires
        0 <= i,
        forall|k: int|
            0 <= k < u.windows_focus_order@.len() ==> !takes_press(
                u,
                #[trigger] u.windows_focus_order@[k],
                p,
            ),
    ensures
        u.hit_from(p, i).is_none(),
    decreases u.windows_focus_order@.len() - i,
{
    if i < u.windows_focus_order@.len() {
        assert(!takes_press(u, u.windows_focus_order@[i], p));
        lemma_hit_from_none(u, p, i + 1);
    }
}

} // verus!
