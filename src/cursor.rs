//! The layout cursor: automatic widget placement and scrolling within one window.
use vstd::prelude::*;

use crate::types::{sat, saturate, Rect, Vec2};

verus! {

/// The larger of two integers.
pub open spec fn max_int(a: int, b: int) -> int {
    if a >= b {
        a
    } else {
        b
    }
}

/// `y` brought into `[lo, hi]`; where that range is empty, `lo`.
pub open spec fn clamp_to(y: int, lo: int, hi: int) -> int {
    if y < lo {
        lo
    } else if y > max_int(lo, hi) {
        max_int(lo, hi)
    } else {
        y
    }
}

/// Scroll state of a window.
#[derive(Clone, Copy, Debug)]
pub struct Scroll {
    /// Offset applied to widget positions: the negated scroll position.
    pub scroll: Vec2,
    pub dragging_x: bool,
    pub dragging_y: bool,
    /// The visible part of the content: its offset and the visible size.
    pub rect: Rect,
    /// Bounds of everything placed this frame.
    pub inner_rect: Rect,
    /// Bounds of everything placed in the previous frame.
    pub inner_rect_previous_frame: Rect,
    pub initial_scroll: Vec2,
}

impl Scroll {
    /// Lowest allowed scroll position: the top of last frame's content.
    pub open spec fn min_scroll(self) -> int {
        self.inner_rect_previous_frame.y as int
    }

    /// Highest allowed scroll position: the content's bottom less the visible height.
    pub open spec fn max_scroll(self) -> int {
        self.inner_rect_previous_frame.spec_bottom() - self.rect.h
    }

    /// Whether the scroll position lies in the allowed range.
    pub open spec fn in_range(self) -> bool {
        &&& self.min_scroll() <= self.rect.y
        &&& self.rect.y <= max_int(self.min_scroll(), self.max_scroll())
    }

    /// Sets the scroll position to `y`, clamped to last frame's content.
    pub fn scroll_to(&mut self, y: i32)
        ensures
            final(self).rect.y == clamp_to(y as int, old(self).min_scroll(), old(self).max_scroll()),
            final(self).in_range(),
            *final(self) == (Scroll { rect: Rect { y: final(self).rect.y, ..old(self).rect }, ..*old(self) }),
    {
        self.rect.y = self.clamped(y);
    }

    /// `y` clamped to the allowed range.
    fn clamped(&self, y: i32) -> (r: i32)
        ensures
            r == clamp_to(y as int, self.min_scroll(), self.max_scroll()),
    {
        let lo = self.inner_rect_previous_frame.y as i64;
        let hi = self.inner_rect_previous_frame.bottom() - self.rect.h as i64;
        let top = if hi > lo { hi } else { lo };
        if (y as i64) < lo {
            lo as i32
        } else if y as i64 > top {
            top as i32
        } else {
            y
        }
    }

    /// Clamps the scroll position again, once last frame's content is known.
    pub fn update(&mut self)
        ensures
            final(self).rect.y == clamp_to(
                old(self).rect.y as int,
                old(self).min_scroll(),
                old(self).max_scroll(),
            ),
            final(self).in_range(),
            *final(self) == (Scroll { rect: Rect { y: final(self).rect.y, ..old(self).rect }, ..*old(self) }),
    {
        self.rect.y = self.clamped(self.rect.y);
    }
}

/// How the cursor places a widget.
#[derive(Debug, Clone, Copy, PartialEq, Eq, Structural)]
pub enum Layout {
    /// Each widget on a row of its own.
    Vertical,
    /// Widgets side by side, wrapping when the row is full.
    Horizontal,
    /// Exactly at the given point.
    Free(Vec2),
}

/// The layout pen of a window.
#[derive(Debug, Clone, Copy)]
pub struct Cursor {
    pub x: i32,
    pub y: i32,
    pub start_x: i32,
    pub start_y: i32,
    pub ident: i32,
    pub scroll: Scroll,
    pub area: Rect,
    pub margin: i32,
    pub next_same_line: Option<i32>,
    pub max_row_y: i32,
}

impl Cursor {
    /// A cursor at the margin of `area`, scrolled to the top.
    pub open spec fn spec_new(area: Rect, margin: i32) -> Cursor {
        let size_rect = Rect { x: 0, y: 0, w: area.w, h: area.h };
        Cursor {
            margin,
            x: margin,
            y: margin,
            ident: 0,
            start_x: margin,
            start_y: margin,
            scroll: Scroll {
                rect: size_rect,
                inner_rect: size_rect,
                inner_rect_previous_frame: size_rect,
                scroll: Vec2 { x: 0, y: 0 },
                dragging_x: false,
                dragging_y: false,
                initial_scroll: Vec2 { x: 0, y: 0 },
            },
            area,
            next_same_line: None,
            max_row_y: 0,
        }
    }

    pub fn new(area: Rect, margin: i32) -> (r: Cursor)
        ensures
            r == Cursor::spec_new(area, margin),
    {
        let size_rect = Rect::new(0, 0, area.w, area.h);
        Cursor {
            margin,
            x: margin,
            y: margin,
            ident: 0,
            start_x: margin,
            start_y: margin,
            scroll: Scroll {
                rect: size_rect,
                inner_rect: size_rect,
                inner_rect_previous_frame: size_rect,
                scroll: Vec2::zero(),
                dragging_x: false,
                dragging_y: false,
                initial_scroll: Vec2::zero(),
            },
            area,
            next_same_line: None,
            max_row_y: 0,
        }
    }

    /// The pen position, relative to the window's content area.
    pub fn pos(&self) -> (r: Vec2)
        ensures
            r == (Vec2 { x: self.x, y: self.y }),
    {
        Vec2::new(self.x, self.y)
    }

    /// The cursor at the start of a frame.
    pub open spec fn spec_reset(self) -> Cursor {
        Cursor {
            x: self.start_x,
            y: self.start_y,
            max_row_y: 0,
            ident: 0,
            scroll: Scroll {
                inner_rect_previous_frame: self.scroll.inner_rect,
                inner_rect: Rect { x: 0, y: 0, w: 0, h: 0 },
                ..self.scroll
            },
            ..self
        }
    }

    /// Moves the pen back to its start and begins a new frame of content bounds.
    pub fn reset(&mut self)
        ensures
            *final(self) == old(self).spec_reset(),
    {
        self.x = self.start_x;
        self.y = self.start_y;
        self.max_row_y = 0;
        self.ident = 0;
        self.scroll.inner_rect_previous_frame = self.scroll.inner_rect;
        self.scroll.inner_rect = Rect::zero();
    }

    /// The cursor after a pending same-line request is taken up.
    pub open spec fn take_same_line(self) -> Cursor {
        match self.next_same_line {
            Some(x) => Cursor { next_same_line: None, x: if x != 0 { x } else { self.x }, ..self },
            None => self,
        }
    }

    /// The layout that a placement uses: a pending same-line request makes it horizontal.
    pub open spec fn effective_layout(self, layout: Layout) -> Layout {
        if self.next_same_line.is_some() {
            Layout::Horizontal
        } else {
            layout
        }
    }

    /// Whether a widget `w` wide still fits on the current row.
    pub open spec fn fits_in_row(self, w: int) -> bool {
        self.x + w < self.area.w - self.margin * 2
    }

    /// The pen after placing a widget of `size`, and where the widget goes
    /// (relative to the content area), before the content bounds are updated.
    pub open spec fn place(self, size: Vec2, layout: Layout) -> (Cursor, Vec2) {
        let c = self.take_same_line();
        match self.effective_layout(layout) {
            Layout::Horizontal => {
                if c.fits_in_row(size.x as int) {
                    let row = max_int(c.max_row_y as int, size.y as int);
                    (
                        Cursor { max_row_y: row as i32, x: sat(c.x + size.x + c.margin) as i32, ..c },
                        Vec2 { x: c.x, y: c.y },
                    )
                } else {
                    let y = sat(c.y + c.max_row_y + c.margin) as i32;
                    (
                        Cursor {
                            max_row_y: size.y,
                            x: sat(c.margin + size.x + c.margin) as i32,
                            y,
                            ..c
                        },
                        Vec2 { x: c.margin, y },
                    )
                }
            },
            Layout::Vertical => {
                let y = if c.x != c.margin {
                    sat(c.y + c.max_row_y) as i32
                } else {
                    c.y
                };
                (
                    Cursor {
                        x: sat(c.margin + size.x + c.margin) as i32,
                        y,
                        max_row_y: sat(size.y + c.margin) as i32,
                        ..c
                    },
                    Vec2 { x: c.margin, y },
                )
            },
            Layout::Free(p) => (c, p),
        }
    }

    /// Where a widget placed at `p` (relative to the content area) appears on screen.
    pub open spec fn to_screen(self, p: Vec2) -> Vec2 {
        p.spec_add(Vec2 { x: self.area.x, y: self.area.y }).spec_add(self.scroll.scroll).spec_add(
            Vec2 { x: self.ident, y: 0 },
        )
    }

    /// The cursor after `fit(size, layout)`.
    pub open spec fn spec_fit(self, size: Vec2, layout: Layout) -> Cursor {
        let (c, p) = self.place(size, layout);
        Cursor {
            scroll: Scroll {
                inner_rect: c.scroll.inner_rect.spec_combine_with(
                    Rect { x: p.x, y: p.y, w: size.x, h: size.y },
                ),
                ..c.scroll
            },
            ..c
        }
    }

    /// The screen position that `fit(size, layout)` returns.
    pub open spec fn spec_fit_pos(self, size: Vec2, layout: Layout) -> Vec2 {
        self.to_screen(self.place(size, layout).1)
    }

    /// Places a widget of `size` and returns its screen position.
    pub fn fit(&mut self, size: Vec2, layout: Layout) -> (r: Vec2)
        ensures
            *final(self) == old(self).spec_fit(size, layout),
            r == old(self).spec_fit_pos(size, layout),
    {
        let mut layout = layout;
        if let Some(x) = self.next_same_line {
            self.next_same_line = None;
            if x != 0 {
                self.x = x;
            }
            layout = Layout::Horizontal;
        }
        let res: Vec2;
        match layout {
            Layout::Horizontal => {
                if (self.x as i64 + size.x as i64) < self.area.w as i64 - self.margin as i64 * 2 {
                    if size.y > self.max_row_y {
                        self.max_row_y = size.y;
                    }
                    res = Vec2::new(self.x, self.y);
                } else {
                    self.x = self.margin;
                    self.y = saturate(self.y as i64 + self.max_row_y as i64 + self.margin as i64);
                    self.max_row_y = size.y;
                    res = Vec2::new(self.x, self.y);
                }
                self.x = saturate(self.x as i64 + size.x as i64 + self.margin as i64);
            },
            Layout::Vertical => {
                if self.x != self.margin {
                    self.x = self.margin;
                    self.y = saturate(self.y as i64 + self.max_row_y as i64);
                }
                res = Vec2::new(self.x, self.y);
                self.x = saturate(self.x as i64 + size.x as i64 + self.margin as i64);
                self.max_row_y = saturate(size.y as i64 + self.margin as i64);
            },
            Layout::Free(point) => {
                res = point;
            },
        }
        self.scroll.inner_rect = self.scroll.inner_rect.combine_with(Rect::from_parts(res, size));
        res.add(self.area.position()).add(self.scroll.scroll).add(Vec2::new(self.ident, 0))
    }
}

/// Wherever the scroll position is in range and last frame's content starts at the top
/// and is at least as tall as the visible part, the position lies in
/// `[0, content height - visible height]`.
pub proof fn lemma_scroll_within_content(s: Scroll)
    requires
        s.in_range(),
        s.inner_rect_previous_frame.y == 0,
        s.inner_rect_previous_frame.h >= s.rect.h,
    ensures
        0 <= s.rect.y <= s.inner_rect_previous_frame.h - s.rect.h,
{
}

/// Two widgets placed one after the other in vertical layout go on rows at the
/// margin, the second exactly the first's height plus the margin below the first,
/// whatever their widths (where nothing saturates and the first widget with its
/// margin has some width).
pub proof fn lemma_vertical_rows(c: Cursor, first: Vec2, second: Vec2)
    requires
        c.next_same_line.is_none(),
        first.x + c.margin != 0,
        crate::types::fits(c.margin + first.x + c.margin),
        crate::types::fits(first.y + c.margin),
        crate::types::fits(c.place(first, Layout::Vertical).1.y + first.y + c.margin),
    ensures
        ({
            let at_first = c.place(first, Layout::Vertical).1;
            let at_second = c.spec_fit(first, Layout::Vertical).place(second, Layout::Vertical).1;
            &&& at_first.x == c.margin
            &&& at_second.x == c.margin
            &&& at_second.y == at_first.y + first.y + c.margin
        }),
{
}

/// Vertical placement of `sizes`, one after the other: where each widget goes,
/// relative to the content area.
pub open spec fn vertical_positions(c: Cursor, sizes: Seq<Vec2>) -> Seq<Vec2>
    decreases sizes.len(),
{
    if sizes.len() == 0 {
        Seq::empty()
    } else {
        seq![c.place(sizes[0], Layout::Vertical).1] + vertical_positions(
            c.spec_fit(sizes[0], Layout::Vertical),
            sizes.drop_first(),
        )
    }
}

/// Placing widgets of one height `h` in vertical layout gives rows whose tops
/// increase by exactly `h` plus the margin, whatever the widths (where the margin is
/// positive, widths are not negative, and nothing leaves the range of a coordinate).
pub proof fn lemma_vertical_sequence(c: Cursor, sizes: Seq<Vec2>, h: i32)
    requires
        c.next_same_line.is_none(),
        c.margin > 0,
        h >= 0,
        forall|i: int| 0 <= i < sizes.len() ==> (#[trigger] sizes[i]).y == h && sizes[i].x >= 0
            && sizes[i].x + 2 * c.margin <= i32::MAX,
        c.y + c.max_row_y + sizes.len() * (h + c.margin) <= i32::MAX,
        c.y >= 0,
        c.max_row_y >= 0,
        h + c.margin <= i32::MAX,
    ensures
        vertical_positions(c, sizes).len() == sizes.len(),
        forall|i: int|
            1 <= i < sizes.len() ==> #[trigger] vertical_positions(c, sizes)[i].y
                == vertical_positions(c, sizes)[i - 1].y + h + c.margin,
        forall|i: int| 0 <= i < sizes.len() ==> #[trigger] vertical_positions(c, sizes)[i].x == c.margin,
    decreases sizes.len(),
{
    if sizes.len() > 0 {
        let c1 = c.spec_fit(sizes[0], Layout::Vertical);
        let rest = sizes.drop_first();
        let at_head = c.place(sizes[0], Layout::Vertical).1;
        assert(at_head.y <= c.y + c.max_row_y) by {
            if c.x != c.margin {
                assert(c.y + c.max_row_y <= i32::MAX);
            }
        }
        assert(c1.y == at_head.y && c1.max_row_y == h + c.margin && c1.margin == c.margin);
        assert(c1.x == c.margin + sizes[0].x + c.margin);
        assert(c1.x != c1.margin);
        assert(c1.y + c1.max_row_y + rest.len() * (h + c.margin) <= i32::MAX) by (nonlinear_arith)
            requires
                c1.y <= c.y + c.max_row_y,
                c1.max_row_y == h + c.margin,
                rest.len() + 1 == sizes.len(),
                c.y + c.max_row_y + sizes.len() * (h + c.margin) <= i32::MAX,
        ;
        assert forall|i: int| 0 <= i < rest.len() implies (#[trigger] rest[i]).y == h && rest[i].x >= 0
            && rest[i].x + 2 * c1.margin <= i32::MAX by {
            assert(rest[i] == sizes[i + 1]);
        }
        assert(c1.y >= 0) by {
            if c.x != c.margin {
                assert(c.y + c.max_row_y >= 0);
            }
        }
        lemma_vertical_sequence(c1, rest, h);
        let ps = vertical_positions(c, sizes);
        let qs = vertical_positions(c1, rest);
        assert(ps == seq![at_head] + qs);
        if rest.len() > 0 {
            let at_first = c1.place(rest[0], Layout::Vertical).1;
            assert(at_first.y == at_head.y + h + c.margin) by {
                assert(c1.y + c1.max_row_y <= i32::MAX) by (nonlinear_arith)
                    requires
                        c1.y + c1.max_row_y + rest.len() * (h + c.margin) <= i32::MAX,
                        rest.len() >= 1,
                        h + c.margin >= 0,
                ;
            }
            assert(qs[0] == at_first);
        }
        assert forall|i: int| 1 <= i < sizes.len() implies #[trigger] ps[i].y == ps[i - 1].y + h
            + c.margin by {
            assert(ps[i] == qs[i - 1]);
            if i > 1 {
                assert(ps[i - 1] == qs[i - 2]);
            } else {
                assert(ps[0] == at_head);
            }
        }
        assert forall|i: int| 0 <= i < sizes.len() implies #[trigger] ps[i].x == c.margin by {
            if i > 0 {
                assert(ps[i] == qs[i - 1]);
            }
        }
    }
}

/// In horizontal layout a widget that still fits goes at the pen; one that does not
/// wraps to the margin of a new row whose top is the previous row's top plus that
/// row's tallest widget plus the margin.
pub proof fn lemma_horizontal_wrap(c: Cursor, size: Vec2)
    requires
        c.next_same_line.is_none(),
        crate::types::fits(c.y + c.max_row_y + c.margin),
    ensures
        c.fits_in_row(size.x as int) ==> c.place(size, Layout::Horizontal).1 == (Vec2 { x: c.x, y: c.y }),
        !c.fits_in_row(size.x as int) ==> c.place(size, Layout::Horizontal).1 == (Vec2 {
            x: c.margin,
            y: (c.y + c.max_row_y + c.margin) as i32,
        }),
{
}

/// The screen row of a placement: its top plus the area's top and the scroll offset,
/// where none of these sums leaves the range of a coordinate.
pub open spec fn screen_y_exact(c: Cursor, p: Vec2) -> bool {
    &&& crate::types::fits(p.y + c.area.y)
    &&& crate::types::fits(p.y + c.area.y + c.scroll.scroll.y)
}

/// Two widgets placed one after the other by `fit` in vertical layout land on screen
/// rows exactly the first's height plus the margin apart, whatever their widths
/// (where nothing saturates and the first widget with its margin has some width).
pub proof fn lemma_vertical_screen_rows(c: Cursor, first: Vec2, second: Vec2)
    requires
        c.next_same_line.is_none(),
        first.x + c.margin != 0,
        crate::types::fits(c.margin + first.x + c.margin),
        crate::types::fits(first.y + c.margin),
        crate::types::fits(c.place(first, Layout::Vertical).1.y + first.y + c.margin),
        screen_y_exact(c, c.place(first, Layout::Vertical).1),
        screen_y_exact(c, c.spec_fit(first, Layout::Vertical).place(second, Layout::Vertical).1),
    ensures
        c.spec_fit(first, Layout::Vertical).spec_fit_pos(second, Layout::Vertical).y == c.spec_fit_pos(
            first,
            Layout::Vertical,
        ).y + first.y + c.margin,
{
    lemma_vertical_rows(c, first, second);
}

/// A widget that no longer fits its row in horizontal layout lands on screen at the
/// previous row's top plus that row's tallest widget plus the margin (where nothing
/// saturates).
pub proof fn lemma_horizontal_screen_wrap(c: Cursor, size: Vec2)
    requires
        c.next_same_line.is_none(),
        !c.fits_in_row(size.x as int),
        crate::types::fits(c.y + c.max_row_y + c.margin),
        screen_y_exact(c, c.place(size, Layout::Horizontal).1),
    ensures
        c.spec_fit_pos(size, Layout::Horizontal).y == c.y + c.max_row_y + c.margin + c.area.y
            + c.scroll.scroll.y,
{
    lemma_horizontal_wrap(c, size);
}

} // verus!
