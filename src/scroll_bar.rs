//! The vertical scroll bar: how the thumb is sized and placed, and how dragging it
//! or turning the wheel moves the scroll position.
use vstd::prelude::*;

use crate::cursor::{clamp_to, Scroll};
use crate::types::{sat, saturate, Rect, Vec2};

verus! {

/// `a / b` rounded toward zero, for `b > 0`.
pub open spec fn div_toward_zero(a: int, b: int) -> int {
    if a >= 0 {
        a / b
    } else {
        -((-a) / b)
    }
}

/// `a / b` rounded toward zero, for `b > 0`.
pub fn div_wide(a: i128, b: i128) -> (r: i128)
    requires
        b > 0,
        a > i128::MIN,
    ensures
        r == div_toward_zero(a as int, b as int),
{
    if a >= 0 {
        a / b
    } else {
        -((-a) / b)
    }
}

/// `a * b / c` rounded toward zero and brought into the range of a coordinate.
pub open spec fn scaled(a: int, b: int, c: int) -> int {
    sat(div_toward_zero(a * b, c))
}

/// `a * b / c` rounded toward zero and brought into the range of a coordinate (`c > 0`).
pub fn scale(a: i64, b: i64, c: i64) -> (r: i32)
    requires
        c > 0,
        -0x8000_0000_0000 <= a <= 0x8000_0000_0000,
        -0x8000_0000_0000 <= b <= 0x8000_0000_0000,
    ensures
        r == scaled(a as int, b as int, c as int),
{
    assert(-0x4000_0000_0000_0000_0000_0000 <= a * b <= 0x4000_0000_0000_0000_0000_0000)
        by (nonlinear_arith)
        requires
            -0x8000_0000_0000 <= a <= 0x8000_0000_0000,
            -0x8000_0000_0000 <= b <= 0x8000_0000_0000,
    ;
    let q = div_wide(a as i128 * b as i128, c as i128);
    assert(-0x4000_0000_0000_0000_0000_0000 <= q <= 0x4000_0000_0000_0000_0000_0000) by (nonlinear_arith)
        requires
            q == div_toward_zero(a * b, c as int),
            c >= 1,
            -0x4000_0000_0000_0000_0000_0000 <= a * b <= 0x4000_0000_0000_0000_0000_0000,
    ;
    if q > i32::MAX as i128 {
        i32::MAX
    } else if q < i32::MIN as i128 {
        i32::MIN
    } else {
        q as i32
    }
}

/// What a scroll bar does in one frame.
#[derive(Clone, Copy, Debug)]
pub struct ScrollBarFrame {
    /// The scroll state afterwards.
    pub scroll: Scroll,
    /// The thumb.
    pub bar: Rect,
    /// Whether the pointer is over the thumb.
    pub hovered: bool,
    /// Whether the thumb is being dragged.
    pub clicked: bool,
}

/// The input that a scroll bar reads.
#[derive(Clone, Copy, Debug)]
pub struct ScrollInput {
    pub mouse_position: Vec2,
    pub click_down: bool,
    pub is_mouse_down: bool,
    pub wheel_y: i32,
}

/// The thumb of a bar along `track`: its height is the visible share of the content,
/// its offset the share of the content scrolled past.
pub open spec fn thumb(s: Scroll, track: Rect) -> Rect {
    let inner = s.inner_rect_previous_frame;
    Rect {
        x: sat(track.x + 1) as i32,
        y: sat(track.y + scaled(s.rect.y - inner.y, track.h as int, inner.h as int)) as i32,
        w: sat(track.w - 1) as i32,
        h: scaled(s.rect.h as int, track.h as int, inner.h as int) as i32,
    }
}

/// The scroll state after a thumb drag and a wheel turn, before clamping is applied
/// anew by `scroll_to`; `area` is the part of the window that the wheel acts on.
pub open spec fn spec_scroll_bar(
    s: Scroll,
    track: Rect,
    area: Rect,
    input: ScrollInput,
    focused: bool,
    multiplier: i32,
) -> ScrollBarFrame {
    let inner = s.inner_rect_previous_frame;
    let bar = thumb(s, track);
    let hovered = bar.spec_contains(input.mouse_position);
    let grabbed = hovered && input.click_down;
    let s1 = if grabbed {
        Scroll {
            dragging_y: true,
            initial_scroll: Vec2 { x: input.mouse_position.y, y: s.rect.y },
            ..s
        }
    } else {
        s
    };
    let s2 = if !input.is_mouse_down {
        Scroll { dragging_y: false, ..s1 }
    } else {
        s1
    };
    let s3 = if s2.dragging_y {
        let target = sat(
            s2.initial_scroll.y + scaled(
                input.mouse_position.y - s2.initial_scroll.x,
                inner.h as int,
                s2.rect.h as int,
            ),
        );
        Scroll {
            rect: Rect { y: clamp_to(target, s2.min_scroll(), s2.max_scroll()) as i32, ..s2.rect },
            ..s2
        }
    } else {
        s2
    };
    let s4 = if focused && area.spec_contains(input.mouse_position) && input.wheel_y != 0 {
        let target = sat(
            s3.rect.y + scaled(sat(input.wheel_y * multiplier), inner.h as int, s3.rect.h as int),
        );
        Scroll {
            rect: Rect { y: clamp_to(target, s3.min_scroll(), s3.max_scroll()) as i32, ..s3.rect },
            ..s3
        }
    } else {
        s3
    };
    ScrollBarFrame { scroll: s4, bar, hovered, clicked: s2.dragging_y }
}

/// Runs the scroll bar for one frame. The content and the visible part must both
/// have some height.
pub fn scroll_bar(
    s: Scroll,
    track: Rect,
    area: Rect,
    input: ScrollInput,
    focused: bool,
    multiplier: i32,
) -> (r: ScrollBarFrame)
    requires
        s.rect.h > 0,
        s.inner_rect_previous_frame.h > 0,
    ensures
        r == spec_scroll_bar(s, track, area, input, focused, multiplier),
{
    let mut s = s;
    let inner = s.inner_rect_previous_frame;
    let size = scale(s.rect.h as i64, track.h as i64, inner.h as i64);
    let pos = scale(s.rect.y as i64 - inner.y as i64, track.h as i64, inner.h as i64);
    let bar = Rect::new(
        saturate(track.x as i64 + 1),
        saturate(track.y as i64 + pos as i64),
        saturate(track.w as i64 - 1),
        size,
    );
    let hovered = bar.contains(input.mouse_position);
    if hovered && input.click_down {
        s.dragging_y = true;
        s.initial_scroll = Vec2::new(input.mouse_position.y, s.rect.y);
    }
    if !input.is_mouse_down {
        s.dragging_y = false;
    }
    let clicked = s.dragging_y;
    if s.dragging_y {
        let delta = scale(
            input.mouse_position.y as i64 - s.initial_scroll.x as i64,
            inner.h as i64,
            s.rect.h as i64,
        );
        s.scroll_to(saturate(s.initial_scroll.y as i64 + delta as i64));
    }
    if focused && area.contains(input.mouse_position) && input.wheel_y != 0 {
        assert(-0x4000_0000_0000_0000 <= input.wheel_y * multiplier <= 0x4000_0000_0000_0000)
            by (nonlinear_arith)
            requires
                i32::MIN <= input.wheel_y <= i32::MAX,
                i32::MIN <= multiplier <= i32::MAX,
        ;
        let turn = saturate(input.wheel_y as i64 * multiplier as i64);
        let delta = scale(turn as i64, inner.h as i64, s.rect.h as i64);
        s.scroll_to(saturate(s.rect.y as i64 + delta as i64));
    }
    ScrollBarFrame { scroll: s, bar, hovered, clicked }
}

} // verus!
