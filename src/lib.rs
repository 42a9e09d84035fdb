//! An immediate-mode GUI core: window registry, layout cursor, input routing,
//! focus and drag handling, and a clipped draw-command pipeline.
//!
//! Geometry is measured in whole pixels.
use vstd::prelude::*;

pub mod canvas;
pub mod cursor;
pub mod drag;
pub mod draw_list;
pub mod input;
pub mod scroll_bar;
pub mod style;
pub mod types;
pub mod widgets;
pub mod ui;

verus! {

/// Stable identifier of a window or widget, obtained by hashing a caller-chosen seed.
pub type Id = u64;

} // verus!
