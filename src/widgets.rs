//! Widgets built on the window, cursor, input and drawing primitives.
pub mod checkbox;
pub mod combobox;
pub mod editbox;
pub mod group;
pub mod separator;
