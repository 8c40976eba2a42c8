//! Widgets for a status bar: a layout protocol, a row layout engine, a text
//! leaf and a clock composed of five leaves.

pub mod clock;
pub mod draw;
pub mod geometry;
pub mod text_box;
pub mod time;
pub mod widget;
