//! The display task: its widgets, each a small state machine driven by the
//! display events, and the layout of what they draw.
pub mod commons;
pub mod input;
pub mod select;
pub mod check;
pub mod number;
pub mod field_editor;
pub mod header;
pub mod settings;
