//! The render-ready row type, re-exported for the drawing layer. Drawing
//! itself (frames, widgets) lives outside this library.

pub use crate::tui::views::todo_list::Row;
