//! State machine of a terminal dashboard for a task queue: scrolling over the
//! captured status text, a one-line argument editor, and periodic refresh.

pub mod app;
pub mod command;
pub mod editor;
pub mod event;
pub mod laws;
pub mod lines;
pub mod render;
pub mod router;
pub mod scroll;
pub mod text;
