//! Input-ownership decisions for a scene that sits behind a UI pane.
//!
//! A scene of overlapping tiles receives pointer input in an early schedule
//! stage, while the UI that may cover it resolves its own pointer owner later.
//! The library decides which owner gates each scene input, which tile (if
//! any) the input reaches, and what the user is told about it.

pub mod ui_types;
pub mod owner;
pub mod text;
pub mod scene;
pub mod repro;
pub mod laws;
