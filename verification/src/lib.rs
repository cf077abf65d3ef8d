//! A window of three panes, side by side, whose boundaries can be dragged.

pub mod grid;
pub mod pane;
pub mod scene;
pub mod state;
pub mod window;
