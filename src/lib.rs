//! Byte-grid navigation and dual-pane (hex / ASCII) rendering for a terminal
//! file viewer.

pub mod cursor;
pub mod editor;
pub mod layout;
pub mod render;
pub mod scroller;
