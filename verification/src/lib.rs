//! Window layout logic for a keyboard-driven window tiler: rectangles,
//! layout calculations, hotkey text, configuration normalisation, the
//! keyboard-hook decisions and the undo bookkeeping of the window manager.

pub mod rect;
pub mod frame;
pub mod text;
pub mod shortcut;
pub mod engine;
pub mod config;
pub mod hotkey;
pub mod manager;
