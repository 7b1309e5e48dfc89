//! Host-driven rendering bridge for an immediate-mode UI on a mobile shell.
//!
//! The host owns the event loop. Once per frame it hands the renderer a batch
//! of input events; the renderer translates them, lets the UI toolkit run,
//! draws, and hands back a small output descriptor. This crate holds the
//! decisions of that bridge: every function carries a contract that is
//! machine-checked.

pub mod clipboard;
pub mod input;
pub mod output;
pub mod renderer;
pub mod safe_area;
pub mod scalar;
pub mod surface;

pub use clipboard::{Clipboard, IosClipboard};
pub use input::InputEvent;
pub use output::{CursorIcon, OutputState};
pub use renderer::NotedeckRenderer;
pub use safe_area::SafeAreaInsets;
