//! A single-line text buffer for a keystroke echo loop: characters are
//! appended and deleted, and a cursor glyph can be laid over the display
//! without touching the stored text.

pub mod keys;
pub mod laws;
pub mod line_buffer;
pub mod text;

pub use keys::{Action, Key};
pub use line_buffer::{EditError, LineBuffer};
pub use text::overlay;
