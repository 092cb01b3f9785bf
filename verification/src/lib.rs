//! The rendering and navigation core of a terminal text viewer.
//!
//! A text is held as lines of grapheme clusters. A cursor names a line and a
//! cluster in it; the view turns that into a screen cell, keeps the cell
//! inside the viewport by scrolling, and produces the text of each visible
//! row. Every function carries a contract that Verus proves. What is taken
//! on trust from Unicode tables stands in `unicode`; the little that is
//! taken on trust from the standard library says so where it stands.

pub mod buffer;
pub mod editor;
pub mod editor_command;
pub mod line;
pub mod terminal;
pub mod text;
pub mod unicode;
pub mod view;

pub use buffer::Buffer;
pub use editor::{Editor, Frame};
pub use editor_command::{
    Direction, EditorCommand, InputEvent, Key, KeyPress, Modifiers, Unsupported,
};
pub use line::{GraphemeWidth, Line, Measure, TextFragment};
pub use terminal::{ScreenPosition, Size};
pub use view::{TextLocation, View};
