//! Rendering core of a terminal status line.
//!
//! The library owns the event-driven render state, builds the left /
//! center / right segments of the line, measures text by the character
//! cells a terminal shows (styling escape sequences excluded), and
//! composes a line that fills the terminal's column count exactly.

pub mod clock;
pub mod compose;
pub mod numfmt;
pub mod palette;
pub mod segments;
pub mod state;
pub mod style;
pub mod width;
