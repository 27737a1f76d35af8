//! A line editor for an interactive shell prompt.
//!
//! The crate keeps three things in step while a line is typed: the text of
//! the line, the offset of the cursor within it, and the cell of the screen
//! on which the terminal shows that cursor. Nothing here touches a terminal.
//! Every function takes what was read from it as plain values and hands back
//! the terminal commands that a driver has to queue.

pub mod buffer;
pub mod terminal;
pub mod tracker;
pub mod render;
pub mod event;
pub mod console;
pub mod prompt;

pub use crate::buffer::LineBuffer;
pub use crate::console::Console;
