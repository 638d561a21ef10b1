//! A minimal line-editor engine: a buffer of text lines plus a cursor,
//! with the navigation and mutation operations of a full-screen editor.
//!
//! The buffer always holds at least one line; the cursor row is 1-based
//! and the column ranges from 0 to one past the end of the current line
//! (0 and 1 both mean "start of line"; 0 arises only from moving left at
//! column 1 and is normalized back to 1 by the next insertion).

pub mod args;
pub mod cursor;
pub mod laws;
pub mod text;
