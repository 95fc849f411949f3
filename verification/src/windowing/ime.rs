//! Input methods.
use vstd::prelude::*;

verus! {

/// An event of an input method.
#[derive(Debug)]
pub enum ImeEvent {
    /// A composition that is shown but not committed.
    Preedit {
        text: String,
        /// Byte offset of the caret in `text`, or `None` to hide it.
        cursor: Option<u32>,
    },
    /// A committed text.
    Commit(String),
    /// Delete this many bytes before and after the caret.
    DeleteSurroundingText { before_bytes: u32, after_bytes: u32 },
}

} // verus!
