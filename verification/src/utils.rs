//! Scanning helpers that work on source text.

pub mod char_iterator;
pub mod file_text_has_ignore_comment;

pub use char_iterator::CharIterator;
pub use file_text_has_ignore_comment::file_text_has_ignore_comment;
