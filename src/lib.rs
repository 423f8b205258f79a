//! Emoji detection and removal over grapheme clusters, and removal of
//! characters that Windows does not accept in file names.

pub mod segment;
pub mod emoji;
pub mod laws;
pub mod win_illegal;
pub mod pipeline;
