//! Core of a streaming radio player: an incremental MP3 decoder that adapts a
//! byte source into a sequence of PCM samples, and a message-driven player
//! whose state transitions are verified.

pub mod decoder;
pub mod player;
