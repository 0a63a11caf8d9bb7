//! A verified parser for PGN (Portable Game Notation) chess game records.
//!
//! A PGN source is a sequence of text lines: bracketed `[Key "Value"]` header
//! lines, followed by movetext listing the moves that were played.  The
//! library turns such lines into a typed representation: a sequence of tag
//! results (each line decodes to a tag or to a recoverable error) and a
//! sequence of half-moves, each attributed to the player who made it.

pub mod calendar;
pub mod chars;
pub mod game;
pub mod laws;
pub mod movetext;
pub mod numbers;
pub mod tag;

pub use calendar::Date;
pub use calendar::Time;
pub use game::Pgn;
pub use movetext::Move;
pub use tag::Tag;
pub use tag::TagError;

