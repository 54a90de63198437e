//! A chess position representation core.
//!
//! The crate encodes where pieces sit on a 64-square board with one 64-bit
//! mask per piece type, maps squares to bit indices and back, and checks the
//! central invariant of a position: no two masks claim the same square.

pub mod bitboard;
pub mod piece;
pub mod position;
pub mod prelude;
pub mod square;
