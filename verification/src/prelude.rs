pub use crate::bitboard::BitBoard;
pub use crate::piece::Color;
pub use crate::piece::Piece;
pub use crate::piece::PieceKind;
pub use crate::position::Position;
pub use crate::square::Square;
pub use crate::square::SquareError;
