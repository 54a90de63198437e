use vstd::prelude::*;

verus! {

/// The side a piece belongs to: the light side or the dark side.
#[derive(PartialEq, Eq, Structural, Debug)]
pub enum Color {
    White,
    Black,
}

/// The six chess piece kinds.
#[derive(PartialEq, Eq, Structural, Debug, Hash)]
pub enum PieceKind {
    Pawn,
    Knight,
    Bishop,
    Rook,
    Queen,
    King,
}

/// A concrete occupant class: a color together with a kind, such as the
/// dark-side bishop. Two pieces are equal exactly when both fields match.
#[derive(PartialEq, Eq, Structural, Debug)]
pub struct Piece {
    pub color: Color,
    pub kind: PieceKind,
}

/// The printable glyph of a piece: the filled figurine for the dark side,
/// the outlined one for the light side.
pub open spec fn piece_char(p: Piece) -> char {
    match (p.kind, p.color) {
        (PieceKind::Pawn, Color::Black) => '♟',
        (PieceKind::Knight, Color::Black) => '♞',
        (PieceKind::Bishop, Color::Black) => '♝',
        (PieceKind::Rook, Color::Black) => '♜',
        (PieceKind::Queen, Color::Black) => '♛',
        (PieceKind::King, Color::Black) => '♚',
        (PieceKind::Pawn, Color::White) => '♙',
        (PieceKind::Knight, Color::White) => '♘',
        (PieceKind::Bishop, Color::White) => '♗',
        (PieceKind::Rook, Color::White) => '♖',
        (PieceKind::Queen, Color::White) => '♕',
        (PieceKind::King, Color::White) => '♔',
    }
}

impl Piece {
    /// A piece of the given color and kind.
    pub fn new(color: Color, kind: PieceKind) -> (r: Self)
        ensures
            r == (Piece { color, kind }),
    {
        Self { color, kind }
    }

    /// Whether the piece belongs to the light side.
    pub fn is_white(&self) -> (r: bool)
        ensures
            r == (self.color == Color::White),
    {
        self.color == Color::White
    }

    /// The piece's color.
    pub fn color(&self) -> (r: &Color)
        ensures
            *r == self.color,
    {
        &self.color
    }

    /// The piece's kind.
    pub fn kind(&self) -> (r: &PieceKind)
        ensures
            *r == self.kind,
    {
        &self.kind
    }

    /// The printable glyph of this piece, exactly [`piece_char`].
    pub fn to_char(&self) -> (r: char)
        ensures
            r == piece_char(*self),
    {
        match (&self.kind, self.is_white()) {
            (PieceKind::Pawn, false) => '♟',
            (PieceKind::Knight, false) => '♞',
            (PieceKind::Bishop, false) => '♝',
            (PieceKind::Rook, false) => '♜',
            (PieceKind::Queen, false) => '♛',
            (PieceKind::King, false) => '♚',
            (PieceKind::Pawn, true) => '♙',
            (PieceKind::Knight, true) => '♘',
            (PieceKind::Bishop, true) => '♗',
            (PieceKind::Rook, true) => '♖',
            (PieceKind::Queen, true) => '♕',
            (PieceKind::King, true) => '♔',
        }
    }
}

} // verus!
