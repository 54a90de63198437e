use chaes::piece::{Color, Piece, PieceKind};

#[test]
fn test_new_piece() {
    let wb = Piece::new(Color::White, PieceKind::Bishop);
    let bb = Piece::new(Color::Black, PieceKind::Bishop);
    assert!(wb.is_white());
    assert!(!bb.is_white());
    assert_eq!(wb.kind(), &PieceKind::Bishop);
    assert_eq!(bb.kind(), &PieceKind::Bishop);
}

#[test]
fn test_piece_glyphs() {
    assert_eq!(Piece::new(Color::Black, PieceKind::Pawn).to_char(), '♟');
    assert_eq!(Piece::new(Color::White, PieceKind::Pawn).to_char(), '♙');
    assert_eq!(Piece::new(Color::Black, PieceKind::King).to_char(), '♚');
    assert_eq!(Piece::new(Color::White, PieceKind::King).to_char(), '♔');
    assert_eq!(Piece::new(Color::White, PieceKind::Queen).to_char(), '♕');
    assert_eq!(Piece::new(Color::Black, PieceKind::Rook).to_char(), '♜');
}

#[test]
fn test_piece_equality() {
    // Two pieces are equal exactly when both fields match.
    let a = Piece::new(Color::White, PieceKind::Bishop);
    let b = Piece::new(Color::White, PieceKind::Bishop);
    let c = Piece::new(Color::Black, PieceKind::Bishop);
    let d = Piece::new(Color::White, PieceKind::Knight);
    assert_eq!(a, b);
    assert_ne!(a, c);
    assert_ne!(a, d);
    assert_eq!(a.color(), &Color::White);
}
