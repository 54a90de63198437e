use chaes::bitboard::BitBoard;
use chaes::piece::{Color, PieceKind};
use chaes::square::Square;

#[test]
fn test_new_bitboard() {
    let bb = BitBoard::default();
    assert!(bb.is_clear());
    assert_eq!(bb.piece(), None);
}

#[test]
fn test_set_piece() {
    let mut bb = BitBoard::default();
    bb.set_piece(Color::Black, PieceKind::Pawn);
    assert!(bb.is_clear());
    assert!(bb.piece().is_some());
    assert_eq!(bb.piece().unwrap().kind(), &PieceKind::Pawn);
}

#[test]
fn test_set_and_get_square() {
    let mut bb = BitBoard::with_piece(Color::Black, PieceKind::Pawn);
    assert_eq!(bb.get_square(Square::E5), false);
    bb.set_square(Square::E5, true);
    assert_eq!(bb.get_square(Square::E5), true);
    assert_eq!(bb.get_square(Square::E4), false);
    assert_eq!(bb.get_square(Square::E6), false);
    assert!(!bb.is_clear());
}

#[test]
fn test_set_when_already_set() {
    let mut bb = BitBoard::with_piece(Color::Black, PieceKind::Pawn);
    assert_eq!(bb.get_square(Square::E5), false);
    bb.set_square(Square::E5, true);
    assert_eq!(bb.get_square(Square::E5), true);
    bb.set_square(Square::E5, true);
    assert_eq!(bb.get_square(Square::E5), true);
    assert!(!bb.is_clear());
}

#[test]
fn test_set_and_set_back() {
    let mut bb = BitBoard::with_piece(Color::Black, PieceKind::Pawn);
    assert_eq!(bb.get_square(Square::E5), false);
    bb.set_square(Square::E5, true);
    assert_eq!(bb.get_square(Square::E5), true);
    bb.set_square(Square::E5, false);
    assert_eq!(bb.get_square(Square::E5), false);
    assert!(bb.is_clear());
}

#[test]
fn test_set_squares() {
    let mut bb = BitBoard::default();
    assert!(bb.is_clear());
    bb.set_squares(
        vec![Square::A1, Square::H7, Square::E7, Square::H3, Square::D2],
        true,
    );
    assert!(bb.get_square(Square::A1));
    assert!(bb.get_square(Square::H7));
    assert!(bb.get_square(Square::E7));
    assert!(bb.get_square(Square::H3));
    assert!(bb.get_square(Square::D2));
}

#[test]
fn test_bitboard_into_vec_of_squares() {
    let mut bb = BitBoard::default();

    bb.set_squares(vec![Square::H7, Square::E3, Square::A2], true);

    let found: Vec<Square> = bb.to_squares();
    assert_eq!(found, vec![Square::H7, Square::E3, Square::A2]);
}

#[test]
fn test_set_squares_duplicate_square() {
    // Listing the same square twice with `true` leaves it active exactly
    // once: the mask has bit semantics, not a counter.
    let mut bb = BitBoard::default();
    bb.set_squares(vec![Square::E5, Square::E5], true);
    assert!(bb.get_square(Square::E5));
    assert_eq!(*bb.bits(), 1u64 << 28);
    assert_eq!(bb.to_squares(), vec![Square::E5]);
}

#[test]
fn test_set_piece_keeps_bits() {
    // Re-tagging a mask never moves or clears pieces.
    let mut bb = BitBoard::new(0xFF00, None);
    bb.set_piece(Color::White, PieceKind::Rook);
    assert_eq!(*bb.bits(), 0xFF00);
    bb.set_piece(Color::Black, PieceKind::Queen);
    assert_eq!(*bb.bits(), 0xFF00);
    assert_eq!(bb.piece().unwrap().kind(), &PieceKind::Queen);
}

#[test]
fn test_set_square_keeps_piece() {
    // Bit writes never change the tag.
    let mut bb = BitBoard::with_piece(Color::White, PieceKind::Knight);
    bb.set_square(Square::B1, true);
    assert_eq!(bb.piece().unwrap().kind(), &PieceKind::Knight);
    assert_eq!(bb.piece().unwrap().color(), &Color::White);
    bb.set_squares(vec![Square::G1, Square::B1], false);
    assert_eq!(bb.piece().unwrap().kind(), &PieceKind::Knight);
    assert!(bb.is_clear());
}

#[test]
fn test_render_untagged_corner() {
    let bb = BitBoard::new(1, None);
    let mut expected = String::new();
    expected.push_str("   A  B  C  D  E  F  G  H ");
    expected.push_str("\n8  1  0  0  0  0  0  0  0 ");
    expected.push_str("\n7  0  0  0  0  0  0  0  0 ");
    expected.push_str("\n6  0  0  0  0  0  0  0  0 ");
    expected.push_str("\n5  0  0  0  0  0  0  0  0 ");
    expected.push_str("\n4  0  0  0  0  0  0  0  0 ");
    expected.push_str("\n3  0  0  0  0  0  0  0  0 ");
    expected.push_str("\n2  0  0  0  0  0  0  0  0 ");
    expected.push_str("\n1  0  0  0  0  0  0  0  0 ");
    expected.push_str("\n   A  B  C  D  E  F  G  H \n");
    assert_eq!(bb.render(), expected);
}

#[test]
fn test_render_tagged_last_bit() {
    // Bit 63 renders in the bottom-right cell, with the tag's glyph.
    let mut bb = BitBoard::with_piece(Color::White, PieceKind::King);
    bb.set_square(Square::H1, true);
    let mut expected = String::new();
    expected.push_str("   A  B  C  D  E  F  G  H ");
    expected.push_str("\n8  0  0  0  0  0  0  0  0 ");
    expected.push_str("\n7  0  0  0  0  0  0  0  0 ");
    expected.push_str("\n6  0  0  0  0  0  0  0  0 ");
    expected.push_str("\n5  0  0  0  0  0  0  0  0 ");
    expected.push_str("\n4  0  0  0  0  0  0  0  0 ");
    expected.push_str("\n3  0  0  0  0  0  0  0  0 ");
    expected.push_str("\n2  0  0  0  0  0  0  0  0 ");
    expected.push_str("\n1  0  0  0  0  0  0  0  ♔ ");
    expected.push_str("\n   A  B  C  D  E  F  G  H \n");
    assert_eq!(bb.render(), expected);
}
