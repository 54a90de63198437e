use vstd::prelude::*;
use vstd::string::StringExecFns;

use crate::piece::{piece_char, Color, Piece, PieceKind};
use crate::square::{lemma_square_index_bijective, square_index, square_of, Square};

verus! {

/// Whether bit `i` of `bits` is set.
pub open spec fn bit_at(bits: u64, i: u64) -> bool {
    bits & (1u64 << i) != 0
}

/// `bits` with bit `i` set when `state` is true, and cleared when it is false.
pub open spec fn with_bit(bits: u64, i: u64, state: bool) -> u64 {
    if state {
        bits | (1u64 << i)
    } else {
        bits & !(1u64 << i)
    }
}

/// `bits` after setting (or clearing) the bit of each square of `sqs`, in the
/// order the sequence supplies them.
pub open spec fn with_squares(bits: u64, sqs: Seq<Square>, state: bool) -> u64
    decreases sqs.len(),
{
    if sqs.len() == 0 {
        bits
    } else {
        with_bit(
            with_squares(bits, sqs.drop_last(), state),
            square_index(sqs.last()),
            state,
        )
    }
}

/// The glyph an active cell shows: the tagged piece's figurine, or `'1'`
/// when the board carries no tag.
pub open spec fn glyph_of(piece: Option<Piece>) -> char {
    match piece {
        Some(p) => piece_char(p),
        None => '1',
    }
}

/// The character the rendered cell of bit `i` shows: the board's glyph where
/// the bit is set, `'0'` where it is clear.
pub open spec fn cell_char(b: BitBoard, i: u64) -> char {
    if bit_at(b.spec_bits(), i) {
        glyph_of(b.spec_piece())
    } else {
        '0'
    }
}

/// The rank digit written at the left of grid row `r`: row 0, which holds
/// bits 0 to 7, is labelled rank 8, and the ranks count down to row 7,
/// labelled rank 1.
pub open spec fn rank_char(r: int) -> char {
    if r == 0 {
        '8'
    } else if r == 1 {
        '7'
    } else if r == 2 {
        '6'
    } else if r == 3 {
        '5'
    } else if r == 4 {
        '4'
    } else if r == 5 {
        '3'
    } else if r == 6 {
        '2'
    } else {
        '1'
    }
}

/// The three characters of the rendered cell of bit `i`.
pub open spec fn cell_seq(b: BitBoard, i: u64) -> Seq<char> {
    seq![' ', cell_char(b, i), ' ']
}

/// The first `c` cells of grid row `r`, left to right: cell `c` of row `r`
/// shows bit `8 * r + c`.
pub open spec fn cells_seq(b: BitBoard, r: int, c: int) -> Seq<char>
    decreases c,
{
    if c <= 0 {
        Seq::empty()
    } else {
        cells_seq(b, r, c - 1) + cell_seq(b, (8 * r + c - 1) as u64)
    }
}

/// One full grid row: a line break, the rank digit, a space, eight cells.
pub open spec fn row_seq(b: BitBoard, r: int) -> Seq<char> {
    seq!['\n', rank_char(r), ' '] + cells_seq(b, r, 8)
}

/// The first `r` grid rows, top to bottom.
pub open spec fn rows_seq(b: BitBoard, r: int) -> Seq<char>
    decreases r,
{
    if r <= 0 {
        Seq::empty()
    } else {
        rows_seq(b, r - 1) + row_seq(b, r - 1)
    }
}

/// The full rendering of a board: the file header, the eight grid rows with
/// bit 0 in the top-left cell and bit 63 in the bottom-right cell, and the
/// closing file line.
pub open spec fn render_seq(b: BitBoard) -> Seq<char> {
    "   A  B  C  D  E  F  G  H "@ + rows_seq(b, 8) + "\n   A  B  C  D  E  F  G  H \n"@
}

/// Writing bit `i` touches exactly bit `i`: afterwards that bit reads back
/// the written state, and every other bit reads as before.
pub proof fn lemma_with_bit(bits: u64, i: u64, state: bool, j: u64)
    by (bit_vector)
    requires
        i < 64,
        j < 64,
    ensures
        bit_at(with_bit(bits, i, state), j) == (if j == i {
            state
        } else {
            bit_at(bits, j)
        }),
{
}

/// Idempotence: writing the same state to the same bit twice yields the same
/// mask as writing it once.
pub proof fn lemma_with_bit_idempotent(bits: u64, i: u64, state: bool)
    by (bit_vector)
    requires
        i < 64,
    ensures
        with_bit(with_bit(bits, i, state), i, state) == with_bit(bits, i, state),
{
}

/// Set/clear round trip: setting bit `i` and then clearing it leaves that bit
/// clear, leaves every other bit as it was, and, when bit `i` started out
/// clear, restores the mask exactly.
pub proof fn lemma_with_bit_round_trip(bits: u64, i: u64)
    requires
        i < 64,
    ensures
        !bit_at(with_bit(with_bit(bits, i, true), i, false), i),
        forall|j: u64|
            j < 64 && j != i ==> bit_at(with_bit(with_bit(bits, i, true), i, false), j) == bit_at(
                bits,
                j,
            ),
        !bit_at(bits, i) ==> with_bit(with_bit(bits, i, true), i, false) == bits,
{
    lemma_with_bit(with_bit(bits, i, true), i, false, i);
    assert forall|j: u64|
        j < 64 && j != i implies bit_at(with_bit(with_bit(bits, i, true), i, false), j) == bit_at(
        bits,
        j,
    ) by {
        lemma_with_bit(bits, i, true, j);
        lemma_with_bit(with_bit(bits, i, true), i, false, j);
    }
    assert(!bit_at(bits, i) ==> with_bit(with_bit(bits, i, true), i, false) == bits)
        by (bit_vector)
        requires
            i < 64,
    ;
}

/// A bulk write touches exactly the bits of the listed squares: a bit whose
/// square occurs in the list reads back the written state, and every other
/// bit reads as before.
pub proof fn lemma_with_squares_pointwise(bits: u64, sqs: Seq<Square>, state: bool, j: u64)
    requires
        j < 64,
    ensures
        bit_at(with_squares(bits, sqs, state), j) == (if exists|k: int|
            0 <= k < sqs.len() && square_index(#[trigger] sqs[k]) == j {
            state
        } else {
            bit_at(bits, j)
        }),
    decreases sqs.len(),
{
    lemma_square_index_bijective();
    if sqs.len() == 0 {
    } else {
        let prefix = sqs.drop_last();
        lemma_with_squares_pointwise(bits, prefix, state, j);
        lemma_with_bit(with_squares(bits, prefix, state), square_index(sqs.last()), state, j);
        if square_index(sqs.last()) == j {
            assert(square_index(sqs[sqs.len() - 1]) == j);
        } else {
            if exists|k: int| 0 <= k < sqs.len() && square_index(#[trigger] sqs[k]) == j {
                let k = choose|k: int| 0 <= k < sqs.len() && square_index(#[trigger] sqs[k]) == j;
                assert(k < sqs.len() - 1);
                assert(square_index(prefix[k]) == j);
            }
        }
    }
}

/// A 64-bit occupancy mask over the board, one bit per square, together with
/// an optional piece tag.
///
/// Bit `i` is set exactly when the square with bit index `i` is marked. What
/// a set bit means — where a piece stands, which squares are attacked, and so
/// on — is carried entirely by the optional tag; the bit field itself is
/// meaning-agnostic. Tag and bits are orthogonal: re-tagging never moves or
/// clears bits, and bit writes never change the tag.
pub struct BitBoard {
    bits: u64,
    piece: Option<Piece>,
}

impl BitBoard {
    /// The raw 64-bit field, for use in specifications.
    pub closed spec fn spec_bits(&self) -> u64 {
        self.bits
    }

    /// The optional piece tag, for use in specifications.
    pub closed spec fn spec_piece(&self) -> Option<Piece> {
        self.piece
    }

    /// A board with the given raw bits and optional tag.
    pub fn new(bits: u64, piece: Option<Piece>) -> (r: Self)
        ensures
            r.spec_bits() == bits,
            r.spec_piece() == piece,
    {
        Self { bits, piece }
    }

    /// Borrows the raw bits.
    pub fn bits(&self) -> (r: &u64)
        ensures
            *r == self.spec_bits(),
    {
        &self.bits
    }

    /// An empty board tagged with the piece of the given color and kind.
    pub fn with_piece(color: Color, kind: PieceKind) -> (r: Self)
        ensures
            r.spec_bits() == 0,
            r.spec_piece() == Some(Piece { color, kind }),
    {
        let mut bb = BitBoard::default();
        bb.set_piece(color, kind);
        bb
    }

    /// True exactly when all 64 bits are 0.
    pub fn is_clear(&self) -> (r: bool)
        ensures
            r == (self.spec_bits() == 0),
    {
        self.bits == 0
    }

    /// The associated piece, if any. Reading the tag says nothing about the
    /// bit field.
    pub fn piece(&self) -> (r: Option<&Piece>)
        ensures
            match r {
                Some(p) => self.spec_piece() == Some(*p),
                None => self.spec_piece() is None,
            },
    {
        self.piece.as_ref()
    }

    /// Replaces the tag with the piece of the given color and kind; the bit
    /// field stays exactly as it was.
    pub fn set_piece(&mut self, color: Color, kind: PieceKind)
        ensures
            final(self).spec_bits() == old(self).spec_bits(),
            final(self).spec_piece() == Some(Piece { color, kind }),
    {
        self.piece = Some(Piece::new(color, kind))
    }

    /// Whether the bit at `sq`'s index is set.
    pub fn get_square(&self, sq: Square) -> (r: bool)
        ensures
            r == bit_at(self.spec_bits(), square_index(sq)),
    {
        let idx = sq.index();
        let mask: u64 = 1u64 << (idx as u64);
        (self.bits & mask) != 0
    }

    /// Writes `state` to exactly the bit at `sq`'s index: that bit afterwards
    /// holds `state`, every other bit and the tag are untouched. Writing a
    /// state a bit already holds is observably a no-op.
    pub fn set_square(&mut self, sq: Square, state: bool)
        ensures
            final(self).spec_bits() == with_bit(old(self).spec_bits(), square_index(sq), state),
            final(self).spec_piece() == old(self).spec_piece(),
            forall|j: u64|
                j < 64 ==> bit_at(final(self).spec_bits(), j) == (if j == square_index(sq) {
                    state
                } else {
                    bit_at(old(self).spec_bits(), j)
                }),
    {
        let idx = sq.index();
        let mask: u64 = 1u64 << (idx as u64);
        if state {
            self.bits = self.bits | mask;
        } else {
            self.bits = self.bits & !mask;
        }
        proof {
            assert forall|j: u64|
                j < 64 implies bit_at(self.spec_bits(), j) == (if j == square_index(sq) {
                state
            } else {
                bit_at(old(self).spec_bits(), j)
            }) by {
                lemma_square_index_bijective();
                lemma_with_bit(old(self).spec_bits(), square_index(sq), state, j);
            }
        }
    }

    /// Writes `state` to the bit of each listed square, in list order. The
    /// tag is untouched; a square listed twice ends up in the same state as
    /// one listed once.
    pub fn set_squares(&mut self, sqs: Vec<Square>, state: bool)
        ensures
            final(self).spec_bits() == with_squares(old(self).spec_bits(), sqs@, state),
            final(self).spec_piece() == old(self).spec_piece(),
            forall|j: u64|
                j < 64 ==> bit_at(final(self).spec_bits(), j) == (if exists|k: int|
                    0 <= k < sqs@.len() && square_index(#[trigger] sqs@[k]) == j {
                    state
                } else {
                    bit_at(old(self).spec_bits(), j)
                }),
    {
        let n = sqs.len();
        for pos in 0..n
            invariant
                n == sqs@.len(),
                self.spec_bits() == with_squares(
                    old(self).spec_bits(),
                    sqs@.subrange(0, pos as int),
                    state,
                ),
                self.spec_piece() == old(self).spec_piece(),
        {
            self.set_square(sqs[pos], state);
            proof {
                let done = sqs@.subrange(0, pos + 1);
                assert(done.drop_last() =~= sqs@.subrange(0, pos as int));
                assert(done.last() == sqs@[pos as int]);
            }
        }
        proof {
            assert(sqs@.subrange(0, n as int) =~= sqs@);
            assert forall|j: u64| j < 64 implies bit_at(self.spec_bits(), j) == (if exists|k: int|
                0 <= k < sqs@.len() && square_index(#[trigger] sqs@[k]) == j {
                state
            } else {
                bit_at(old(self).spec_bits(), j)
            }) by {
                lemma_with_squares_pointwise(old(self).spec_bits(), sqs@, state, j);
            }
        }
    }

    /// The active squares of this mask, in ascending bit-index order: the
    /// result lists exactly the squares whose bit is set, each once, sorted
    /// by index.
    pub fn to_squares(&self) -> (r: Vec<Square>)
        ensures
            forall|k: int|
                0 <= k < r@.len() ==> bit_at(self.spec_bits(), square_index(#[trigger] r@[k])),
            forall|s: Square| bit_at(self.spec_bits(), square_index(s)) ==> r@.contains(s),
            forall|k1: int, k2: int|
                0 <= k1 < k2 < r@.len() ==> square_index(r@[k1]) < square_index(r@[k2]),
    {
        let mut squares: Vec<Square> = Vec::new();
        let mut i: u8 = 0;
        while i < 64
            invariant
                i <= 64,
                forall|k: int|
                    0 <= k < squares@.len() ==> square_index(#[trigger] squares@[k]) < i && bit_at(
                        self.spec_bits(),
                        square_index(squares@[k]),
                    ),
                forall|s: Square|
                    square_index(s) < i && bit_at(self.spec_bits(), square_index(s))
                        ==> squares@.contains(s),
                forall|k1: int, k2: int|
                    0 <= k1 < k2 < squares@.len() ==> square_index(squares@[k1]) < square_index(
                        squares@[k2],
                    ),
            decreases 64 - i,
        {
            let mask: u64 = 1u64 << (i as u64);
            if self.bits & mask != 0 {
                let ghost before = squares@;
                let sq = Square::try_from(i).unwrap();
                squares.push(sq);
                proof {
                    lemma_square_index_bijective();
                    assert(squares@ == before.push(sq));
                    assert(square_index(sq) == i);
                    assert forall|s: Square|
                        square_index(s) < i + 1 && bit_at(self.spec_bits(), square_index(s))
                            implies squares@.contains(s) by {
                        if square_index(s) < i {
                            assert(before.contains(s));
                            let k = choose|k: int| 0 <= k < before.len() && before[k] == s;
                            assert(squares@[k] == s);
                        } else {
                            assert(square_of(square_index(s)) == s);
                            assert(s == sq);
                            assert(squares@[squares@.len() - 1] == s);
                        }
                    }
                }
            }
            i = i + 1;
        }
        proof {
            lemma_square_index_bijective();
        }
        squares
    }

    /// The one-character string an active cell of this board shows: the
    /// tag's glyph, or `"1"` with no tag.
    fn glyph_str(&self) -> (r: &'static str)
        ensures
            r@ == seq![glyph_of(self.spec_piece())],
    {
        match &self.piece {
            None => {
                proof {
                    reveal_strlit("1");
                    assert("1"@ =~= seq![glyph_of(self.spec_piece())]);
                }
                "1"
            },
            Some(p) => match (&p.kind, &p.color) {
                (PieceKind::Pawn, Color::Black) => {
                    proof {
                        reveal_strlit("♟");
                        assert("♟"@ =~= seq![glyph_of(self.spec_piece())]);
                    }
                    "♟"
                },
                (PieceKind::Knight, Color::Black) => {
                    proof {
                        reveal_strlit("♞");
                        assert("♞"@ =~= seq![glyph_of(self.spec_piece())]);
                    }
                    "♞"
                },
                (PieceKind::Bishop, Color::Black) => {
                    proof {
                        reveal_strlit("♝");
                        assert("♝"@ =~= seq![glyph_of(self.spec_piece())]);
                    }
                    "♝"
                },
                (PieceKind::Rook, Color::Black) => {
                    proof {
                        reveal_strlit("♜");
                        assert("♜"@ =~= seq![glyph_of(self.spec_piece())]);
                    }
                    "♜"
                },
                (PieceKind::Queen, Color::Black) => {
                    proof {
                        reveal_strlit("♛");
                        assert("♛"@ =~= seq![glyph_of(self.spec_piece())]);
                    }
                    "♛"
                },
                (PieceKind::King, Color::Black) => {
                    proof {
                        reveal_strlit("♚");
                        assert("♚"@ =~= seq![glyph_of(self.spec_piece())]);
                    }
                    "♚"
                },
                (PieceKind::Pawn, Color::White) => {
                    proof {
                        reveal_strlit("♙");
                        assert("♙"@ =~= seq![glyph_of(self.spec_piece())]);
                    }
                    "♙"
                },
                (PieceKind::Knight, Color::White) => {
                    proof {
                        reveal_strlit("♘");
                        assert("♘"@ =~= seq![glyph_of(self.spec_piece())]);
                    }
                    "♘"
                },
                (PieceKind::Bishop, Color::White) => {
                    proof {
                        reveal_strlit("♗");
                        assert("♗"@ =~= seq![glyph_of(self.spec_piece())]);
                    }
                    "♗"
                },
                (PieceKind::Rook, Color::White) => {
                    proof {
                        reveal_strlit("♖");
                        assert("♖"@ =~= seq![glyph_of(self.spec_piece())]);
                    }
                    "♖"
                },
                (PieceKind::Queen, Color::White) => {
                    proof {
                        reveal_strlit("♕");
                        assert("♕"@ =~= seq![glyph_of(self.spec_piece())]);
                    }
                    "♕"
                },
                (PieceKind::King, Color::White) => {
                    proof {
                        reveal_strlit("♔");
                        assert("♔"@ =~= seq![glyph_of(self.spec_piece())]);
                    }
                    "♔"
                },
            },
        }
    }

    /// Renders the board as an 8x8 grid between two file-letter lines, with
    /// the rank digits counting down at the left: the cell of bit 0 sits in
    /// the top-left corner and the cell of bit 63 in the bottom-right one,
    /// every active square shows the tag's glyph — or `1` with no tag — and
    /// every inactive square shows `0`. The result is exactly
    /// [`render_seq`].
    pub fn render(&self) -> (out: String)
        ensures
            out@ == render_seq(*self),
    {
        let mut out = String::new();
        out.append("   A  B  C  D  E  F  G  H ");
        let mut r: u8 = 0;
        while r < 8
            invariant
                r <= 8,
                out@ == "   A  B  C  D  E  F  G  H "@ + rows_seq(*self, r as int),
            decreases 8 - r,
        {
            let rank_label = if r == 0 {
                "\n8 "
            } else if r == 1 {
                "\n7 "
            } else if r == 2 {
                "\n6 "
            } else if r == 3 {
                "\n5 "
            } else if r == 4 {
                "\n4 "
            } else if r == 5 {
                "\n3 "
            } else if r == 6 {
                "\n2 "
            } else {
                "\n1 "
            };
            proof {
                reveal_strlit("\n8 ");
                reveal_strlit("\n7 ");
                reveal_strlit("\n6 ");
                reveal_strlit("\n5 ");
                reveal_strlit("\n4 ");
                reveal_strlit("\n3 ");
                reveal_strlit("\n2 ");
                reveal_strlit("\n1 ");
                assert(rank_label@ =~= seq!['\n', rank_char(r as int), ' ']);
            }
            out.append(rank_label);
            let mut c: u8 = 0;
            while c < 8
                invariant
                    r < 8,
                    c <= 8,
                    out@ == "   A  B  C  D  E  F  G  H "@ + rows_seq(*self, r as int) + seq![
                        '\n',
                        rank_char(r as int),
                        ' ',
                    ] + cells_seq(*self, r as int, c as int),
                decreases 8 - c,
            {
                let idx: u64 = 8 * (r as u64) + (c as u64);
                let ghost prev = out@;
                let mask: u64 = 1u64 << idx;
                if self.bits & mask != 0 {
                    out.append(" ");
                    out.append(self.glyph_str());
                    out.append(" ");
                    proof {
                        reveal_strlit(" ");
                        assert(out@ =~= prev + cell_seq(*self, idx));
                    }
                } else {
                    out.append(" 0 ");
                    proof {
                        reveal_strlit(" 0 ");
                        assert(out@ =~= prev + cell_seq(*self, idx));
                    }
                }
                c = c + 1;
                proof {
                    assert(out@ =~= "   A  B  C  D  E  F  G  H "@ + rows_seq(*self, r as int)
                        + seq!['\n', rank_char(r as int), ' '] + cells_seq(
                        *self,
                        r as int,
                        c as int,
                    ));
                }
            }
            r = r + 1;
            proof {
                assert(rows_seq(*self, r as int) == rows_seq(*self, r - 1) + row_seq(
                    *self,
                    r - 1,
                ));
                assert(out@ =~= "   A  B  C  D  E  F  G  H "@ + rows_seq(*self, r as int));
            }
        }
        out.append("\n   A  B  C  D  E  F  G  H \n");
        proof {
            assert(out@ =~= render_seq(*self));
        }
        out
    }
}

impl Default for BitBoard {
    /// A default, empty board with no associated piece.
    fn default() -> (r: Self)
        ensures
            r.spec_bits() == 0,
            r.spec_piece() is None,
    {
        Self::new(0, None)
    }
}

} // verus!
