use vstd::prelude::*;

use crate::bitboard::{bit_at, BitBoard};
use crate::piece::{Color, Piece, PieceKind};
use crate::square::{square_index, Square};

verus! {

/// The central invariant of a position: no two distinct boards of `s` have a
/// common set bit, so no square is claimed twice.
pub open spec fn pairwise_disjoint(s: Seq<BitBoard>) -> bool {
    forall|i: int, j: int|
        0 <= i < j < s.len() ==> (#[trigger] s[i].spec_bits()) & (#[trigger] s[j].spec_bits()) == 0
}

/// Whether `bb` is tagged with the piece of the given color and kind.
pub open spec fn tagged_with(bb: BitBoard, color: Color, kind: PieceKind) -> bool {
    bb.spec_piece() == Some(Piece { color, kind })
}

/// Whether `bb` carries a tag and claims `sq`: a tagged board whose bit at
/// `sq`'s index is set.
pub open spec fn tagged_claims(bb: BitBoard, sq: Square) -> bool {
    bb.spec_piece() is Some && bit_at(bb.spec_bits(), square_index(sq))
}

/// One board state: an ordered, exclusively owned collection of masks.
///
/// Appending does not enforce the disjointness invariant, so a position may
/// pass through transiently overlapping states while it is built up;
/// [`Position::no_collisions`] is the explicit check a caller runs before
/// trusting the state.
pub struct Position {
    bitboards: Vec<BitBoard>,
}

impl Position {
    /// The boards in insertion order, for use in specifications.
    pub closed spec fn spec_boards(&self) -> Seq<BitBoard> {
        self.bitboards@
    }

    /// A position with zero boards.
    pub fn new() -> (r: Self)
        ensures
            r.spec_boards() == Seq::<BitBoard>::empty(),
    {
        Self { bitboards: Vec::new() }
    }

    /// Appends `new_bb` as the newest board. The disjointness invariant is
    /// deliberately not checked here.
    pub fn add_bitboard(&mut self, new_bb: BitBoard)
        ensures
            final(self).spec_boards() == old(self).spec_boards().push(new_bb),
    {
        self.bitboards.push(new_bb)
    }

    /// True exactly when every pair of distinct boards is bit-disjoint, so no
    /// two boards claim the same square; vacuously true for zero or one
    /// boards.
    pub fn no_collisions(&self) -> (r: bool)
        ensures
            r == pairwise_disjoint(self.spec_boards()),
    {
        let n = self.bitboards.len();
        for i in 0..n
            invariant
                n == self.spec_boards().len(),
                forall|a: int, b: int|
                    0 <= a < b < n && a < i ==> (#[trigger] self.spec_boards()[a].spec_bits()) & (
                    #[trigger] self.spec_boards()[b].spec_bits()) == 0,
        {
            let mut j = i + 1;
            while j < n
                invariant
                    i < j,
                    j <= n,
                    n == self.spec_boards().len(),
                    forall|b: int|
                        i < b < j ==> (#[trigger] self.spec_boards()[i as int].spec_bits()) & (
                        #[trigger] self.spec_boards()[b].spec_bits()) == 0,
                decreases n - j,
            {
                if *self.bitboards[i].bits() & *self.bitboards[j].bits() != 0 {
                    return false;
                }
                j = j + 1;
            }
        }
        true
    }

    /// The first board, in insertion order, tagged with the piece of the
    /// given color and kind; `None` when no board carries that tag. Untagged
    /// boards are skipped, never matched.
    pub fn get_bitboard(&self, color: Color, kind: PieceKind) -> (r: Option<&BitBoard>)
        ensures
            ({
                let s = self.spec_boards();
                match r {
                    Some(bb) => exists|i: int|
                        0 <= i < s.len() && *bb == s[i] && #[trigger] tagged_with(s[i], color, kind)
                            && (forall|j: int| 0 <= j < i ==> !tagged_with(s[j], color, kind)),
                    None => forall|i: int|
                        0 <= i < s.len() ==> !tagged_with(#[trigger] s[i], color, kind),
                }
            }),
    {
        let n = self.bitboards.len();
        for i in 0..n
            invariant
                n == self.spec_boards().len(),
                forall|j: int| 0 <= j < i ==> !tagged_with(self.spec_boards()[j], color, kind),
        {
            let b = &self.bitboards[i];
            match b.piece() {
                Some(assoc_piece) => {
                    if assoc_piece.kind() == &kind && assoc_piece.color() == &color {
                        proof {
                            assert(*b == self.spec_boards()[i as int]);
                            assert(tagged_with(self.spec_boards()[i as int], color, kind));
                        }
                        return Some(b);
                    }
                },
                None => {},
            }
        }
        None
    }

    /// The occupant of `square`: the tag of the first board, in insertion
    /// order, that carries a tag and claims the square; `None` when no tagged
    /// board does. A board without a tag marks an anonymous set of squares
    /// and never counts as an occupant.
    pub fn get_single(&self, square: Square) -> (r: Option<&Piece>)
        ensures
            ({
                let s = self.spec_boards();
                match r {
                    Some(p) => exists|i: int|
                        0 <= i < s.len() && s[i].spec_piece() == Some(*p) && #[trigger] tagged_claims(
                            s[i],
                            square,
                        ) && (forall|j: int| 0 <= j < i ==> !tagged_claims(s[j], square)),
                    None => forall|i: int|
                        0 <= i < s.len() ==> !tagged_claims(#[trigger] s[i], square),
                }
            }),
    {
        let n = self.bitboards.len();
        for i in 0..n
            invariant
                n == self.spec_boards().len(),
                forall|j: int| 0 <= j < i ==> !tagged_claims(self.spec_boards()[j], square),
        {
            let b = &self.bitboards[i];
            if b.get_square(square) {
                match b.piece() {
                    Some(p) => {
                        proof {
                            assert(self.spec_boards()[i as int].spec_piece() == Some(*p));
                            assert(tagged_claims(self.spec_boards()[i as int], square));
                        }
                        return Some(p);
                    },
                    None => {},
                }
            }
        }
        None
    }
}

/// Disjointness detection on single-square masks: a position of two boards
/// that mark one square each collides exactly when the two squares' indices
/// coincide.
pub proof fn lemma_single_square_collision(a: BitBoard, b: BitBoard, i: u64, j: u64)
    requires
        i < 64,
        j < 64,
        a.spec_bits() == 1u64 << i,
        b.spec_bits() == 1u64 << j,
    ensures
        pairwise_disjoint(seq![a, b]) <==> i != j,
{
    let s = seq![a, b];
    assert((1u64 << i) & (1u64 << j) == 0 <==> i != j)
        by (bit_vector)
        requires
            i < 64 && j < 64,
    ;
    if i != j {
        assert forall|x: int, y: int|
            0 <= x < y < s.len() implies (#[trigger] s[x].spec_bits()) & (
        #[trigger] s[y].spec_bits()) == 0 by {
            assert(x == 0 && y == 1);
        }
    } else {
        assert(s[0].spec_bits() & s[1].spec_bits() != 0);
    }
}

} // verus!
