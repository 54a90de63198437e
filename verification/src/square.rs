use vstd::prelude::*;

verus! {

/// One of the 64 board squares.
///
/// Every square owns exactly one bit index in `[0, 64)`, fixed by the order of
/// the variants below: `A8` is bit 0, `H8` is bit 7, and the ranks then count
/// down the board, so `A1` is bit 56 and `H1` is bit 63. This is the single
/// square-numbering convention of the crate; every mask operation and every
/// rendering of a board goes through it.
#[derive(Copy, Clone, PartialEq, Eq, Structural, Debug)]
pub enum Square {
    A8, B8, C8, D8, E8, F8, G8, H8,
    A7, B7, C7, D7, E7, F7, G7, H7,
    A6, B6, C6, D6, E6, F6, G6, H6,
    A5, B5, C5, D5, E5, F5, G5, H5,
    A4, B4, C4, D4, E4, F4, G4, H4,
    A3, B3, C3, D3, E3, F3, G3, H3,
    A2, B2, C2, D2, E2, F2, G2, H2,
    A1, B1, C1, D1, E1, F1, G1, H1,
}

/// Why a conversion from an integer to a [`Square`] failed.
#[derive(Copy, Clone, PartialEq, Eq, Structural, Debug)]
pub enum SquareError {
    /// The integer lies outside `[0, 64)`, so no square owns that bit index.
    OutOfRange,
}

/// The bit index that `s` owns: the rank-by-rank position of the variant,
/// counting `A8` as 0 and `H1` as 63.
pub open spec fn square_index(s: Square) -> u64 {
    match s {
        Square::A8 => 0,
        Square::B8 => 1,
        Square::C8 => 2,
        Square::D8 => 3,
        Square::E8 => 4,
        Square::F8 => 5,
        Square::G8 => 6,
        Square::H8 => 7,
        Square::A7 => 8,
        Square::B7 => 9,
        Square::C7 => 10,
        Square::D7 => 11,
        Square::E7 => 12,
        Square::F7 => 13,
        Square::G7 => 14,
        Square::H7 => 15,
        Square::A6 => 16,
        Square::B6 => 17,
        Square::C6 => 18,
        Square::D6 => 19,
        Square::E6 => 20,
        Square::F6 => 21,
        Square::G6 => 22,
        Square::H6 => 23,
        Square::A5 => 24,
        Square::B5 => 25,
        Square::C5 => 26,
        Square::D5 => 27,
        Square::E5 => 28,
        Square::F5 => 29,
        Square::G5 => 30,
        Square::H5 => 31,
        Square::A4 => 32,
        Square::B4 => 33,
        Square::C4 => 34,
        Square::D4 => 35,
        Square::E4 => 36,
        Square::F4 => 37,
        Square::G4 => 38,
        Square::H4 => 39,
        Square::A3 => 40,
        Square::B3 => 41,
        Square::C3 => 42,
        Square::D3 => 43,
        Square::E3 => 44,
        Square::F3 => 45,
        Square::G3 => 46,
        Square::H3 => 47,
        Square::A2 => 48,
        Square::B2 => 49,
        Square::C2 => 50,
        Square::D2 => 51,
        Square::E2 => 52,
        Square::F2 => 53,
        Square::G2 => 54,
        Square::H2 => 55,
        Square::A1 => 56,
        Square::B1 => 57,
        Square::C1 => 58,
        Square::D1 => 59,
        Square::E1 => 60,
        Square::F1 => 61,
        Square::G1 => 62,
        Square::H1 => 63,
    }
}

/// The square that owns bit index `i`; the inverse of [`square_index`] on
/// `[0, 64)`. (On indices 64 and above it is of no interest; it falls back
/// to `H1` there only to stay total.)
pub open spec fn square_of(i: u64) -> Square {
    if i == 0 {
        Square::A8
    } else if i == 1 {
        Square::B8
    } else if i == 2 {
        Square::C8
    } else if i == 3 {
        Square::D8
    } else if i == 4 {
        Square::E8
    } else if i == 5 {
        Square::F8
    } else if i == 6 {
        Square::G8
    } else if i == 7 {
        Square::H8
    } else if i == 8 {
        Square::A7
    } else if i == 9 {
        Square::B7
    } else if i == 10 {
        Square::C7
    } else if i == 11 {
        Square::D7
    } else if i == 12 {
        Square::E7
    } else if i == 13 {
        Square::F7
    } else if i == 14 {
        Square::G7
    } else if i == 15 {
        Square::H7
    } else if i == 16 {
        Square::A6
    } else if i == 17 {
        Square::B6
    } else if i == 18 {
        Square::C6
    } else if i == 19 {
        Square::D6
    } else if i == 20 {
        Square::E6
    } else if i == 21 {
        Square::F6
    } else if i == 22 {
        Square::G6
    } else if i == 23 {
        Square::H6
    } else if i == 24 {
        Square::A5
    } else if i == 25 {
        Square::B5
    } else if i == 26 {
        Square::C5
    } else if i == 27 {
        Square::D5
    } else if i == 28 {
        Square::E5
    } else if i == 29 {
        Square::F5
    } else if i == 30 {
        Square::G5
    } else if i == 31 {
        Square::H5
    } else if i == 32 {
        Square::A4
    } else if i == 33 {
        Square::B4
    } else if i == 34 {
        Square::C4
    } else if i == 35 {
        Square::D4
    } else if i == 36 {
        Square::E4
    } else if i == 37 {
        Square::F4
    } else if i == 38 {
        Square::G4
    } else if i == 39 {
        Square::H4
    } else if i == 40 {
        Square::A3
    } else if i == 41 {
        Square::B3
    } else if i == 42 {
        Square::C3
    } else if i == 43 {
        Square::D3
    } else if i == 44 {
        Square::E3
    } else if i == 45 {
        Square::F3
    } else if i == 46 {
        Square::G3
    } else if i == 47 {
        Square::H3
    } else if i == 48 {
        Square::A2
    } else if i == 49 {
        Square::B2
    } else if i == 50 {
        Square::C2
    } else if i == 51 {
        Square::D2
    } else if i == 52 {
        Square::E2
    } else if i == 53 {
        Square::F2
    } else if i == 54 {
        Square::G2
    } else if i == 55 {
        Square::H2
    } else if i == 56 {
        Square::A1
    } else if i == 57 {
        Square::B1
    } else if i == 58 {
        Square::C1
    } else if i == 59 {
        Square::D1
    } else if i == 60 {
        Square::E1
    } else if i == 61 {
        Square::F1
    } else if i == 62 {
        Square::G1
    } else {
        Square::H1
    }
}

impl Square {
    /// The bit index of this square, as an `u8`.
    pub fn index(self) -> (r: u8)
        ensures
            r == square_index(self),
            r < 64,
    {
        match self {
            Square::A8 => 0,
            Square::B8 => 1,
            Square::C8 => 2,
            Square::D8 => 3,
            Square::E8 => 4,
            Square::F8 => 5,
            Square::G8 => 6,
            Square::H8 => 7,
            Square::A7 => 8,
            Square::B7 => 9,
            Square::C7 => 10,
            Square::D7 => 11,
            Square::E7 => 12,
            Square::F7 => 13,
            Square::G7 => 14,
            Square::H7 => 15,
            Square::A6 => 16,
            Square::B6 => 17,
            Square::C6 => 18,
            Square::D6 => 19,
            Square::E6 => 20,
            Square::F6 => 21,
            Square::G6 => 22,
            Square::H6 => 23,
            Square::A5 => 24,
            Square::B5 => 25,
            Square::C5 => 26,
            Square::D5 => 27,
            Square::E5 => 28,
            Square::F5 => 29,
            Square::G5 => 30,
            Square::H5 => 31,
            Square::A4 => 32,
            Square::B4 => 33,
            Square::C4 => 34,
            Square::D4 => 35,
            Square::E4 => 36,
            Square::F4 => 37,
            Square::G4 => 38,
            Square::H4 => 39,
            Square::A3 => 40,
            Square::B3 => 41,
            Square::C3 => 42,
            Square::D3 => 43,
            Square::E3 => 44,
            Square::F3 => 45,
            Square::G3 => 46,
            Square::H3 => 47,
            Square::A2 => 48,
            Square::B2 => 49,
            Square::C2 => 50,
            Square::D2 => 51,
            Square::E2 => 52,
            Square::F2 => 53,
            Square::G2 => 54,
            Square::H2 => 55,
            Square::A1 => 56,
            Square::B1 => 57,
            Square::C1 => 58,
            Square::D1 => 59,
            Square::E1 => 60,
            Square::F1 => 61,
            Square::G1 => 62,
            Square::H1 => 63,
        }
    }

    /// The square whose bit index is `value`, or `OutOfRange` when `value`
    /// is not in `[0, 64)`. On valid inputs this is the exact inverse of
    /// [`Square::index`]; it never clamps or wraps.
    pub fn try_from(value: u8) -> (r: Result<Square, SquareError>)
        ensures
            value < 64 ==> r == Ok::<Square, SquareError>(square_of(value as u64)),
            value >= 64 ==> r == Err::<Square, SquareError>(SquareError::OutOfRange),
    {
        match value {
            0 => Ok(Square::A8),
            1 => Ok(Square::B8),
            2 => Ok(Square::C8),
            3 => Ok(Square::D8),
            4 => Ok(Square::E8),
            5 => Ok(Square::F8),
            6 => Ok(Square::G8),
            7 => Ok(Square::H8),
            8 => Ok(Square::A7),
            9 => Ok(Square::B7),
            10 => Ok(Square::C7),
            11 => Ok(Square::D7),
            12 => Ok(Square::E7),
            13 => Ok(Square::F7),
            14 => Ok(Square::G7),
            15 => Ok(Square::H7),
            16 => Ok(Square::A6),
            17 => Ok(Square::B6),
            18 => Ok(Square::C6),
            19 => Ok(Square::D6),
            20 => Ok(Square::E6),
            21 => Ok(Square::F6),
            22 => Ok(Square::G6),
            23 => Ok(Square::H6),
            24 => Ok(Square::A5),
            25 => Ok(Square::B5),
            26 => Ok(Square::C5),
            27 => Ok(Square::D5),
            28 => Ok(Square::E5),
            29 => Ok(Square::F5),
            30 => Ok(Square::G5),
            31 => Ok(Square::H5),
            32 => Ok(Square::A4),
            33 => Ok(Square::B4),
            34 => Ok(Square::C4),
            35 => Ok(Square::D4),
            36 => Ok(Square::E4),
            37 => Ok(Square::F4),
            38 => Ok(Square::G4),
            39 => Ok(Square::H4),
            40 => Ok(Square::A3),
            41 => Ok(Square::B3),
            42 => Ok(Square::C3),
            43 => Ok(Square::D3),
            44 => Ok(Square::E3),
            45 => Ok(Square::F3),
            46 => Ok(Square::G3),
            47 => Ok(Square::H3),
            48 => Ok(Square::A2),
            49 => Ok(Square::B2),
            50 => Ok(Square::C2),
            51 => Ok(Square::D2),
            52 => Ok(Square::E2),
            53 => Ok(Square::F2),
            54 => Ok(Square::G2),
            55 => Ok(Square::H2),
            56 => Ok(Square::A1),
            57 => Ok(Square::B1),
            58 => Ok(Square::C1),
            59 => Ok(Square::D1),
            60 => Ok(Square::E1),
            61 => Ok(Square::F1),
            62 => Ok(Square::G1),
            63 => Ok(Square::H1),
            _ => Err(SquareError::OutOfRange),
        }
    }
}

/// The square-to-index mapping is a bijection between the 64 squares and the
/// bit indices `[0, 64)`: every square's index is in range, [`square_of`]
/// undoes [`square_index`], and [`square_index`] undoes [`square_of`] on
/// every in-range index.
pub proof fn lemma_square_index_bijective()
    ensures
        forall|s: Square| #[trigger] square_index(s) < 64,
        forall|s: Square| square_of(#[trigger] square_index(s)) == s,
        forall|i: u64| i < 64 ==> square_index(#[trigger] square_of(i)) == i,
{
}

} // verus!
