//! Piece-square tables: for each piece kind, a 64-entry table of material
//! value plus positional bias, oriented for white (index 0 = a1, 63 = h8).
//! Black lookups use the vertically flipped square, so one table serves both
//! sides. Every entry is positive because the material term dominates the
//! positional bias.

use vstd::prelude::*;

verus! {

pub const PAWN: [i32; 64] = [
    100, 100, 100, 100, 100, 100, 100, 100,
    105, 110, 110, 80, 80, 110, 110, 105,
    105, 95, 90, 100, 100, 90, 95, 105,
    100, 100, 100, 120, 120, 100, 100, 100,
    105, 105, 110, 125, 125, 110, 105, 105,
    110, 110, 120, 130, 130, 120, 110, 110,
    150, 150, 150, 150, 150, 150, 150, 150,
    100, 100, 100, 100, 100, 100, 100, 100,
];

pub const KNIGHT: [i32; 64] = [
    270, 280, 290, 290, 290, 290, 280, 270,
    280, 300, 320, 325, 325, 320, 300, 280,
    290, 325, 330, 335, 335, 330, 325, 290,
    290, 320, 335, 340, 340, 335, 320, 290,
    290, 325, 335, 340, 340, 335, 325, 290,
    290, 320, 330, 335, 335, 330, 320, 290,
    280, 300, 320, 320, 320, 320, 300, 280,
    270, 280, 290, 290, 290, 290, 280, 270,
];

pub const BISHOP: [i32; 64] = [
    310, 320, 320, 320, 320, 320, 320, 310,
    320, 335, 330, 330, 330, 330, 335, 320,
    320, 340, 340, 340, 340, 340, 340, 320,
    320, 330, 340, 340, 340, 340, 330, 320,
    320, 335, 335, 340, 340, 335, 335, 320,
    320, 330, 335, 340, 340, 335, 330, 320,
    320, 330, 330, 330, 330, 330, 330, 320,
    310, 320, 320, 320, 320, 320, 320, 310,
];

pub const ROOK: [i32; 64] = [
    500, 500, 500, 505, 505, 500, 500, 500,
    495, 500, 500, 500, 500, 500, 500, 495,
    495, 500, 500, 500, 500, 500, 500, 495,
    495, 500, 500, 500, 500, 500, 500, 495,
    495, 500, 500, 500, 500, 500, 500, 495,
    495, 500, 500, 500, 500, 500, 500, 495,
    505, 510, 510, 510, 510, 510, 510, 505,
    500, 500, 500, 500, 500, 500, 500, 500,
];

pub const QUEEN: [i32; 64] = [
    880, 890, 890, 895, 895, 890, 890, 880,
    890, 900, 905, 900, 900, 900, 900, 890,
    890, 905, 905, 905, 905, 905, 900, 890,
    900, 900, 905, 905, 905, 905, 900, 895,
    895, 900, 905, 905, 905, 905, 900, 895,
    890, 900, 905, 905, 905, 905, 900, 890,
    890, 900, 900, 900, 900, 900, 900, 890,
    880, 890, 890, 895, 895, 890, 890, 880,
];

pub const KING: [i32; 64] = [
    3000, 3000, 3000, 3000, 3000, 3000, 3000, 3000,
    3000, 3000, 3000, 3000, 3000, 3000, 3000, 3000,
    3000, 3000, 3000, 3000, 3000, 3000, 3000, 3000,
    3000, 3000, 3000, 3000, 3000, 3000, 3000, 3000,
    3000, 3000, 3000, 3000, 3000, 3000, 3000, 3000,
    3000, 3000, 3000, 3000, 3000, 3000, 3000, 3000,
    3000, 3000, 3000, 3000, 3000, 3000, 3000, 3000,
    3000, 3000, 3000, 3000, 3000, 3000, 3000, 3000,
];

/// Largest value a non-king table entry can take, used to bound sums.
pub const MAX_PIECE_VALUE: i32 = 905;

/// Every table entry is positive and bounded: non-king pieces stay below
/// `MAX_PIECE_VALUE`, the king within [2950, 3030].
pub proof fn lemma_table_bounds()
    ensures
        forall|i: int| 0 <= i < 64 ==> 1 <= #[trigger] PAWN[i] <= MAX_PIECE_VALUE,
        forall|i: int| 0 <= i < 64 ==> 1 <= #[trigger] KNIGHT[i] <= MAX_PIECE_VALUE,
        forall|i: int| 0 <= i < 64 ==> 1 <= #[trigger] BISHOP[i] <= MAX_PIECE_VALUE,
        forall|i: int| 0 <= i < 64 ==> 1 <= #[trigger] ROOK[i] <= MAX_PIECE_VALUE,
        forall|i: int| 0 <= i < 64 ==> 1 <= #[trigger] QUEEN[i] <= MAX_PIECE_VALUE,
        forall|i: int| 0 <= i < 64 ==> 2950 <= #[trigger] KING[i] <= 3030,
{
}

} // verus!
