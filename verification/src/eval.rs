//! Static evaluation. The board is modelled as plain bitboards per side plus a
//! king square, so the whole evaluator is ordinary verified arithmetic. The
//! score is white-minus-black table sums plus a trade incentive: when ahead in
//! material, a smaller total left on the board makes the same difference count
//! for more, rewarding simplification.

use vstd::prelude::*;
use crate::tables;

verus! {

/// One side's pieces: five bitboards (bit `s` set = a piece of that kind on
/// square `s`, 0 = a1 .. 63 = h8) and the king's square.
#[derive(Clone, Copy, PartialEq, Eq, Structural, Debug)]
pub struct SideBoard {
    pub pawns: u64,
    pub knights: u64,
    pub bishops: u64,
    pub rooks: u64,
    pub queens: u64,
    pub king_sq: u8,
}

/// Both sides' pieces, each oriented as on the real board.
#[derive(Clone, Copy, PartialEq, Eq, Structural, Debug)]
pub struct BoardPieces {
    pub white: SideBoard,
    pub black: SideBoard,
}

impl SideBoard {
    pub open spec fn wf(self) -> bool {
        self.king_sq < 64
    }
}

impl BoardPieces {
    pub open spec fn wf(self) -> bool {
        self.white.wf() && self.black.wf()
    }
}

/// Bound on the evaluator's result.
pub const EVAL_BOUND: i32 = 300_000;

pub open spec fn square_on(bb: u64, s: u64) -> bool {
    (bb >> s) & 1 == 1
}

/// Table value contributed by the non-king pieces of `sb` on square `s`,
/// looked up white-oriented (no flipping here; black sides are flipped first).
pub open spec fn side_term(sb: SideBoard, s: u64) -> int {
    (if square_on(sb.pawns, s) { tables::PAWN[s as int] as int } else { 0 })
    + (if square_on(sb.knights, s) { tables::KNIGHT[s as int] as int } else { 0 })
    + (if square_on(sb.bishops, s) { tables::BISHOP[s as int] as int } else { 0 })
    + (if square_on(sb.rooks, s) { tables::ROOK[s as int] as int } else { 0 })
    + (if square_on(sb.queens, s) { tables::QUEEN[s as int] as int } else { 0 })
}

pub open spec fn side_sum(sb: SideBoard, n: u64) -> int
    decreases n,
{
    if n == 0 {
        0
    } else {
        side_sum(sb, (n - 1) as u64) + side_term(sb, (n - 1) as u64)
    }
}

/// A side's full table score: all piece squares plus the king's entry.
pub open spec fn spec_side_score(sb: SideBoard) -> int {
    side_sum(sb, 64) + tables::KING[sb.king_sq as int] as int
}

/// Vertical flip of a bitboard (square `s` maps to `s ^ 56`), as a byte swap.
pub open spec fn flip_bb(b: u64) -> u64 {
    ((b & 0xFF) << 56) | ((b & 0xFF00) << 40) | ((b & 0xFF0000) << 24)
        | ((b & 0xFF000000) << 8) | ((b >> 8) & 0xFF000000) | ((b >> 24) & 0xFF0000)
        | ((b >> 40) & 0xFF00) | (b >> 56)
}

/// Vertical flip of a whole side, so a black side can be scored with the
/// white-oriented tables.
pub open spec fn flip_side(sb: SideBoard) -> SideBoard {
    SideBoard {
        pawns: flip_bb(sb.pawns),
        knights: flip_bb(sb.knights),
        bishops: flip_bb(sb.bishops),
        rooks: flip_bb(sb.rooks),
        queens: flip_bb(sb.queens),
        king_sq: sb.king_sq ^ 56,
    }
}

/// The position with colours swapped and the board flipped vertically.
pub open spec fn mirror(p: BoardPieces) -> BoardPieces {
    BoardPieces { white: flip_side(p.black), black: flip_side(p.white) }
}

/// Truncating (C-style) signed division for a positive divisor.
pub open spec fn trunc_div(a: int, b: int) -> int {
    if a >= 0 {
        a / b
    } else {
        -((-a) / b)
    }
}

pub open spec fn spec_trade_bonus(diff: int, total: int) -> int {
    trunc_div(100 * diff, total)
}

pub open spec fn spec_eval(p: BoardPieces) -> int {
    let w = spec_side_score(p.white);
    let b = spec_side_score(flip_side(p.black));
    (w - b) + spec_trade_bonus(w - b, w + b)
}

fn flip_bitboard(b: u64) -> (r: u64)
    ensures
        r == flip_bb(b),
{
    ((b & 0xFF) << 56) | ((b & 0xFF00) << 40) | ((b & 0xFF0000) << 24)
        | ((b & 0xFF000000) << 8) | ((b >> 8) & 0xFF000000) | ((b >> 24) & 0xFF0000)
        | ((b >> 40) & 0xFF00) | (b >> 56)
}

fn flip_side_board(sb: &SideBoard) -> (r: SideBoard)
    requires
        sb.wf(),
    ensures
        r == flip_side(*sb),
        r.wf(),
{
    let k = sb.king_sq;
    proof {
        assert(k < 64 ==> (k ^ 56) < 64) by (bit_vector);
    }
    SideBoard {
        pawns: flip_bitboard(sb.pawns),
        knights: flip_bitboard(sb.knights),
        bishops: flip_bitboard(sb.bishops),
        rooks: flip_bitboard(sb.rooks),
        queens: flip_bitboard(sb.queens),
        king_sq: k ^ 56,
    }
}

#[verifier::loop_isolation(false)]
fn side_score(sb: &SideBoard) -> (r: i32)
    requires
        sb.wf(),
    ensures
        r == spec_side_score(*sb),
        2950 <= r <= 292_630,
{
    proof {
        tables::lemma_table_bounds();
    }
    let mut sum: i32 = 0;
    let mut s: usize = 0;
    while s < 64
        invariant
            s <= 64,
            sum == side_sum(*sb, s as u64),
            0 <= sum <= 4525 * s,
        decreases 64 - s,
    {
        let ghost prev = sum as int;
        if (sb.pawns >> (s as u64)) & 1 == 1 {
            sum += tables::PAWN[s];
        }
        if (sb.knights >> (s as u64)) & 1 == 1 {
            sum += tables::KNIGHT[s];
        }
        if (sb.bishops >> (s as u64)) & 1 == 1 {
            sum += tables::BISHOP[s];
        }
        if (sb.rooks >> (s as u64)) & 1 == 1 {
            sum += tables::ROOK[s];
        }
        if (sb.queens >> (s as u64)) & 1 == 1 {
            sum += tables::QUEEN[s];
        }
        proof {
            assert(sum == prev + side_term(*sb, s as u64));
            assert(side_sum(*sb, (s + 1) as u64) == side_sum(*sb, s as u64) + side_term(*sb, s as u64));
        }
        s += 1;
    }
    sum + tables::KING[sb.king_sq as usize]
}

/// Trade incentive: `100 * diff / total` with C-style truncation. Its sign
/// always matches the sign of `diff`, and it never exceeds 100 in magnitude
/// when `|diff| <= total`.
pub fn trade_bonus(diff: i32, total: i32) -> (r: i32)
    requires
        0 < total <= 700_000,
        -total <= diff <= total,
    ensures
        r == spec_trade_bonus(diff as int, total as int),
        -100 <= r <= 100,
        diff > 0 ==> r >= 0,
        diff < 0 ==> r <= 0,
        diff == 0 ==> r == 0,
{
    if diff >= 0 {
        let num = 100 * diff;
        let q = num / total;
        proof {
            lemma_nonneg_div_bounds(num as int, total as int);
        }
        q
    } else {
        let num = 100 * (-diff);
        let q = num / total;
        proof {
            lemma_nonneg_div_bounds(num as int, total as int);
        }
        -q
    }
}

/// For `0 <= a <= 100 * b` and `b > 0`, the quotient lies in `[0, 100]`.
proof fn lemma_nonneg_div_bounds(a: int, b: int)
    requires
        0 <= a,
        0 < b,
        a <= 100 * b,
    ensures
        0 <= a / b <= 100,
{
    assert(0 <= a / b <= 100) by (nonlinear_arith)
        requires
            0 <= a,
            0 < b,
            a <= 100 * b,
    {
    }
}

/// White-perspective static score: white table sum minus black table sum
/// (black looked up on flipped squares) plus the trade bonus.
pub fn evaluate_board(p: &BoardPieces) -> (r: i32)
    requires
        p.wf(),
    ensures
        r == spec_eval(*p),
        -EVAL_BOUND <= r <= EVAL_BOUND,
{
    let w = side_score(&p.white);
    let flipped = flip_side_board(&p.black);
    let b = side_score(&flipped);
    let diff = w - b;
    let total = w + b;
    diff + trade_bonus(diff, total)
}

/// Every square's contribution is non-negative, so partial sums are too.
proof fn lemma_side_sum_nonneg(sb: SideBoard, n: u64)
    requires
        n <= 64,
    ensures
        0 <= side_sum(sb, n),
    decreases n,
{
    tables::lemma_table_bounds();
    if n > 0 {
        lemma_side_sum_nonneg(sb, (n - 1) as u64);
    }
}

/// A well-formed side always scores at least its king's table entry.
proof fn lemma_side_score_positive(sb: SideBoard)
    requires
        sb.wf(),
    ensures
        spec_side_score(sb) >= 2950,
{
    lemma_side_sum_nonneg(sb, 64);
    tables::lemma_table_bounds();
}

/// Flipping a bitboard twice gives the original bitboard back.
proof fn lemma_flip_bb_involution(b: u64)
    ensures
        flip_bb(flip_bb(b)) == b,
{
    let f = flip_bb(b);
    assert(((f & 0xFF) << 56) | ((f & 0xFF00) << 40) | ((f & 0xFF0000) << 24)
        | ((f & 0xFF000000) << 8) | ((f >> 8) & 0xFF000000) | ((f >> 24) & 0xFF0000)
        | ((f >> 40) & 0xFF00) | (f >> 56) == b) by (bit_vector)
        requires
            f == ((b & 0xFF) << 56) | ((b & 0xFF00) << 40) | ((b & 0xFF0000) << 24)
                | ((b & 0xFF000000) << 8) | ((b >> 8) & 0xFF000000) | ((b >> 24) & 0xFF0000)
                | ((b >> 40) & 0xFF00) | (b >> 56),
    {
    }
}

/// Flipping a side twice gives the original side back.
proof fn lemma_flip_side_involution(sb: SideBoard)
    ensures
        flip_side(flip_side(sb)) == sb,
{
    lemma_flip_bb_involution(sb.pawns);
    lemma_flip_bb_involution(sb.knights);
    lemma_flip_bb_involution(sb.bishops);
    lemma_flip_bb_involution(sb.rooks);
    lemma_flip_bb_involution(sb.queens);
    let k = sb.king_sq;
    assert((k ^ 56) ^ 56 == k) by (bit_vector);
}

/// Mirror symmetry of the evaluator: swapping colours (and flipping the board
/// vertically) exactly negates the white-perspective score.
pub proof fn lemma_eval_mirror(p: BoardPieces)
    requires
        p.wf(),
    ensures
        spec_eval(mirror(p)) == -spec_eval(p),
{
    let k = p.black.king_sq;
    assert(k < 64 ==> (k ^ 56) < 64) by (bit_vector);
    lemma_side_score_positive(p.white);
    lemma_side_score_positive(flip_side(p.black));
    lemma_flip_side_involution(p.white);
    let w = spec_side_score(p.white);
    let b = spec_side_score(flip_side(p.black));
    assert(spec_side_score(mirror(p).white) == b);
    assert(spec_side_score(flip_side(mirror(p).black)) == w);
    lemma_trunc_div_neg(100 * (w - b), w + b);
    assert(100 * (b - w) == -(100 * (w - b))) by (nonlinear_arith);
}

/// Truncating division is odd in its dividend.
proof fn lemma_trunc_div_neg(a: int, b: int)
    requires
        b != 0,
    ensures
        trunc_div(-a, b) == -trunc_div(a, b),
{
    if a == 0 {
        assert(trunc_div(0int, b) == 0int / b);
        assert(0int / b == 0) by (nonlinear_arith)
            requires
                b != 0,
        {
        }
    }
}

/// A position that is its own mirror scores exactly zero.
pub proof fn lemma_eval_symmetric_zero(p: BoardPieces)
    requires
        p.wf(),
        mirror(p) == p,
    ensures
        spec_eval(p) == 0,
{
    lemma_eval_mirror(p);
}

} // verus!
