//! The boundary to the chess-rules collaborator (the shakmaty crate) and to
//! the clock. Everything the search reads from a position -- its legal moves,
//! captures, outcome, side to move, Zobrist hash and piece placement -- comes
//! through the small trusted wrappers here; each wrapper's contract names the
//! shakmaty function it relies on. The search itself is verified against
//! these contracts only.

use vstd::prelude::*;
use shakmaty::Position;
use crate::eval::SideBoard;
use crate::moves::Role;

verus! {

#[verifier::external_type_specification]
#[verifier::external_body]
pub struct ExChess(shakmaty::Chess);

#[verifier::external_type_specification]
#[verifier::external_body]
pub struct ExMove(shakmaty::Move);

#[verifier::external_type_specification]
#[verifier::external_body]
pub struct ExInstant(std::time::Instant);

/// How a game stands: still being played, drawn, or won by one side.
#[derive(Clone, Copy, PartialEq, Eq, Structural, Debug)]
pub enum Status {
    InProgress,
    Draw,
    Decisive,
}

pub uninterp spec fn status_of(c: shakmaty::Chess) -> Status;

pub uninterp spec fn zobrist_of(c: shakmaty::Chess) -> u64;

pub uninterp spec fn white_to_move(c: shakmaty::Chess) -> bool;

pub uninterp spec fn legal_moves_of(c: shakmaty::Chess) -> Seq<shakmaty::Move>;

pub uninterp spec fn capture_moves_of(c: shakmaty::Chess) -> Seq<shakmaty::Move>;

pub uninterp spec fn play_of(c: shakmaty::Chess, m: shakmaty::Move) -> shakmaty::Chess;

pub uninterp spec fn piece_count(c: shakmaty::Chess) -> nat;

pub uninterp spec fn white_pieces_of(c: shakmaty::Chess) -> SideBoard;

pub uninterp spec fn black_pieces_of(c: shakmaty::Chess) -> SideBoard;

pub uninterp spec fn role_of(m: shakmaty::Move) -> Role;

pub uninterp spec fn captured_role_of(m: shakmaty::Move) -> Option<Role>;

pub uninterp spec fn is_promotion_of(m: shakmaty::Move) -> bool;

/// Relies on shakmaty's `Position::outcome`: `Unknown` means the game goes
/// on; a known draw and a known decisive result map to `Draw` and `Decisive`.
/// `outcome` answers `Unknown` only when legal moves exist (a position with
/// none is checkmate or stalemate, both known), so an in-progress position
/// always has a move.
#[verifier::external_body]
pub(crate) fn outcome_status(c: &shakmaty::Chess) -> (r: Status)
    ensures
        r == status_of(*c),
        r == Status::InProgress ==> legal_moves_of(*c).len() > 0,
{
    match c.outcome() {
        shakmaty::Outcome::Known(shakmaty::KnownOutcome::Draw) => Status::Draw,
        shakmaty::Outcome::Known(shakmaty::KnownOutcome::Decisive { .. }) => Status::Decisive,
        shakmaty::Outcome::Unknown => Status::InProgress,
    }
}

/// Relies on shakmaty's `Position::zobrist_hash` with legal en-passant mode,
/// a pure 64-bit fingerprint of the position.
#[verifier::external_body]
pub(crate) fn zobrist(c: &shakmaty::Chess) -> (r: u64)
    ensures
        r == zobrist_of(*c),
{
    let h: shakmaty::zobrist::Zobrist64 = c.zobrist_hash(shakmaty::EnPassantMode::Legal);
    h.0
}

/// Relies on shakmaty's `Position::turn`.
#[verifier::external_body]
pub(crate) fn side_to_move_is_white(c: &shakmaty::Chess) -> (r: bool)
    ensures
        r == white_to_move(*c),
{
    match c.turn() {
        shakmaty::Color::White => true,
        shakmaty::Color::Black => false,
    }
}

/// Relies on shakmaty's `Position::legal_moves`; its `MoveList` holds at
/// most 270 moves, a capacity reachable only through positions built with
/// relaxed material validation (no position with legal material has more
/// than 218 moves).
#[verifier::external_body]
pub(crate) fn legal_moves(c: &shakmaty::Chess) -> (r: Vec<shakmaty::Move>)
    ensures
        r@ == legal_moves_of(*c),
        r@.len() <= 270,
{
    c.legal_moves().into_iter().collect()
}

/// Relies on shakmaty's `Position::capture_moves`: the legal moves that
/// capture. Every one is also produced by `legal_moves`, always has a
/// captured role (en passant captures a pawn), and playing it removes a piece
/// from the board, so the piece count strictly drops.
#[verifier::external_body]
pub(crate) fn capture_moves(c: &shakmaty::Chess) -> (r: Vec<shakmaty::Move>)
    ensures
        r@ == capture_moves_of(*c),
        r@.len() <= 270,
        forall|i: int| 0 <= i < r@.len() ==> legal_moves_of(*c).contains(r@[i]),
        forall|i: int| 0 <= i < r@.len() ==> captured_role_of(#[trigger] r@[i]) is Some,
        forall|i: int| 0 <= i < r@.len()
            ==> piece_count(play_of(*c, #[trigger] r@[i])) < piece_count(*c),
{
    c.capture_moves().into_iter().collect()
}

/// Relies on shakmaty's `Position::play_unchecked` on a clone of the
/// position; the move must be legal, which every caller guarantees by taking
/// it from `legal_moves` or `capture_moves`.
#[verifier::external_body]
pub(crate) fn play(c: &shakmaty::Chess, m: shakmaty::Move) -> (r: shakmaty::Chess)
    requires
        legal_moves_of(*c).contains(m),
    ensures
        r == play_of(*c, m),
{
    let mut n = c.clone();
    n.play_unchecked(m);
    n
}

/// Relies on shakmaty's `Board` bitboard accessors (`white`, `pawns`, ...)
/// and `king_of`. A legal `Chess` position always has both kings, and every
/// square index is below 64.
#[verifier::external_body]
pub(crate) fn white_pieces(c: &shakmaty::Chess) -> (r: SideBoard)
    ensures
        r == white_pieces_of(*c),
        r.king_sq < 64,
{
    let b = c.board();
    let side = b.white();
    SideBoard {
        pawns: side.intersect(b.pawns()).0,
        knights: side.intersect(b.knights()).0,
        bishops: side.intersect(b.bishops()).0,
        rooks: side.intersect(b.rooks()).0,
        queens: side.intersect(b.queens()).0,
        king_sq: match b.king_of(shakmaty::Color::White) {
            Some(sq) => sq as u8,
            None => 0,
        },
    }
}

/// Relies on the same shakmaty `Board` accessors, for the black side.
#[verifier::external_body]
pub(crate) fn black_pieces(c: &shakmaty::Chess) -> (r: SideBoard)
    ensures
        r == black_pieces_of(*c),
        r.king_sq < 64,
{
    let b = c.board();
    let side = b.black();
    SideBoard {
        pawns: side.intersect(b.pawns()).0,
        knights: side.intersect(b.knights()).0,
        bishops: side.intersect(b.bishops()).0,
        rooks: side.intersect(b.rooks()).0,
        queens: side.intersect(b.queens()).0,
        king_sq: match b.king_of(shakmaty::Color::Black) {
            Some(sq) => sq as u8,
            None => 0,
        },
    }
}

/// Relies on shakmaty's `Move::role`, translated variant by variant.
#[verifier::external_body]
pub(crate) fn move_role(m: &shakmaty::Move) -> (r: Role)
    ensures
        r == role_of(*m),
{
    match m.role() {
        shakmaty::Role::Pawn => Role::Pawn,
        shakmaty::Role::Knight => Role::Knight,
        shakmaty::Role::Bishop => Role::Bishop,
        shakmaty::Role::Rook => Role::Rook,
        shakmaty::Role::Queen => Role::Queen,
        shakmaty::Role::King => Role::King,
    }
}

/// Relies on shakmaty's `Move::capture`, translated variant by variant.
#[verifier::external_body]
pub(crate) fn move_captured(m: &shakmaty::Move) -> (r: Option<Role>)
    ensures
        r == captured_role_of(*m),
{
    match m.capture() {
        Some(shakmaty::Role::Pawn) => Some(Role::Pawn),
        Some(shakmaty::Role::Knight) => Some(Role::Knight),
        Some(shakmaty::Role::Bishop) => Some(Role::Bishop),
        Some(shakmaty::Role::Rook) => Some(Role::Rook),
        Some(shakmaty::Role::Queen) => Some(Role::Queen),
        Some(shakmaty::Role::King) => Some(Role::King),
        None => None,
    }
}

/// Relies on shakmaty's `Move::is_promotion`.
#[verifier::external_body]
pub(crate) fn move_is_promotion(m: &shakmaty::Move) -> (r: bool)
    ensures
        r == is_promotion_of(*m),
{
    m.is_promotion()
}

/// Relies on std's `slice::sort_unstable_by_key`: the result holds the same
/// pairs, reordered so the integer keys ascend.
#[verifier::external_body]
pub(crate) fn sort_by_first(v: &mut Vec<(i32, shakmaty::Move)>)
    ensures
        final(v)@.len() == old(v)@.len(),
        final(v)@.to_multiset() == old(v)@.to_multiset(),
        forall|i: int| 0 <= i < final(v)@.len() ==> old(v)@.contains(final(v)@[i]),
        forall|i: int, j: int| 0 <= i <= j < final(v)@.len()
            ==> final(v)@[i].0 <= final(v)@[j].0,
{
    v.sort_unstable_by_key(|p: &(i32, shakmaty::Move)| p.0);
}

/// Relies on std's `Instant::now`; nothing is promised about the clock.
#[verifier::external_body]
pub(crate) fn instant_now() -> (r: std::time::Instant) {
    std::time::Instant::now()
}

/// Relies on std's `Instant::elapsed` and `Duration`'s ordering; whether the
/// budget has run out depends on the clock, so nothing is promised.
#[verifier::external_body]
pub(crate) fn elapsed_at_least(start: &std::time::Instant, budget: &std::time::Duration) -> (r:
    bool) {
    start.elapsed() >= *budget
}

} // verus!
