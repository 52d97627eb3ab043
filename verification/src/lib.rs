//! A small verified chess engine core: iterative-deepening negamax with
//! alpha-beta pruning, a transposition table, a captures-only quiescence
//! extension, and a piece-square-table evaluator. Move generation, move
//! application and hashing come from the shakmaty crate.

use vstd::prelude::*;

pub mod tables;
pub mod eval;
pub mod history;
pub mod moves;
pub mod rules;
pub mod search;
pub mod tt;

pub use search::find_best_move_with_depth;
pub use search::find_best_move_with_time;

verus! {

/// An unbeatable score; `NEG_INFINITY` is its exact negation so that negating
/// a score never overflows.
pub const INFINITY: i32 = i32::MAX;

pub const NEG_INFINITY: i32 = -INFINITY;

/// Base magnitude of forced-mate scores; larger magnitudes mean shorter mates.
pub const REALLY_BIG_CHECKMATE_NUMBER: i32 = 100_000_000;

} // verus!
