//! The search: iterative-deepening negamax with alpha-beta pruning, a
//! transposition table, a captures-only quiescence extension at the frontier,
//! and draw-by-repetition awareness. Scores are from the side to move's
//! perspective; forced mates score at least `REALLY_BIG_CHECKMATE_NUMBER` in
//! magnitude, with shorter mates further from zero.

use vstd::prelude::*;
use vstd::pervasive::VecAdditionalExecFns;
use crate::eval::{BoardPieces, evaluate_board, spec_eval};
use crate::moves::{MoveInfo, move_score, capture_score};
use crate::rules::{
    Status, status_of, zobrist_of, white_to_move, legal_moves_of, capture_moves_of, play_of,
    piece_count, white_pieces_of, black_pieces_of, outcome_status, zobrist,
    side_to_move_is_white, legal_moves, capture_moves, play, white_pieces, black_pieces,
    move_role, move_captured, move_is_promotion, sort_by_first, instant_now, elapsed_at_least,
};
use crate::tt::{
    TranspositionTableData, TranspositionTableFlag, table_wf, table_evolves,
    lemma_table_evolves_trans, slot_of, new_transposition_table, TRANSPOSITION_TABLE_LENGTH,
    TABLE_INDEX_MASK,
};
use crate::{INFINITY, NEG_INFINITY, REALLY_BIG_CHECKMATE_NUMBER};

verus! {

/// Score returned at a checkmated node when `depth_remaining` plies of the
/// nominal search were still to go: deeper-in-the-tree mates (smaller
/// remaining depth) are closer to zero.
pub open spec fn mate_score_for_loser(depth_remaining: int) -> int {
    -(REALLY_BIG_CHECKMATE_NUMBER + depth_remaining)
}

/// Among two forced mates for the winning side, the shorter one (found with
/// more depth still remaining) receives the strictly larger score, and both
/// clear the mate threshold.
pub proof fn lemma_shorter_mate_preferred(d1: u16, d2: u16)
    requires
        d2 < d1,
    ensures
        -mate_score_for_loser(d1 as int) > -mate_score_for_loser(d2 as int),
        -mate_score_for_loser(d2 as int) >= REALLY_BIG_CHECKMATE_NUMBER,
{
}

/// The stand-pat score: the static evaluation seen from the side to move.
pub open spec fn spec_stand_pat(c: shakmaty::Chess) -> int {
    let p = BoardPieces { white: white_pieces_of(c), black: black_pieces_of(c) };
    if white_to_move(c) {
        spec_eval(p)
    } else {
        -spec_eval(p)
    }
}

/// What quiescence returns on a position with no captures: the stand-pat
/// score clamped hard into the `[alpha, beta]` window.
pub open spec fn quiet_leaf_score(c: shakmaty::Chess, alpha: int, beta: int) -> int {
    if spec_stand_pat(c) >= beta {
        beta
    } else if spec_stand_pat(c) > alpha {
        spec_stand_pat(c)
    } else {
        alpha
    }
}

/// Whether `hash` already occurs in the seen-hash stack.
fn contains_hash(v: &Vec<u64>, hash: u64) -> (r: bool)
    ensures
        r == v@.contains(hash),
{
    let mut i: usize = 0;
    while i < v.len()
        invariant
            i <= v@.len(),
            forall|k: int| 0 <= k < i ==> v@[k] != hash,
        decreases v@.len() - i,
    {
        if v[i] == hash {
            return true;
        }
        i += 1;
    }
    false
}

/// Direct-mapped slot for a hash: the low bits, because the table length is a
/// power of two.
fn table_index(hash: u64) -> (i: usize)
    ensures
        i < TRANSPOSITION_TABLE_LENGTH,
        i as int == slot_of(hash),
{
    let idx = hash & TABLE_INDEX_MASK;
    proof {
        assert((hash & 0x7f_ffffu64) < 0x80_0000u64) by (bit_vector);
    }
    idx as usize
}

/// The legal moves of `chess` paired with their ordering keys, sorted so the
/// most promising come first.
#[verifier::loop_isolation(false)]
fn ordered_moves(chess: &shakmaty::Chess) -> (r: Vec<(i32, shakmaty::Move)>)
    ensures
        r@.len() == legal_moves_of(*chess).len(),
        r@.len() <= 270,
        forall|k: int| 0 <= k < r@.len()
            ==> legal_moves_of(*chess).contains(#[trigger] r@[k].1),
{
    let raw = legal_moves(chess);
    let mut pairs: Vec<(i32, shakmaty::Move)> = Vec::new();
    let mut i: usize = 0;
    while i < raw.len()
        invariant
            pairs@.len() == i,
            i <= raw@.len(),
            forall|k: int| 0 <= k < i ==> #[trigger] pairs@[k].1 == raw@[k],
        decreases raw@.len() - i,
    {
        let m = raw[i];
        let info = MoveInfo {
            role: move_role(&m),
            capture: move_captured(&m),
            is_promotion: move_is_promotion(&m),
        };
        pairs.push((move_score(&info), m));
        i += 1;
    }
    let ghost before = pairs@;
    sort_by_first(&mut pairs);
    proof {
        assert forall|k: int| 0 <= k < pairs@.len() implies legal_moves_of(*chess).contains(
            #[trigger] pairs@[k].1,
        ) by {
            assert(before.contains(pairs@[k]));
            let j = choose|j: int| 0 <= j < before.len() && before[j] == pairs@[k];
            assert(legal_moves_of(*chess)[j] == pairs@[k].1);
        }
    }
    pairs
}

/// The capture moves of `chess` paired with their ordering keys, sorted so
/// the most promising come first. Every entry is a legal move whose play
/// strictly shrinks the piece count.
#[verifier::loop_isolation(false)]
fn ordered_captures(chess: &shakmaty::Chess) -> (r: Vec<(i32, shakmaty::Move)>)
    ensures
        r@.len() == capture_moves_of(*chess).len(),
        r@.len() <= 270,
        forall|k: int| 0 <= k < r@.len()
            ==> legal_moves_of(*chess).contains(#[trigger] r@[k].1)
                && piece_count(play_of(*chess, r@[k].1)) < piece_count(*chess),
{
    let raw = capture_moves(chess);
    let mut pairs: Vec<(i32, shakmaty::Move)> = Vec::new();
    let mut i: usize = 0;
    while i < raw.len()
        invariant
            pairs@.len() == i,
            i <= raw@.len(),
            forall|k: int| 0 <= k < i ==> #[trigger] pairs@[k].1 == raw@[k],
        decreases raw@.len() - i,
    {
        let m = raw[i];
        let info = MoveInfo {
            role: move_role(&m),
            capture: move_captured(&m),
            is_promotion: false,
        };
        pairs.push((capture_score(&info), m));
        i += 1;
    }
    let ghost before = pairs@;
    sort_by_first(&mut pairs);
    proof {
        assert forall|k: int| 0 <= k < pairs@.len() implies legal_moves_of(*chess).contains(
            #[trigger] pairs@[k].1,
        ) && piece_count(play_of(*chess, pairs@[k].1)) < piece_count(*chess) by {
            assert(before.contains(pairs@[k]));
            let j = choose|j: int| 0 <= j < before.len() && before[j] == pairs@[k];
            assert(capture_moves_of(*chess)[j] == pairs@[k].1);
        }
    }
    pairs
}

/// Captures-only extension at the frontier: stand pat on the static
/// evaluation, then try captures in order until the position is quiet.
#[verifier::loop_isolation(false)]
pub fn quiescence_search(chess: &shakmaty::Chess, alpha: i32, beta: i32) -> (r: i32)
    requires
        NEG_INFINITY <= alpha <= INFINITY,
        NEG_INFINITY <= beta <= INFINITY,
    ensures
        NEG_INFINITY <= r <= INFINITY,
        alpha <= beta ==> alpha <= r <= beta,
        capture_moves_of(*chess).len() == 0 ==> r == quiet_leaf_score(
            *chess,
            alpha as int,
            beta as int,
        ),
        r as int >= (if spec_stand_pat(*chess) <= beta as int {
            spec_stand_pat(*chess)
        } else {
            beta as int
        }),
    decreases piece_count(*chess),
{
    let ghost alpha0 = alpha;
    let mut alpha = alpha;
    let pieces = BoardPieces { white: white_pieces(chess), black: black_pieces(chess) };
    let ev = evaluate_board(&pieces);
    let stand_pat = if side_to_move_is_white(chess) {
        ev
    } else {
        -ev
    };
    if stand_pat >= beta {
        return beta;
    }
    if alpha < stand_pat {
        alpha = stand_pat;
    }
    let captures = ordered_captures(chess);
    let mut i: usize = 0;
    while i < captures.len()
        invariant
            i <= captures@.len(),
            NEG_INFINITY <= alpha <= INFINITY,
            alpha0 <= beta ==> alpha0 <= alpha <= beta,
            stand_pat <= alpha,
            captures@.len() == 0 ==> alpha == (if alpha0 < stand_pat {
                stand_pat
            } else {
                alpha0
            }),
        decreases captures@.len() - i,
    {
        let new_chess = play(chess, captures[i].1);
        let sneg = quiescence_search(&new_chess, -beta, -alpha);
        let score = -sneg;
        if score >= beta {
            return beta;
        }
        if score > alpha {
            alpha = score;
        }
        i += 1;
    }
    alpha
}

/// Recursive alpha-beta negamax. Draws (including any repetition of a hash on
/// the current path) score 0 and a checkmated side to move scores
/// `mate_score_for_loser(depth)`; at depth 0 the quiescence extension takes
/// over. The seen-hash stack is pushed on entry and popped on exit, so it
/// always returns exactly as it came.
#[verifier::loop_isolation(false)]
pub fn nega_max(
    chess: &shakmaty::Chess,
    depth: u16,
    alpha: i32,
    beta: i32,
    transposition_table: &mut Vec<TranspositionTableData>,
    previously_seen_hashes: &mut Vec<u64>,
) -> (r: i32)
    requires
        table_wf(old(transposition_table)@),
        NEG_INFINITY <= alpha <= INFINITY,
        NEG_INFINITY <= beta <= INFINITY,
    ensures
        table_wf(final(transposition_table)@),
        final(previously_seen_hashes)@ == old(previously_seen_hashes)@,
        NEG_INFINITY <= r <= INFINITY,
        status_of(*chess) == Status::Draw ==> r == 0,
        status_of(*chess) == Status::Decisive ==> r == mate_score_for_loser(depth as int),
        status_of(*chess) == Status::InProgress && old(previously_seen_hashes)@.contains(
            zobrist_of(*chess),
        ) ==> r == 0,
        ({
            let e = old(transposition_table)@[slot_of(zobrist_of(*chess))];
            status_of(*chess) == Status::InProgress && !old(previously_seen_hashes)@.contains(
                zobrist_of(*chess),
            ) && depth > 0 && e.hash == zobrist_of(*chess) && e.depth >= depth && e.flag
                == TranspositionTableFlag::Exact
        }) ==> r == old(transposition_table)@[slot_of(zobrist_of(*chess))].score
            && final(transposition_table)@ == old(transposition_table)@,
        status_of(*chess) == Status::InProgress && !old(previously_seen_hashes)@.contains(
            zobrist_of(*chess),
        ) && depth == 0 && capture_moves_of(*chess).len() == 0 ==> r == quiet_leaf_score(
            *chess,
            alpha as int,
            beta as int,
        ),
        table_evolves(old(transposition_table)@, final(transposition_table)@),
        status_of(*chess) != Status::InProgress
            ==> final(transposition_table)@ == old(transposition_table)@,
        old(previously_seen_hashes)@.contains(zobrist_of(*chess))
            ==> final(transposition_table)@ == old(transposition_table)@,
        depth == 0 ==> final(transposition_table)@ == old(transposition_table)@,
    decreases depth,
{
    let mut alpha = alpha;
    let mut beta = beta;

    match outcome_status(chess) {
        Status::Draw => {
            return 0;
        },
        Status::Decisive => {
            return -REALLY_BIG_CHECKMATE_NUMBER - (depth as i32);
        },
        Status::InProgress => {},
    }

    let hash = zobrist(chess);

    // A single repetition of a position on the path or in the game history
    // already counts as a draw for the search.
    if contains_hash(previously_seen_hashes, hash) {
        return 0;
    }

    if depth == 0 {
        return quiescence_search(chess, alpha, beta);
    }

    let original_alpha = alpha;

    let table_index = table_index(hash);
    let probe = transposition_table[table_index];
    if probe.hash == hash && probe.depth >= depth {
        match probe.flag {
            TranspositionTableFlag::Exact => {
                return probe.score;
            },
            TranspositionTableFlag::Lowerbound => {
                if probe.score > alpha {
                    alpha = probe.score;
                }
            },
            TranspositionTableFlag::Upperbound => {
                if probe.score < beta {
                    beta = probe.score;
                }
            },
            TranspositionTableFlag::Unset => {},
        }
        if alpha >= beta {
            return probe.score;
        }
    }

    previously_seen_hashes.push(hash);

    let mut value: i32 = NEG_INFINITY;
    let mut best_move_index: usize = 0;

    let moves = ordered_moves(chess);
    let num_moves = moves.len();

    let hint = transposition_table[table_index];
    if hint.hash == hash && (hint.best_move_index as usize) < num_moves {
        // Search the remembered best move first.
        best_move_index = hint.best_move_index as usize;
        let new_chess = play(chess, moves[best_move_index].1);
        let ghost table_before = transposition_table@;
        let sneg = nega_max(
            &new_chess,
            depth - 1,
            -beta,
            -alpha,
            transposition_table,
            previously_seen_hashes,
        );
        proof {
            lemma_table_evolves_trans(
                old(transposition_table)@,
                table_before,
                transposition_table@,
            );
        }
        let score = -sneg;
        if score > value {
            value = score;
        }
        if value > alpha {
            alpha = value;
        }
    }

    if !(alpha >= beta) {
        let mut index: usize = 0;
        while index < num_moves
            invariant
                index <= num_moves,
                table_wf(transposition_table@),
                table_evolves(old(transposition_table)@, transposition_table@),
                previously_seen_hashes@ == old(previously_seen_hashes)@.push(hash),
                NEG_INFINITY <= value <= INFINITY,
                NEG_INFINITY <= alpha <= INFINITY,
                NEG_INFINITY <= beta <= INFINITY,
                best_move_index == 0 || best_move_index < num_moves,
            decreases num_moves - index,
        {
            let remembered = transposition_table[table_index];
            if remembered.hash == hash && index == remembered.best_move_index as usize {
                // Already searched as the remembered best move.
                index += 1;
                continue;
            }
            let new_chess = play(chess, moves[index].1);
            let ghost table_before = transposition_table@;
            let sneg = nega_max(
                &new_chess,
                depth - 1,
                -beta,
                -alpha,
                transposition_table,
                previously_seen_hashes,
            );
            proof {
                lemma_table_evolves_trans(
                    old(transposition_table)@,
                    table_before,
                    transposition_table@,
                );
            }
            let score = -sneg;
            if score > value {
                value = score;
                best_move_index = index;
                if value > alpha {
                    alpha = value;
                }
                if alpha >= beta {
                    break;
                }
            }
            index += 1;
        }
    }

    let _ = previously_seen_hashes.pop();
    proof {
        assert(old(previously_seen_hashes)@.push(hash).drop_last() =~= old(
            previously_seen_hashes,
        )@);
    }

    let stored = transposition_table[table_index];
    if stored.depth < depth {
        let flag = if value <= original_alpha {
            TranspositionTableFlag::Upperbound
        } else if value >= beta {
            TranspositionTableFlag::Lowerbound
        } else {
            TranspositionTableFlag::Exact
        };
        let ghost table_before = transposition_table@;
        transposition_table.set(
            table_index,
            TranspositionTableData {
                hash,
                score: value,
                depth,
                best_move_index: best_move_index as u8,
                flag,
            },
        );
        proof {
            assert(table_evolves(table_before, transposition_table@));
            lemma_table_evolves_trans(
                old(transposition_table)@,
                table_before,
                transposition_table@,
            );
        }
    }

    value
}

/// Move the element at `index` to the front, keeping the relative order of
/// everything else (remove it, then reinsert it at index 0).
fn promote_to_front(v: &mut Vec<shakmaty::Move>, index: usize)
    requires
        index < old(v)@.len(),
    ensures
        final(v)@.len() == old(v)@.len(),
        final(v)@[0] == old(v)@[index as int],
        forall|k: int| 0 <= k < final(v)@.len() ==> old(v)@.contains(#[trigger] final(v)@[k]),
{
    let m = v.remove(index);
    v.insert(0, m);
    proof {
        assert forall|k: int| 0 <= k < v@.len() implies old(v)@.contains(#[trigger] v@[k]) by {
            if k == 0 {
                assert(old(v)@[index as int] == v@[0]);
            } else if k <= index {
                assert(old(v)@[k - 1] == v@[k]);
            } else {
                assert(old(v)@[k] == v@[k]);
            }
        }
    }
}

/// A copy of a move list, so one snapshot can be walked while the list
/// itself is reordered.
fn copy_moves(v: &Vec<shakmaty::Move>) -> (r: Vec<shakmaty::Move>)
    ensures
        r@ == v@,
{
    let mut r: Vec<shakmaty::Move> = Vec::new();
    let mut i: usize = 0;
    while i < v.len()
        invariant
            i <= v@.len(),
            r@ == v@.take(i as int),
        decreases v@.len() - i,
    {
        r.push(v[i]);
        proof {
            assert(v@.take(i + 1) =~= v@.take(i as int).push(v@[i as int]));
        }
        i += 1;
    }
    proof {
        assert(v@.take(v@.len() as int) =~= v@);
    }
    r
}

/// Iterative deepening to a depth cap: root searches at depths 2, 4, 6, ...
/// while below `max_depth`, promoting each new best move to the front of the
/// root list, and stopping early once a forced mate is found. Returns the
/// front move; a position with a single legal move returns it at once. The
/// seen-hash stack is restored before returning.
#[verifier::loop_isolation(false)]
pub fn find_best_move_with_depth(
    chess: &shakmaty::Chess,
    max_depth: u16,
    previously_seen_hashes: &mut Vec<u64>,
) -> (r: shakmaty::Move)
    requires
        legal_moves_of(*chess).len() > 0,
    ensures
        legal_moves_of(*chess).contains(r),
        final(previously_seen_hashes)@ == old(previously_seen_hashes)@,
        legal_moves_of(*chess).len() == 1 ==> r == legal_moves_of(*chess)[0],
        max_depth <= 2 ==> r == legal_moves_of(*chess)[0],
{
    let mut transposition_table = new_transposition_table();

    let mut moves = legal_moves(chess);

    if moves.len() == 1 {
        return moves[0];
    }

    let mut depth: u32 = 2;

    while depth < max_depth as u32
        invariant
            2 <= depth <= 0x1_0000,
            table_wf(transposition_table@),
            previously_seen_hashes@ == old(previously_seen_hashes)@,
            max_depth <= 2 ==> moves@ == legal_moves_of(*chess),
            moves@.len() == legal_moves_of(*chess).len(),
            1 <= moves@.len() <= 270,
            forall|k: int| 0 <= k < moves@.len() ==> legal_moves_of(*chess).contains(
                #[trigger] moves@[k],
            ),
        decreases 0x1_0001 - depth,
    {
        let mut best_score: i32 = NEG_INFINITY;

        let snapshot = copy_moves(&moves);
        let mut index: usize = 0;
        while index < snapshot.len()
            invariant
                index <= snapshot@.len(),
                NEG_INFINITY <= best_score <= INFINITY,
                table_wf(transposition_table@),
                previously_seen_hashes@ == old(previously_seen_hashes)@,
                moves@.len() == snapshot@.len(),
                forall|k: int| 0 <= k < moves@.len() ==> legal_moves_of(*chess).contains(
                    #[trigger] moves@[k],
                ),
            decreases snapshot@.len() - index,
        {
            let new_chess = play(chess, snapshot[index]);
            let sneg = nega_max(
                &new_chess,
                depth as u16,
                NEG_INFINITY,
                -best_score,
                &mut transposition_table,
                previously_seen_hashes,
            );
            let score = -sneg;
            if score > best_score {
                best_score = score;
                promote_to_front(&mut moves, index);
            }
            index += 1;
        }

        // Stop once a forced mate is scored, so faster checkmates picked at
        // shallower depths are kept.
        if best_score >= REALLY_BIG_CHECKMATE_NUMBER
            || best_score <= -REALLY_BIG_CHECKMATE_NUMBER {
            break;
        }

        depth += 2;
    }

    moves[0]
}

/// Iterative deepening against a wall-clock budget: like
/// `find_best_move_with_depth`, but the outer loop runs while the elapsed
/// time is below `min_search_time`, and the walk over the root moves also
/// stops once the budget is spent. An iteration cut short that way leaves
/// the root order as of the last completed iteration. The total time can
/// overshoot the budget by about one move's search.
#[verifier::loop_isolation(false)]
pub fn find_best_move_with_time(
    chess: &shakmaty::Chess,
    min_search_time: std::time::Duration,
    previously_seen_hashes: &mut Vec<u64>,
) -> (r: shakmaty::Move)
    requires
        legal_moves_of(*chess).len() > 0,
    ensures
        legal_moves_of(*chess).contains(r),
        final(previously_seen_hashes)@ == old(previously_seen_hashes)@,
        legal_moves_of(*chess).len() == 1 ==> r == legal_moves_of(*chess)[0],
{
    let start_time = instant_now();

    let mut transposition_table = new_transposition_table();

    let mut moves = legal_moves(chess);

    if moves.len() == 1 {
        return moves[0];
    }

    let mut depth: u32 = 2;

    // The cap keeps depth within nega_max's u16 range; no clock budget comes
    // anywhere near it.
    while depth <= 0xffff
        invariant
            2 <= depth <= 0x1_0001,
            table_wf(transposition_table@),
            previously_seen_hashes@ == old(previously_seen_hashes)@,
            moves@.len() == legal_moves_of(*chess).len(),
            1 <= moves@.len() <= 270,
            forall|k: int| 0 <= k < moves@.len() ==> legal_moves_of(*chess).contains(
                #[trigger] moves@[k],
            ),
        decreases 0x1_0001 - depth,
    {
        if elapsed_at_least(&start_time, &min_search_time) {
            break;
        }

        let mut best_score: i32 = NEG_INFINITY;

        // Promotions are collected and applied only when the iteration
        // completes: an iteration cut short by the clock leaves the root
        // order exactly as the last completed iteration left it.
        let mut improvements: Vec<usize> = Vec::new();
        let mut aborted = false;

        let snapshot = copy_moves(&moves);
        let mut index: usize = 0;
        while index < snapshot.len()
            invariant
                index <= snapshot@.len(),
                NEG_INFINITY <= best_score <= INFINITY,
                table_wf(transposition_table@),
                previously_seen_hashes@ == old(previously_seen_hashes)@,
                moves@.len() == snapshot@.len(),
                forall|k: int| 0 <= k < improvements@.len()
                    ==> #[trigger] improvements@[k] < snapshot@.len(),
                forall|k: int| 0 <= k < moves@.len() ==> legal_moves_of(*chess).contains(
                    #[trigger] moves@[k],
                ),
            decreases snapshot@.len() - index,
        {
            if elapsed_at_least(&start_time, &min_search_time) {
                aborted = true;
                break;
            }

            let new_chess = play(chess, snapshot[index]);
            let sneg = nega_max(
                &new_chess,
                depth as u16,
                NEG_INFINITY,
                -best_score,
                &mut transposition_table,
                previously_seen_hashes,
            );
            let score = -sneg;
            if score > best_score {
                best_score = score;
                improvements.push(index);
            }
            index += 1;
        }

        if !aborted {
            let mut j: usize = 0;
            while j < improvements.len()
                invariant
                    j <= improvements@.len(),
                    moves@.len() == snapshot@.len(),
                    forall|k: int| 0 <= k < improvements@.len()
                        ==> #[trigger] improvements@[k] < snapshot@.len(),
                    forall|k: int| 0 <= k < moves@.len() ==> legal_moves_of(*chess).contains(
                        #[trigger] moves@[k],
                    ),
                decreases improvements@.len() - j,
            {
                promote_to_front(&mut moves, improvements[j]);
                j += 1;
            }
        }

        // Stop once a forced mate is scored, so faster checkmates picked at
        // shallower depths are kept.
        if best_score >= REALLY_BIG_CHECKMATE_NUMBER
            || best_score <= -REALLY_BIG_CHECKMATE_NUMBER {
            break;
        }

        depth += 2;
    }

    moves[0]
}

} // verus!
