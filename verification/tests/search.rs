use shakmaty::fen::Fen;
use shakmaty::zobrist::Zobrist64;
use shakmaty::{CastlingMode, Chess, FromSetup, Position};

use hodgey_chess_engine::eval::{evaluate_board, BoardPieces, SideBoard};
use hodgey_chess_engine::search::{find_best_move_with_depth, find_best_move_with_time, nega_max};
use hodgey_chess_engine::tt::{new_transposition_table, TranspositionTableData, TranspositionTableFlag, TABLE_INDEX_MASK};
use hodgey_chess_engine::{INFINITY, NEG_INFINITY, REALLY_BIG_CHECKMATE_NUMBER};

fn position(fen: &str) -> Chess {
    let setup = Fen::from_ascii(fen.as_bytes()).expect("Fen should be valid").into_setup();
    Chess::from_setup(setup, CastlingMode::Standard).expect("position should be valid")
}

fn zobrist(chess: &Chess) -> u64 {
    let h: Zobrist64 = chess.zobrist_hash(shakmaty::EnPassantMode::Legal);
    h.0
}

#[test]
//This is just to test performace, it asserts nothing
fn test_position_time() {
    let chess = position("2rq1bk1/1b4pp/pn3n2/1p1Ppp2/1PP1P3/7P/3N1PP1/R2QRBK1 w - - 0 23");
    find_best_move_with_depth(&chess, 8, &mut Vec::new());
}

#[test]
//Checks the the program successfully solves the lasker position
fn lasker_position() {
    let chess = position("8/k7/3p4/p2P1p2/P2P1P2/8/8/K7 w - -");
    assert!(find_best_move_with_depth(&chess, 20, &mut Vec::new()).to_string() == "Ka1-b1");
}

#[test]
//Makes sure both my methods agree on best move from a test position
//This might stop working if my searches become faster. It is kinda luck and hardware based.
fn time_and_depth_agree() {
    let chess = position("2rq1bk1/1b4pp/pn3n2/1p1Ppp2/1PP1P3/7P/3N1PP1/R2QRBK1 w - - 0 23");
    let m1 = find_best_move_with_depth(&chess, 8, &mut Vec::new());
    let m2 = find_best_move_with_time(&chess, std::time::Duration::from_millis(500), &mut Vec::new());
    assert!(m1 == m2);
}

//The seen-hash stack comes back exactly as it went in.
#[test]
fn repetition_stack_restored() {
    let chess = position("2rq1bk1/1b4pp/pn3n2/1p1Ppp2/1PP1P3/7P/3N1PP1/R2QRBK1 w - - 0 23");
    let mut hashes = vec![1u64, 2, 3, 0xdeadbeef];
    let before = hashes.clone();
    find_best_move_with_depth(&chess, 4, &mut hashes);
    assert_eq!(hashes, before);

    let mut tt = new_transposition_table();
    nega_max(&chess, 4, NEG_INFINITY, INFINITY, &mut tt, &mut hashes);
    assert_eq!(hashes, before);
}

//A position whose hash is already on the stack scores 0 (a draw) at once.
#[test]
fn repetition_scores_draw() {
    let chess = position("2rq1bk1/1b4pp/pn3n2/1p1Ppp2/1PP1P3/7P/3N1PP1/R2QRBK1 w - - 0 23");
    let mut hashes = vec![zobrist(&chess)];
    let mut tt = new_transposition_table();
    let score = nega_max(&chess, 6, NEG_INFINITY, INFINITY, &mut tt, &mut hashes);
    assert_eq!(score, 0);
}

//Scoring a position and its colour-mirror from the side to move agrees.
#[test]
fn score_symmetry_on_mirrored_positions() {
    let a = position("4k3/8/8/8/8/8/PPP5/4K3 w - - 0 1");
    let b = position("4k3/ppp5/8/8/8/8/8/4K3 b - - 0 1");
    let mut tt_a = new_transposition_table();
    let mut tt_b = new_transposition_table();
    let score_a = nega_max(&a, 4, NEG_INFINITY, INFINITY, &mut tt_a, &mut Vec::new());
    let score_b = nega_max(&b, 4, NEG_INFINITY, INFINITY, &mut tt_b, &mut Vec::new());
    assert_eq!(score_a, score_b);
}

//A full-window search and a tighter window that still brackets the true
//value give the same score.
#[test]
fn window_does_not_change_score() {
    let chess = position("4k3/8/8/8/8/8/PPP5/4K3 w - - 0 1");
    let mut tt = new_transposition_table();
    let full = nega_max(&chess, 4, NEG_INFINITY, INFINITY, &mut tt, &mut Vec::new());
    let mut tt2 = new_transposition_table();
    let tight = nega_max(&chess, 4, full - 50, full + 50, &mut tt2, &mut Vec::new());
    assert_eq!(full, tight);
}

//A second run reusing the transposition table filled by the first returns
//the same score, and the driver returns the same move either way.
#[test]
fn transposition_table_reuse_agrees() {
    let chess = position("2rq1bk1/1b4pp/pn3n2/1p1Ppp2/1PP1P3/7P/3N1PP1/R2QRBK1 w - - 0 23");
    let mut tt = new_transposition_table();
    let fresh = nega_max(&chess, 4, NEG_INFINITY, INFINITY, &mut tt, &mut Vec::new());
    let warmed = nega_max(&chess, 4, NEG_INFINITY, INFINITY, &mut tt, &mut Vec::new());
    assert_eq!(fresh, warmed);

    let m1 = find_best_move_with_depth(&chess, 4, &mut Vec::new());
    let m2 = find_best_move_with_depth(&chess, 4, &mut Vec::new());
    assert!(m1 == m2);
}

//A mate in one is found and scored as a forced mate.
#[test]
fn mate_in_one_preferred() {
    let chess = position("6k1/8/6K1/8/8/8/8/R7 w - - 0 1");
    let best = find_best_move_with_depth(&chess, 6, &mut Vec::new());
    assert_eq!(best.to_string(), "Ra1-a8");

    let mut tt = new_transposition_table();
    let score = nega_max(&chess, 4, NEG_INFINITY, INFINITY, &mut tt, &mut Vec::new());
    assert!(score >= REALLY_BIG_CHECKMATE_NUMBER);
}

//With a single legal move the driver returns it at once.
#[test]
fn single_legal_move_returned() {
    let chess = position("7k/8/8/8/8/8/6q1/7K w - - 0 1");
    let only = chess.legal_moves()[0];
    assert_eq!(chess.legal_moves().len(), 1);
    let best = find_best_move_with_time(
        &chess,
        std::time::Duration::from_millis(50),
        &mut Vec::new(),
    );
    assert!(best == only);
}

//Starting position at the minimum depth: the deepening loop never runs
//(its condition is depth < max_depth with depth starting at 2), so the
//first legal move comes back in the rules library's order.
#[test]
fn start_position_returns_legal_move() {
    let chess = Chess::default();
    let best = find_best_move_with_depth(&chess, 2, &mut Vec::new());
    assert!(chess.legal_moves().contains(&best));
    assert!(best == chess.legal_moves()[0]);
}

//At depth 0 with no captures available, the search score is exactly the
//static evaluation of the position, extracted here independently.
#[test]
fn leaf_score_matches_static_eval() {
    let chess = position("8/k7/3p4/p2P1p2/P2P1P2/8/8/K7 w - -");
    let board = chess.board();
    let side = |color: shakmaty::Color| -> SideBoard {
        let bb = match color {
            shakmaty::Color::White => board.white(),
            shakmaty::Color::Black => board.black(),
        };
        SideBoard {
            pawns: bb.intersect(board.pawns()).0,
            knights: bb.intersect(board.knights()).0,
            bishops: bb.intersect(board.bishops()).0,
            rooks: bb.intersect(board.rooks()).0,
            queens: bb.intersect(board.queens()).0,
            king_sq: board.king_of(color).expect("king should be present") as u8,
        }
    };
    let pieces = BoardPieces { white: side(shakmaty::Color::White), black: side(shakmaty::Color::Black) };
    assert!(chess.capture_moves().is_empty());
    let expected = evaluate_board(&pieces);
    let mut tt = new_transposition_table();
    let leaf = nega_max(&chess, 0, NEG_INFINITY, INFINITY, &mut tt, &mut Vec::new());
    assert_eq!(leaf, expected);
}

//A deep-enough Exact entry for the position's own hash short-circuits the
//search and its stored score is returned as-is.
#[test]
fn tt_exact_entry_is_returned() {
    let chess = position("2rq1bk1/1b4pp/pn3n2/1p1Ppp2/1PP1P3/7P/3N1PP1/R2QRBK1 w - - 0 23");
    let hash = zobrist(&chess);
    let mut tt = new_transposition_table();
    let slot = (hash & TABLE_INDEX_MASK) as usize;
    tt[slot] = TranspositionTableData {
        hash,
        score: 4242,
        depth: 9,
        best_move_index: 0,
        flag: TranspositionTableFlag::Exact,
    };
    let score = nega_max(&chess, 8, NEG_INFINITY, INFINITY, &mut tt, &mut Vec::new());
    assert_eq!(score, 4242);
}

//Early returns leave the transposition table untouched: a repetition hit
//and a terminal position write nothing.
#[test]
fn early_returns_leave_table_untouched() {
    let chess = position("2rq1bk1/1b4pp/pn3n2/1p1Ppp2/1PP1P3/7P/3N1PP1/R2QRBK1 w - - 0 23");
    let mut tt = new_transposition_table();
    tt[7] = TranspositionTableData {
        hash: 99,
        score: -5,
        depth: 3,
        best_move_index: 1,
        flag: TranspositionTableFlag::Lowerbound,
    };
    let before = tt.clone();

    let mut hashes = vec![zobrist(&chess)];
    nega_max(&chess, 6, NEG_INFINITY, INFINITY, &mut tt, &mut hashes);
    assert!(tt == before);

    // Stalemate: black to move has no moves and is not in check.
    let drawn = position("7k/5Q2/6K1/8/8/8/8/8 b - - 0 1");
    nega_max(&drawn, 6, NEG_INFINITY, INFINITY, &mut tt, &mut Vec::new());
    assert!(tt == before);
}

//With captures on the board, the depth-0 score never falls below the
//stand-pat evaluation: the side to move may always decline to capture.
#[test]
fn leaf_score_never_below_stand_pat() {
    let chess = position("2rq1bk1/1b4pp/pn3n2/1p1Ppp2/1PP1P3/7P/3N1PP1/R2QRBK1 w - - 0 23");
    assert!(!chess.capture_moves().is_empty());
    let board = chess.board();
    let side = |color: shakmaty::Color| -> SideBoard {
        let bb = match color {
            shakmaty::Color::White => board.white(),
            shakmaty::Color::Black => board.black(),
        };
        SideBoard {
            pawns: bb.intersect(board.pawns()).0,
            knights: bb.intersect(board.knights()).0,
            bishops: bb.intersect(board.bishops()).0,
            rooks: bb.intersect(board.rooks()).0,
            queens: bb.intersect(board.queens()).0,
            king_sq: board.king_of(color).expect("king should be present") as u8,
        }
    };
    let pieces = BoardPieces { white: side(shakmaty::Color::White), black: side(shakmaty::Color::Black) };
    let stand_pat = evaluate_board(&pieces); // white to move
    let mut tt = new_transposition_table();
    let leaf = nega_max(&chess, 0, NEG_INFINITY, INFINITY, &mut tt, &mut Vec::new());
    assert!(leaf >= stand_pat);
}
