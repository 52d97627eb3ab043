use hodgey_chess_engine::eval::{evaluate_board, trade_bonus, BoardPieces, SideBoard};
use hodgey_chess_engine::moves::{capture_score, move_score, MoveInfo, Role};

fn side_board(board: &shakmaty::Board, color: shakmaty::Color) -> SideBoard {
    let side = match color {
        shakmaty::Color::White => board.white(),
        shakmaty::Color::Black => board.black(),
    };
    SideBoard {
        pawns: side.intersect(board.pawns()).0,
        knights: side.intersect(board.knights()).0,
        bishops: side.intersect(board.bishops()).0,
        rooks: side.intersect(board.rooks()).0,
        queens: side.intersect(board.queens()).0,
        king_sq: board.king_of(color).expect("king should be present") as u8,
    }
}

fn board_pieces(board: &shakmaty::Board) -> BoardPieces {
    BoardPieces {
        white: side_board(board, shakmaty::Color::White),
        black: side_board(board, shakmaty::Color::Black),
    }
}

fn mirror_side(side: &SideBoard) -> SideBoard {
    SideBoard {
        pawns: side.pawns.swap_bytes(),
        knights: side.knights.swap_bytes(),
        bishops: side.bishops.swap_bytes(),
        rooks: side.rooks.swap_bytes(),
        queens: side.queens.swap_bytes(),
        king_sq: side.king_sq ^ 56,
    }
}

//Confirms that bot properly evaluates trades as good when up material
#[test]
fn trades() {
    let board1 = shakmaty::Board::from_ascii_board_fen("7k/7p/8/8/8/Q7/P7/K7".as_bytes())
        .expect("Fen should be valid");
    let board2 = shakmaty::Board::from_ascii_board_fen("6qk/7p/8/8/8/Q7/P7/KQ6".as_bytes())
        .expect("Fen should be valid");
    assert!(evaluate_board(&board_pieces(&board1)) > evaluate_board(&board_pieces(&board2)));
}

//Basic test of move ordering
#[test]
fn ordering() {
    let move1 = MoveInfo { role: Role::Pawn, capture: Some(Role::Rook), is_promotion: false };
    let move2 = MoveInfo { role: Role::Pawn, capture: Some(Role::Queen), is_promotion: false };
    let move3 = MoveInfo { role: Role::Bishop, capture: Some(Role::Rook), is_promotion: false };

    let move_score1 = move_score(&move1);
    let move_score2 = move_score(&move2);
    let move_score3 = move_score(&move3);

    //Better moves should have lower scores
    assert!(move_score2 < move_score1); //m2 better than m1
    assert!(move_score1 < move_score3); //m1 better than m3
}

#[test]
fn move_score_exact_values() {
    // Pawn takes queen: 1 - 90.
    let pxq = MoveInfo { role: Role::Pawn, capture: Some(Role::Queen), is_promotion: false };
    assert_eq!(move_score(&pxq), -89);
    // Quiet promotion is searched late.
    let promo = MoveInfo { role: Role::Pawn, capture: None, is_promotion: true };
    assert_eq!(move_score(&promo), 60);
    // Promotion that captures a rook: 60 + 1 - 50.
    let promo_cap = MoveInfo { role: Role::Pawn, capture: Some(Role::Rook), is_promotion: true };
    assert_eq!(move_score(&promo_cap), 11);
    // Quiet move.
    let quiet = MoveInfo { role: Role::Knight, capture: None, is_promotion: false };
    assert_eq!(move_score(&quiet), 0);
}

#[test]
fn capture_score_ignores_promotion() {
    let promo_cap = MoveInfo { role: Role::Pawn, capture: Some(Role::Rook), is_promotion: true };
    assert_eq!(capture_score(&promo_cap), 1 - 50);
    let rxq = MoveInfo { role: Role::Rook, capture: Some(Role::Queen), is_promotion: false };
    assert_eq!(capture_score(&rxq), 5 - 90);
}

//The starting position is symmetric, so it evaluates to exactly zero.
#[test]
fn start_position_evaluates_to_zero() {
    let pieces = board_pieces(&shakmaty::Board::new());
    assert_eq!(evaluate_board(&pieces), 0);
}

//Swapping the colours (flipping the board vertically) negates the score.
#[test]
fn mirrored_position_negates_score() {
    let board = shakmaty::Board::from_ascii_board_fen("7k/7p/8/8/8/Q7/P7/K7".as_bytes())
        .expect("Fen should be valid");
    let pieces = board_pieces(&board);
    let mirrored = BoardPieces {
        white: mirror_side(&pieces.black),
        black: mirror_side(&pieces.white),
    };
    let e = evaluate_board(&pieces);
    assert!(e > 0);
    assert_eq!(evaluate_board(&mirrored), -e);
}

//The trade bonus takes the sign of the material difference.
#[test]
fn trade_bonus_sign_matches_diff() {
    assert_eq!(trade_bonus(500, 40500), 1);
    assert_eq!(trade_bonus(-500, 40500), -1);
    assert_eq!(trade_bonus(0, 40500), 0);
    assert!(trade_bonus(123, 40123) >= 0);
    assert!(trade_bonus(-123, 40123) <= 0);
}
