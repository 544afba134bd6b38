use supertris::game::Draw;
use supertris::game::GameState;
use supertris::game::InnerBoard;
use supertris::game::Mark;
use supertris::game::Move;
use supertris::game::OuterBoard;

fn mv(outer: (u8, u8), inner: (u8, u8), player: Mark) -> Move {
    Move { outer, inner, player }
}

/// Fills the top row of the sub-board at `sq` with `mark` and memoizes
/// its winner, so the outer board records a won sub-board there.
fn win_sub_board(board: &mut OuterBoard, sq: (usize, usize), mark: Mark) {
    for c in 0..3 {
        board.boards[sq.0][sq.1].squares[0][c] = Some(mark);
    }
    board.boards[sq.0][sq.1].update_winner();
}

#[test]
fn empty_board_has_81_moves() {
    let board = OuterBoard::default();
    let moves = board.possible_moves(Mark::First);
    assert_eq!(moves.len(), 81);
    assert!(moves.iter().all(|m| m.player == Mark::First));
}

#[test]
fn completing_top_row_sets_winner() {
    let mut board = InnerBoard::default();
    board.squares[0][0] = Some(Mark::First);
    board.squares[0][1] = Some(Mark::First);
    board.update_winner();
    assert_eq!(board.winner, None);
    board.squares[0][2] = Some(Mark::First);
    board.update_winner();
    assert_eq!(board.winner, Some(Mark::First));
}

#[test]
fn update_winner_is_idempotent_once_set() {
    let mut board = InnerBoard::default();
    for c in 0..3 {
        board.squares[1][c] = Some(Mark::Second);
    }
    board.update_winner();
    assert_eq!(board.winner, Some(Mark::Second));
    let snapshot = board;
    board.update_winner();
    assert_eq!(board, snapshot);
}

#[test]
fn make_move_leaves_input_unchanged() {
    let board = OuterBoard::default();
    let snapshot = board;
    let next = board.make_move(mv((0, 0), (1, 1), Mark::First));
    assert!(next.is_some());
    assert_eq!(board, snapshot);
}

#[test]
fn make_move_places_mark_and_moves_active_square() {
    let board = OuterBoard::default();
    let next = board.make_move(mv((0, 0), (2, 1), Mark::First)).unwrap();
    assert_eq!(next.boards[0][0].squares[2][1], Some(Mark::First));
    assert_eq!(next.active_square, Some((2, 1)));
    assert_eq!(next.overall_winner, None);
}

#[test]
fn move_into_won_sub_board_frees_choice() {
    let mut board = OuterBoard::default();
    win_sub_board(&mut board, (1, 1), Mark::Second);
    let next = board.make_move(mv((0, 0), (1, 1), Mark::First)).unwrap();
    assert_eq!(next.active_square, None);
}

#[test]
fn completed_diagonal_decides_game() {
    let mut board = OuterBoard::default();
    win_sub_board(&mut board, (0, 0), Mark::First);
    win_sub_board(&mut board, (1, 1), Mark::First);
    board.boards[2][2].squares[0][0] = Some(Mark::First);
    board.boards[2][2].squares[0][1] = Some(Mark::First);
    assert_eq!(board.overall_winner, None);
    let next = board.make_move(mv((2, 2), (0, 2), Mark::First)).unwrap();
    assert_eq!(next.boards[2][2].winner, Some(Mark::First));
    assert_eq!(next.overall_winner, Some(Mark::First));
    assert!(next.possible_moves(Mark::First).is_empty());
    assert!(next.possible_moves(Mark::Second).is_empty());
}

#[test]
fn decided_board_offers_no_moves() {
    let mut board = OuterBoard::default();
    board.overall_winner = Some(Mark::Second);
    assert!(board.possible_moves(Mark::First).is_empty());
    assert!(board.possible_moves(Mark::Second).is_empty());
}

#[test]
fn active_square_mismatch_is_rejected() {
    let board = OuterBoard::default().make_move(mv((0, 0), (1, 2), Mark::First)).unwrap();
    assert_eq!(board.active_square, Some((1, 2)));
    assert!(board.make_move(mv((0, 0), (0, 0), Mark::Second)).is_none());
    assert!(board.make_move(mv((1, 2), (0, 0), Mark::Second)).is_some());
}

#[test]
fn decided_game_rejects_moves() {
    let mut board = OuterBoard::default();
    board.overall_winner = Some(Mark::First);
    assert!(board.make_move(mv((0, 0), (0, 0), Mark::Second)).is_none());
}

#[test]
fn won_target_sub_board_rejects_moves() {
    let mut board = OuterBoard::default();
    win_sub_board(&mut board, (2, 0), Mark::First);
    assert!(board.make_move(mv((2, 0), (2, 2), Mark::Second)).is_none());
}

#[test]
fn occupied_cell_rejects_moves() {
    let board = OuterBoard::default().make_move(mv((1, 1), (1, 1), Mark::First)).unwrap();
    assert!(board.make_move(mv((1, 1), (1, 1), Mark::Second)).is_none());
}

#[test]
fn out_of_range_move_is_rejected() {
    let board = OuterBoard::default();
    assert!(board.make_move(mv((3, 0), (0, 0), Mark::First)).is_none());
    assert!(board.make_move(mv((0, 0), (0, 7), Mark::First)).is_none());
}

#[test]
fn active_square_constrains_all_moves() {
    let board = OuterBoard::default().make_move(mv((0, 1), (2, 0), Mark::First)).unwrap();
    let moves = board.possible_moves(Mark::Second);
    assert_eq!(moves.len(), 9);
    assert!(moves.iter().all(|m| m.outer == (2, 0)));
}

#[test]
fn free_choice_spans_every_playable_sub_board() {
    let mut board = OuterBoard::default();
    win_sub_board(&mut board, (0, 2), Mark::Second);
    let moves = board.possible_moves(Mark::First);
    for r in 0..3u8 {
        for c in 0..3u8 {
            let offered = moves.iter().any(|m| m.outer == (r, c));
            assert_eq!(offered, (r, c) != (0, 2));
        }
    }
}

#[test]
fn every_offered_move_applies() {
    let mut board = OuterBoard::default();
    for step in [
        mv((1, 1), (0, 0), Mark::First),
        mv((0, 0), (1, 1), Mark::Second),
        mv((1, 1), (2, 2), Mark::First),
        mv((2, 2), (1, 1), Mark::Second),
    ] {
        board = board.make_move(step).unwrap();
    }
    for player in [Mark::First, Mark::Second] {
        let moves = board.possible_moves(player);
        assert!(!moves.is_empty());
        for m in moves {
            assert!(board.make_move(m).is_some());
        }
    }
}

#[test]
fn meta_board_mirrors_sub_board_winners() {
    let mut board = OuterBoard::default();
    win_sub_board(&mut board, (0, 0), Mark::First);
    win_sub_board(&mut board, (1, 2), Mark::Second);
    let meta = board.meta_board();
    assert_eq!(meta.squares[0][0], Some(Mark::First));
    assert_eq!(meta.squares[1][2], Some(Mark::Second));
    assert_eq!(meta.squares[2][2], None);
    assert_eq!(meta.winner, None);
}

#[test]
fn meta_board_with_draws_classifies_sub_boards() {
    let mut board = OuterBoard::default();
    win_sub_board(&mut board, (0, 0), Mark::First);
    // A full sub-board with no three-in-a-row: a draw.
    let drawn = [
        [Some(Mark::First), Some(Mark::Second), Some(Mark::First)],
        [Some(Mark::Second), Some(Mark::Second), Some(Mark::First)],
        [Some(Mark::First), Some(Mark::First), Some(Mark::Second)],
    ];
    board.boards[1][1].squares = drawn;
    board.boards[1][1].update_winner();
    assert_eq!(board.boards[1][1].winner, None);
    let meta = board.meta_board_with_draws();
    assert_eq!(meta[0][0], Some(Ok(Mark::First)));
    assert_eq!(meta[1][1], Some(Err(Draw)));
    assert_eq!(meta[2][0], None);
}

#[test]
fn update_overall_winner_memoizes_meta_result() {
    let mut board = OuterBoard::default();
    win_sub_board(&mut board, (0, 0), Mark::Second);
    win_sub_board(&mut board, (0, 1), Mark::Second);
    win_sub_board(&mut board, (0, 2), Mark::Second);
    assert_eq!(board.overall_winner, None);
    board.update_overall_winner();
    assert_eq!(board.overall_winner, Some(Mark::Second));
    let snapshot = board;
    board.update_overall_winner();
    assert_eq!(board, snapshot);
}

#[test]
fn opponent_mark_swaps_and_is_involutive() {
    assert_eq!(Mark::First.other(), Mark::Second);
    assert_eq!(Mark::Second.other(), Mark::First);
    assert_eq!(Mark::First.other().other(), Mark::First);
}

#[test]
fn game_state_root_starts_clean() {
    let board = OuterBoard::default().make_move(mv((0, 0), (0, 0), Mark::First)).unwrap();
    let state = GameState::root(board);
    assert_eq!(state.board, board);
    assert_eq!(state.last_player_move, None);
    assert_eq!(state.last_computer_move, None);
    assert_eq!(state.eval, 0);
}
