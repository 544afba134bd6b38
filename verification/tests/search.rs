use supertris::game::Mark;
use supertris::game::Move;
use supertris::game::OuterBoard;
use supertris::search::Searcher;

/// Fills the top row of the sub-board at `sq` with `mark` and memoizes
/// its winner.
fn claim_sub_board(board: &mut OuterBoard, sq: (usize, usize), mark: Mark) {
    for c in 0..3 {
        board.boards[sq.0][sq.1].squares[0][c] = Some(mark);
    }
    board.boards[sq.0][sq.1].update_winner();
}

/// A position where exactly one move is legal and it wins the whole game
/// for `First`: sub-boards (0,0) and (0,1) are already won, the active
/// square points at (0,2), and that sub-board has a single empty cell
/// which completes its top row.
fn terminal_in_one() -> (OuterBoard, Move) {
    let mut board = OuterBoard::default();
    claim_sub_board(&mut board, (0, 0), Mark::First);
    claim_sub_board(&mut board, (0, 1), Mark::First);
    board.boards[0][2].squares = [
        [Some(Mark::First), Some(Mark::First), None],
        [Some(Mark::Second), Some(Mark::Second), Some(Mark::First)],
        [Some(Mark::First), Some(Mark::Second), Some(Mark::Second)],
    ];
    board.active_square = Some((0, 2));
    let winning = Move { outer: (0, 2), inner: (0, 2), player: Mark::First };
    (board, winning)
}

#[test]
fn best_move_on_finished_game_is_none() {
    let mut board = OuterBoard::default();
    board.overall_winner = Some(Mark::Second);
    assert!(board.best_move(Mark::First).is_none());
    assert!(board.best_move(Mark::Second).is_none());
}

#[test]
fn best_move_is_always_applicable() {
    let mut board = OuterBoard::default();
    let mut player = Mark::First;
    for _ in 0..4 {
        let (chosen, _) = board.best_move(player).unwrap();
        assert_eq!(chosen.player, player);
        board = board.make_move(chosen).expect("search returned an illegal move");
        player = player.other();
    }
}

#[test]
fn winning_move_gets_the_maximum_score() {
    let (board, winning) = terminal_in_one();
    let moves = board.possible_moves(Mark::First);
    assert_eq!(moves, vec![winning]);
    let (chosen, score) = board.best_move(Mark::First).unwrap();
    assert_eq!(chosen, winning);
    assert_eq!(score, i32::MAX);
    let after = board.make_move(chosen).unwrap();
    assert_eq!(after.overall_winner, Some(Mark::First));
}

#[test]
fn winning_move_last_in_order_is_chosen() {
    let mut board = OuterBoard::default();
    claim_sub_board(&mut board, (0, 0), Mark::First);
    claim_sub_board(&mut board, (0, 1), Mark::First);
    // Two empty cells in the active sub-board; only the later one, at
    // (2, 2), completes the sub-board and with it the meta top row.
    board.boards[0][2].squares = [
        [Some(Mark::First), Some(Mark::Second), None],
        [Some(Mark::Second), Some(Mark::Second), Some(Mark::First)],
        [Some(Mark::First), Some(Mark::First), None],
    ];
    board.active_square = Some((0, 2));
    let winning = Move { outer: (0, 2), inner: (2, 2), player: Mark::First };
    let moves = board.possible_moves(Mark::First);
    assert_eq!(moves.len(), 2);
    assert_eq!(*moves.last().unwrap(), winning);
    let (chosen, score) = board.best_move(Mark::First).unwrap();
    assert_eq!(chosen, winning);
    assert_eq!(score, i32::MAX);
}

#[test]
fn searcher_entry_matches_board_interface() {
    let (board, winning) = terminal_in_one();
    let result = Searcher::search(&board, Mark::First);
    assert_eq!(result, Some((winning, i32::MAX)));
}
