use supertris::eval::heuristic;
use supertris::eval::meta_threats;
use supertris::eval::score_inner;
use supertris::eval::threats;
use supertris::game::Cells;
use supertris::game::Draw;
use supertris::game::InnerBoard;
use supertris::game::Mark;
use supertris::game::MetaCells;
use supertris::game::OuterBoard;

fn empty_cells() -> Cells {
    [[None; 3]; 3]
}

#[test]
fn one_open_row_is_one_threat() {
    let mut g = empty_cells();
    g[0][0] = Some(Mark::First);
    g[0][1] = Some(Mark::First);
    assert_eq!(threats(&g, Mark::First), 1);
    assert_eq!(threats(&g, Mark::Second), 0);
}

#[test]
fn crossing_lines_count_three_threats() {
    let mut g = empty_cells();
    g[0][0] = Some(Mark::First);
    g[0][1] = Some(Mark::First);
    g[1][1] = Some(Mark::First);
    // Top row, middle column and main diagonal are each one move from won.
    assert_eq!(threats(&g, Mark::First), 3);
}

#[test]
fn anti_diagonal_threat_is_counted() {
    let mut g = empty_cells();
    g[0][2] = Some(Mark::Second);
    g[1][1] = Some(Mark::Second);
    assert_eq!(threats(&g, Mark::Second), 1);
}

#[test]
fn blocked_or_won_lines_are_no_threats() {
    let mut g = empty_cells();
    g[2][0] = Some(Mark::First);
    g[2][1] = Some(Mark::First);
    g[2][2] = Some(Mark::Second);
    assert_eq!(threats(&g, Mark::First), 0);
    let mut won = empty_cells();
    won[1][0] = Some(Mark::First);
    won[1][1] = Some(Mark::First);
    won[1][2] = Some(Mark::First);
    assert_eq!(threats(&won, Mark::First), 0);
}

#[test]
fn drawn_sub_board_blocks_meta_threat() {
    let mut meta: MetaCells = [[None; 3]; 3];
    meta[0][0] = Some(Ok(Mark::First));
    meta[0][1] = Some(Ok(Mark::First));
    assert_eq!(meta_threats(&meta, Mark::First), 1);
    meta[0][2] = Some(Err(Draw));
    assert_eq!(meta_threats(&meta, Mark::First), 0);
}

#[test]
fn won_sub_board_scores_a_thousand() {
    let mut board = InnerBoard::default();
    for c in 0..3 {
        board.squares[2][c] = Some(Mark::Second);
    }
    board.update_winner();
    assert_eq!(score_inner(&board, Mark::Second, true), 1000);
    assert_eq!(score_inner(&board, Mark::First, true), -1000);
}

#[test]
fn positional_control_is_scored_by_cell_class() {
    let mut board = InnerBoard::default();
    board.squares[1][1] = Some(Mark::First);
    board.squares[0][0] = Some(Mark::Second);
    // Center is worth 10, a corner 2; no line holds two marks.
    assert_eq!(score_inner(&board, Mark::First, true), 8);
    assert_eq!(score_inner(&board, Mark::Second, true), -8);
}

#[test]
fn empty_position_scores_only_the_tempo_bonus() {
    let board = OuterBoard::default();
    assert_eq!(heuristic(&board, Mark::First, Mark::First), 200);
    assert_eq!(heuristic(&board, Mark::First, Mark::Second), -200);
}

#[test]
fn center_control_plus_tempo() {
    let mut board = OuterBoard::default();
    board.boards[1][1].squares[1][1] = Some(Mark::First);
    assert_eq!(heuristic(&board, Mark::First, Mark::First), 210);
    assert_eq!(heuristic(&board, Mark::Second, Mark::First), -210);
}

#[test]
fn decided_meta_board_scores_extremes() {
    let mut board = OuterBoard::default();
    for c in 0..3 {
        for col in 0..3 {
            board.boards[0][c].squares[0][col] = Some(Mark::First);
        }
        board.boards[0][c].update_winner();
    }
    assert_eq!(heuristic(&board, Mark::First, Mark::First), i32::MAX);
    assert_eq!(heuristic(&board, Mark::Second, Mark::First), i32::MIN);
}
