//! Static heuristic evaluation of a position, from one player's
//! perspective: strictly higher is better for that player.

use vstd::prelude::*;

use crate::game::Cells;
use crate::game::Draw;
use crate::game::InnerBoard;
use crate::game::Mark;
use crate::game::MetaCells;
use crate::game::OuterBoard;
use crate::game::cell_is;
use crate::game::spec_meta_draw_cell;
use crate::game::spec_meta_winner;

verus! {

/// Whether a line holds exactly two of the given value and one open cell:
/// a one-move-from-winning line.
pub open spec fn spec_threat_line<T>(a: Option<T>, b: Option<T>, c: Option<T>, m: T) -> bool {
    ||| (a == Some(m) && b == Some(m) && c is None)
    ||| (a == Some(m) && b is None && c == Some(m))
    ||| (a is None && b == Some(m) && c == Some(m))
}

/// The number of one-move-from-winning lines for `m` over the three rows,
/// three columns and two diagonals of a grid.
pub open spec fn spec_threats<T>(g: [[Option<T>; 3]; 3], m: T) -> int {
    (if spec_threat_line(g[0][0], g[0][1], g[0][2], m) {
        1int
    } else {
        0
    }) + (if spec_threat_line(g[1][0], g[1][1], g[1][2], m) {
        1int
    } else {
        0
    }) + (if spec_threat_line(g[2][0], g[2][1], g[2][2], m) {
        1int
    } else {
        0
    }) + (if spec_threat_line(g[0][0], g[1][0], g[2][0], m) {
        1int
    } else {
        0
    }) + (if spec_threat_line(g[0][1], g[1][1], g[2][1], m) {
        1int
    } else {
        0
    }) + (if spec_threat_line(g[0][2], g[1][2], g[2][2], m) {
        1int
    } else {
        0
    }) + (if spec_threat_line(g[0][0], g[1][1], g[2][2], m) {
        1int
    } else {
        0
    }) + (if spec_threat_line(g[0][2], g[1][1], g[2][0], m) {
        1int
    } else {
        0
    })
}

/// Whether a line of marks is a threat for `m`.
fn threat_line(a: Option<Mark>, b: Option<Mark>, c: Option<Mark>, m: Mark) -> (r: bool)
    ensures
        r == spec_threat_line(a, b, c, m),
{
    (cell_is(a, m) && cell_is(b, m) && c.is_none()) || (cell_is(a, m) && b.is_none() && cell_is(
        c,
        m,
    )) || (a.is_none() && cell_is(b, m) && cell_is(c, m))
}

/// Counts the one-move-from-winning lines for `m` on a sub-board grid.
pub fn threats(g: &Cells, m: Mark) -> (r: usize)
    ensures
        r as int == spec_threats(*g, m),
        r <= 8,
{
    let mut t: usize = 0;
    if threat_line(g[0][0], g[0][1], g[0][2], m) {
        t += 1;
    }
    if threat_line(g[1][0], g[1][1], g[1][2], m) {
        t += 1;
    }
    if threat_line(g[2][0], g[2][1], g[2][2], m) {
        t += 1;
    }
    if threat_line(g[0][0], g[1][0], g[2][0], m) {
        t += 1;
    }
    if threat_line(g[0][1], g[1][1], g[2][1], m) {
        t += 1;
    }
    if threat_line(g[0][2], g[1][2], g[2][2], m) {
        t += 1;
    }
    if threat_line(g[0][0], g[1][1], g[2][2], m) {
        t += 1;
    }
    if threat_line(g[0][2], g[1][1], g[2][0], m) {
        t += 1;
    }
    t
}

/// Whether a meta-level cell holds a win for exactly the given mark.
fn meta_cell_is(cell: Option<Result<Mark, Draw>>, m: Mark) -> (r: bool)
    ensures
        r == (cell == Some(Ok::<Mark, Draw>(m))),
{
    match cell {
        Some(Ok(x)) => x == m,
        _ => false,
    }
}

/// Whether a line of sub-board classifications is a threat for `m`. A
/// drawn sub-board neither matches the mark nor counts as open.
fn meta_threat_line(
    a: Option<Result<Mark, Draw>>,
    b: Option<Result<Mark, Draw>>,
    c: Option<Result<Mark, Draw>>,
    m: Mark,
) -> (r: bool)
    ensures
        r == spec_threat_line(a, b, c, Ok::<Mark, Draw>(m)),
{
    (meta_cell_is(a, m) && meta_cell_is(b, m) && c.is_none()) || (meta_cell_is(a, m) && b.is_none()
        && meta_cell_is(c, m)) || (a.is_none() && meta_cell_is(b, m) && meta_cell_is(c, m))
}

/// Counts the one-move-from-winning lines for `m` on the meta-board of
/// sub-board classifications.
pub fn meta_threats(g: &MetaCells, m: Mark) -> (r: usize)
    ensures
        r as int == spec_threats(*g, Ok::<Mark, Draw>(m)),
        r <= 8,
{
    let mut t: usize = 0;
    if meta_threat_line(g[0][0], g[0][1], g[0][2], m) {
        t += 1;
    }
    if meta_threat_line(g[1][0], g[1][1], g[1][2], m) {
        t += 1;
    }
    if meta_threat_line(g[2][0], g[2][1], g[2][2], m) {
        t += 1;
    }
    if meta_threat_line(g[0][0], g[1][0], g[2][0], m) {
        t += 1;
    }
    if meta_threat_line(g[0][1], g[1][1], g[2][1], m) {
        t += 1;
    }
    if meta_threat_line(g[0][2], g[1][2], g[2][2], m) {
        t += 1;
    }
    if meta_threat_line(g[0][0], g[1][1], g[2][2], m) {
        t += 1;
    }
    if meta_threat_line(g[0][2], g[1][1], g[2][0], m) {
        t += 1;
    }
    t
}

/// The meta-level threat count for `m`, read off the board itself.
pub open spec fn spec_meta_draw_threats(b: OuterBoard, m: Mark) -> int {
    let c00 = spec_meta_draw_cell(b, 0, 0);
    let c01 = spec_meta_draw_cell(b, 0, 1);
    let c02 = spec_meta_draw_cell(b, 0, 2);
    let c10 = spec_meta_draw_cell(b, 1, 0);
    let c11 = spec_meta_draw_cell(b, 1, 1);
    let c12 = spec_meta_draw_cell(b, 1, 2);
    let c20 = spec_meta_draw_cell(b, 2, 0);
    let c21 = spec_meta_draw_cell(b, 2, 1);
    let c22 = spec_meta_draw_cell(b, 2, 2);
    let w: Result<Mark, Draw> = Ok(m);
    (if spec_threat_line(c00, c01, c02, w) {
        1int
    } else {
        0
    }) + (if spec_threat_line(c10, c11, c12, w) {
        1int
    } else {
        0
    }) + (if spec_threat_line(c20, c21, c22, w) {
        1int
    } else {
        0
    }) + (if spec_threat_line(c00, c10, c20, w) {
        1int
    } else {
        0
    }) + (if spec_threat_line(c01, c11, c21, w) {
        1int
    } else {
        0
    }) + (if spec_threat_line(c02, c12, c22, w) {
        1int
    } else {
        0
    }) + (if spec_threat_line(c00, c11, c22, w) {
        1int
    } else {
        0
    }) + (if spec_threat_line(c02, c11, c20, w) {
        1int
    } else {
        0
    })
}

/// Positional value of one cell: `pts` for the player's own mark, `-pts`
/// for the opponent's, nothing for an empty cell.
pub open spec fn spec_cell_score(cell: Option<Mark>, player: Mark, pts: int) -> int {
    if cell == Some(player) {
        pts
    } else if cell == Some(player.spec_other()) {
        -pts
    } else {
        0
    }
}

/// Positional value of one cell, the executable mirror of
/// `spec_cell_score`.
fn cell_score(cell: Option<Mark>, player: Mark, pts: i32) -> (r: i32)
    requires
        0 <= pts <= 10,
    ensures
        r as int == spec_cell_score(cell, player, pts as int),
        -pts <= r <= pts,
{
    if cell_is(cell, player) {
        pts
    } else if cell_is(cell, player.other()) {
        -pts
    } else {
        0
    }
}

/// Heuristic contribution of one sub-board: 1000 when won, otherwise 100
/// per threat line (when threats are scored), 10 for the center, 5 per
/// edge and 2 per corner, each signed by who holds it.
pub open spec fn spec_score_inner(b: InnerBoard, player: Mark, score_threats: bool) -> int {
    if b.winner is Some {
        if b.winner == Some(player) {
            1000
        } else {
            -1000
        }
    } else {
        (if score_threats {
            100 * spec_threats(b.squares, player) - 100 * spec_threats(
                b.squares,
                player.spec_other(),
            )
        } else {
            0
        }) + spec_cell_score(b.squares[1][1], player, 10) + spec_cell_score(
            b.squares[0][1],
            player,
            5,
        ) + spec_cell_score(b.squares[1][0], player, 5) + spec_cell_score(
            b.squares[1][2],
            player,
            5,
        ) + spec_cell_score(b.squares[2][1], player, 5) + spec_cell_score(
            b.squares[0][0],
            player,
            2,
        ) + spec_cell_score(b.squares[0][2], player, 2) + spec_cell_score(
            b.squares[2][0],
            player,
            2,
        ) + spec_cell_score(b.squares[2][2], player, 2)
    }
}

/// Scores one sub-board from `player`'s perspective.
pub fn score_inner(b: &InnerBoard, player: Mark, score_threats: bool) -> (r: i32)
    ensures
        r as int == spec_score_inner(*b, player, score_threats),
        -1000 <= r <= 1000,
{
    if let Some(w) = b.winner {
        return if w == player {
            1000
        } else {
            -1000
        };
    }
    let mut s: i32 = 0;
    if score_threats {
        let tp = threats(&b.squares, player);
        let to = threats(&b.squares, player.other());
        s = s + 100 * (tp as i32);
        s = s - 100 * (to as i32);
    }
    s = s + cell_score(b.squares[1][1], player, 10);
    s = s + cell_score(b.squares[0][1], player, 5);
    s = s + cell_score(b.squares[1][0], player, 5);
    s = s + cell_score(b.squares[1][2], player, 5);
    s = s + cell_score(b.squares[2][1], player, 5);
    s = s + cell_score(b.squares[0][0], player, 2);
    s = s + cell_score(b.squares[0][2], player, 2);
    s = s + cell_score(b.squares[2][0], player, 2);
    s = s + cell_score(b.squares[2][2], player, 2);
    s
}

/// The positional part of the meta-board's own score: center, edge and
/// corner control of sub-boards, read off the board itself.
pub open spec fn spec_meta_position_score(b: OuterBoard, player: Mark) -> int {
    spec_cell_score(b.boards[1][1].winner, player, 10) + spec_cell_score(
        b.boards[0][1].winner,
        player,
        5,
    ) + spec_cell_score(b.boards[1][0].winner, player, 5) + spec_cell_score(
        b.boards[1][2].winner,
        player,
        5,
    ) + spec_cell_score(b.boards[2][1].winner, player, 5) + spec_cell_score(
        b.boards[0][0].winner,
        player,
        2,
    ) + spec_cell_score(b.boards[0][2].winner, player, 2) + spec_cell_score(
        b.boards[2][0].winner,
        player,
        2,
    ) + spec_cell_score(b.boards[2][2].winner, player, 2)
}

/// Combined score of the sub-boards in row `r`, threats included.
pub open spec fn spec_boards_row_score(b: OuterBoard, player: Mark, r: int) -> int {
    spec_score_inner(b.boards[r][0], player, true) + spec_score_inner(b.boards[r][1], player, true)
        + spec_score_inner(b.boards[r][2], player, true)
}

/// Combined score of the sub-boards in the first `r` rows.
pub open spec fn spec_boards_rows_score(b: OuterBoard, player: Mark, r: int) -> int
    decreases r,
{
    if r <= 0 {
        0
    } else {
        spec_boards_rows_score(b, player, r - 1) + spec_boards_row_score(b, player, r - 1)
    }
}

/// The full static heuristic: the extreme scores on a decided meta-board;
/// otherwise five times the meta-board score (its positional control plus
/// its threat lines over won/drawn/open sub-boards), plus every
/// sub-board's own score, plus a tempo bonus of 200 when the next player
/// has a free choice of sub-board.
pub open spec fn spec_heuristic(b: OuterBoard, player: Mark, next_mark: Mark) -> int {
    if spec_meta_winner(b) is Some {
        if spec_meta_winner(b) == Some(player) {
            i32::MAX as int
        } else {
            i32::MIN as int
        }
    } else {
        let meta_sc = spec_meta_position_score(b, player) + 100 * spec_meta_draw_threats(b, player)
            - 100 * spec_meta_draw_threats(b, player.spec_other());
        let sc = 5 * meta_sc + spec_boards_rows_score(b, player, 3);
        if b.active_square is None {
            if next_mark == player {
                sc + 200
            } else {
                sc - 200
            }
        } else {
            sc
        }
    }
}

/// Computes the static heuristic score of a position for `player`, with
/// `next_mark` the player whose turn the evaluation point belongs to.
pub fn heuristic(board: &OuterBoard, player: Mark, next_mark: Mark) -> (r: i32)
    ensures
        r as int == spec_heuristic(*board, player, next_mark),
{
    let meta = board.meta_board();
    if let Some(w) = meta.winner {
        return if w == player {
            i32::MAX
        } else {
            i32::MIN
        };
    }
    let mut score: i32 = score_inner(&meta, player, false);
    let ghost meta_sc: int = spec_meta_position_score(*board, player) + 100
        * spec_meta_draw_threats(*board, player) - 100 * spec_meta_draw_threats(
        *board,
        player.spec_other(),
    );
    let md = board.meta_board_with_draws();
    let tp = meta_threats(&md, player);
    let to = meta_threats(&md, player.other());
    proof {
        assert(spec_threats(md, Ok::<Mark, Draw>(player)) == spec_meta_draw_threats(
            *board,
            player,
        ));
        assert(spec_threats(md, Ok::<Mark, Draw>(player.spec_other())) == spec_meta_draw_threats(
            *board,
            player.spec_other(),
        ));
    }
    score = score + 100 * (tp as i32);
    score = score - 100 * (to as i32);
    score = score * 5;
    proof {
        assert(0 <= spec_meta_draw_threats(*board, player) <= 8);
        assert(0 <= spec_meta_draw_threats(*board, player.spec_other()) <= 8);
        assert(-38 <= spec_meta_position_score(*board, player) <= 38);
        assert(score as int == 5 * meta_sc);
    }
    for r in 0..3usize
        invariant
            score as int == 5 * meta_sc + spec_boards_rows_score(*board, player, r as int),
            -8190 - 3000 * r <= score as int <= 8190 + 3000 * r,
    {
        score = score + score_inner(&board.boards[r][0], player, true);
        score = score + score_inner(&board.boards[r][1], player, true);
        score = score + score_inner(&board.boards[r][2], player, true);
        proof {
            assert(score as int == 5 * meta_sc + spec_boards_rows_score(
                *board,
                player,
                r as int + 1,
            ));
        }
    }
    if board.active_square.is_none() {
        if next_mark == player {
            score = score + 200;
        } else {
            score = score - 200;
        }
    }
    score
}

} // verus!
