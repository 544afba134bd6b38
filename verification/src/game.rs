//! The board model: marks, sub-boards, the outer board and move application.

use vstd::prelude::*;

verus! {

/// One of the two players' marks.
#[derive(Clone, Copy, PartialEq, Eq, Hash, Debug, Structural)]
pub enum Mark {
    First,
    Second,
}

/// The mark the human plays in the bundled interface.
pub const HUMAN_MARK: Mark = Mark::First;

/// The mark the computer plays in the bundled interface.
pub const COMPUTER_MARK: Mark = Mark::Second;

impl Mark {
    /// The opposing mark.
    pub open spec fn spec_other(self) -> Mark {
        match self {
            Mark::First => Mark::Second,
            Mark::Second => Mark::First,
        }
    }

    /// The opposing mark; applying it twice gives back the starting mark.
    #[verifier::when_used_as_spec(spec_other)]
    pub fn other(self) -> (r: Mark)
        ensures
            r == self.spec_other(),
    {
        match self {
            Mark::First => Mark::Second,
            Mark::Second => Mark::First,
        }
    }
}

/// Sentinel for a sub-board that is full with no three-in-a-row. It is
/// distinct from both marks, so in meta-level threat counting a drawn
/// sub-board neither satisfies a line nor counts as an open slot.
#[derive(Clone, Copy, PartialEq, Eq, Debug)]
pub struct Draw;

/// The cells of one 3x3 board, row-major.
pub type Cells = [[Option<Mark>; 3]; 3];

/// The winner of a single line when all three cells hold the same mark.
pub open spec fn spec_line_winner(a: Option<Mark>, b: Option<Mark>, c: Option<Mark>) -> Option<
    Mark,
> {
    if a is Some && b == a && c == a {
        a
    } else {
        None
    }
}

/// The first of two scan results that found a winner.
pub open spec fn spec_first_found(a: Option<Mark>, b: Option<Mark>) -> Option<Mark> {
    if a is Some {
        a
    } else {
        b
    }
}

/// The winner that the scan of a 3x3 grid finds, checking the three rows,
/// then the three columns, then the two diagonals.
pub open spec fn spec_scan_winner(g: Cells) -> Option<Mark> {
    spec_first_found(
        spec_line_winner(g[0][0], g[0][1], g[0][2]),
        spec_first_found(
            spec_line_winner(g[1][0], g[1][1], g[1][2]),
            spec_first_found(
                spec_line_winner(g[2][0], g[2][1], g[2][2]),
                spec_first_found(
                    spec_line_winner(g[0][0], g[1][0], g[2][0]),
                    spec_first_found(
                        spec_line_winner(g[0][1], g[1][1], g[2][1]),
                        spec_first_found(
                            spec_line_winner(g[0][2], g[1][2], g[2][2]),
                            spec_first_found(
                                spec_line_winner(g[0][0], g[1][1], g[2][2]),
                                spec_line_winner(g[0][2], g[1][1], g[2][0]),
                            ),
                        ),
                    ),
                ),
            ),
        ),
    )
}

/// Whether all three cells of some line hold the given mark.
pub open spec fn spec_line_is(a: Option<Mark>, b: Option<Mark>, c: Option<Mark>, m: Mark) -> bool {
    a == Some(m) && b == Some(m) && c == Some(m)
}

/// Whether the given mark has a completed line on the grid.
pub open spec fn spec_wins(g: Cells, m: Mark) -> bool {
    ||| spec_line_is(g[0][0], g[0][1], g[0][2], m)
    ||| spec_line_is(g[1][0], g[1][1], g[1][2], m)
    ||| spec_line_is(g[2][0], g[2][1], g[2][2], m)
    ||| spec_line_is(g[0][0], g[1][0], g[2][0], m)
    ||| spec_line_is(g[0][1], g[1][1], g[2][1], m)
    ||| spec_line_is(g[0][2], g[1][2], g[2][2], m)
    ||| spec_line_is(g[0][0], g[1][1], g[2][2], m)
    ||| spec_line_is(g[0][2], g[1][1], g[2][0], m)
}

/// Whether some cell of the grid is still empty.
pub open spec fn spec_has_empty(g: Cells) -> bool {
    exists|r: int, c: int| 0 <= r < 3 && 0 <= c < 3 && g[r][c] is None
}

/// A scan result is always backed by a completed line.
pub proof fn lemma_scan_winner_wins(g: Cells)
    ensures
        spec_scan_winner(g) matches Some(m) ==> spec_wins(g, m),
        spec_scan_winner(g) is None ==> forall|m: Mark| !spec_wins(g, m),
{
}

/// Whether a cell holds exactly the given mark.
pub(crate) fn cell_is(cell: Option<Mark>, m: Mark) -> (r: bool)
    ensures
        r == (cell == Some(m)),
{
    match cell {
        Some(x) => x == m,
        None => false,
    }
}

/// The winner of one line, the executable mirror of `spec_line_winner`.
fn line_winner(a: Option<Mark>, b: Option<Mark>, c: Option<Mark>) -> (r: Option<Mark>)
    ensures
        r == spec_line_winner(a, b, c),
{
    match a {
        Some(p) => if cell_is(b, p) && cell_is(c, p) {
            Some(p)
        } else {
            None
        },
        None => None,
    }
}

/// Scans the grid for a completed line: rows, then columns, then diagonals.
fn scan_winner(g: &Cells) -> (r: Option<Mark>)
    ensures
        r == spec_scan_winner(*g),
{
    let mut r = line_winner(g[0][0], g[0][1], g[0][2]);
    if r.is_none() {
        r = line_winner(g[1][0], g[1][1], g[1][2]);
    }
    if r.is_none() {
        r = line_winner(g[2][0], g[2][1], g[2][2]);
    }
    if r.is_none() {
        r = line_winner(g[0][0], g[1][0], g[2][0]);
    }
    if r.is_none() {
        r = line_winner(g[0][1], g[1][1], g[2][1]);
    }
    if r.is_none() {
        r = line_winner(g[0][2], g[1][2], g[2][2]);
    }
    if r.is_none() {
        r = line_winner(g[0][0], g[1][1], g[2][2]);
    }
    if r.is_none() {
        r = line_winner(g[0][2], g[1][1], g[2][0]);
    }
    r
}

/// A single 3x3 sub-board: cell contents plus the memoized winner.
#[derive(Clone, Copy, PartialEq, Eq, Debug, Hash)]
pub struct InnerBoard {
    pub squares: Cells,
    pub winner: Option<Mark>,
}

impl InnerBoard {
    /// A sub-board is consistent when its memoized winner is backed by a
    /// completed line on its cells.
    pub open spec fn wf(self) -> bool {
        self.winner matches Some(m) ==> spec_wins(self.squares, m)
    }

    /// The board after one winner recomputation: a winner, once set, is
    /// kept; otherwise the scan result is memoized.
    pub open spec fn spec_update_winner(self) -> InnerBoard {
        if self.winner is Some {
            self
        } else {
            InnerBoard { squares: self.squares, winner: spec_scan_winner(self.squares) }
        }
    }

    /// Recomputes the memoized winner. A no-op once a winner is set: a won
    /// sub-board never changes.
    pub fn update_winner(&mut self)
        ensures
            *final(self) == old(self).spec_update_winner(),
            old(self).winner is Some ==> *final(self) == *old(self),
    {
        if self.winner.is_some() {
            return ;
        }
        self.winner = scan_winner(&self.squares);
    }

    /// Whether a mark may still be placed: no winner and an empty cell left.
    pub open spec fn spec_can_play(self) -> bool {
        self.winner is None && spec_has_empty(self.squares)
    }

    pub fn can_play(&self) -> (r: bool)
        ensures
            r == self.spec_can_play(),
    {
        if self.winner.is_some() {
            return false;
        }
        let g = &self.squares;
        let found_empty = g[0][0].is_none() || g[0][1].is_none() || g[0][2].is_none() || g[1][0].is_none()
            || g[1][1].is_none() || g[1][2].is_none() || g[2][0].is_none() || g[2][1].is_none()
            || g[2][2].is_none();
        proof {
            if !found_empty {
                assert forall|r: int, c: int| 0 <= r < 3 && 0 <= c < 3 implies g[r][c] is Some by {
                    assert(r == 0 || r == 1 || r == 2);
                    assert(c == 0 || c == 1 || c == 2);
                }
            }
        }
        found_empty
    }
}

/// Replaces one cell of a 3x3 row.
fn row_set<T: Copy>(row: [T; 3], c: usize, v: T) -> (out: [T; 3])
    requires
        c < 3,
    ensures
        out@ == row@.update(c as int, v),
{
    let mut out = row;
    out[c] = v;
    out
}

/// A 3x3 grid with one entry replaced.
pub open spec fn spec_grid_update<T>(g: [[T; 3]; 3], r: int, c: int, v: T) -> [[T; 3]; 3] {
    vstd::array::spec_array_update(g, r, vstd::array::spec_array_update(g[r], c, v))
}

/// Replaces one entry of a 3x3 grid.
fn grid_set<T: Copy>(g: [[T; 3]; 3], r: usize, c: usize, v: T) -> (out: [[T; 3]; 3])
    requires
        r < 3,
        c < 3,
    ensures
        out == spec_grid_update(g, r as int, c as int, v),
{
    let row = row_set(g[r], c, v);
    let mut out = g;
    out[r] = row;
    proof {
        assert(row =~= vstd::array::spec_array_update(g[r as int], c as int, v));
        assert(out =~= spec_grid_update(g, r as int, c as int, v));
    }
    out
}

impl Default for InnerBoard {
    /// An empty sub-board: all cells empty, no winner.
    fn default() -> (r: Self)
        ensures
            r.winner is None,
            forall|i: int, j: int| 0 <= i < 3 && 0 <= j < 3 ==> r.squares[i][j] is None,
    {
        InnerBoard {
            squares: [[None, None, None], [None, None, None], [None, None, None]],
            winner: None,
        }
    }
}

/// The empty-cell coordinates of row `r` of a grid, in column order.
pub open spec fn spec_row_moves(g: Cells, r: int) -> Seq<(u8, u8)> {
    (if g[r][0] is None {
        seq![((r as u8), 0u8)]
    } else {
        Seq::empty()
    }) + (if g[r][1] is None {
        seq![((r as u8), 1u8)]
    } else {
        Seq::empty()
    }) + (if g[r][2] is None {
        seq![((r as u8), 2u8)]
    } else {
        Seq::empty()
    })
}

/// The empty-cell coordinates of the first `r` rows of a grid, row-major.
pub open spec fn spec_rows_moves(g: Cells, r: int) -> Seq<(u8, u8)>
    decreases r,
{
    if r <= 0 {
        Seq::empty()
    } else {
        spec_rows_moves(g, r - 1) + spec_row_moves(g, r - 1)
    }
}

impl InnerBoard {
    /// The coordinates a mark may be placed at, row-major; empty when the
    /// board can no longer be played.
    pub open spec fn spec_possible_moves(self) -> Seq<(u8, u8)> {
        if self.spec_can_play() {
            spec_rows_moves(self.squares, 3)
        } else {
            Seq::empty()
        }
    }

    /// The empty-cell coordinates in row-major order; empty when the board
    /// is won or full.
    pub fn possible_moves(&self) -> (moves: Vec<(u8, u8)>)
        ensures
            moves@ == self.spec_possible_moves(),
    {
        let mut moves: Vec<(u8, u8)> = Vec::new();
        if !self.can_play() {
            return moves;
        }
        for row in 0..3usize
            invariant
                moves@ == spec_rows_moves(self.squares, row as int),
        {
            if self.squares[row][0].is_none() {
                moves.push((row as u8, 0));
            }
            if self.squares[row][1].is_none() {
                moves.push((row as u8, 1));
            }
            if self.squares[row][2].is_none() {
                moves.push((row as u8, 2));
            }
            proof {
                assert(moves@ =~= spec_rows_moves(self.squares, row as int + 1));
            }
        }
        moves
    }
}

/// A move: the sub-board played in, the cell within it, and who plays.
/// A move is a value, not a reference into any board.
#[derive(Clone, Copy, PartialEq, Eq, Debug, Hash)]
pub struct Move {
    pub outer: (u8, u8),
    pub inner: (u8, u8),
    pub player: Mark,
}

impl Move {
    /// Whether both coordinate pairs address real cells.
    pub open spec fn in_range(self) -> bool {
        self.outer.0 < 3 && self.outer.1 < 3 && self.inner.0 < 3 && self.inner.1 < 3
    }
}

/// The 3x3 grid of sub-boards plus the memoized overall winner and the
/// active-square constraint.
#[derive(Clone, Copy, PartialEq, Eq, Debug, Hash)]
pub struct OuterBoard {
    pub boards: [[InnerBoard; 3]; 3],
    pub overall_winner: Option<Mark>,
    pub active_square: Option<(u8, u8)>,
}

/// The winner of the meta-board sub-board winner grid found by the same
/// scan as on a single sub-board: rows, columns, then diagonals. Reads
/// only the sub-board winners.
pub open spec fn spec_meta_winner(b: OuterBoard) -> Option<Mark> {
    spec_first_found(
        spec_line_winner(b.boards[0][0].winner, b.boards[0][1].winner, b.boards[0][2].winner),
        spec_first_found(
            spec_line_winner(b.boards[1][0].winner, b.boards[1][1].winner, b.boards[1][2].winner),
            spec_first_found(
                spec_line_winner(
                    b.boards[2][0].winner,
                    b.boards[2][1].winner,
                    b.boards[2][2].winner,
                ),
                spec_first_found(
                    spec_line_winner(
                        b.boards[0][0].winner,
                        b.boards[1][0].winner,
                        b.boards[2][0].winner,
                    ),
                    spec_first_found(
                        spec_line_winner(
                            b.boards[0][1].winner,
                            b.boards[1][1].winner,
                            b.boards[2][1].winner,
                        ),
                        spec_first_found(
                            spec_line_winner(
                                b.boards[0][2].winner,
                                b.boards[1][2].winner,
                                b.boards[2][2].winner,
                            ),
                            spec_first_found(
                                spec_line_winner(
                                    b.boards[0][0].winner,
                                    b.boards[1][1].winner,
                                    b.boards[2][2].winner,
                                ),
                                spec_line_winner(
                                    b.boards[0][2].winner,
                                    b.boards[1][1].winner,
                                    b.boards[2][0].winner,
                                ),
                            ),
                        ),
                    ),
                ),
            ),
        ),
    )
}

/// Whether a move is legal on a board: the active-square constraint is
/// met, the game is not decided, the target sub-board is not won, the
/// target cell is empty, and the coordinates address real cells.
pub open spec fn spec_move_legal(b: OuterBoard, m: Move) -> bool {
    &&& (b.active_square matches Some(sq) ==> m.outer == sq)
    &&& b.overall_winner is None
    &&& m.in_range()
    &&& b.boards[m.outer.0 as int][m.outer.1 as int].winner is None
    &&& b.boards[m.outer.0 as int][m.outer.1 as int].squares[m.inner.0 as int][m.inner.1 as int]
        is None
}

/// The sub-board after a mark is placed in one of its cells and the
/// winner is recomputed.
pub open spec fn spec_inner_after(b: InnerBoard, r: int, c: int, m: Mark) -> InnerBoard {
    InnerBoard { squares: spec_grid_update(b.squares, r, c, Some(m)), winner: b.winner }
        .spec_update_winner()
}

/// The board a legal move produces: the mark placed, the target
/// sub-board's winner recomputed, the active square moved to the played
/// cell's coordinate when that sub-board is still playable, and the
/// overall winner recomputed from the meta-board.
pub open spec fn spec_apply(b: OuterBoard, m: Move) -> OuterBoard {
    let o_r = m.outer.0 as int;
    let o_c = m.outer.1 as int;
    let i_r = m.inner.0 as int;
    let i_c = m.inner.1 as int;
    let target = spec_inner_after(b.boards[o_r][o_c], i_r, i_c, m.player);
    let boards2 = spec_grid_update(b.boards, o_r, o_c, target);
    let mid = OuterBoard {
        boards: boards2,
        overall_winner: b.overall_winner,
        active_square: b.active_square,
    };
    let active2 = if boards2[i_r][i_c].spec_can_play() {
        Some(m.inner)
    } else {
        None
    };
    let overall2 = if b.overall_winner is Some {
        b.overall_winner
    } else {
        spec_meta_winner(mid)
    };
    OuterBoard { boards: boards2, overall_winner: overall2, active_square: active2 }
}

impl OuterBoard {
    /// A board is consistent when every sub-board is, a memoized overall
    /// winner agrees with the meta-board scan, and an active square
    /// addresses a sub-board that can still be played.
    pub open spec fn wf(self) -> bool {
        &&& forall|r: int, c: int| 0 <= r < 3 && 0 <= c < 3 ==> (#[trigger] self.boards[r][c]).wf()
        &&& (self.overall_winner is Some ==> spec_meta_winner(self) == self.overall_winner)
        &&& (self.active_square matches Some(sq) ==> sq.0 < 3 && sq.1 < 3 && self.boards[sq.0 as int][sq.1 as int].spec_can_play())
    }

    /// The board after one overall-winner recomputation: a winner, once
    /// set, is kept; otherwise the meta-board scan result is memoized.
    pub open spec fn spec_update_overall_winner(self) -> OuterBoard {
        if self.overall_winner is Some {
            self
        } else {
            OuterBoard {
                boards: self.boards,
                overall_winner: spec_meta_winner(self),
                active_square: self.active_square,
            }
        }
    }

    /// Recomputes the memoized overall winner from the meta-board. A no-op
    /// once the overall winner is set.
    pub fn update_overall_winner(&mut self)
        ensures
            *final(self) == old(self).spec_update_overall_winner(),
            old(self).overall_winner is Some ==> *final(self) == *old(self),
    {
        if self.overall_winner.is_some() {
            return ;
        }
        let meta = self.meta_board();
        self.overall_winner = meta.winner;
    }

    /// The meta-board: a sub-board whose cells are the sub-board winners,
    /// with its own winner scanned by the usual line check.
    pub fn meta_board(&self) -> (r: InnerBoard)
        ensures
            forall|i: int, j: int|
                0 <= i < 3 && 0 <= j < 3 ==> r.squares[i][j] == self.boards[i][j].winner,
            r.winner == spec_meta_winner(*self),
    {
        let mut meta = InnerBoard {
            squares: [
                [self.boards[0][0].winner, self.boards[0][1].winner, self.boards[0][2].winner],
                [self.boards[1][0].winner, self.boards[1][1].winner, self.boards[1][2].winner],
                [self.boards[2][0].winner, self.boards[2][1].winner, self.boards[2][2].winner],
            ],
            winner: None,
        };
        meta.update_winner();
        meta
    }

    /// Applies a move, returning the new board, or nothing when the move
    /// is illegal. The receiver itself is never changed.
    #[must_use]
    pub fn make_move(&self, mv: Move) -> (r: Option<OuterBoard>)
        ensures
            r is Some <==> spec_move_legal(*self, mv),
            spec_move_legal(*self, mv) ==> r == Some(spec_apply(*self, mv)),
    {
        if let Some(sq) = self.active_square {
            if mv.outer.0 != sq.0 || mv.outer.1 != sq.1 {
                return None;
            }
        }
        if self.overall_winner.is_some() {
            return None;
        }
        if mv.outer.0 >= 3 || mv.outer.1 >= 3 || mv.inner.0 >= 3 || mv.inner.1 >= 3 {
            return None;
        }
        let o_r = mv.outer.0 as usize;
        let o_c = mv.outer.1 as usize;
        let i_r = mv.inner.0 as usize;
        let i_c = mv.inner.1 as usize;
        if self.boards[o_r][o_c].winner.is_some() {
            return None;
        }
        if self.boards[o_r][o_c].squares[i_r][i_c].is_some() {
            return None;
        }
        let mut new_self = *self;
        let mut target = new_self.boards[o_r][o_c];
        target.squares = grid_set(target.squares, i_r, i_c, Some(mv.player));
        target.update_winner();
        new_self.boards = grid_set(new_self.boards, o_r, o_c, target);
        new_self.active_square = if new_self.boards[i_r][i_c].can_play() {
            Some(mv.inner)
        } else {
            None
        };
        new_self.update_overall_winner();
        Some(new_self)
    }
}

/// A 3x3 grid of sub-board classifications: won by a mark, drawn, or
/// still open.
pub type MetaCells = [[Option<Result<Mark, Draw>>; 3]; 3];

/// The meta-level classification of one sub-board: its winner when it has
/// one, the draw sentinel when it is finished without one, open otherwise.
pub open spec fn spec_meta_draw_cell(b: OuterBoard, r: int, c: int) -> Option<Result<Mark, Draw>> {
    if b.boards[r][c].winner is Some {
        Some(Ok(b.boards[r][c].winner->0))
    } else if b.boards[r][c].spec_can_play() {
        None
    } else {
        Some(Err(Draw))
    }
}

impl OuterBoard {
    /// The meta-level classification of the sub-board at `(r, c)`.
    fn meta_draw_cell(&self, r: usize, c: usize) -> (out: Option<Result<Mark, Draw>>)
        requires
            r < 3,
            c < 3,
        ensures
            out == spec_meta_draw_cell(*self, r as int, c as int),
    {
        match self.boards[r][c].winner {
            Some(w) => Some(Ok(w)),
            None => if self.boards[r][c].can_play() {
                None
            } else {
                Some(Err(Draw))
            },
        }
    }

    /// Classifies every sub-board as won, drawn, or open. Used by the
    /// meta-level threat count, where a drawn sub-board neither matches a
    /// mark nor counts as an open slot.
    pub fn meta_board_with_draws(&self) -> (r: MetaCells)
        ensures
            forall|i: int, j: int|
                0 <= i < 3 && 0 <= j < 3 ==> r[i][j] == spec_meta_draw_cell(*self, i, j),
    {
        [
            [self.meta_draw_cell(0, 0), self.meta_draw_cell(0, 1), self.meta_draw_cell(0, 2)],
            [self.meta_draw_cell(1, 0), self.meta_draw_cell(1, 1), self.meta_draw_cell(1, 2)],
            [self.meta_draw_cell(2, 0), self.meta_draw_cell(2, 1), self.meta_draw_cell(2, 2)],
        ]
    }
}

/// The moves of one sub-board, tagged with its coordinate and the player.
pub open spec fn spec_tag_moves(sq: (u8, u8), inner: Seq<(u8, u8)>, player: Mark) -> Seq<Move> {
    inner.map_values(|ic: (u8, u8)| Move { outer: sq, inner: ic, player })
}

/// All moves offered by the sub-boards of row `r`, in column order.
pub open spec fn spec_free_row_moves(b: OuterBoard, player: Mark, r: int) -> Seq<Move> {
    spec_tag_moves(((r as u8), 0), b.boards[r][0].spec_possible_moves(), player) + spec_tag_moves(
        ((r as u8), 1),
        b.boards[r][1].spec_possible_moves(),
        player,
    ) + spec_tag_moves(((r as u8), 2), b.boards[r][2].spec_possible_moves(), player)
}

/// All moves offered by the sub-boards of the first `r` rows, row-major.
pub open spec fn spec_free_rows_moves(b: OuterBoard, player: Mark, r: int) -> Seq<Move>
    decreases r,
{
    if r <= 0 {
        Seq::empty()
    } else {
        spec_free_rows_moves(b, player, r - 1) + spec_free_row_moves(b, player, r - 1)
    }
}

/// Appends every coordinate of `inner`, tagged as a move in sub-board
/// `sq` by `player`.
fn push_tagged(moves: &mut Vec<Move>, sq: (u8, u8), inner: &Vec<(u8, u8)>, player: Mark)
    ensures
        final(moves)@ == old(moves)@ + spec_tag_moves(sq, inner@, player),
{
    let ghost orig: Seq<Move> = moves@;
    for i in 0..inner.len()
        invariant
            moves@ == orig + spec_tag_moves(sq, inner@.subrange(0, i as int), player),
    {
        let ic = inner[i];
        moves.push(Move { outer: sq, inner: ic, player });
        proof {
            assert(inner@.subrange(0, i as int + 1) =~= inner@.subrange(0, i as int).push(
                inner@[i as int],
            ));
            assert(moves@ =~= orig + spec_tag_moves(sq, inner@.subrange(0, i as int + 1), player));
        }
    }
    proof {
        assert(inner@.subrange(0, inner@.len() as int) =~= inner@);
    }
}

impl OuterBoard {
    /// The legal moves for `player`, empty when the game is decided: the
    /// active sub-board's empty cells when an active square is set,
    /// otherwise every playable sub-board's empty cells, row-major.
    pub open spec fn spec_possible_moves(self, player: Mark) -> Seq<Move> {
        if self.overall_winner is Some {
            Seq::empty()
        } else {
            match self.active_square {
                Some(sq) => if sq.0 < 3 && sq.1 < 3 {
                    spec_tag_moves(
                        sq,
                        self.boards[sq.0 as int][sq.1 as int].spec_possible_moves(),
                        player,
                    )
                } else {
                    Seq::empty()
                },
                None => spec_free_rows_moves(self, player, 3),
            }
        }
    }

    /// Enumerates the legal moves for `player`. Empty once the game is
    /// decided; under an active-square constraint only that sub-board's
    /// cells are offered.
    pub fn possible_moves(&self, player: Mark) -> (moves: Vec<Move>)
        ensures
            moves@ == self.spec_possible_moves(player),
            self.overall_winner is Some ==> moves@ == Seq::<Move>::empty(),
    {
        let mut moves: Vec<Move> = Vec::new();
        if self.overall_winner.is_some() {
            return moves;
        }
        if let Some(sq) = self.active_square {
            if sq.0 >= 3 || sq.1 >= 3 {
                return moves;
            }
            let inner = self.boards[sq.0 as usize][sq.1 as usize].possible_moves();
            push_tagged(&mut moves, sq, &inner, player);
        } else {
            for r in 0..3usize
                invariant
                    moves@ == spec_free_rows_moves(*self, player, r as int),
            {
                let inner0 = self.boards[r][0].possible_moves();
                push_tagged(&mut moves, (r as u8, 0), &inner0, player);
                let inner1 = self.boards[r][1].possible_moves();
                push_tagged(&mut moves, (r as u8, 1), &inner1, player);
                let inner2 = self.boards[r][2].possible_moves();
                push_tagged(&mut moves, (r as u8, 2), &inner2, player);
                proof {
                    assert(moves@ =~= spec_free_rows_moves(*self, player, r as int + 1));
                }
            }
        }
        moves
    }
}

impl Default for OuterBoard {
    /// An empty outer board: nine empty sub-boards, no overall winner, and
    /// a free choice of sub-board.
    fn default() -> (r: Self)
        ensures
            r.wf(),
            forall|i: int, j: int|
                0 <= i < 3 && 0 <= j < 3 ==> (#[trigger] r.boards[i][j]).winner is None,
            forall|i: int, j: int, a: int, b: int|
                0 <= i < 3 && 0 <= j < 3 && 0 <= a < 3 && 0 <= b < 3 ==> r.boards[i][j].squares[a][b]
                    is None,
            r.overall_winner is None,
            r.active_square is None,
    {
        let empty = InnerBoard::default();
        OuterBoard {
            boards: [[empty, empty, empty], [empty, empty, empty], [empty, empty, empty]],
            overall_winner: None,
            active_square: None,
        }
    }
}

/// One snapshot of a game: the authoritative board plus the last move of
/// each side and the score the search reported for the position.
#[derive(Clone, Copy, PartialEq, Eq, Debug)]
pub struct GameState {
    pub board: OuterBoard,
    pub last_player_move: Option<Move>,
    pub last_computer_move: Option<Move>,
    pub eval: i32,
}

impl GameState {
    /// The starting snapshot for a board: no moves recorded, even score.
    pub fn root(board: OuterBoard) -> (r: Self)
        ensures
            r.board == board,
            r.last_player_move is None,
            r.last_computer_move is None,
            r.eval == 0,
    {
        GameState { board, last_player_move: None, last_computer_move: None, eval: 0 }
    }
}

} // verus!
