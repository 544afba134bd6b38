//! Depth- and time-bounded minimax search with alpha-beta pruning,
//! parallelized over the first-ply moves.

use vstd::prelude::*;

use rayon::iter::IntoParallelRefIterator;
use rayon::iter::ParallelIterator;

use crate::eval::heuristic;
use crate::game::Mark;
use crate::game::Move;
use crate::game::OuterBoard;
use crate::game::spec_apply;
use crate::game::spec_move_legal;
use crate::laws::lemma_apply_preserves_wf;
use crate::laws::lemma_possible_moves_are_legal;

verus! {

/// Relies on std::time::Instant being an opaque monotonic timestamp; the
/// library only stores it and hands it back to the clock queries below.
#[verifier::external_type_specification]
#[verifier::external_body]
pub struct ExInstant(std::time::Instant);

/// Relies on std::time::Instant::now: reads the monotonic clock. Nothing
/// is assumed of the value.
pub assume_specification[ std::time::Instant::now ]() -> std::time::Instant;

/// Relies on std::time::Instant::elapsed: the wall-clock time since the
/// instant was taken, saturating at zero. Nothing is assumed of the value.
pub assume_specification[ std::time::Instant::elapsed ](start: &std::time::Instant) -> std::time::Duration;

/// Relies on std::time::Duration::as_millis: the duration in whole
/// milliseconds. Nothing is assumed of the value.
pub assume_specification[ std::time::Duration::as_millis ](d: &std::time::Duration) -> u128;

/// Plies searched before evaluation is forced.
pub const MAX_DEPTH: usize = 16;

/// Wall-clock budget in milliseconds: once spent, every node is evaluated
/// immediately regardless of remaining depth.
pub const MAX_SEARCH_MILLIS: u128 = 250;

/// One top-level search: the start timestamp the time budget is measured
/// from and the player the search is on behalf of. A fresh instance is
/// made per call.
pub struct Searcher {
    pub start_time: std::time::Instant,
    pub player: Mark,
}

impl Searcher {
    /// Whether the wall-clock budget since the search started is spent.
    fn budget_elapsed(&self) -> bool {
        self.start_time.elapsed().as_millis() > MAX_SEARCH_MILLIS
    }

    /// The value the search assigns to one first-ply move for the
    /// searcher's player: the move is applied and the child searched one
    /// ply down as a minimizing step. An illegal move is worth the
    /// minimum score. A move that wins the game outright is always worth
    /// the maximum score.
    fn move_value(&self, board: &OuterBoard, mv: Move) -> (r: i32)
        ensures
            board.wf() && spec_move_legal(*board, mv) && spec_apply(*board, mv).overall_winner
                == Some(self.player) ==> r == i32::MAX,
    {
        match board.make_move(mv) {
            Some(child) => {
                proof {
                    if board.wf() && spec_move_legal(*board, mv) {
                        lemma_apply_preserves_wf(*board, mv);
                    }
                }
                self.branch(&child, MAX_DEPTH - 1, false, i32::MIN, i32::MAX)
            },
            None => i32::MIN,
        }
    }

    /// Scores every candidate move in parallel, one task per move; each
    /// task reads the shared board and start timestamp and writes only
    /// its own `(move, value)` pair.
    ///
    /// Relies on rayon: `par_iter` over a vector is an indexed parallel
    /// iterator, and `map` plus `collect` into a `Vec` yields, in input
    /// order, exactly the closure's result for each element. The closure
    /// only pairs each move with the verified `move_value`, so each
    /// returned value meets `move_value`'s contract for its move.
    #[verifier::external_body]
    fn par_scores(&self, board: &OuterBoard, moves: &Vec<Move>) -> (r: Vec<(Move, i32)>)
        ensures
            r@.len() == moves@.len(),
            forall|i: int| 0 <= i < moves@.len() ==> (#[trigger] r@[i]).0 == moves@[i],
            forall|i: int|
                0 <= i < moves@.len() && board.wf() && spec_move_legal(*board, moves@[i])
                    && spec_apply(*board, moves@[i]).overall_winner == Some(self.player) ==> (
                #[trigger] r@[i]).1 == i32::MAX,
    {
        moves.par_iter().map(|mv| (*mv, self.move_value(board, *mv))).collect()
    }

    /// One recursion of minimax with alpha-beta pruning. Evaluates the
    /// node as soon as the depth is exhausted, the game is decided, or
    /// the time budget is spent; otherwise takes the maximum (for the
    /// searcher's player) or minimum (for the opponent) over the legal
    /// replies, cutting off once `alpha` meets `beta`. On a consistent
    /// decided node the result is exact: the maximum score when the
    /// searcher's player has won, the minimum when the opponent has.
    fn branch(&self, node: &OuterBoard, depth: usize, maximizing: bool, alpha: i32, beta: i32) -> (r:
        i32)
        ensures
            node.wf() && node.overall_winner == Some(self.player) ==> r == i32::MAX,
            node.wf() && node.overall_winner is Some && node.overall_winner != Some(self.player)
                ==> r == i32::MIN,
        decreases depth,
    {
        if depth == 0 || node.overall_winner.is_some() || self.budget_elapsed() {
            let next_mark = if maximizing {
                self.player
            } else {
                self.player.other()
            };
            return heuristic(node, self.player, next_mark);
        }
        if maximizing {
            let mut alpha = alpha;
            let mut best_eval = i32::MIN;
            let moves = node.possible_moves(self.player);
            for i in 0..moves.len()
                invariant
                    depth >= 1,
            {
                match node.make_move(moves[i]) {
                    Some(child) => {
                        let eval = self.branch(&child, depth - 1, false, alpha, beta);
                        if eval > best_eval {
                            best_eval = eval;
                        }
                        if eval > alpha {
                            alpha = eval;
                        }
                        if beta <= alpha {
                            break ;
                        }
                    },
                    None => {},
                }
            }
            best_eval
        } else {
            let mut beta = beta;
            let mut best_eval = i32::MAX;
            let moves = node.possible_moves(self.player.other());
            for i in 0..moves.len()
                invariant
                    depth >= 1,
            {
                match node.make_move(moves[i]) {
                    Some(child) => {
                        let eval = self.branch(&child, depth - 1, true, alpha, beta);
                        if eval < best_eval {
                            best_eval = eval;
                        }
                        if eval < beta {
                            beta = eval;
                        }
                        if beta <= alpha {
                            break ;
                        }
                    },
                    None => {},
                }
            }
            best_eval
        }
    }

    /// Runs the bounded search for `player` from `board`: one parallel
    /// task per legal move, each searched as a minimizing step one ply
    /// down, then the highest-scoring `(move, score)` pair, with later
    /// moves winning ties. Returns nothing exactly when no legal move
    /// exists. The returned move is always one of the legal moves, and
    /// when some legal move wins the game outright for `player` on a
    /// consistent board, the returned score is the maximum score.
    pub fn search(board: &OuterBoard, player: Mark) -> (r: Option<(Move, i32)>)
        ensures
            r is Some <==> board.spec_possible_moves(player).len() > 0,
            r matches Some(p) ==> board.spec_possible_moves(player).contains(p.0)
                && spec_move_legal(*board, p.0) && p.0.player == player,
            board.wf() && (exists|i: int|
                0 <= i < board.spec_possible_moves(player).len() && spec_apply(
                    *board,
                    #[trigger] board.spec_possible_moves(player)[i],
                ).overall_winner == Some(player)) ==> (r matches Some(p) && p.1 == i32::MAX),
            board.spec_possible_moves(player).len() == 1 ==> (r matches Some(p) ==> p.0
                == board.spec_possible_moves(player)[0]),
            board.wf() && board.spec_possible_moves(player).len() > 0 && spec_apply(
                *board,
                board.spec_possible_moves(player).last(),
            ).overall_winner == Some(player) ==> r == Some(
                (board.spec_possible_moves(player).last(), i32::MAX),
            ),
    {
        let searcher = Searcher { start_time: std::time::Instant::now(), player };
        let moves = board.possible_moves(player);
        if moves.len() == 0 {
            return None;
        }
        let scored = searcher.par_scores(board, &moves);
        let mut best = scored[0];
        let ghost mut best_idx: int = 0;
        for i in 1..scored.len()
            invariant
                scored@.len() == moves@.len(),
                0 <= best_idx < scored@.len(),
                best == scored@[best_idx],
                forall|j: int| 0 <= j < i ==> (#[trigger] scored@[j]).1 <= best.1,
                scored@[i as int - 1].1 == i32::MAX ==> best == scored@[i as int - 1],
        {
            if scored[i].1 >= best.1 {
                best = scored[i];
                proof {
                    best_idx = i as int;
                }
            }
        }
        proof {
            assert(moves@[best_idx] == best.0);
            assert(moves@.contains(best.0));
            lemma_possible_moves_are_legal(*board, player, best.0);
            if board.wf() && (exists|i: int|
                0 <= i < board.spec_possible_moves(player).len() && spec_apply(
                    *board,
                    #[trigger] board.spec_possible_moves(player)[i],
                ).overall_winner == Some(player)) {
                let wi = choose|i: int|
                    0 <= i < board.spec_possible_moves(player).len() && spec_apply(
                        *board,
                        #[trigger] board.spec_possible_moves(player)[i],
                    ).overall_winner == Some(player);
                assert(moves@.contains(moves@[wi]));
                lemma_possible_moves_are_legal(*board, player, moves@[wi]);
                assert(scored@[wi].1 == i32::MAX);
                assert(scored@[wi].1 <= best.1);
            }
            let last = moves@.len() - 1;
            if board.wf() && spec_apply(*board, moves@[last]).overall_winner == Some(player) {
                assert(moves@.contains(moves@[last]));
                lemma_possible_moves_are_legal(*board, player, moves@[last]);
                assert(scored@[last].1 == i32::MAX);
            }
        }
        Some(best)
    }
}

impl OuterBoard {
    /// Picks the computer's move for `player`: runs the bounded search
    /// and returns its best `(move, score)` pair, or nothing exactly when
    /// no legal move exists (the game is over for that player). The
    /// returned move is always legal for this board, so applying it never
    /// fails; on a consistent board where some legal move wins the game
    /// outright for `player`, the returned score is the maximum score.
    pub fn best_move(&self, player: Mark) -> (r: Option<(Move, i32)>)
        ensures
            r is Some <==> self.spec_possible_moves(player).len() > 0,
            r matches Some(p) ==> self.spec_possible_moves(player).contains(p.0)
                && spec_move_legal(*self, p.0) && p.0.player == player,
            self.wf() && (exists|i: int|
                0 <= i < self.spec_possible_moves(player).len() && spec_apply(
                    *self,
                    #[trigger] self.spec_possible_moves(player)[i],
                ).overall_winner == Some(player)) ==> (r matches Some(p) && p.1 == i32::MAX),
            self.spec_possible_moves(player).len() == 1 ==> (r matches Some(p) ==> p.0
                == self.spec_possible_moves(player)[0]),
            self.wf() && self.spec_possible_moves(player).len() > 0 && spec_apply(
                *self,
                self.spec_possible_moves(player).last(),
            ).overall_winner == Some(player) ==> r == Some(
                (self.spec_possible_moves(player).last(), i32::MAX),
            ),
    {
        Searcher::search(self, player)
    }
}

} // verus!
