//! Proved properties of the board model: how move enumeration, move
//! application and the memoized winners relate.

use vstd::prelude::*;

use crate::game::InnerBoard;
use crate::game::Mark;
use crate::game::Move;
use crate::game::OuterBoard;
use crate::game::spec_free_row_moves;
use crate::game::spec_free_rows_moves;
use crate::game::spec_has_empty;
use crate::game::spec_move_legal;
use crate::game::spec_rows_moves;
use crate::game::spec_tag_moves;
use crate::game::lemma_scan_winner_wins;

verus! {

/// An element is in a concatenation exactly when it is in one of the parts.
proof fn lemma_add_contains<A>(s1: Seq<A>, s2: Seq<A>, x: A)
    ensures
        (s1 + s2).contains(x) <==> s1.contains(x) || s2.contains(x),
{
    if s1.contains(x) {
        let i = choose|i: int| 0 <= i < s1.len() && s1[i] == x;
        assert((s1 + s2)[i] == x);
    }
    if s2.contains(x) {
        let i = choose|i: int| 0 <= i < s2.len() && s2[i] == x;
        assert((s1 + s2)[s1.len() + i] == x);
    }
    if (s1 + s2).contains(x) {
        let i = choose|i: int| 0 <= i < (s1 + s2).len() && (s1 + s2)[i] == x;
        if i < s1.len() {
            assert(s1[i] == x);
        } else {
            assert(s2[i - s1.len()] == x);
        }
    }
}

/// The row-major empty-cell scan of the first `k` rows lists exactly the
/// empty cells of those rows.
proof fn lemma_rows_moves_contains(g: crate::game::Cells, k: int, p: (u8, u8))
    requires
        0 <= k <= 3,
    ensures
        spec_rows_moves(g, k).contains(p) <==> (p.0 < k && p.1 < 3 && g[p.0 as int][p.1 as int]
            is None),
    decreases k,
{
    if k > 0 {
        lemma_rows_moves_contains(g, k - 1, p);
        lemma_add_contains(spec_rows_moves(g, k - 1), crate::game::spec_row_moves(g, k - 1), p);
        let row = crate::game::spec_row_moves(g, k - 1);
        let a = if g[k - 1][0] is None {
            seq![(((k - 1) as u8), 0u8)]
        } else {
            Seq::<(u8, u8)>::empty()
        };
        let b = if g[k - 1][1] is None {
            seq![(((k - 1) as u8), 1u8)]
        } else {
            Seq::<(u8, u8)>::empty()
        };
        let c = if g[k - 1][2] is None {
            seq![(((k - 1) as u8), 2u8)]
        } else {
            Seq::<(u8, u8)>::empty()
        };
        lemma_add_contains(a + b, c, p);
        lemma_add_contains(a, b, p);
        if g[k - 1][0] is None && p.0 == k - 1 && p.1 == 0 {
            assert(a[0] == p);
        }
        if g[k - 1][1] is None && p.0 == k - 1 && p.1 == 1 {
            assert(b[0] == p);
        }
        if g[k - 1][2] is None && p.0 == k - 1 && p.1 == 2 {
            assert(c[0] == p);
        }
        if a.contains(p) {
            assert(a[choose|i: int| 0 <= i < a.len() && a[i] == p] == p);
        }
        if b.contains(p) {
            assert(b[choose|i: int| 0 <= i < b.len() && b[i] == p] == p);
        }
        if c.contains(p) {
            assert(c[choose|i: int| 0 <= i < c.len() && c[i] == p] == p);
        }
    }
}

/// A sub-board's move list holds exactly its empty cells while the board
/// has no winner, and nothing once it has one.
pub proof fn lemma_inner_moves_contains(b: InnerBoard, p: (u8, u8))
    ensures
        b.spec_possible_moves().contains(p) <==> (p.0 < 3 && p.1 < 3 && b.winner is None
            && b.squares[p.0 as int][p.1 as int] is None),
{
    if b.spec_can_play() {
        lemma_rows_moves_contains(b.squares, 3, p);
    } else {
        if p.0 < 3 && p.1 < 3 && b.winner is None && b.squares[p.0 as int][p.1 as int] is None {
            assert(spec_has_empty(b.squares));
        }
    }
}

/// Tagging a coordinate list with a sub-board and player yields exactly
/// the moves whose inner coordinate is listed.
proof fn lemma_tag_moves_contains(sq: (u8, u8), s: Seq<(u8, u8)>, player: Mark, m: Move)
    ensures
        spec_tag_moves(sq, s, player).contains(m) <==> (m.outer == sq && m.player == player
            && s.contains(m.inner)),
{
    let tagged = spec_tag_moves(sq, s, player);
    if tagged.contains(m) {
        let i = choose|i: int| 0 <= i < tagged.len() && tagged[i] == m;
        assert(s[i] == m.inner);
    }
    if m.outer == sq && m.player == player && s.contains(m.inner) {
        let i = choose|i: int| 0 <= i < s.len() && s[i] == m.inner;
        assert(tagged[i] == m);
    }
}

/// The free-choice scan over the first `k` rows of sub-boards lists
/// exactly the legal cells of those sub-boards.
proof fn lemma_free_rows_moves_contains(b: OuterBoard, player: Mark, k: int, m: Move)
    requires
        0 <= k <= 3,
    ensures
        spec_free_rows_moves(b, player, k).contains(m) <==> (m.outer.0 < k && m.in_range()
            && m.player == player && b.boards[m.outer.0 as int][m.outer.1 as int].winner is None
            && b.boards[m.outer.0 as int][m.outer.1 as int].squares[m.inner.0 as int][m.inner.1 as int]
            is None),
    decreases k,
{
    if k > 0 {
        lemma_free_rows_moves_contains(b, player, k - 1, m);
        lemma_add_contains(
            spec_free_rows_moves(b, player, k - 1),
            spec_free_row_moves(b, player, k - 1),
            m,
        );
        let t0 = spec_tag_moves(
            (((k - 1) as u8), 0),
            b.boards[k - 1][0].spec_possible_moves(),
            player,
        );
        let t1 = spec_tag_moves(
            (((k - 1) as u8), 1),
            b.boards[k - 1][1].spec_possible_moves(),
            player,
        );
        let t2 = spec_tag_moves(
            (((k - 1) as u8), 2),
            b.boards[k - 1][2].spec_possible_moves(),
            player,
        );
        lemma_add_contains(t0 + t1, t2, m);
        lemma_add_contains(t0, t1, m);
        lemma_tag_moves_contains(
            (((k - 1) as u8), 0),
            b.boards[k - 1][0].spec_possible_moves(),
            player,
            m,
        );
        lemma_tag_moves_contains(
            (((k - 1) as u8), 1),
            b.boards[k - 1][1].spec_possible_moves(),
            player,
            m,
        );
        lemma_tag_moves_contains(
            (((k - 1) as u8), 2),
            b.boards[k - 1][2].spec_possible_moves(),
            player,
            m,
        );
        lemma_inner_moves_contains(b.boards[k - 1][0], m.inner);
        lemma_inner_moves_contains(b.boards[k - 1][1], m.inner);
        lemma_inner_moves_contains(b.boards[k - 1][2], m.inner);
    }
}

/// The enumerated moves are exactly the legal moves tagged for the player:
/// a move is listed if and only if applying it is legal.
pub proof fn lemma_possible_moves_characterization(b: OuterBoard, player: Mark, m: Move)
    ensures
        b.spec_possible_moves(player).contains(m) <==> (m.player == player && spec_move_legal(
            b,
            m,
        )),
{
    if b.overall_winner is None {
        match b.active_square {
            Some(sq) => {
                if sq.0 < 3 && sq.1 < 3 {
                    lemma_tag_moves_contains(
                        sq,
                        b.boards[sq.0 as int][sq.1 as int].spec_possible_moves(),
                        player,
                        m,
                    );
                    lemma_inner_moves_contains(b.boards[sq.0 as int][sq.1 as int], m.inner);
                }
            },
            None => {
                lemma_free_rows_moves_contains(b, player, 3, m);
            },
        }
    }
}

/// Once the game is decided, no move is offered to either mark.
pub proof fn lemma_decided_game_has_no_moves(b: OuterBoard, player: Mark)
    requires
        b.overall_winner is Some,
    ensures
        b.spec_possible_moves(player) == Seq::<Move>::empty(),
{
}

/// Recomputing a sub-board's winner is idempotent: once a winner is set,
/// any further recomputation leaves the board unchanged.
pub proof fn lemma_update_winner_idempotent(b: InnerBoard)
    ensures
        b.spec_update_winner().spec_update_winner() == b.spec_update_winner(),
        b.winner is Some ==> b.spec_update_winner() == b,
{
}

/// Under an active-square constraint every offered move targets exactly
/// the constrained sub-board.
pub proof fn lemma_active_square_constrains(b: OuterBoard, player: Mark)
    requires
        b.active_square is Some,
    ensures
        forall|i: int|
            0 <= i < b.spec_possible_moves(player).len() ==> (#[trigger] b.spec_possible_moves(
                player,
            )[i]).outer == b.active_square->0,
{
    let pm = b.spec_possible_moves(player);
    assert forall|i: int| 0 <= i < pm.len() implies (#[trigger] pm[i]).outer
        == b.active_square->0 by {
        assert(pm.contains(pm[i]));
        lemma_possible_moves_characterization(b, player, pm[i]);
    }
}

/// With a free choice, the offered moves span every sub-board that is
/// neither won nor full.
pub proof fn lemma_free_choice_spans(b: OuterBoard, player: Mark, r: u8, c: u8)
    requires
        b.active_square is None,
        b.overall_winner is None,
        r < 3,
        c < 3,
        b.boards[r as int][c as int].spec_can_play(),
    ensures
        exists|m: Move|
            #[trigger] b.spec_possible_moves(player).contains(m) && m.outer == (r, c),
{
    let g = b.boards[r as int][c as int].squares;
    let (ir, ic) = choose|ir: int, ic: int| 0 <= ir < 3 && 0 <= ic < 3 && g[ir][ic] is None;
    let m = Move { outer: (r, c), inner: ((ir as u8), (ic as u8)), player };
    lemma_possible_moves_characterization(b, player, m);
    assert(b.spec_possible_moves(player).contains(m) && m.outer == (r, c));
}

/// Every offered move is legal: applying a move drawn from the move list
/// to the board it was drawn from never fails.
pub proof fn lemma_possible_moves_are_legal(b: OuterBoard, player: Mark, m: Move)
    requires
        b.spec_possible_moves(player).contains(m),
    ensures
        spec_move_legal(b, m),
        m.player == player,
{
    lemma_possible_moves_characterization(b, player, m);
}

/// Applying a legal move to a consistent board yields a consistent board.
pub proof fn lemma_apply_preserves_wf(b: OuterBoard, m: Move)
    requires
        b.wf(),
        spec_move_legal(b, m),
    ensures
        crate::game::spec_apply(b, m).wf(),
{
    let nb = crate::game::spec_apply(b, m);
    let o_r = m.outer.0 as int;
    let o_c = m.outer.1 as int;
    let target = nb.boards[o_r][o_c];
    lemma_scan_winner_wins(target.squares);
    assert forall|i: int, j: int| 0 <= i < 3 && 0 <= j < 3 implies (#[trigger] nb.boards[i][j]).wf()
        by {
        if i != o_r || j != o_c {
            assert(nb.boards[i][j] == b.boards[i][j]);
        }
    }
}

} // verus!
