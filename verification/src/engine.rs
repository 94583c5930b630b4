//! The rule engine: neighbor counting and the cell transition rule, applied
//! to a whole board to produce the next generation.
//!
//! Neighbor scanning clamps at the low edges with saturating subtraction
//! (no wraparound to the opposite side), and silently skips probed positions
//! whose flat index falls beyond the end of the board. A probe one column
//! past the right edge maps, by row-major flattening, to the first cell of
//! the next row and is counted when that index is in range; the
//! specification functions below state this behavior exactly as the
//! executable code has it.

use crate::grid::{spec_index_of, spec_x_of, spec_y_of, Board, CellState, BOARD_X_SIZE, BOARD_Y_SIZE};
use vstd::prelude::*;

verus! {

/// Whether a cell counts as live for neighbor counting.
pub open spec fn is_live(c: CellState) -> bool {
    c is Alive || c is Dying
}

/// 1 if position `(x, y)` flattens to an in-range index holding a live cell,
/// else 0.
pub open spec fn live_at(b: Seq<CellState>, x: int, y: int) -> nat {
    let i = spec_index_of(x, y);
    if 0 <= i < b.len() && is_live(b[i]) {
        1nat
    } else {
        0nat
    }
}

/// A single neighbor probe from the cell at `(sx, sy)`: the cell itself is
/// never counted.
pub open spec fn probe(b: Seq<CellState>, sx: int, sy: int, x: int, y: int) -> nat {
    if x == sx && y == sy {
        0nat
    } else {
        live_at(b, x, y)
    }
}

/// Live neighbors contributed by row `y` of the scan around `(sx, sy)`:
/// columns `sx - 1` (clamped away at the left edge), `sx`, and `sx + 1`.
pub open spec fn row_count(b: Seq<CellState>, sx: int, sy: int, y: int) -> nat {
    (if sx >= 1 {
        probe(b, sx, sy, sx - 1, y)
    } else {
        0nat
    }) + probe(b, sx, sy, sx, y) + probe(b, sx, sy, sx + 1, y)
}

/// Live neighbors of the cell at `(sx, sy)`: rows `sy - 1` (clamped away at
/// the top edge), `sy`, and `sy + 1`.
pub open spec fn spec_neighbor_count(b: Seq<CellState>, sx: int, sy: int) -> nat {
    (if sy >= 1 {
        row_count(b, sx, sy, sy - 1)
    } else {
        0nat
    }) + row_count(b, sx, sy, sy) + row_count(b, sx, sy, sy + 1)
}

/// The transition rule, as an ordered decision table on
/// `(neighbor count, current state)`; anything not listed becomes `Dead`.
pub open spec fn spec_next_cell(n: nat, c: CellState) -> CellState {
    if n == 3 && c is Dead {
        CellState::Alive
    } else if n <= 1 && c is Alive {
        CellState::Dying
    } else if (n == 2 || n == 3) && c is Alive {
        CellState::Alive
    } else if (n == 6 || n == 7) && c is Dying {
        CellState::Alive
    } else {
        CellState::Dead
    }
}

/// The next generation of a whole board: every cell is rewritten by the
/// transition rule applied to its own state and its live-neighbor count.
pub open spec fn spec_update(b: Seq<CellState>) -> Seq<CellState> {
    Seq::new(b.len(), |i: int| spec_next_cell(spec_neighbor_count(b, spec_x_of(i), spec_y_of(i)), b[i]))
}

/// Whether every cell of the board is `Dead`.
pub open spec fn all_dead(b: Seq<CellState>) -> bool {
    forall|i: int| 0 <= i < b.len() ==> b[i] is Dead
}

/// The rule engine is deterministic: any two boards that both satisfy
/// `update`'s postcondition for one input board are equal.
pub proof fn lemma_update_deterministic(b: Seq<CellState>, r1: Seq<CellState>, r2: Seq<CellState>)
    requires
        r1 == spec_update(b),
        r2 == spec_update(b),
    ensures
        r1 == r2,
{
}

/// An all-`Dead` board is stable: one pass of the rule engine leaves every
/// cell `Dead`, since no cell has any live neighbor.
pub proof fn lemma_all_dead_stable(b: Seq<CellState>)
    requires
        all_dead(b),
    ensures
        all_dead(spec_update(b)),
{
    assert forall|i: int| 0 <= i < spec_update(b).len() implies spec_update(b)[i] is Dead by {
        assert forall|x: int, y: int| live_at(b, x, y) == 0nat by {
            let j = spec_index_of(x, y);
            if 0 <= j < b.len() {
                assert(b[j] is Dead);
            }
        }
    }
}

/// One neighbor probe: 1 if `(x, y)` is not the cell `(sx, sy)` itself and
/// flattens to an in-range index holding a live cell.
fn probe_at(board: &Board, sx: usize, sy: usize, x: usize, y: usize) -> (r: usize)
    requires
        x <= BOARD_X_SIZE,
        y <= BOARD_Y_SIZE,
    ensures
        r == probe(board@, sx as int, sy as int, x as int, y as int),
        r <= 1,
{
    if x == sx && y == sy {
        0
    } else {
        let i = (y * BOARD_X_SIZE) + x;
        if i < board.len() {
            match board[i] {
                CellState::Alive => 1,
                CellState::Dying => 1,
                CellState::Dead => 0,
            }
        } else {
            0
        }
    }
}

/// Counts the live neighbors of the cell at flat index `index`, scanning the
/// 3x3 block around its position with saturating subtraction at the low
/// edges and skipping out-of-range flat indices.
pub fn count_live_neighbors(board: &Board, index: usize) -> (n: usize)
    requires
        index < BOARD_X_SIZE * BOARD_Y_SIZE,
    ensures
        n == spec_neighbor_count(board@, spec_x_of(index as int), spec_y_of(index as int)),
{
    let (sx, sy) = crate::grid::get_position_at_index(index);
    let mut n: usize = 0;
    if sy >= 1 {
        if sx >= 1 {
            n = n + probe_at(board, sx, sy, sx - 1, sy - 1);
        }
        n = n + probe_at(board, sx, sy, sx, sy - 1);
        n = n + probe_at(board, sx, sy, sx + 1, sy - 1);
    }
    let mut m: usize = 0;
    if sx >= 1 {
        m = m + probe_at(board, sx, sy, sx - 1, sy);
    }
    m = m + probe_at(board, sx, sy, sx, sy);
    m = m + probe_at(board, sx, sy, sx + 1, sy);
    let mut k: usize = 0;
    if sx >= 1 {
        k = k + probe_at(board, sx, sy, sx - 1, sy + 1);
    }
    k = k + probe_at(board, sx, sy, sx, sy + 1);
    k = k + probe_at(board, sx, sy, sx + 1, sy + 1);
    n + m + k
}

/// The transition rule on one cell, written as a nested conditional keyed by
/// the current state; the precedence of the original ordered table is kept.
pub fn next_cell(neighbors: usize, state: CellState) -> (r: CellState)
    ensures
        r == spec_next_cell(neighbors as nat, state),
{
    match state {
        CellState::Dead => {
            if neighbors == 3 {
                CellState::Alive
            } else {
                CellState::Dead
            }
        },
        CellState::Alive => {
            if neighbors <= 1 {
                CellState::Dying
            } else if neighbors <= 3 {
                CellState::Alive
            } else {
                CellState::Dead
            }
        },
        CellState::Dying => {
            if neighbors == 6 || neighbors == 7 {
                CellState::Alive
            } else {
                CellState::Dead
            }
        },
    }
}

/// Computes the next generation of the board. The input is read only; the
/// output is a fresh board of the same fixed size whose every cell is the
/// transition rule applied to the corresponding input cell.
pub fn update(the_board: &Board) -> (r: Board)
    requires
        the_board@.len() == BOARD_X_SIZE * BOARD_Y_SIZE,
    ensures
        r@ == spec_update(the_board@),
        r@.len() == BOARD_X_SIZE * BOARD_Y_SIZE,
{
    let mut out: Board = Vec::new();
    let mut i: usize = 0;
    while i < the_board.len()
        invariant
            the_board@.len() == BOARD_X_SIZE * BOARD_Y_SIZE,
            i <= the_board@.len(),
            out@.len() == i,
            forall|j: int| 0 <= j < i ==> out@[j] == spec_update(the_board@)[j],
        decreases the_board@.len() - i,
    {
        let neighbors = count_live_neighbors(the_board, i);
        let state = the_board[i];
        let next = next_cell(neighbors, state);
        out.push(next);
        i = i + 1;
    }
    proof {
        assert(out@ =~= spec_update(the_board@));
    }
    out
}

} // verus!
