//! The board initializer.
//!
//! The original design draws one random threshold per run and, for each
//! cell, an independent uniform sample; the cell starts `Alive` exactly when
//! its sample exceeds the threshold. Those draws are floating-point and come
//! from a process-wide random source, so they live outside the verified
//! library: the caller hands in one boolean per cell (the outcome of its
//! coin flip), and this module builds the board from them.

use crate::grid::{Board, CellState, BOARD_X_SIZE, BOARD_Y_SIZE};
use vstd::prelude::*;

verus! {

/// The cell an initial coin flip produces: `Alive` on `true`, `Dead` on
/// `false`. No cell ever starts `Dying`.
pub open spec fn spec_initial_cell(alive: bool) -> CellState {
    if alive {
        CellState::Alive
    } else {
        CellState::Dead
    }
}

/// Builds the initial board from one coin flip per cell: cell `i` is
/// `Alive` exactly when `alive_flags[i]` is set, else `Dead`.
pub fn gen_initial_board(alive_flags: &Vec<bool>) -> (b: Board)
    requires
        alive_flags@.len() == BOARD_X_SIZE * BOARD_Y_SIZE,
    ensures
        b@.len() == BOARD_X_SIZE * BOARD_Y_SIZE,
        forall|i: int| 0 <= i < b@.len() ==> b@[i] == spec_initial_cell(alive_flags@[i]),
{
    let mut b: Board = Vec::new();
    let mut i: usize = 0;
    while i < alive_flags.len()
        invariant
            alive_flags@.len() == BOARD_X_SIZE * BOARD_Y_SIZE,
            i <= alive_flags@.len(),
            b@.len() == i,
            forall|j: int| 0 <= j < i ==> b@[j] == spec_initial_cell(alive_flags@[j]),
        decreases alive_flags@.len() - i,
    {
        if alive_flags[i] {
            b.push(CellState::Alive);
        } else {
            b.push(CellState::Dead);
        }
        i = i + 1;
    }
    b
}

} // verus!
