//! Frame building for the renderer.
//!
//! The verified part of rendering maps every cell to its display glyph:
//! a solid block for `Alive` and `Dying`, a light shade for `Dead`. Plotting
//! the glyphs on the terminal is left to the caller.

use crate::engine::is_live;
use crate::grid::{Board, CellState};
use vstd::prelude::*;

verus! {

/// The glyph a cell is drawn with: live cells (including `Dying`) as a
/// solid block, dead cells as a light shade.
pub open spec fn spec_glyph(c: CellState) -> char {
    if is_live(c) {
        '█'
    } else {
        '░'
    }
}

/// The glyph for one cell.
pub fn cell_glyph(c: CellState) -> (g: char)
    ensures
        g == spec_glyph(c),
{
    match c {
        CellState::Alive => '█',
        CellState::Dying => '█',
        CellState::Dead => '░',
    }
}

/// The full frame for a board: one glyph per cell, in board order. The
/// glyph at index `i` belongs at the position that `i` maps to.
pub fn render_frame(board: &Board) -> (frame: Vec<char>)
    ensures
        frame@.len() == board@.len(),
        forall|i: int| 0 <= i < board@.len() ==> frame@[i] == spec_glyph(board@[i]),
{
    let mut frame: Vec<char> = Vec::new();
    let mut i: usize = 0;
    while i < board.len()
        invariant
            i <= board@.len(),
            frame@.len() == i,
            forall|j: int| 0 <= j < i ==> frame@[j] == spec_glyph(board@[j]),
        decreases board@.len() - i,
    {
        frame.push(cell_glyph(board[i]));
        i = i + 1;
    }
    frame
}

} // verus!
