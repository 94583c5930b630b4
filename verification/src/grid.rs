//! The grid: cell states, board dimensions, and the mapping between flat
//! board indices and two-dimensional positions.

use vstd::prelude::*;

verus! {

/// Number of columns of the board.
pub const BOARD_X_SIZE: usize = 500;

/// Number of rows of the board.
pub const BOARD_Y_SIZE: usize = 17;

/// The state of a single grid cell.
///
/// `Dying` is a transitional alive state: it is rendered like `Alive` and
/// counts as a live neighbor, but follows its own transition rules.
#[derive(Clone, Copy, PartialEq, Eq, Structural, Debug)]
pub enum CellState {
    Dead,
    Dying,
    Alive,
}

/// A board is a flat, row-major sequence of cells of length
/// `BOARD_X_SIZE * BOARD_Y_SIZE`.
pub type Board = Vec<CellState>;

/// The flat index of position `(x, y)` in row-major order.
pub open spec fn spec_index_of(x: int, y: int) -> int {
    y * BOARD_X_SIZE + x
}

/// The column of the cell at flat index `i`.
pub open spec fn spec_x_of(i: int) -> int {
    i % (BOARD_X_SIZE as int)
}

/// The row of the cell at flat index `i`.
pub open spec fn spec_y_of(i: int) -> int {
    i / (BOARD_X_SIZE as int)
}

/// Maps a position to its flat board index. Inputs are not bounds-checked:
/// callers must keep the result within `usize` range.
pub fn get_index_at_position(x: usize, y: usize) -> (i: usize)
    requires
        y * BOARD_X_SIZE + x <= usize::MAX,
    ensures
        i == spec_index_of(x as int, y as int),
{
    (y * BOARD_X_SIZE) + x
}

/// Maps a flat board index to its `(x, y)` position.
pub fn get_position_at_index(index: usize) -> (p: (usize, usize))
    ensures
        p.0 == spec_x_of(index as int),
        p.1 == spec_y_of(index as int),
        index < BOARD_X_SIZE * BOARD_Y_SIZE ==> p.0 < BOARD_X_SIZE && p.1 < BOARD_Y_SIZE,
{
    (index % BOARD_X_SIZE, index / BOARD_X_SIZE)
}

/// Round trip from index to position: every valid index is reproduced by
/// mapping its position back to an index.
pub proof fn lemma_position_index_roundtrip(i: int)
    requires
        0 <= i < BOARD_X_SIZE * BOARD_Y_SIZE,
    ensures
        spec_index_of(spec_x_of(i), spec_y_of(i)) == i,
{
    vstd::arithmetic::div_mod::lemma_fundamental_div_mod(i, BOARD_X_SIZE as int);
}

/// Round trip from position to index: every in-bounds position is reproduced
/// by mapping its index back to a position.
pub proof fn lemma_index_position_roundtrip(x: int, y: int)
    requires
        0 <= x < BOARD_X_SIZE,
        0 <= y < BOARD_Y_SIZE,
    ensures
        spec_x_of(spec_index_of(x, y)) == x,
        spec_y_of(spec_index_of(x, y)) == y,
{
    vstd::arithmetic::div_mod::lemma_fundamental_div_mod_converse(
        spec_index_of(x, y),
        BOARD_X_SIZE as int,
        y,
        x,
    );
}

} // verus!
