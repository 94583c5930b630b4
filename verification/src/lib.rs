//! A three-state variant of Conway's Game of Life on a fixed-size grid.
//!
//! The board is a flat row-major vector of cells; alongside the classic
//! `Dead` and `Alive` states a cell can be `Dying`, a transitional alive
//! state with its own transition rules.

pub mod engine;
pub mod grid;
pub mod init;
pub mod render;

pub use engine::{count_live_neighbors, next_cell, update};
pub use grid::{
    get_index_at_position, get_position_at_index, Board, CellState, BOARD_X_SIZE, BOARD_Y_SIZE,
};
pub use init::gen_initial_board;
pub use render::{cell_glyph, render_frame};
