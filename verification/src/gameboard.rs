//! Board model: a fixed-size square grid of small integer cell values.

use vstd::prelude::*;

verus! {

/// Number of cells along each edge of the board.
pub const SIZE: usize = 9;

/// A `SIZE` x `SIZE` grid of cell values: `0` means empty, `1..=9` a
/// filled cell.  The grid is never resized, and this core puts no
/// constraint on the stored values.
pub struct Gameboard {
    /// Cell values, indexed `cells[row][col]`.
    pub cells: [[u8; 9]; 9],
}

impl Gameboard {
    /// Creates a board with every cell zero (empty).
    pub fn new() -> (board: Gameboard)
        ensures
            forall|r: int, c: int|
                0 <= r < SIZE && 0 <= c < SIZE ==> board.cells[r][c] == 0,
    {
        Gameboard { cells: [[0; 9]; 9] }
    }

    /// Returns the number of cells along each edge of the board.
    pub fn get_size() -> (n: usize)
        ensures
            n == SIZE,
    {
        SIZE
    }
}

} // verus!
