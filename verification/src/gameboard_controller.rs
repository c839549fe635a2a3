//! Input mapper: turns pointer events into a selected board cell.

use vstd::prelude::*;

use crate::gameboard::Gameboard;
use crate::gameboard::SIZE;

verus! {

/// One input event, as the windowing host reports it to the controller.
pub enum InputEvent {
    /// The pointer moved to the given screen position `[x, y]`.
    MouseCursor([i64; 2]),
    /// The primary (left) mouse button was pressed.
    LeftPress,
    /// Any other event; the controller ignores it.
    Other,
}

/// Whether a pointer at `cursor` lies inside the board rectangle with
/// top-left corner `pos` and extent `size`.  The interval is half-open:
/// a pointer exactly on the right or bottom edge is outside.
pub open spec fn inside_board(cursor: [i64; 2], pos: [i64; 2], size: [i64; 2]) -> bool {
    &&& 0 <= cursor[0] - pos[0] < size[0]
    &&& 0 <= cursor[1] - pos[1] < size[1]
}

/// The cell index that a pointer offset `d` selects on an axis of screen
/// length `s`: the offset's fraction of the axis, scaled to `SIZE` cells
/// and rounded down.
pub open spec fn cell_index(d: int, s: int) -> int {
    d * (SIZE as int) / s
}

/// For offsets inside the half-open axis interval, the selected cell
/// index is a valid cell coordinate.
pub proof fn lemma_cell_index_in_range(d: int, s: int)
    requires
        0 <= d < s,
    ensures
        0 <= cell_index(d, s) < SIZE,
{
    assert(0 <= d * (SIZE as int) / s < SIZE as int) by (nonlinear_arith)
        requires
            0 <= d < s,
    ;
}

/// Boundary law for the half-open selectable interval of one axis of
/// length `s`: the smallest inside offset, 0, selects the first cell,
/// and the largest inside offset, `s - 1`, selects the last cell.  The
/// offset `s` itself is already outside the interval, so no offset
/// selects a cell beyond the last.  (The second part needs the axis to
/// be at least `SIZE` units long; on a shorter axis the last cells
/// share their one unit with earlier ones.)
pub proof fn lemma_cell_index_boundaries(s: int)
    requires
        SIZE <= s,
    ensures
        cell_index(0, s) == 0,
        cell_index(s - 1, s) == SIZE - 1,
{
    vstd::arithmetic::div_mod::lemma_div_of0(s);
    vstd::arithmetic::div_mod::lemma_fundamental_div_mod_converse_div(
        (s - 1) * (SIZE as int),
        s,
        SIZE as int - 1,
        s - SIZE as int,
    );
}

/// Handles input events for the board: remembers the last pointer
/// position and, on a left press inside the board rectangle, selects the
/// cell under the pointer.
pub struct GameboardController {
    /// Stores the gameboard state.
    pub gameboard: Gameboard,
    /// The selected cell as `[col, row]`, if any.
    pub selected_cell: Option<[usize; 2]>,
    /// Last observed pointer position, in screen coordinates.
    pub cursor_pos: [i64; 2],
}

impl GameboardController {
    /// A selection, when present, names a cell on the board: both of its
    /// indices are below `SIZE`.
    pub open spec fn wf(&self) -> bool {
        self.selected_cell matches Some(ind) ==> ind[0] < SIZE && ind[1] < SIZE
    }

    /// Creates a new gameboard controller: no selection, pointer at the
    /// origin.
    pub fn new(gameboard: Gameboard) -> (c: GameboardController)
        ensures
            c.wf(),
            c.gameboard == gameboard,
            c.selected_cell is None,
            c.cursor_pos[0] == 0 && c.cursor_pos[1] == 0,
    {
        GameboardController {
            gameboard,
            selected_cell: None,
            cursor_pos: [0, 0],
        }
    }

    /// Handles one event.  A pointer move records the new position; a
    /// left press inside the board rectangle `(pos, size)` selects the
    /// cell under the pointer, a press outside leaves the selection as it
    /// was; any other event does nothing.
    pub fn event(&mut self, pos: [i64; 2], size: [i64; 2], e: &InputEvent)
        requires
            old(self).wf(),
            0 < size[0],
            0 < size[1],
        ensures
            final(self).wf(),
            final(self).gameboard == old(self).gameboard,
            e matches InputEvent::MouseCursor(p) ==> {
                &&& final(self).cursor_pos == p
                &&& final(self).selected_cell == old(self).selected_cell
            },
            *e is LeftPress ==> final(self).cursor_pos == old(self).cursor_pos,
            *e is LeftPress && inside_board(old(self).cursor_pos, pos, size) ==> {
                &&& final(self).selected_cell matches Some(ind)
                &&& ind[0] == cell_index(old(self).cursor_pos[0] - pos[0], size[0] as int)
                &&& ind[1] == cell_index(old(self).cursor_pos[1] - pos[1], size[1] as int)
            },
            *e is LeftPress && !inside_board(old(self).cursor_pos, pos, size) ==>
                final(self).selected_cell == old(self).selected_cell,
            *e is Other ==> *final(self) == *old(self),
    {
        match e {
            InputEvent::MouseCursor(p) => {
                self.cursor_pos = *p;
            }
            InputEvent::LeftPress => {
                let x: i128 = self.cursor_pos[0] as i128 - pos[0] as i128;
                let y: i128 = self.cursor_pos[1] as i128 - pos[1] as i128;
                let w: i128 = size[0] as i128;
                let h: i128 = size[1] as i128;
                if x >= 0 && x < w && y >= 0 && y < h {
                    proof {
                        lemma_cell_index_in_range(x as int, w as int);
                        lemma_cell_index_in_range(y as int, h as int);
                    }
                    let cell_x: usize = (x * (SIZE as i128) / w) as usize;
                    let cell_y: usize = (y * (SIZE as i128) / h) as usize;
                    self.selected_cell = Some([cell_x, cell_y]);
                }
            }
            InputEvent::Other => {}
        }
    }
}

} // verus!
