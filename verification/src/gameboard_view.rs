//! Layout renderer: turns board geometry, view settings and the current
//! selection into an ordered sequence of drawable primitives.

use vstd::prelude::*;

use crate::gameboard::SIZE;
use crate::gameboard_controller::GameboardController;

verus! {

/// Subunits per unit of board geometry.  Emitted primitives carry their
/// coordinates and lengths in subunits, so that a cell boundary at a
/// fractional offset `i/SIZE` of the board extent is an exact integer;
/// the scale therefore equals `SIZE`.
pub const SCALE: i64 = 9;

/// Bound on the board geometry handed to the renderer (positions, sizes
/// and edge radii), so that every scaled coordinate fits in 64 bits.
pub const MAX_COORD: i64 = 0x100_0000_0000;

/// An RGBA color; each channel is given in thousandths, from 0 (none) to
/// 1000 (full intensity).
#[derive(Clone, Copy, Debug, PartialEq, Eq, Structural)]
pub struct Color {
    /// Red channel, in thousandths.
    pub r: u16,
    /// Green channel, in thousandths.
    pub g: u16,
    /// Blue channel, in thousandths.
    pub b: u16,
    /// Alpha channel, in thousandths.
    pub a: u16,
}

/// One drawable primitive.  Every coordinate and length is in subunits:
/// `SCALE` subunits make one unit of the board geometry handed to the
/// renderer.
#[derive(Clone, Copy, Debug, PartialEq, Eq, Structural)]
pub enum DrawCmd {
    /// A filled axis-aligned rectangle.
    FillRect {
        /// Left edge, in subunits.
        x: i64,
        /// Top edge, in subunits.
        y: i64,
        /// Width, in subunits.
        w: i64,
        /// Height, in subunits.
        h: i64,
        /// Fill color.
        color: Color,
    },
    /// A border-only axis-aligned rectangle.
    BorderRect {
        /// Left edge, in subunits.
        x: i64,
        /// Top edge, in subunits.
        y: i64,
        /// Width, in subunits.
        w: i64,
        /// Height, in subunits.
        h: i64,
        /// Border color.
        color: Color,
        /// Border radius (half the border width), in subunits.
        radius: i64,
    },
    /// A straight line segment.
    Line {
        /// Horizontal start, in subunits.
        x1: i64,
        /// Vertical start, in subunits.
        y1: i64,
        /// Horizontal end, in subunits.
        x2: i64,
        /// Vertical end, in subunits.
        y2: i64,
        /// Line color.
        color: Color,
        /// Line radius (half the line width), in subunits.
        radius: i64,
    },
}

/// Stores gameboard view settings.  Geometry is given in whole units
/// (the renderer's output is scaled by `SCALE`); colors name the layers
/// of the drawing.
pub struct GameboardViewSettings {
    /// Position of the board's left-top corner.
    pub position: [i64; 2],
    /// Size of the board along the horizontal edge.
    pub size_x: i64,
    /// Size of the board along the vertical edge.
    pub size_y: i64,
    /// Background color.
    pub background_color: Color,
    /// Border color.
    pub border_color: Color,
    /// Edge color around the whole board.
    pub board_edge_color: Color,
    /// Edge color between the 3x3 sections.
    pub section_edge_color: Color,
    /// Edge color between cells.
    pub cell_edge_color: Color,
    /// Edge radius around the whole board.
    pub board_edge_radius: i64,
    /// Edge radius between the 3x3 sections.
    pub section_edge_radius: i64,
    /// Edge radius between cells.
    pub cell_edge_radius: i64,
    /// Background color of the selected cell.
    pub selected_cell_background_color: Color,
}

impl GameboardViewSettings {
    /// The geometry is usable by the renderer: sizes are positive, and
    /// positions, sizes and radii stay within `MAX_COORD` so that every
    /// scaled coordinate fits in 64 bits.
    pub open spec fn wf(&self) -> bool {
        &&& 0 < self.size_x <= MAX_COORD
        &&& 0 < self.size_y <= MAX_COORD
        &&& -MAX_COORD <= self.position[0] <= MAX_COORD
        &&& -MAX_COORD <= self.position[1] <= MAX_COORD
        &&& 0 <= self.board_edge_radius <= MAX_COORD
        &&& 0 <= self.section_edge_radius <= MAX_COORD
        &&& 0 <= self.cell_edge_radius <= MAX_COORD
    }

    /// Creates new gameboard view settings with the default geometry and
    /// palette.
    pub fn new() -> (s: GameboardViewSettings)
        ensures
            s.wf(),
            s.position[0] == 10 && s.position[1] == 10,
            s.size_x == 400,
            s.size_y == 400,
            s.background_color == (Color { r: 800, g: 800, b: 1000, a: 1000 }),
            s.border_color == (Color { r: 0, g: 0, b: 200, a: 1000 }),
            s.board_edge_color == (Color { r: 0, g: 0, b: 200, a: 1000 }),
            s.section_edge_color == (Color { r: 0, g: 0, b: 200, a: 1000 }),
            s.cell_edge_color == (Color { r: 0, g: 0, b: 200, a: 1000 }),
            s.board_edge_radius == 3,
            s.section_edge_radius == 2,
            s.cell_edge_radius == 1,
            s.selected_cell_background_color == (Color { r: 900, g: 900, b: 1000, a: 1000 }),
    {
        GameboardViewSettings {
            position: [10, 10],
            size_x: 400,
            size_y: 400,
            background_color: Color { r: 800, g: 800, b: 1000, a: 1000 },
            border_color: Color { r: 0, g: 0, b: 200, a: 1000 },
            board_edge_color: Color { r: 0, g: 0, b: 200, a: 1000 },
            section_edge_color: Color { r: 0, g: 0, b: 200, a: 1000 },
            cell_edge_color: Color { r: 0, g: 0, b: 200, a: 1000 },
            board_edge_radius: 3,
            section_edge_radius: 2,
            cell_edge_radius: 1,
            selected_cell_background_color: Color { r: 900, g: 900, b: 1000, a: 1000 },
        }
    }
}

/// x-offset, in subunits, of the vertical grid line at index `i`.
pub open spec fn vline_x(s: GameboardViewSettings, i: int) -> int {
    s.position[0] * SCALE + i * s.size_x
}

/// y-offset, in subunits, of the horizontal grid line at index `i`.
pub open spec fn hline_y(s: GameboardViewSettings, i: int) -> int {
    s.position[1] * SCALE + i * s.size_y
}

/// Whether the grid line at index `i` separates 3x3 sections rather
/// than single cells.
pub open spec fn is_section_line(i: int) -> bool {
    i % 3 == 0
}

/// Color of the grid line at index `i`: section or cell styling.
pub open spec fn line_color(s: GameboardViewSettings, i: int) -> Color {
    if is_section_line(i) {
        s.section_edge_color
    } else {
        s.cell_edge_color
    }
}

/// Radius, in subunits, of the grid line at index `i`: section or cell
/// styling.
pub open spec fn line_radius(s: GameboardViewSettings, i: int) -> int {
    if is_section_line(i) {
        s.section_edge_radius * SCALE
    } else {
        s.cell_edge_radius * SCALE
    }
}

/// The board backdrop: a filled rectangle over the whole board.
pub open spec fn backdrop_cmd(s: GameboardViewSettings) -> DrawCmd {
    DrawCmd::FillRect {
        x: (s.position[0] * SCALE) as i64,
        y: (s.position[1] * SCALE) as i64,
        w: (s.size_x * SCALE) as i64,
        h: (s.size_y * SCALE) as i64,
        color: s.background_color,
    }
}

/// The highlight of the selected cell `(col, row)`: a filled rectangle
/// over exactly that cell's sub-rectangle of the board.
pub open spec fn highlight_cmd(s: GameboardViewSettings, col: int, row: int) -> DrawCmd {
    DrawCmd::FillRect {
        x: vline_x(s, col) as i64,
        y: hline_y(s, row) as i64,
        w: s.size_x,
        h: s.size_y,
        color: s.selected_cell_background_color,
    }
}

/// The vertical grid line at index `i`, spanning the full board height.
pub open spec fn vline_cmd(s: GameboardViewSettings, i: int) -> DrawCmd {
    DrawCmd::Line {
        x1: vline_x(s, i) as i64,
        y1: (s.position[1] * SCALE) as i64,
        x2: vline_x(s, i) as i64,
        y2: (s.position[1] * SCALE + s.size_y * SCALE) as i64,
        color: line_color(s, i),
        radius: line_radius(s, i) as i64,
    }
}

/// The horizontal grid line at index `i`, spanning the full board width.
pub open spec fn hline_cmd(s: GameboardViewSettings, i: int) -> DrawCmd {
    DrawCmd::Line {
        x1: (s.position[0] * SCALE) as i64,
        y1: hline_y(s, i) as i64,
        x2: (s.position[0] * SCALE + s.size_x * SCALE) as i64,
        y2: hline_y(s, i) as i64,
        color: line_color(s, i),
        radius: line_radius(s, i) as i64,
    }
}

/// The grid lines in emission order: for each index in `[0, SIZE)`, the
/// vertical line, then the horizontal one.
pub open spec fn line_cmds(s: GameboardViewSettings) -> Seq<DrawCmd> {
    Seq::new(
        (2 * SIZE) as nat,
        |j: int|
            if j % 2 == 0 {
                vline_cmd(s, j / 2)
            } else {
                hline_cmd(s, j / 2)
            },
    )
}

/// The outer frame: a border-only rectangle over the whole board.
pub open spec fn border_cmd(s: GameboardViewSettings) -> DrawCmd {
    DrawCmd::BorderRect {
        x: (s.position[0] * SCALE) as i64,
        y: (s.position[1] * SCALE) as i64,
        w: (s.size_x * SCALE) as i64,
        h: (s.size_y * SCALE) as i64,
        color: s.board_edge_color,
        radius: (s.board_edge_radius * SCALE) as i64,
    }
}

/// Everything the renderer emits for settings `s` and selection `sel`,
/// in emission order: the backdrop, the selected cell's highlight when
/// there is a selection, the grid lines, and the outer frame.
pub open spec fn draw_cmds(s: GameboardViewSettings, sel: Option<[usize; 2]>) -> Seq<DrawCmd> {
    match sel {
        Some(ind) => seq![backdrop_cmd(s), highlight_cmd(s, ind[0] as int, ind[1] as int)]
            + line_cmds(s) + seq![border_cmd(s)],
        None => seq![backdrop_cmd(s)] + line_cmds(s) + seq![border_cmd(s)],
    }
}

/// Partition law: the x-offsets of the vertical grid lines and the
/// y-offsets of the horizontal grid lines are each strictly increasing
/// and evenly spaced — consecutive offsets differ by exactly the board
/// extent on that axis in subunits, which is one cell width.
pub proof fn lemma_line_offsets_partition(s: GameboardViewSettings)
    requires
        s.wf(),
    ensures
        forall|i: int|
            0 <= i < SIZE - 1 ==> #[trigger] vline_x(s, i + 1) - vline_x(s, i) == s.size_x
                && vline_x(s, i) < vline_x(s, i + 1),
        forall|i: int|
            0 <= i < SIZE - 1 ==> #[trigger] hline_y(s, i + 1) - hline_y(s, i) == s.size_y
                && hline_y(s, i) < hline_y(s, i + 1),
{
    assert forall|i: int|
        0 <= i < SIZE - 1 implies #[trigger] vline_x(s, i + 1) - vline_x(s, i) == s.size_x
            && vline_x(s, i) < vline_x(s, i + 1) by {
        assert((i + 1) * s.size_x - i * s.size_x == s.size_x) by (nonlinear_arith);
    }
    assert forall|i: int|
        0 <= i < SIZE - 1 implies #[trigger] hline_y(s, i + 1) - hline_y(s, i) == s.size_y
            && hline_y(s, i) < hline_y(s, i + 1) by {
        assert((i + 1) * s.size_y - i * s.size_y == s.size_y) by (nonlinear_arith);
    }
}

/// Classification law: the grid line at index `i` carries section
/// styling exactly when `i` is a multiple of 3, and among the `SIZE`
/// line indices of an axis the multiples of 3 are exactly 0, 3 and 6 —
/// three section lines and six cell lines per axis.
pub proof fn lemma_line_classification(s: GameboardViewSettings)
    ensures
        forall|i: int|
            0 <= i < SIZE ==> #[trigger] line_color(s, i) == (if is_section_line(i) {
                s.section_edge_color
            } else {
                s.cell_edge_color
            }),
        forall|i: int|
            0 <= i < SIZE ==> #[trigger] line_radius(s, i) == (if is_section_line(i) {
                s.section_edge_radius * SCALE
            } else {
                s.cell_edge_radius * SCALE
            }),
        forall|i: int|
            0 <= i < SIZE ==> (#[trigger] is_section_line(i) <==> (i == 0 || i == 3 || i == 6)),
{
}

/// Draw-order law: the emitted sequence starts with the backdrop,
/// continues with the highlight exactly when a cell is selected, then
/// holds the 2 * SIZE grid lines — for each index the vertical line
/// before the horizontal one — and ends with the outer frame.
pub proof fn lemma_draw_order(s: GameboardViewSettings, sel: Option<[usize; 2]>)
    ensures
        draw_cmds(s, sel).len() == (if sel is Some {
            2 * SIZE + 3
        } else {
            2 * SIZE + 2
        }),
        draw_cmds(s, sel)[0] == backdrop_cmd(s),
        sel matches Some(ind) ==> draw_cmds(s, sel)[1] == highlight_cmd(
            s,
            ind[0] as int,
            ind[1] as int,
        ),
        sel is Some ==> forall|i: int|
            0 <= i < SIZE ==> draw_cmds(s, sel)[2 + 2 * i] == #[trigger] vline_cmd(s, i)
                && draw_cmds(s, sel)[3 + 2 * i] == hline_cmd(s, i),
        sel is None ==> forall|i: int|
            0 <= i < SIZE ==> draw_cmds(s, sel)[1 + 2 * i] == #[trigger] vline_cmd(s, i)
                && draw_cmds(s, sel)[2 + 2 * i] == hline_cmd(s, i),
        draw_cmds(s, sel).last() == border_cmd(s),
{
    if sel is Some {
        assert forall|i: int|
            0 <= i < SIZE implies draw_cmds(s, sel)[2 + 2 * i] == #[trigger] vline_cmd(s, i)
                && draw_cmds(s, sel)[3 + 2 * i] == hline_cmd(s, i) by {
            assert(line_cmds(s)[2 * i] == vline_cmd(s, i));
            assert(line_cmds(s)[2 * i + 1] == hline_cmd(s, i));
        }
    } else {
        assert forall|i: int|
            0 <= i < SIZE implies draw_cmds(s, sel)[1 + 2 * i] == #[trigger] vline_cmd(s, i)
                && draw_cmds(s, sel)[2 + 2 * i] == hline_cmd(s, i) by {
            assert(line_cmds(s)[2 * i] == vline_cmd(s, i));
            assert(line_cmds(s)[2 * i + 1] == hline_cmd(s, i));
        }
    }
}

/// Stores visual information about a gameboard.
pub struct GameboardView {
    /// Stores gameboard view settings.
    pub settings: GameboardViewSettings,
}

impl GameboardView {
    /// Creates a new gameboard view.
    pub fn new(settings: GameboardViewSettings) -> (v: GameboardView)
        ensures
            v.settings == settings,
    {
        GameboardView { settings }
    }

    /// Draw gameboard: emits the board backdrop, the selected cell's
    /// highlight when the controller holds a selection, the grid lines,
    /// and the outer frame, in exactly that order.
    pub fn draw(&self, controller: &GameboardController) -> (cmds: Vec<DrawCmd>)
        requires
            self.settings.wf(),
            controller.wf(),
        ensures
            cmds@ == draw_cmds(self.settings, controller.selected_cell),
    {
        let s = &self.settings;
        let mut cmds: Vec<DrawCmd> = Vec::new();
        let base_x: i64 = s.position[0] * SCALE;
        let base_y: i64 = s.position[1] * SCALE;
        let full_w: i64 = s.size_x * SCALE;
        let full_h: i64 = s.size_y * SCALE;
        cmds.push(
            DrawCmd::FillRect {
                x: base_x,
                y: base_y,
                w: full_w,
                h: full_h,
                color: s.background_color,
            },
        );

        if let Some(ind) = controller.selected_cell {
            let col: i64 = ind[0] as i64;
            let row: i64 = ind[1] as i64;
            proof {
                assert(0 <= col * s.size_x <= 8 * MAX_COORD) by (nonlinear_arith)
                    requires
                        0 <= col <= 8,
                        0 < s.size_x <= MAX_COORD,
                ;
                assert(0 <= row * s.size_y <= 8 * MAX_COORD) by (nonlinear_arith)
                    requires
                        0 <= row <= 8,
                        0 < s.size_y <= MAX_COORD,
                ;
            }
            cmds.push(
                DrawCmd::FillRect {
                    x: base_x + col * s.size_x,
                    y: base_y + row * s.size_y,
                    w: s.size_x,
                    h: s.size_y,
                    color: s.selected_cell_background_color,
                },
            );
        }

        let ghost prefix: Seq<DrawCmd> = cmds@;
        let mut i: usize = 0;
        while i < 9
            invariant
                0 <= i <= 9,
                self.settings.wf(),
                base_x == self.settings.position[0] * SCALE,
                base_y == self.settings.position[1] * SCALE,
                full_w == self.settings.size_x * SCALE,
                full_h == self.settings.size_y * SCALE,
                cmds@ == prefix + line_cmds(self.settings).subrange(0, 2 * i as int),
            decreases 9 - i,
        {
            let ii: i64 = i as i64;
            proof {
                assert(0 <= ii * self.settings.size_x <= 8 * MAX_COORD) by (nonlinear_arith)
                    requires
                        0 <= ii <= 8,
                        0 < self.settings.size_x <= MAX_COORD,
                ;
                assert(0 <= ii * self.settings.size_y <= 8 * MAX_COORD) by (nonlinear_arith)
                    requires
                        0 <= ii <= 8,
                        0 < self.settings.size_y <= MAX_COORD,
                ;
            }
            let x: i64 = base_x + ii * self.settings.size_x;
            let y: i64 = base_y + ii * self.settings.size_y;
            let (color, radius): (Color, i64) = if i % 3 == 0 {
                (self.settings.section_edge_color, self.settings.section_edge_radius * SCALE)
            } else {
                (self.settings.cell_edge_color, self.settings.cell_edge_radius * SCALE)
            };
            cmds.push(DrawCmd::Line { x1: x, y1: base_y, x2: x, y2: base_y + full_h, color, radius });
            cmds.push(DrawCmd::Line { x1: base_x, y1: y, x2: base_x + full_w, y2: y, color, radius });
            proof {
                assert(line_cmds(self.settings)[2 * i as int] == vline_cmd(self.settings, i as int));
                assert(line_cmds(self.settings)[2 * i as int + 1] == hline_cmd(self.settings, i as int));
                assert(cmds@ =~= prefix + line_cmds(self.settings).subrange(0, 2 * (i + 1) as int));
            }
            i = i + 1;
        }

        cmds.push(
            DrawCmd::BorderRect {
                x: base_x,
                y: base_y,
                w: full_w,
                h: full_h,
                color: s.board_edge_color,
                radius: s.board_edge_radius * SCALE,
            },
        );
        proof {
            assert(line_cmds(self.settings).subrange(0, 18) =~= line_cmds(self.settings));
            assert(cmds@ =~= draw_cmds(self.settings, controller.selected_cell));
        }
        cmds
    }
}

} // verus!
