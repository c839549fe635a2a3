//! Behavioral tests for the grid-board viewer core: pointer-to-cell
//! mapping, selection policy, and the renderer's emitted primitives.

use sudoku::Color;
use sudoku::DrawCmd;
use sudoku::Gameboard;
use sudoku::GameboardController;
use sudoku::GameboardView;
use sudoku::GameboardViewSettings;
use sudoku::InputEvent;

fn controller() -> GameboardController {
    GameboardController::new(Gameboard::new())
}

fn press_at(c: &mut GameboardController, x: i64, y: i64) {
    c.event([10, 10], [400, 400], &InputEvent::MouseCursor([x, y]));
    c.event([10, 10], [400, 400], &InputEvent::LeftPress);
}

#[test]
fn new_board_is_empty() {
    let b = Gameboard::new();
    for row in 0..9 {
        for col in 0..9 {
            assert_eq!(b.cells[row][col], 0);
        }
    }
    assert_eq!(Gameboard::get_size(), 9);
}

#[test]
fn controller_new_has_no_selection() {
    let c = controller();
    assert_eq!(c.selected_cell, None);
    assert_eq!(c.cursor_pos, [0, 0]);
}

#[test]
fn press_inside_selects_cell() {
    let mut c = controller();
    press_at(&mut c, 110, 115);
    // dx = 100 -> 100 * 9 / 400 = 2; dy = 105 -> 105 * 9 / 400 = 2
    assert_eq!(c.selected_cell, Some([2, 2]));
}

#[test]
fn press_top_left_corner_selects_first_cell() {
    let mut c = controller();
    press_at(&mut c, 10, 10);
    assert_eq!(c.selected_cell, Some([0, 0]));
}

#[test]
fn press_just_inside_far_corner_selects_last_cell() {
    let mut c = controller();
    press_at(&mut c, 10 + 399, 10 + 399);
    assert_eq!(c.selected_cell, Some([8, 8]));
}

#[test]
fn press_on_far_edge_is_outside() {
    let mut c = controller();
    press_at(&mut c, 110, 115);
    assert_eq!(c.selected_cell, Some([2, 2]));
    // The selectable interval is half-open: the far edge itself is out.
    press_at(&mut c, 10 + 400, 10 + 400);
    assert_eq!(c.selected_cell, Some([2, 2]));
}

#[test]
fn press_outside_keeps_selection() {
    let mut c = controller();
    press_at(&mut c, 5, 200);
    assert_eq!(c.selected_cell, None);
    press_at(&mut c, 110, 115);
    press_at(&mut c, 200, 500);
    assert_eq!(c.selected_cell, Some([2, 2]));
}

#[test]
fn mouse_move_alone_does_not_select() {
    let mut c = controller();
    c.event([10, 10], [400, 400], &InputEvent::MouseCursor([110, 115]));
    assert_eq!(c.selected_cell, None);
    assert_eq!(c.cursor_pos, [110, 115]);
}

#[test]
fn other_events_are_ignored() {
    let mut c = controller();
    c.event([10, 10], [400, 400], &InputEvent::MouseCursor([110, 115]));
    c.event([10, 10], [400, 400], &InputEvent::Other);
    assert_eq!(c.selected_cell, None);
    assert_eq!(c.cursor_pos, [110, 115]);
}

#[test]
fn default_view_settings() {
    let s = GameboardViewSettings::new();
    assert_eq!(s.position, [10, 10]);
    assert_eq!(s.size_x, 400);
    assert_eq!(s.size_y, 400);
    assert_eq!(s.background_color, Color { r: 800, g: 800, b: 1000, a: 1000 });
    assert_eq!(s.board_edge_color, Color { r: 0, g: 0, b: 200, a: 1000 });
    assert_eq!(s.section_edge_color, Color { r: 0, g: 0, b: 200, a: 1000 });
    assert_eq!(s.cell_edge_color, Color { r: 0, g: 0, b: 200, a: 1000 });
    assert_eq!(s.board_edge_radius, 3);
    assert_eq!(s.section_edge_radius, 2);
    assert_eq!(s.cell_edge_radius, 1);
    assert_eq!(s.selected_cell_background_color, Color { r: 900, g: 900, b: 1000, a: 1000 });
}

#[test]
fn draw_order_with_selection() {
    let mut c = controller();
    // dx = 100 -> column 2, dy = 150 -> row 3.
    press_at(&mut c, 110, 160);
    assert_eq!(c.selected_cell, Some([2, 3]));

    let s = GameboardViewSettings::new();
    let view = GameboardView::new(s);
    let cmds = view.draw(&c);

    // Backdrop, highlight, 9 vertical + 9 horizontal lines, border.
    assert_eq!(cmds.len(), 21);
    let bg = Color { r: 800, g: 800, b: 1000, a: 1000 };
    // All output is in subunits: 9 subunits per input unit.
    assert_eq!(cmds[0], DrawCmd::FillRect { x: 90, y: 90, w: 3600, h: 3600, color: bg });
    // The highlight covers exactly cell (2, 3): position 10 + 2 * 400 / 9
    // and 10 + 3 * 400 / 9 in units, cell extent 400 / 9.
    let hl = Color { r: 900, g: 900, b: 1000, a: 1000 };
    assert_eq!(
        cmds[1],
        DrawCmd::FillRect { x: 90 + 2 * 400, y: 90 + 3 * 400, w: 400, h: 400, color: hl },
    );
    let edge = Color { r: 0, g: 0, b: 200, a: 1000 };
    for i in 0..9i64 {
        let off_x: i64 = 90 + i * 400;
        let off_y: i64 = 90 + i * 400;
        // Section lines at indices 0, 3 and 6 are thicker.
        let radius: i64 = if i % 3 == 0 { 18 } else { 9 };
        let vline = &cmds[(2 + 2 * i) as usize];
        let hline = &cmds[(3 + 2 * i) as usize];
        assert_eq!(
            *vline,
            DrawCmd::Line { x1: off_x, y1: 90, x2: off_x, y2: 90 + 3600, color: edge, radius },
        );
        assert_eq!(
            *hline,
            DrawCmd::Line { x1: 90, y1: off_y, x2: 90 + 3600, y2: off_y, color: edge, radius },
        );
    }
    assert_eq!(
        cmds[20],
        DrawCmd::BorderRect { x: 90, y: 90, w: 3600, h: 3600, color: edge, radius: 27 },
    );
}

#[test]
fn draw_without_selection() {
    let c = controller();
    let view = GameboardView::new(GameboardViewSettings::new());
    let cmds = view.draw(&c);

    // Backdrop, 18 lines, border; no highlight.
    assert_eq!(cmds.len(), 20);
    assert!(matches!(cmds[0], DrawCmd::FillRect { .. }));
    let mut filled: usize = 0;
    let mut lines: usize = 0;
    let mut borders: usize = 0;
    for cmd in &cmds {
        match cmd {
            DrawCmd::FillRect { .. } => filled += 1,
            DrawCmd::Line { .. } => lines += 1,
            DrawCmd::BorderRect { .. } => borders += 1,
        }
    }
    assert_eq!(filled, 1);
    assert_eq!(lines, 18);
    assert_eq!(borders, 1);
    assert!(matches!(cmds[19], DrawCmd::BorderRect { .. }));
}

#[test]
fn grid_line_offsets_are_evenly_spaced() {
    let c = controller();
    let mut s = GameboardViewSettings::new();
    s.size_x = 350;
    s.size_y = 520;
    let cmds = GameboardView::new(s).draw(&c);

    let mut last_x: Option<i64> = None;
    let mut last_y: Option<i64> = None;
    for i in 0..9 {
        let (x, y) = match (&cmds[1 + 2 * i], &cmds[2 + 2 * i]) {
            (DrawCmd::Line { x1, .. }, DrawCmd::Line { y1, .. }) => (*x1, *y1),
            _ => panic!("expected a vertical and a horizontal grid line"),
        };
        if let Some(px) = last_x {
            // Strictly increasing, spaced by size_x subunits = size_x / 9 units.
            assert_eq!(x - px, 350);
        }
        if let Some(py) = last_y {
            assert_eq!(y - py, 520);
        }
        last_x = Some(x);
        last_y = Some(y);
    }
}

#[test]
fn view_new_stores_settings() {
    let s = GameboardViewSettings::new();
    let view = GameboardView::new(s);
    assert_eq!(view.settings.size_x, 400);
    assert_eq!(view.settings.position, [10, 10]);
}
