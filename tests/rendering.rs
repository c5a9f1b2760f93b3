use ev3_display::canvas::ScreenOrientation;
use ev3_display::draw::{Color, DrawOp};
use ev3_display::glyph::{Glyph, Gph};
use ev3_display::info_box::InfoBox;
use ev3_display::point::Point;
use ev3_display::screen::Screen;
use ev3_display::trig::{cos, sin};

const PANEL_W: i32 = 178;
const PANEL_H: i32 = 128;

fn full_screen(or: ScreenOrientation) -> Screen {
    let mut s = Screen::new(PANEL_W, PANEL_H);
    s.setup(or);
    s.setup_info_area_full();
    s
}

fn line(x0: i32, y0: i32, x1: i32, y1: i32) -> DrawOp {
    DrawOp::Line { x0, y0, x1, y1 }
}

fn count_lines(ops: &[DrawOp]) -> usize {
    ops.iter().filter(|o| matches!(o, DrawOp::Line { .. })).count()
}

fn count_fills(ops: &[DrawOp]) -> usize {
    ops.iter().filter(|o| matches!(o, DrawOp::FillRect { .. })).count()
}

#[test]
fn decoding_same_string_gives_same_points() {
    let a = Glyph::new(Gph::B, false, "aAgAiCkEkGiIgK--aUgUiSkQkOiMgK--aAaU--aKgK");
    let b = Glyph::new(Gph::B, false, "aAgAiCkEkGiIgK--aUgUiSkQkOiMgK--aAaU--aKgK");
    assert_eq!(a.points, b.points);
}

#[test]
fn decoding_points_pen_up_and_end() {
    let g = Glyph::new(Gph::X, false, "aAkU--kAaU");
    assert_eq!(g.points[0], Point { x: 0, y: 0 });
    assert_eq!(g.points[1], Point { x: 10, y: 20 });
    assert_eq!(g.points[2], Point { x: 255, y: 255 });
    assert_eq!(g.points[3], Point { x: 10, y: 0 });
    assert_eq!(g.points[4], Point { x: 0, y: 20 });
    assert_eq!(g.points[5], Point { x: 254, y: 254 });
    assert_eq!(g.points[6], Point { x: 255, y: 255 });
}

#[test]
fn decoding_out_of_range_truncates() {
    // '0' lies below 'a', so its x is negative and the point ends the shape.
    let g = Glyph::new(Gph::A, false, "aA0AbB");
    assert_eq!(g.points[0], Point { x: 0, y: 0 });
    assert_eq!(g.points[1], Point { x: 254, y: 254 });
    assert_eq!(g.points[2], Point { x: 1, y: 1 });
    assert_eq!(g.points[3], Point { x: 254, y: 254 });
    // 'a' as a y letter decodes to 32, one past the grid.
    let h = Glyph::new(Gph::A, false, "aa");
    assert_eq!(h.points[0], Point { x: 254, y: 254 });
}

#[test]
fn decoding_dash_in_x_place_is_pen_up() {
    let g = Glyph::new(Gph::A, false, "aA-BcC");
    assert_eq!(g.points[1], Point { x: 255, y: 255 });
    assert_eq!(g.points[2], Point { x: 2, y: 2 });
}

#[test]
fn decoding_stops_at_capacity() {
    let shape = "aB".repeat(40);
    let g = Glyph::new(Gph::A, false, &shape);
    for p in g.points.iter() {
        assert_eq!(*p, Point { x: 0, y: 1 });
    }
    let empty = Glyph::new(Gph::Space, false, "");
    assert_eq!(empty.points[0], Point { x: 254, y: 254 });
}

#[test]
fn draw_glyph_past_table_is_noop() {
    let s = full_screen(ScreenOrientation::Up);
    let mut ops = Vec::new();
    s.draw_glyph(Gph::LAST, 10, 10, false, &mut ops);
    s.draw_glyph(Gph::NONE, 10, 10, true, &mut ops);
    assert!(ops.is_empty());
}

#[test]
fn draw_glyph_clears_cell_then_strokes() {
    let s = full_screen(ScreenOrientation::Up);
    let mut ops = Vec::new();
    s.draw_glyph(Gph::V1, 10, 20, false, &mut ops);
    assert_eq!(
        ops,
        vec![
            DrawOp::FillRect { x: 10, y: 20, w: 13, h: 23, color: Color::White },
            line(16, 21, 16, 41),
        ]
    );
}

#[test]
fn draw_glyph_bold_draws_five_copies() {
    let s = full_screen(ScreenOrientation::Up);
    let mut ops = Vec::new();
    s.draw_glyph(Gph::V1, 10, 20, true, &mut ops);
    assert_eq!(
        ops,
        vec![
            DrawOp::FillRect { x: 10, y: 20, w: 13, h: 23, color: Color::White },
            line(16, 21, 16, 41),
            line(17, 22, 17, 42),
            line(17, 20, 17, 40),
            line(15, 22, 15, 42),
            line(15, 20, 15, 40),
        ]
    );
}

#[test]
fn draw_wide_glyph_clears_wide_cell() {
    let s = full_screen(ScreenOrientation::Up);
    let mut ops = Vec::new();
    s.draw_glyph(Gph::StrategyForward, 0, 0, false, &mut ops);
    assert_eq!(ops[0], DrawOp::FillRect { x: 0, y: 0, w: 23, h: 23, color: Color::White });
    // Two strokes of two segments, then one segment.
    assert_eq!(count_lines(&ops), 5);
}

#[test]
fn draw_glyph_in_down_orientation_turns_cell() {
    let s = full_screen(ScreenOrientation::Down);
    let mut ops = Vec::new();
    s.draw_glyph(Gph::V1, 10, 20, false, &mut ops);
    assert_eq!(
        ops,
        vec![
            DrawOp::FillRect { x: 178 - 10 - 13, y: 128 - 20 - 23, w: 13, h: 23, color: Color::White },
            line(178 - 16, 128 - 21, 178 - 16, 128 - 41),
        ]
    );
}

#[test]
fn apply_value_blanks_leading_zeros() {
    let mut b = InfoBox::new();
    b.setup_value(0, 3);
    b.set_value(7);
    b.apply_value();
    let cells = b.todo_glyphs();
    assert_eq!(&cells[0..3], &[Gph::Space, Gph::Space, Gph::V7]);
}

#[test]
fn apply_value_signed_negative() {
    let mut b = InfoBox::new();
    b.setup_signed_value(0, 3, Gph::Plus, Gph::Space, Gph::Minus);
    b.set_value(-7);
    b.apply_value();
    let cells = b.todo_glyphs();
    assert_eq!(&cells[0..4], &[Gph::Minus, Gph::Space, Gph::Space, Gph::V7]);
}

#[test]
fn apply_value_signed_zero_and_positive() {
    let mut b = InfoBox::new();
    b.setup_signed_value(1, 2, Gph::Plus, Gph::O, Gph::Minus);
    b.set_value(0);
    b.apply_value();
    // Value 0 equals the value last written, so nothing changes.
    assert_eq!(b.todo_glyphs()[1], Gph::NONE);
    b.set_value(45);
    b.apply_value();
    assert_eq!(&b.todo_glyphs()[1..4], &[Gph::Plus, Gph::V4, Gph::V5]);
    b.set_value(0);
    b.apply_value();
    assert_eq!(&b.todo_glyphs()[1..4], &[Gph::O, Gph::Space, Gph::V0]);
}

#[test]
fn apply_value_keeps_low_digits_of_large_values() {
    let mut b = InfoBox::new();
    b.setup_value(2, 2);
    b.set_value(i32::MIN);
    b.apply_value();
    // 2147483648: the two least significant digits.
    assert_eq!(&b.todo_glyphs()[2..4], &[Gph::V4, Gph::V8]);
    b.set_value(105);
    b.apply_value();
    assert_eq!(&b.todo_glyphs()[2..4], &[Gph::V0, Gph::V5]);
}

#[test]
fn apply_value_with_no_digits_is_noop() {
    let mut b = InfoBox::new();
    b.setup_glyphs(&[Gph::A, Gph::B]);
    b.set_value(12);
    b.apply_value();
    assert_eq!(&b.todo_glyphs()[0..3], &[Gph::A, Gph::B, Gph::NONE]);
}

fn screen_with_label() -> Screen {
    let mut s = full_screen(ScreenOrientation::Up);
    s.set_info_count(1);
    s.setup_info(0, 3, 1, 1, 1, 1);
    s.setup_info_glyphs(0, &[Gph::V1, Gph::NONE, Gph::V7]);
    s
}

#[test]
fn first_render_clears_info_area_then_draws() {
    let mut s = screen_with_label();
    let mut ops = Vec::new();
    s.render_info(&mut ops);
    assert_eq!(ops[0], DrawOp::FillRect { x: 0, y: 0, w: 178, h: 128, color: Color::White });
    // V1 has one segment, V7 three; each glyph clears its cell.
    assert_eq!(count_fills(&ops), 3);
    assert_eq!(count_lines(&ops), 4);
}

#[test]
fn rerender_without_change_draws_nothing() {
    let mut s = screen_with_label();
    let mut ops = Vec::new();
    s.render_info(&mut ops);
    let mut again = Vec::new();
    s.render_info(&mut again);
    assert!(again.is_empty());
}

#[test]
fn bold_toggle_redraws_every_non_empty_cell() {
    let mut s = screen_with_label();
    let mut ops = Vec::new();
    s.render_info(&mut ops);
    s.set_info_bold(0, true);
    let mut bold_ops = Vec::new();
    s.render_info(&mut bold_ops);
    assert_eq!(count_fills(&bold_ops), 2);
    assert_eq!(count_lines(&bold_ops), 4 * 5);
    let mut again = Vec::new();
    s.render_info(&mut again);
    assert!(again.is_empty());
}

#[test]
fn changed_cell_alone_is_redrawn() {
    let mut s = screen_with_label();
    let mut ops = Vec::new();
    s.render_info(&mut ops);
    s.setup_info_glyphs(0, &[Gph::V1, Gph::NONE, Gph::V1]);
    let mut next = Vec::new();
    s.render_info(&mut next);
    assert_eq!(count_fills(&next), 1);
    assert_eq!(count_lines(&next), 1);
}

#[test]
fn value_render_draws_digits() {
    let mut s = full_screen(ScreenOrientation::Up);
    s.set_info_count(1);
    s.setup_info(0, 3, 1, 1, 1, 1);
    s.setup_info_value(0, 0, 3);
    s.set_info_value(0, 7);
    assert_eq!(s.info_value(0), 7);
    let mut ops = Vec::new();
    s.render_info(&mut ops);
    // Area clear, two blank cells and the digit 7 (three segments).
    assert_eq!(count_fills(&ops), 4);
    assert_eq!(count_lines(&ops), 3);
}

#[test]
fn setup_info_centres_box_in_grid_cell() {
    let mut s = full_screen(ScreenOrientation::Up);
    s.set_info_count(2);
    s.setup_info(1, 2, 2, 3, 2, 4);
    s.setup_info_glyphs(1, &[Gph::V1]);
    let mut ops = Vec::new();
    s.render_info(&mut ops);
    // Column 2 of 4 over 178 px: 44 + 22 - 13 = 53. Row 2 of 3 over 128 px: 42 + 21 - 11 = 52.
    assert_eq!(ops[1], DrawOp::FillRect { x: 53, y: 52, w: 13, h: 23, color: Color::White });
}

#[test]
fn set_info_count_clamps() {
    let mut s = full_screen(ScreenOrientation::Up);
    s.set_info_count(25);
    assert_eq!(s.info_count, 10);
    s.set_info_count(-3);
    assert_eq!(s.info_count, 0);
}

#[test]
fn index_past_the_end_uses_last_box() {
    let mut s = full_screen(ScreenOrientation::Up);
    s.set_info_value(42, 5);
    assert_eq!(s.info_value(9), 5);
    assert_eq!(s.info_value(100), 5);
}

#[test]
fn select_info_bolds_only_one_box() {
    let mut s = full_screen(ScreenOrientation::Up);
    s.set_info_count(3);
    s.set_info_bold(0, true);
    s.select_info(2);
    assert!(!s.infos[0].todo_bold);
    assert!(s.infos[2].todo_bold);
    s.deselect_infos();
    assert!(!s.infos[2].todo_bold);
}

#[test]
fn setup_swaps_logical_size() {
    let mut s = Screen::new(PANEL_W, PANEL_H);
    s.setup(ScreenOrientation::Left);
    assert_eq!((s.w, s.h), (128, 178));
    assert_eq!(s.orientation(), ScreenOrientation::Left);
    s.setup(ScreenOrientation::Down);
    assert_eq!((s.w, s.h), (178, 128));
}

#[test]
fn screen_to_absolute_per_orientation() {
    let up = full_screen(ScreenOrientation::Up);
    for x in [0, 1, 90, 178] {
        for y in [0, 5, 128] {
            assert_eq!(up.screen_to_absolute(x, y), (x, y));
        }
    }
    assert_eq!(full_screen(ScreenOrientation::Down).screen_to_absolute(10, 20), (168, 108));
    assert_eq!(full_screen(ScreenOrientation::Left).screen_to_absolute(10, 20), (20, 118));
    assert_eq!(full_screen(ScreenOrientation::Right).screen_to_absolute(10, 20), (158, 10));
}

#[test]
fn trig_table_values() {
    assert_eq!(sin(0), 0);
    assert_eq!(sin(90), 1000);
    assert_eq!(sin(45), 707);
    assert_eq!(cos(0), 1000);
    assert_eq!(sin(270), -1000);
    assert_eq!(sin(-30), 500);
    assert_eq!(sin(360 + 30), 500);
    assert_eq!(cos(90), 0);
}

#[test]
fn graph_arc_of_zero_degrees_draws_nothing() {
    let s = full_screen(ScreenOrientation::Up);
    let mut ops = Vec::new();
    s.draw_graph_arc(50, 50, 0, 0, 20, true, &mut ops);
    assert!(ops.is_empty());
}

#[test]
fn graph_arc_segment_count() {
    let mut s = full_screen(ScreenOrientation::Up);
    s.setup_graph(0, 100, 0, 0);
    let mut ops = Vec::new();
    s.draw_graph_arc(50, 50, 0, 90, 20, false, &mut ops);
    assert_eq!(ops.len(), 90 / 15 + 1);
    // The first segment starts and ends at the start point: (70, 50) in graph space.
    assert_eq!(ops[0], line(70, 50, 70, 50));
    // The last ends at angle 90: (50, 70), drawn at y = 100 - 70.
    assert_eq!(ops[6], line(50 + 5, 100 - 69, 50, 30));
    let mut back = Vec::new();
    s.draw_graph_arc(50, 50, 0, -45, 20, true, &mut back);
    assert_eq!(back.len(), 2 * (45 / 15 + 1));
}

#[test]
fn graph_line_bold_offsets() {
    let mut s = full_screen(ScreenOrientation::Up);
    s.setup_graph(10, 100, 3, 4);
    assert_eq!(s.graph_origin(), (13, 104));
    let mut ops = Vec::new();
    s.draw_graph_line(0, 0, 20, 0, true, &mut ops);
    assert_eq!(ops, vec![line(10, 100, 30, 100), line(10, 99, 30, 99)]);
    let mut v = Vec::new();
    s.draw_graph_line(0, 0, 0, 20, true, &mut v);
    assert_eq!(v, vec![line(10, 100, 10, 80), line(11, 100, 11, 80)]);
}

#[test]
fn graph_mapping_per_orientation() {
    let mut s = full_screen(ScreenOrientation::Left);
    s.setup_graph(10, 20, 0, 0);
    let mut ops = Vec::new();
    s.draw_graph_line(1, 2, 3, 4, false, &mut ops);
    assert_eq!(ops, vec![line(12, 21, 14, 23)]);
    let mut r = full_screen(ScreenOrientation::Right);
    r.setup_graph(10, 20, 0, 0);
    let mut ops = Vec::new();
    r.draw_graph_line(1, 2, 3, 4, false, &mut ops);
    assert_eq!(ops, vec![line(8, 19, 6, 17)]);
}

#[test]
fn box_in_info_turns_with_panel() {
    let mut s = full_screen(ScreenOrientation::Right);
    s.setup_info_area(5, 6, 50, 40);
    let mut ops = Vec::new();
    s.box_in_info(1, 2, 10, 20, Color::Black, &mut ops);
    // (6, 8) on screen maps to (178 - 8, 6); width and height swap.
    assert_eq!(ops, vec![DrawOp::FillRect { x: 170 - 20, y: 6, w: 20, h: 10, color: Color::Black }]);
}

#[test]
fn point_new_wraps() {
    assert_eq!(Point::new(300, -1), Point { x: 44, y: 255 });
    assert_eq!(Point::new(10, 20).plus(Point { x: 250, y: 1 }), Point { x: 4, y: 21 });
    assert_eq!(Point::new(0, 0).mov(-1, 1), Point { x: 255, y: 1 });
}

#[test]
fn info_box_reset_clears() {
    let mut b = InfoBox::new();
    b.setup_glyphs(&[Gph::A]);
    b.set_value(3);
    b.reset();
    assert_eq!(b.value(), 0);
    assert_eq!(b.todo_glyphs()[0], Gph::NONE);
}

#[test]
fn full_row_of_twelve_cells() {
    let mut s = full_screen(ScreenOrientation::Up);
    s.set_info_count(1);
    s.setup_info(0, 12, 1, 1, 1, 1);
    s.setup_info_glyphs(0, &[Gph::V1; 12]);
    let mut ops = Vec::new();
    s.render_info(&mut ops);
    // Area clear, then a cell clear and one segment per cell.
    assert_eq!(count_fills(&ops), 13);
    assert_eq!(count_lines(&ops), 12);
    // 12 cells of 13 px centred in 178 px start at 89 - 78 = 11.
    assert_eq!(ops[1], DrawOp::FillRect { x: 11, y: 53, w: 13, h: 23, color: Color::White });
    assert_eq!(ops[23], DrawOp::FillRect { x: 11 + 11 * 13, y: 53, w: 13, h: 23, color: Color::White });
}

#[test]
fn signed_value_through_screen() {
    let mut s = full_screen(ScreenOrientation::Up);
    s.set_info_count(1);
    s.setup_info(0, 4, 1, 1, 1, 1);
    s.setup_info_signed_value(0, 0, 3, Gph::Plus, Gph::Space, Gph::Minus);
    s.set_info_value(0, -7);
    let mut ops = Vec::new();
    s.render_info(&mut ops);
    // Area clear, then Minus (one segment), two blanks and 7 (three segments).
    assert_eq!(count_fills(&ops), 5);
    assert_eq!(count_lines(&ops), 4);
    assert_eq!(s.infos[0].todo_glyphs()[0..4], [Gph::Minus, Gph::Space, Gph::Space, Gph::V7]);
}

#[test]
fn layout_change_clears_area_again() {
    let mut s = screen_with_label();
    let mut ops = Vec::new();
    s.render_info(&mut ops);
    s.setup_info_area(4, 6, 100, 50);
    assert_eq!((s.info_x(), s.info_y(), s.info_w(), s.info_h()), (4, 6, 100, 50));
    assert_eq!(s.info_base(), (4, 6));
    assert_eq!(s.info_origin(), (4, 6));
    let mut next = Vec::new();
    s.render_info(&mut next);
    assert_eq!(next, vec![DrawOp::FillRect { x: 4, y: 6, w: 100, h: 50, color: Color::White }]);
}

#[test]
fn reset_info_empties_one_box() {
    let mut s = screen_with_label();
    s.set_info_value(0, 12);
    s.reset_info(0);
    assert_eq!(s.info_value(0), 0);
    let mut ops = Vec::new();
    s.render_info(&mut ops);
    // Only the area clear: the box has no cells left.
    assert_eq!(ops.len(), 1);
}

#[test]
fn graph_setup_and_full_info_area() {
    let mut s = Screen::new(PANEL_W, PANEL_H);
    s.setup(ScreenOrientation::Right);
    s.setup_graph(5, 7, 1, 2);
    assert_eq!(s.graph_base(), (5, 7));
    assert_eq!(s.graph_origin(), (6, 9));
    s.setup_info_area_full();
    assert_eq!(s.graph_base(), (0, 0));
    assert_eq!((s.info_w(), s.info_h()), (128, 178));
}

#[test]
fn glyph_draw_in_info_area_offset() {
    let mut s = full_screen(ScreenOrientation::Up);
    s.setup_info_area(3, 4, 50, 50);
    let mut ops = Vec::new();
    s.draw_glyph(Gph::Minus, 0, 0, false, &mut ops);
    // "aKkK": one segment from (0, 10) to (10, 10), inside a 1 px border.
    assert_eq!(
        ops,
        vec![
            DrawOp::FillRect { x: 3, y: 4, w: 13, h: 23, color: Color::White },
            line(4, 15, 14, 15),
        ]
    );
}
