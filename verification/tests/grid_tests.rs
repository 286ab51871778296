use term_engine::cell::Cell;
use term_engine::cell_buffer::CellBuffer;
use term_engine::color::Color;
use term_engine::color::get_color_from_u16;
use term_engine::color::get_u16_from_color;
use term_engine::cell::cell_attribute;
use term_engine::geometry::Point2d;
use term_engine::geometry::Size2d;

fn blank() -> Cell {
    Cell::new_default(' ')
}

fn buffer(width: usize, height: usize) -> CellBuffer {
    CellBuffer::new(blank(), Size2d::new(width, height))
}

#[test]
fn points_and_sizes_construct_and_degenerate_as_stated() {
    assert_eq!(Point2d::new(3, 4).add_x(2), Point2d::new(5, 4));
    assert_eq!(Point2d::empty(), Point2d::new(0, 0));
    assert!(Size2d::empty().is_empty());
    assert!(Size2d::new(0, 7).is_empty());
    assert!(Size2d::new(7, 0).is_empty());
    assert!(!Size2d::new(1, 1).is_empty());
}

#[test]
fn index_and_coordinates_round_trip() {
    let buf = buffer(7, 5);
    for x in 0..7 {
        for y in 0..5 {
            let p = Point2d::new(x, y);
            let i = buf.index_of(p);
            assert_eq!(i, x + 7 * y);
            let q = buf.coordinates_of(i);
            assert_eq!(q, p);
        }
    }
}

#[test]
fn coordinates_of_degenerate_grid_is_origin() {
    let buf = buffer(0, 5);
    assert_eq!(buf.coordinates_of(3), Point2d::empty());
    let buf = buffer(5, 0);
    assert_eq!(buf.coordinates_of(2), Point2d::empty());
}

#[test]
fn set_then_get_returns_the_written_cell() {
    let mut buf = buffer(4, 4);
    let c = Cell::new('x', Color::Red, Color::Black);
    buf.set(Point2d::new(1, 2), c);
    assert_eq!(buf.get(Point2d::new(1, 2)), c);
}

#[test]
fn set_out_of_bounds_leaves_the_buffer_unchanged() {
    let mut buf = buffer(4, 4);
    let before = buf.get_cells().clone();
    let c = Cell::new('x', Color::Red, Color::Black);
    buf.set(Point2d::new(4, 0), c);
    buf.set(Point2d::new(0, 4), c);
    buf.set(Point2d::new(100, 100), c);
    assert_eq!(buf.get_cells(), &before);
    assert_eq!(buf.get_size(), Size2d::new(4, 4));
}

#[test]
fn resize_replaces_every_cell_with_the_default() {
    let mut buf = buffer(4, 4);
    buf.set(Point2d::new(3, 3), Cell::new('x', Color::Red, Color::Blue));
    let d = Cell::new('q', Color::Green, Color::Black);
    buf.resize(d, Size2d::new(2, 3));
    assert_eq!(buf.get_size(), Size2d::new(2, 3));
    assert_eq!(buf.len(), 6);
    for i in 0..buf.len() {
        assert_eq!(buf.get_cells()[i], d);
    }
}

#[test]
fn resize_to_empty_yields_no_cells() {
    let mut buf = buffer(4, 4);
    buf.resize(blank(), Size2d::empty());
    assert_eq!(buf.len(), 0);
    assert!(buf.get_size().is_empty());
}

#[test]
fn blit_copies_the_overlap_and_keeps_the_rest() {
    let mut dest = buffer(3, 2);
    let src = CellBuffer::new(Cell::new('s', Color::Blue, Color::Black), Size2d::new(2, 2));
    dest.blit(&src, Point2d::new(2, 1));
    // Only the destination cell (2, 1) lies under the source.
    assert_eq!(dest.get(Point2d::new(2, 1)).get_char(), 's');
    for x in 0..3 {
        for y in 0..2 {
            if !(x == 2 && y == 1) {
                assert_eq!(dest.get(Point2d::new(x, y)), blank());
            }
        }
    }
}

#[test]
fn blit_stops_whole_copy_at_the_bottom_edge() {
    let mut dest = buffer(2, 2);
    let mut src = CellBuffer::new(Cell::new('a', Color::Grey, Color::Black), Size2d::new(1, 3));
    src.set(Point2d::new(0, 1), Cell::new('b', Color::Grey, Color::Black));
    src.set(Point2d::new(0, 2), Cell::new('c', Color::Grey, Color::Black));
    dest.blit(&src, Point2d::new(0, 1));
    // Row 0 of the source lands on row 1; rows 1 and 2 fall off and stop
    // the copy.
    assert_eq!(dest.get(Point2d::new(0, 1)).get_char(), 'a');
    assert_eq!(dest.get(Point2d::new(0, 0)), blank());
    assert_eq!(dest.get(Point2d::new(1, 0)), blank());
    assert_eq!(dest.get(Point2d::new(1, 1)), blank());
}

#[test]
fn blit_clips_each_row_at_the_right_edge_but_copies_later_rows() {
    let mut dest = buffer(3, 3);
    let mut src = CellBuffer::new(Cell::new('r', Color::Grey, Color::Black), Size2d::new(3, 2));
    src.set(Point2d::new(0, 1), Cell::new('u', Color::Grey, Color::Black));
    src.set(Point2d::new(1, 1), Cell::new('v', Color::Grey, Color::Black));
    src.set(Point2d::new(2, 1), Cell::new('w', Color::Grey, Color::Black));
    dest.blit(&src, Point2d::new(2, 0));
    // Each row copies only its first cell before hitting the right edge,
    // and the second row is still attempted after the first clipped.
    assert_eq!(dest.get(Point2d::new(2, 0)).get_char(), 'r');
    assert_eq!(dest.get(Point2d::new(2, 1)).get_char(), 'u');
    assert_eq!(dest.get(Point2d::new(0, 0)), blank());
    assert_eq!(dest.get(Point2d::new(1, 1)), blank());
    assert_eq!(dest.get(Point2d::new(2, 2)), blank());
}

#[test]
fn blit_past_the_right_edge_writes_nothing() {
    let mut dest = buffer(2, 2);
    let src = CellBuffer::new(Cell::new('z', Color::Grey, Color::Black), Size2d::new(2, 2));
    dest.blit(&src, Point2d::new(2, 0));
    for x in 0..2 {
        for y in 0..2 {
            assert_eq!(dest.get(Point2d::new(x, y)), blank());
        }
    }
}

#[test]
fn write_text_stops_at_the_first_out_of_bounds_character() {
    let mut buf = buffer(3, 2);
    let template = Cell::new(' ', Color::White, Color::DarkGrey);
    buf.write_text("AB", Point2d::new(2, 0), template);
    // 'A' lands on (2, 0); 'B' would land on x == 3, out of bounds, so the
    // write stops and row 0 ends as [blank, blank, 'A'].
    assert_eq!(buf.get(Point2d::new(0, 0)), blank());
    assert_eq!(buf.get(Point2d::new(1, 0)), blank());
    assert_eq!(buf.get(Point2d::new(2, 0)).get_char(), 'A');
    assert_eq!(buf.get(Point2d::new(2, 0)).get_fg_color(), Color::White);
    assert_eq!(buf.get(Point2d::new(2, 0)).get_bg_color(), Color::DarkGrey);
    for x in 0..3 {
        assert_eq!(buf.get(Point2d::new(x, 1)), blank());
    }
}

#[test]
fn write_text_applies_template_colors_to_every_character() {
    let mut buf = buffer(5, 1);
    let template = Cell::new('#', Color::Yellow, Color::DarkBlue);
    buf.write_text("hi", Point2d::new(1, 0), template);
    assert_eq!(buf.get(Point2d::new(1, 0)), Cell::new('h', Color::Yellow, Color::DarkBlue));
    assert_eq!(buf.get(Point2d::new(2, 0)), Cell::new('i', Color::Yellow, Color::DarkBlue));
    assert_eq!(buf.get(Point2d::new(0, 0)), blank());
    assert_eq!(buf.get(Point2d::new(3, 0)), blank());
}

#[test]
fn write_text_below_the_grid_writes_nothing() {
    let mut buf = buffer(3, 2);
    buf.write_text("AB", Point2d::new(0, 2), Cell::new(' ', Color::White, Color::Black));
    for x in 0..3 {
        for y in 0..2 {
            assert_eq!(buf.get(Point2d::new(x, y)), blank());
        }
    }
}

#[test]
fn repeat_cell_fills_a_run_and_stops_at_the_edge() {
    let mut buf = buffer(4, 2);
    let c = Cell::new('-', Color::Grey, Color::Black);
    buf.repeat_cell(c, Point2d::new(2, 1), 5);
    assert_eq!(buf.get(Point2d::new(2, 1)), c);
    assert_eq!(buf.get(Point2d::new(3, 1)), c);
    assert_eq!(buf.get(Point2d::new(0, 1)), blank());
    assert_eq!(buf.get(Point2d::new(1, 1)), blank());
    for x in 0..4 {
        assert_eq!(buf.get(Point2d::new(x, 0)), blank());
    }
}

#[test]
fn cell_accessors_read_and_write_each_field() {
    let mut c = Cell::new('a', Color::Red, Color::Blue);
    assert_eq!(c.get_char(), 'a');
    assert_eq!(c.get_fg_color(), Color::Red);
    assert_eq!(c.get_bg_color(), Color::Blue);
    c.set_char('b');
    assert_eq!(c, Cell::new('b', Color::Red, Color::Blue));
    c.set_fg_color(Color::Green);
    c.set_bg_color(Color::White);
    assert_eq!(c, Cell::new('b', Color::Green, Color::White));
    c.set_colors(Color::Black, Color::Grey);
    assert_eq!(c, Cell::new('b', Color::Black, Color::Grey));
    let other = Cell::new('z', Color::Cyan, Color::Magenta);
    c.copy_from(&other);
    assert_eq!(c, other);
}

#[test]
fn color_codes_round_trip_for_all_sixteen_colors() {
    let colors = [
        Color::Black,
        Color::DarkBlue,
        Color::DarkGreen,
        Color::DarkCyan,
        Color::DarkRed,
        Color::DarkMagenta,
        Color::DarkYellow,
        Color::Grey,
        Color::DarkGrey,
        Color::Blue,
        Color::Green,
        Color::Cyan,
        Color::Red,
        Color::Magenta,
        Color::Yellow,
        Color::White,
    ];
    for (i, color) in colors.iter().enumerate() {
        assert_eq!(get_u16_from_color(*color), i as u16);
        assert_eq!(get_color_from_u16(i as u16), *color);
    }
}

#[test]
fn color_of_code_reads_only_the_low_four_bits() {
    assert_eq!(get_color_from_u16(0x1F), Color::White);
    assert_eq!(get_color_from_u16(0xF0), Color::Black);
}

#[test]
fn cell_attribute_packs_background_high_and_foreground_low() {
    let c = Cell::new(' ', Color::White, Color::DarkBlue);
    assert_eq!(cell_attribute(&c), 0x1F);
    let d = Cell::new(' ', Color::Black, Color::Black);
    assert_eq!(cell_attribute(&d), 0x00);
}
