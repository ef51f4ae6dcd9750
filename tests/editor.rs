use hex_editor::display::{ascii_char, RowView};
use hex_editor::editor::{HexEditor, Navigation};
use hex_editor::geometry::{MAX_CELL_X, MAX_CELL_Y, ROW_WIDTH, VIEWPORT_BYTES};
use hex_editor::grid::{
    cell_for_byte_within_row, next_byte_column, offset_for_cell, previous_byte_column,
};
use hex_editor::hex_input::parse_hex_byte;
use hex_editor::viewport::{clamp_axis, max_view_start};

fn bytes_0_to(n: usize) -> Vec<u8> {
    (0..n).map(|i| i as u8).collect()
}

fn editor_with(n: usize) -> HexEditor {
    let mut e = HexEditor::new();
    e.load(bytes_0_to(n), String::from("rom.gb"));
    e
}

fn place_cursor(e: &mut HexEditor, x: usize, y: usize) {
    let (cx, cy) = e.cursor_pos();
    e.move_cursor(x as isize - cx as isize, y as isize - cy as isize);
    assert_eq!(e.cursor_pos(), (x, y));
}

#[test]
fn new_editor_is_empty_at_origin() {
    let e = HexEditor::new();
    assert!(e.data().is_empty());
    assert!(!e.is_modified());
    assert_eq!(e.view_offset(), 0);
    assert_eq!(e.cursor_pos(), (0, 0));
    assert!(e.path().is_none());
}

#[test]
fn twenty_byte_buffer_resolves_cells() {
    let mut e = editor_with(20);
    place_cursor(&mut e, 10, 0);
    assert_eq!(e.get_cursor_offset(), Some(0));
    place_cursor(&mut e, 10, 1);
    assert_eq!(e.get_cursor_offset(), Some(16));
    place_cursor(&mut e, 10 + 3 * 4, 1);
    assert_eq!(e.get_cursor_offset(), None);
    place_cursor(&mut e, 10 + 3 * 3, 1);
    assert_eq!(e.get_cursor_offset(), Some(19));
}

#[test]
fn cells_outside_hex_block_resolve_nothing() {
    assert_eq!(offset_for_cell(9, 0, 0, 100), None);
    assert_eq!(offset_for_cell(12, 0, 0, 100), None);
    assert_eq!(offset_for_cell(58, 0, 0, 100), None);
    assert_eq!(offset_for_cell(11, 0, 0, 100), Some(0));
    assert_eq!(offset_for_cell(13, 2, 32, 100), Some(65));
    assert_eq!(offset_for_cell(55, 0, 0, 100), Some(15));
    assert_eq!(offset_for_cell(10, usize::MAX, 0, usize::MAX), None);
}

#[test]
fn edit_then_save_clears_modified() {
    let mut e = editor_with(20);
    e.edit_byte(0x05, 0x00);
    e.mark_saved();
    e.edit_byte(0x05, 0xFF);
    assert_eq!(e.data()[5], 0xFF);
    assert!(e.is_modified());
    e.mark_saved();
    assert!(!e.is_modified());
    assert_eq!(e.data().len(), 20);
    assert_eq!(e.data()[5], 0xFF);
    let mut expected = bytes_0_to(20);
    expected[5] = 0xFF;
    assert_eq!(e.data(), &expected);
}

#[test]
fn edit_past_end_changes_nothing() {
    let mut e = editor_with(20);
    e.edit_byte(20, 0xAA);
    e.edit_byte(usize::MAX, 0xAA);
    assert_eq!(e.data(), &bytes_0_to(20));
    assert!(!e.is_modified());
}

#[test]
fn empty_buffer_resolves_nothing_and_never_scrolls() {
    let mut e = HexEditor::new();
    for x in 0..=MAX_CELL_X {
        for y in 0..=MAX_CELL_Y {
            assert_eq!(offset_for_cell(x, y, 0, 0), None);
            place_cursor(&mut e, x, y);
            assert_eq!(e.get_cursor_offset(), None);
        }
    }
    assert_eq!(max_view_start(0), 0);
    e.scroll(1);
    assert_eq!(e.view_offset(), 0);
    e.scroll(-1);
    assert_eq!(e.view_offset(), 0);
    assert!(e.visible_rows().is_empty());
}

#[test]
fn move_cursor_clamps_large_deltas() {
    let mut e = HexEditor::new();
    e.move_cursor(isize::MAX, isize::MAX);
    assert_eq!(e.cursor_pos(), (MAX_CELL_X, MAX_CELL_Y));
    e.move_cursor(isize::MIN, isize::MIN);
    assert_eq!(e.cursor_pos(), (0, 0));
    e.move_cursor(-3, -1);
    assert_eq!(e.cursor_pos(), (0, 0));
    e.move_cursor(13, 4);
    assert_eq!(e.cursor_pos(), (13, 4));
    assert_eq!((MAX_CELL_X, MAX_CELL_Y), (57, 29));
}

#[test]
fn clamp_axis_exact_values() {
    assert_eq!(clamp_axis(5, -2, 10), 3);
    assert_eq!(clamp_axis(5, -5, 10), 0);
    assert_eq!(clamp_axis(5, -6, 10), 0);
    assert_eq!(clamp_axis(5, 5, 10), 10);
    assert_eq!(clamp_axis(5, 4, 10), 9);
    assert_eq!(clamp_axis(0, isize::MIN, 10), 0);
}

#[test]
fn scroll_forward_converges_to_max() {
    let mut e = editor_with(1000);
    let max = max_view_start(1000);
    assert_eq!(max, 1000 - VIEWPORT_BYTES);
    assert_eq!(max, 520);
    let mut steps = 0;
    while e.view_offset() < max {
        e.scroll(1);
        steps += 1;
    }
    assert_eq!(e.view_offset(), max);
    assert_eq!(steps, (max + ROW_WIDTH - 1) / ROW_WIDTH);
    e.scroll(1);
    assert_eq!(e.view_offset(), max);
    e.scroll(0);
    assert_eq!(e.view_offset(), max);
    for _ in 0..100 {
        e.scroll(-1);
    }
    assert_eq!(e.view_offset(), 0);
    e.scroll(-1);
    assert_eq!(e.view_offset(), 0);
}

#[test]
fn scroll_keeps_cursor_cell() {
    let mut e = editor_with(600);
    place_cursor(&mut e, 10, 0);
    assert_eq!(e.get_cursor_offset(), Some(0));
    e.scroll(1);
    assert_eq!(e.cursor_pos(), (10, 0));
    assert_eq!(e.view_offset(), 16);
    assert_eq!(e.get_cursor_offset(), Some(16));
}

#[test]
fn small_buffer_does_not_scroll() {
    let mut e = editor_with(VIEWPORT_BYTES);
    e.scroll(1);
    assert_eq!(e.view_offset(), 0);
}

#[test]
fn navigation_commands() {
    let mut e = editor_with(2000);
    e.navigate(Navigation::Right);
    e.navigate(Navigation::Right);
    e.navigate(Navigation::Down);
    assert_eq!(e.cursor_pos(), (13, 1));
    assert_eq!(e.get_cursor_offset(), Some(17));
    e.navigate(Navigation::Left);
    e.navigate(Navigation::Up);
    e.navigate(Navigation::Up);
    assert_eq!(e.cursor_pos(), (10, 0));
    assert_eq!(e.get_cursor_offset(), Some(0));
    e.navigate(Navigation::PageDown);
    e.navigate(Navigation::PageDown);
    assert_eq!(e.view_offset(), 32);
    assert_eq!(e.get_cursor_offset(), Some(32));
    e.navigate(Navigation::PageUp);
    assert_eq!(e.view_offset(), 16);
}

#[test]
fn horizontal_navigation_lands_on_first_digits() {
    let mut e = editor_with(20);
    e.navigate(Navigation::Left);
    assert_eq!(e.cursor_pos(), (10, 0));
    for i in 1..ROW_WIDTH {
        e.navigate(Navigation::Right);
        assert_eq!(e.cursor_pos(), (10 + 3 * i, 0));
        assert_eq!(e.get_cursor_offset(), Some(i));
    }
    e.navigate(Navigation::Right);
    assert_eq!(e.cursor_pos(), (55, 0));
    for i in (0..ROW_WIDTH - 1).rev() {
        e.navigate(Navigation::Left);
        assert_eq!(e.cursor_pos(), (10 + 3 * i, 0));
    }
    e.navigate(Navigation::Left);
    assert_eq!(e.cursor_pos(), (10, 0));
    place_cursor(&mut e, MAX_CELL_X, 0);
    e.navigate(Navigation::Left);
    assert_eq!(e.cursor_pos(), (52, 0));
    place_cursor(&mut e, 11, 0);
    e.navigate(Navigation::Right);
    assert_eq!(e.cursor_pos(), (13, 0));
}

#[test]
fn edit_through_navigation() {
    let mut e = editor_with(20);
    for _ in 0..3 {
        e.navigate(Navigation::Right);
    }
    e.navigate(Navigation::Down);
    let offset = e.get_cursor_offset().unwrap();
    assert_eq!(offset, 18);
    e.edit_byte(offset, parse_hex_byte("ab").unwrap());
    assert_eq!(e.data()[18], 0xAB);
    let rows = e.visible_rows();
    assert_eq!(rows[1].cursor_index, Some(2));
}

#[test]
fn load_resets_view_and_flag_but_keeps_cursor() {
    let mut e = editor_with(2000);
    e.scroll(1);
    e.edit_byte(3, 9);
    place_cursor(&mut e, 13, 2);
    e.load(vec![1, 2, 3], String::from("other.bin"));
    assert_eq!(e.view_offset(), 0);
    assert!(!e.is_modified());
    assert_eq!(e.cursor_pos(), (13, 2));
    assert_eq!(e.data(), &vec![1, 2, 3]);
    assert_eq!(e.path().as_deref(), Some("other.bin"));
    assert_eq!(e.get_cursor_offset(), None);
}

#[test]
fn set_path_keeps_buffer() {
    let mut e = editor_with(4);
    e.edit_byte(1, 7);
    e.set_path(String::from("out.bin"));
    assert_eq!(e.path().as_deref(), Some("out.bin"));
    assert!(e.is_modified());
    assert_eq!(e.data(), &vec![0, 7, 2, 3]);
}

#[test]
fn cell_for_byte_matches_offset_for_cell() {
    for view in [0usize, 16, 21] {
        for row in 0..5usize {
            for i in 0..ROW_WIDTH {
                let (x, y) = cell_for_byte_within_row(i, row);
                assert_eq!((x, y), (10 + 3 * i, row));
                assert_eq!(offset_for_cell(x, y, view, 1000), Some(view + row * 16 + i));
            }
        }
    }
}

#[test]
fn visible_rows_of_partial_last_row() {
    let mut e = editor_with(20);
    place_cursor(&mut e, 10 + 3 * 2, 1);
    let rows: Vec<RowView> = e.visible_rows();
    assert_eq!(rows.len(), 2);
    assert_eq!(rows[0].address, 0);
    assert_eq!(rows[0].bytes, bytes_0_to(16));
    assert_eq!(rows[0].cursor_index, None);
    assert_eq!(rows[1].address, 16);
    assert_eq!(rows[1].bytes, vec![16, 17, 18, 19]);
    assert_eq!(rows[1].cursor_index, Some(2));
    place_cursor(&mut e, 10 + 3 * 5, 1);
    assert_eq!(e.visible_rows()[1].cursor_index, None);
}

#[test]
fn visible_rows_stop_at_viewport_end() {
    let mut e = editor_with(2000);
    e.scroll(1);
    let rows = e.visible_rows();
    assert_eq!(rows.len(), 30);
    assert_eq!(rows[0].address, 16);
    assert_eq!(rows[29].address, 16 + 29 * 16);
    assert_eq!(rows[29].bytes.len(), 16);
}

#[test]
fn ascii_column_characters() {
    assert_eq!(ascii_char(b'A'), 'A');
    assert_eq!(ascii_char(32), ' ');
    assert_eq!(ascii_char(126), '~');
    assert_eq!(ascii_char(31), '.');
    assert_eq!(ascii_char(127), '.');
    assert_eq!(ascii_char(0xE9), '.');
}

#[test]
fn parse_hex_byte_values() {
    assert_eq!(parse_hex_byte("1F"), Some(0x1F));
    assert_eq!(parse_hex_byte("ff"), Some(0xFF));
    assert_eq!(parse_hex_byte("0"), Some(0));
    assert_eq!(parse_hex_byte("000A"), Some(10));
    assert_eq!(parse_hex_byte("+7"), Some(7));
    assert_eq!(parse_hex_byte(""), None);
    assert_eq!(parse_hex_byte("+"), None);
    assert_eq!(parse_hex_byte("-1"), None);
    assert_eq!(parse_hex_byte("100"), None);
    assert_eq!(parse_hex_byte("1G"), None);
    assert_eq!(parse_hex_byte("é"), None);
    assert_eq!(parse_hex_byte("FFF0"), None);
    for s in ["1F", "ff", "0", "+7", "", "+", "-1", "100", "1G", "FFF0", "++1", " 1"] {
        assert_eq!(parse_hex_byte(s), u8::from_str_radix(s, 16).ok());
    }
}

#[test]
fn byte_column_steps() {
    assert_eq!(next_byte_column(0), 10);
    assert_eq!(next_byte_column(9), 10);
    assert_eq!(next_byte_column(10), 13);
    assert_eq!(next_byte_column(12), 13);
    assert_eq!(next_byte_column(55), 55);
    assert_eq!(next_byte_column(57), 55);
    assert_eq!(previous_byte_column(0), 10);
    assert_eq!(previous_byte_column(10), 10);
    assert_eq!(previous_byte_column(14), 10);
    assert_eq!(previous_byte_column(16), 13);
    assert_eq!(previous_byte_column(57), 52);
}
