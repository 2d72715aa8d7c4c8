use rudit::buffer::Buffer;
use rudit::pos::Pos;

#[test]
fn new_buffer_is_empty() {
    let b = Buffer::new();
    assert_eq!(b.content_lines_len(), 0);
    assert_eq!(b.get_cursor(), Pos::new(0, 0));
    assert_eq!(b.get_contents(), "");
    assert_eq!(b.save_to_string(), "");
}

#[test]
fn load_splits_lines_and_drops_final_terminator() {
    let b = Buffer::load_from_str("alpha\nbeta\n");
    assert_eq!(b.content_lines_len(), 2);
    assert_eq!(b.get_contents(), "alpha\nbeta");
    let b2 = Buffer::load_from_str("alpha\nbeta");
    assert_eq!(b2.content_lines_len(), 2);
    let b3 = Buffer::load_from_str("a\n\nb");
    assert_eq!(b3.content_lines_len(), 3);
    let b4 = Buffer::load_from_str("");
    assert_eq!(b4.content_lines_len(), 0);
    let b5 = Buffer::load_from_str("\n");
    assert_eq!(b5.content_lines_len(), 1);
    assert_eq!(b5.get_contents(), "");
}

#[test]
fn save_load_round_trip_terminates_every_line() {
    let text = "one\ntwo\nthree";
    let b = Buffer::load_from_str(text);
    assert_eq!(b.save_to_string(), "one\ntwo\nthree\n");
    let terminated = "one\ntwo\nthree\n";
    let b2 = Buffer::load_from_str(terminated);
    assert_eq!(b2.save_to_string(), terminated);
    let empty = Buffer::load_from_str("");
    assert_eq!(empty.save_to_string(), "");
}

#[test]
fn insert_then_delete_back_restores_buffer() {
    let mut b = Buffer::load_from_str("hello");
    b.move_cursor(Pos::new(2, 0));
    b.add_str_at_cursor("xyz").unwrap();
    assert_eq!(b.get_contents(), "hexyzllo");
    assert_eq!(b.get_cursor(), Pos::new(5, 0));
    b.delete_n_chars_back_from_cursor(3).unwrap();
    assert_eq!(b.get_contents(), "hello");
    assert_eq!(b.get_cursor(), Pos::new(2, 0));
}

#[test]
fn split_then_delete_back_restores_line() {
    let mut b = Buffer::load_from_str("abcd");
    b.move_cursor(Pos::new(2, 0));
    b.add_line_at_cursor().unwrap();
    assert_eq!(b.content_lines_len(), 2);
    assert_eq!(b.get_contents(), "ab\ncd");
    assert_eq!(b.get_cursor(), Pos::new(0, 1));
    b.delete_n_chars_back_from_cursor(1).unwrap();
    assert_eq!(b.content_lines_len(), 1);
    assert_eq!(b.get_contents(), "abcd");
    assert_eq!(b.get_cursor(), Pos::new(2, 0));
}

#[test]
fn move_left_at_document_start_moves_nothing() {
    let mut b = Buffer::load_from_str("ab\ncd");
    assert_eq!(b.get_cursor(), Pos::new(0, 0));
    let moved = b.move_left_n(5);
    assert_eq!(moved, 0);
    assert_eq!(b.get_cursor(), Pos::new(0, 0));
}

#[test]
fn move_right_at_document_end_moves_nothing() {
    let mut b = Buffer::load_from_str("ab\ncd");
    b.move_cursor(Pos::new(2, 1));
    let moved = b.move_right_n(5);
    assert_eq!(moved, 0);
    assert_eq!(b.get_cursor(), Pos::new(2, 1));
}

#[test]
fn movement_crosses_line_boundaries() {
    let mut b = Buffer::load_from_str("ab\ncd");
    b.move_cursor(Pos::new(1, 1));
    let moved = b.move_left_n(2);
    assert_eq!(moved, 2);
    assert_eq!(b.get_cursor(), Pos::new(2, 0));
    let moved = b.move_right_n(3);
    assert_eq!(moved, 3);
    assert_eq!(b.get_cursor(), Pos::new(2, 1));
}

#[test]
fn delete_back_across_line_start_merges_lines() {
    let mut b = Buffer::load_from_str("ab\ncd");
    b.move_cursor(Pos::new(0, 1));
    b.delete_n_chars_back_from_cursor(1).unwrap();
    assert_eq!(b.content_lines_len(), 1);
    assert_eq!(b.get_contents(), "abcd");
    assert_eq!(b.get_cursor(), Pos::new(2, 0));
}

#[test]
fn empty_insert_enter_insert_yields_two_lines() {
    let mut b = Buffer::new();
    b.add_str_at_cursor("hi").unwrap();
    b.add_line_at_cursor().unwrap();
    b.add_str_at_cursor("there").unwrap();
    assert_eq!(b.content_lines_len(), 2);
    assert_eq!(b.get_contents(), "hi\nthere");
    assert_eq!(b.get_cursor(), Pos::new(5, 1));
}

#[test]
fn scroll_follows_cursor_down() {
    let mut b = Buffer::load_from_str("l0\nl1\nl2\nl3\nl4\nl5\nl6\nl7\nl8\nl9");
    b.set_viewport_size(Pos::new(80, 3));
    b.move_cursor(Pos::new(0, 7));
    let rows = b.get_viewport();
    assert_eq!(rows.len(), 3);
    assert_eq!(rows[0].1, "l5");
    assert_eq!(rows[1].1, "l6");
    assert_eq!(rows[2].1, "l7");
    assert_eq!(rows[0].0, Pos::new(0, 0));
    assert_eq!(rows[2].0, Pos::new(0, 2));
}

#[test]
fn scroll_follows_cursor_back_up() {
    let mut b = Buffer::load_from_str("l0\nl1\nl2\nl3\nl4\nl5\nl6\nl7\nl8\nl9");
    b.set_viewport_size(Pos::new(80, 3));
    b.move_cursor(Pos::new(0, 7));
    b.move_cursor(Pos::new(0, 1));
    let rows = b.get_viewport();
    assert_eq!(rows[0].1, "l1");
}

#[test]
fn viewport_is_placed_at_screen_origin() {
    let mut b = Buffer::load_from_str("one\ntwo");
    b.set_viewport_size(Pos::new(10, 5));
    b.set_top_left_corner(Pos::new(3, 4));
    let rows = b.get_viewport();
    assert_eq!(rows.len(), 2);
    assert_eq!(rows[0].0, Pos::new(3, 4));
    assert_eq!(rows[1].0, Pos::new(3, 5));
}

#[test]
fn cursor_screen_position_offsets_by_origin_and_scroll() {
    let mut b = Buffer::load_from_str("one\ntwo\nthree");
    b.set_viewport_size(Pos::new(10, 2));
    b.set_top_left_corner(Pos::new(1, 1));
    b.move_cursor(Pos::new(2, 2));
    // scroll.y capped to 1, so the cursor sits one row below the origin.
    assert_eq!(b.get_viewport_pos(), Pos::new(3, 2));
}

#[test]
fn move_cursor_clamps_to_document() {
    let mut b = Buffer::load_from_str("ab");
    b.move_cursor(Pos::new(100, 100));
    assert_eq!(b.get_cursor(), Pos::new(2, 0));
    let mut e = Buffer::new();
    e.move_cursor(Pos::new(100, 100));
    assert_eq!(e.get_cursor(), Pos::new(0, 0));
}

#[test]
fn move_cursor_relative_adds_then_clamps() {
    let mut b = Buffer::load_from_str("abcdef\nxy");
    b.move_cursor(Pos::new(1, 0));
    b.move_cursor_relative(Pos::new(2, 1));
    assert_eq!(b.get_cursor(), Pos::new(2, 1));
}

#[test]
fn delete_front_removes_without_moving_cursor() {
    let mut b = Buffer::load_from_str("abc");
    b.delete_n_chars_front_from_cursor(2).unwrap();
    assert_eq!(b.get_contents(), "c");
    assert_eq!(b.get_cursor(), Pos::new(0, 0));
}

#[test]
fn delete_front_stops_at_document_end() {
    let mut b = Buffer::load_from_str("ab");
    b.delete_n_chars_front_from_cursor(10).unwrap();
    assert_eq!(b.get_contents(), "");
    assert_eq!(b.content_lines_len(), 1);
}

#[test]
fn delete_back_stops_at_document_start() {
    let mut b = Buffer::load_from_str("ab");
    b.move_cursor(Pos::new(1, 0));
    b.delete_n_chars_back_from_cursor(10).unwrap();
    assert_eq!(b.get_contents(), "b");
    assert_eq!(b.get_cursor(), Pos::new(0, 0));
}

#[test]
fn empty_content_clears_everything() {
    let mut b = Buffer::load_from_str("one\ntwo");
    b.move_cursor(Pos::new(1, 1));
    b.empty_content();
    assert_eq!(b.content_lines_len(), 0);
    assert_eq!(b.get_cursor(), Pos::new(0, 0));
}

#[test]
fn move_up_down_saturate_and_clamp() {
    let mut b = Buffer::load_from_str("long line\nab");
    b.move_up();
    assert_eq!(b.get_cursor(), Pos::new(0, 0));
    b.move_cursor(Pos::new(6, 0));
    b.move_down();
    assert_eq!(b.get_cursor(), Pos::new(2, 1));
    b.move_down();
    assert_eq!(b.get_cursor(), Pos::new(2, 1));
}

#[test]
fn move_up_n_and_down_n_iterate() {
    let mut b = Buffer::load_from_str("a\nb\nc\nd\ne");
    b.move_down_n(3);
    assert_eq!(b.get_cursor(), Pos::new(0, 3));
    b.move_up_n(2);
    assert_eq!(b.get_cursor(), Pos::new(0, 1));
}

#[test]
fn move_line_end_goes_to_line_length() {
    let mut b = Buffer::load_from_str("hello\nworld!");
    b.move_line_end();
    assert_eq!(b.get_cursor(), Pos::new(5, 0));
    b.move_cursor(Pos::new(0, 1));
    b.move_line_end();
    assert_eq!(b.get_cursor(), Pos::new(6, 1));
}

#[test]
fn insert_into_empty_buffer_appends_line() {
    let mut b = Buffer::new();
    b.add_str_at_cursor("text").unwrap();
    assert_eq!(b.content_lines_len(), 1);
    assert_eq!(b.get_contents(), "text");
    assert_eq!(b.get_cursor(), Pos::new(4, 0));
}

#[test]
fn enter_on_empty_buffer_appends_empty_line() {
    let mut b = Buffer::new();
    b.add_line_at_cursor().unwrap();
    assert_eq!(b.content_lines_len(), 1);
    assert_eq!(b.get_cursor(), Pos::new(0, 0));
}

#[test]
fn pos_saturating_arithmetic() {
    let a = Pos::new(3, 4);
    let d = Pos::new(2, 10);
    assert_eq!(a.saturating_add(d), Pos::new(5, 14));
    assert_eq!(a.saturating_sub(d), Pos::new(1, 0));
    assert_eq!(Pos::new(usize::MAX, 0).saturating_add(Pos::new(1, 1)), Pos::new(usize::MAX, 1));
}
