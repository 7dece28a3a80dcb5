use mutxt::editor::{CursorDirection, Editor};

fn open(lines: &[&str], text_rows: usize, cols: usize) -> Editor {
    let mut editor = Editor::new(text_rows + 3, cols);
    editor.open_file("test.txt", lines.iter().map(|l| l.to_string()).collect());
    editor
}

fn go(editor: &mut Editor, dir: CursorDirection, times: usize) {
    for _ in 0..times {
        editor.move_cursor(dir);
    }
}

fn window(editor: &Editor) -> (usize, usize, usize, usize) {
    (editor.row_offset(), editor.cursor_y(), editor.col_offset(), editor.cursor_x())
}

#[test]
fn new_editor_starts_at_origin() {
    let editor = Editor::new(24, 80);
    assert_eq!(editor.screen_rows(), 21);
    assert_eq!(editor.screen_cols(), 80);
    assert_eq!(window(&editor), (0, 0, 0, 0));
    assert_eq!(editor.row_count(), 0);
    assert!(!editor.is_modified());
    assert_eq!(editor.filename, None);
    assert_eq!(editor.status_message(), None);
}

#[test]
fn right_steps_through_a_row_and_wraps_to_the_next() {
    let mut editor = open(&["ab", "c"], 10, 80);
    editor.move_cursor(CursorDirection::Right);
    assert_eq!(editor.position(), (0, 1));
    editor.move_cursor(CursorDirection::Right);
    assert_eq!(editor.position(), (0, 2));
    editor.move_cursor(CursorDirection::Right);
    assert_eq!(editor.position(), (1, 0));
    editor.move_cursor(CursorDirection::Right);
    assert_eq!(editor.position(), (1, 1));
}

#[test]
fn right_at_the_end_of_the_last_row_is_a_no_op() {
    let mut editor = open(&["ab", "c"], 10, 80);
    go(&mut editor, CursorDirection::Right, 4);
    assert_eq!(editor.position(), (1, 1));
    let before = window(&editor);
    editor.move_cursor(CursorDirection::Right);
    assert_eq!(window(&editor), before);
}

#[test]
fn left_at_the_start_of_the_document_is_a_no_op() {
    let mut editor = open(&["ab", "c"], 10, 80);
    editor.move_cursor(CursorDirection::Left);
    assert_eq!(window(&editor), (0, 0, 0, 0));
}

#[test]
fn left_at_column_zero_goes_to_the_end_of_the_row_above() {
    let mut editor = open(&["ab", "c"], 10, 80);
    editor.move_cursor(CursorDirection::Down);
    assert_eq!(editor.position(), (1, 0));
    editor.move_cursor(CursorDirection::Left);
    assert_eq!(editor.position(), (0, 2));
    assert_eq!(window(&editor), (0, 0, 0, 2));
}

#[test]
fn left_into_a_row_wider_than_the_window_shows_its_end_in_the_last_column() {
    let mut editor = open(&["abcdefgh", "x"], 10, 4);
    editor.move_cursor(CursorDirection::Down);
    editor.move_cursor(CursorDirection::Left);
    assert_eq!(editor.position(), (0, 8));
    assert_eq!(editor.cursor_x(), 3);
    assert_eq!(editor.col_offset(), 5);
}

#[test]
fn left_at_the_top_edge_scrolls_to_the_row_above() {
    let mut editor = open(&["one", "two", "three"], 2, 80);
    go(&mut editor, CursorDirection::Down, 2);
    assert_eq!((editor.row_offset(), editor.cursor_y()), (1, 1));
    editor.move_cursor(CursorDirection::Up);
    assert_eq!((editor.row_offset(), editor.cursor_y()), (1, 0));
    editor.move_cursor(CursorDirection::Left);
    assert_eq!(editor.position(), (0, 3));
    assert_eq!((editor.row_offset(), editor.cursor_y()), (0, 0));
}

#[test]
fn right_scrolls_at_the_window_right_edge() {
    let mut editor = open(&["abcdefgh"], 10, 4);
    go(&mut editor, CursorDirection::Right, 3);
    assert_eq!((editor.col_offset(), editor.cursor_x()), (0, 3));
    editor.move_cursor(CursorDirection::Right);
    assert_eq!((editor.col_offset(), editor.cursor_x()), (1, 3));
    go(&mut editor, CursorDirection::Right, 4);
    assert_eq!((editor.col_offset(), editor.cursor_x()), (5, 3));
    assert_eq!(editor.position(), (0, 8));
}

#[test]
fn left_scrolls_at_the_window_left_edge() {
    let mut editor = open(&["abcdefgh"], 10, 4);
    go(&mut editor, CursorDirection::Right, 8);
    go(&mut editor, CursorDirection::Left, 3);
    assert_eq!((editor.col_offset(), editor.cursor_x()), (5, 0));
    editor.move_cursor(CursorDirection::Left);
    assert_eq!((editor.col_offset(), editor.cursor_x()), (4, 0));
    assert_eq!(editor.position(), (0, 4));
}

#[test]
fn right_wrap_resets_the_column_offset() {
    let mut editor = open(&["abcdefgh", "x"], 10, 4);
    go(&mut editor, CursorDirection::Right, 8);
    assert_eq!(editor.col_offset(), 5);
    editor.move_cursor(CursorDirection::Right);
    assert_eq!(editor.position(), (1, 0));
    assert_eq!((editor.col_offset(), editor.cursor_x()), (0, 0));
}

#[test]
fn down_and_up_scroll_at_the_window_edges() {
    let mut editor = open(&["a", "b", "c", "d"], 2, 80);
    editor.move_cursor(CursorDirection::Down);
    assert_eq!((editor.row_offset(), editor.cursor_y()), (0, 1));
    editor.move_cursor(CursorDirection::Down);
    assert_eq!((editor.row_offset(), editor.cursor_y()), (1, 1));
    editor.move_cursor(CursorDirection::Down);
    assert_eq!((editor.row_offset(), editor.cursor_y()), (2, 1));
    editor.move_cursor(CursorDirection::Up);
    assert_eq!((editor.row_offset(), editor.cursor_y()), (2, 0));
    editor.move_cursor(CursorDirection::Up);
    assert_eq!((editor.row_offset(), editor.cursor_y()), (1, 0));
}

#[test]
fn down_below_the_last_row_is_a_no_op() {
    let mut editor = open(&["a", "b"], 10, 80);
    editor.move_cursor(CursorDirection::Down);
    assert_eq!(editor.position(), (1, 0));
    editor.move_cursor(CursorDirection::Down);
    assert_eq!(editor.position(), (1, 0));
}

#[test]
fn up_above_the_first_row_is_a_no_op() {
    let mut editor = open(&["a", "b"], 10, 80);
    editor.move_cursor(CursorDirection::Up);
    assert_eq!(window(&editor), (0, 0, 0, 0));
}

#[test]
fn moving_onto_a_shorter_row_pulls_the_cursor_to_its_end() {
    let mut editor = open(&["hello", "hi"], 10, 80);
    go(&mut editor, CursorDirection::Right, 5);
    editor.move_cursor(CursorDirection::Down);
    assert_eq!(editor.position(), (1, 2));
    assert_eq!((editor.col_offset(), editor.cursor_x()), (0, 2));
}

#[test]
fn reclamp_shrinks_the_cursor_before_the_column_offset() {
    let mut editor = open(&["abcdefgh", "abc"], 10, 4);
    go(&mut editor, CursorDirection::Right, 5);
    assert_eq!((editor.col_offset(), editor.cursor_x()), (2, 3));
    editor.move_cursor(CursorDirection::Down);
    assert_eq!(editor.position(), (1, 3));
    assert_eq!((editor.col_offset(), editor.cursor_x()), (2, 1));
}

#[test]
fn reclamp_takes_from_the_column_offset_what_the_cursor_cannot_give() {
    let mut editor = open(&["abcdefgh", "ab"], 10, 4);
    go(&mut editor, CursorDirection::Right, 6);
    assert_eq!((editor.col_offset(), editor.cursor_x()), (3, 3));
    editor.move_cursor(CursorDirection::Down);
    assert_eq!(editor.position(), (1, 2));
    assert_eq!((editor.col_offset(), editor.cursor_x()), (2, 0));
}

#[test]
fn left_then_right_returns_to_the_same_position() {
    let lines = ["ab", "", "cde"];
    for row in 0..3usize {
        for col in 0..=lines[row].len() {
            if row == 0 && col == 0 {
                continue;
            }
            if row == 2 && col == 3 {
                continue;
            }
            let mut editor = open(&lines, 10, 80);
            go(&mut editor, CursorDirection::Down, row);
            go(&mut editor, CursorDirection::Right, col);
            assert_eq!(editor.position(), (row, col));
            editor.move_cursor(CursorDirection::Left);
            editor.move_cursor(CursorDirection::Right);
            assert_eq!(editor.position(), (row, col));
            editor.move_cursor(CursorDirection::Right);
            editor.move_cursor(CursorDirection::Left);
            assert_eq!(editor.position(), (row, col));
        }
    }
}

#[test]
fn cursor_to_right_word_moves_to_the_end_of_the_next_word() {
    let mut editor = open(&["hello world"], 10, 80);
    go(&mut editor, CursorDirection::Right, 5);
    editor.cursor_to_right_word();
    assert_eq!(editor.position(), (0, 11));
}

#[test]
fn cursor_to_left_word_crosses_the_word_and_one_separator() {
    let mut editor = open(&["hello world"], 10, 80);
    go(&mut editor, CursorDirection::Right, 8);
    editor.cursor_to_left_word();
    assert_eq!(editor.position(), (0, 5));
}

#[test]
fn cursor_to_left_word_next_to_a_separator_makes_one_step() {
    let mut editor = open(&["a, b"], 10, 80);
    go(&mut editor, CursorDirection::Right, 3);
    editor.cursor_to_left_word();
    assert_eq!(editor.position(), (0, 2));
}

#[test]
fn cursor_to_right_word_at_the_end_of_a_row_wraps() {
    let mut editor = open(&["ab", "cd"], 10, 80);
    go(&mut editor, CursorDirection::Right, 2);
    editor.cursor_to_right_word();
    assert_eq!(editor.position(), (1, 0));
}

#[test]
fn left_word_then_right_word_lands_behind_the_word() {
    let mut editor = open(&["hello world"], 10, 80);
    go(&mut editor, CursorDirection::Right, 8);
    editor.cursor_to_left_word();
    editor.cursor_to_right_word();
    assert_eq!(editor.position(), (0, 11));
}

#[test]
fn left_word_then_right_word_from_a_word_at_row_start_returns_to_row_start() {
    let mut editor = open(&["x", "word end"], 10, 80);
    editor.move_cursor(CursorDirection::Down);
    go(&mut editor, CursorDirection::Right, 2);
    assert_eq!(editor.position(), (1, 2));
    editor.cursor_to_left_word();
    assert_eq!(editor.position(), (0, 1));
    editor.cursor_to_right_word();
    assert_eq!(editor.position(), (1, 0));
}

#[test]
fn word_movement_counts_unicode_letters_and_digits() {
    let mut editor = open(&["a héllo9 b"], 10, 80);
    editor.move_cursor(CursorDirection::Right);
    editor.cursor_to_right_word();
    assert_eq!(editor.position(), (0, 8));
}

#[test]
fn cursor_to_end_and_start_of_line() {
    let mut editor = open(&["abcdefgh"], 10, 4);
    go(&mut editor, CursorDirection::Right, 2);
    editor.cursor_to_end_of_line();
    assert_eq!(editor.position(), (0, 8));
    assert_eq!((editor.col_offset(), editor.cursor_x()), (5, 3));
    editor.cursor_to_start_of_line();
    assert_eq!(editor.position(), (0, 0));
    assert_eq!((editor.col_offset(), editor.cursor_x()), (0, 0));
}

#[test]
fn step_repeats_the_single_step() {
    let mut editor = open(&["ab", "cd"], 10, 80);
    editor.step(CursorDirection::Right, 4);
    assert_eq!(editor.position(), (1, 1));
    editor.step(CursorDirection::Left, 0);
    assert_eq!(editor.position(), (1, 1));
}

#[test]
fn page_down_snaps_to_the_bottom_edge_and_scrolls_a_window() {
    let lines = ["0", "1", "2", "3", "4", "5", "6", "7", "8", "9"];
    let mut editor = open(&lines, 3, 80);
    editor.page_cursor(CursorDirection::Down);
    assert_eq!(editor.position().0, 5);
    assert_eq!((editor.row_offset(), editor.cursor_y()), (3, 2));
    editor.page_cursor(CursorDirection::Down);
    assert_eq!((editor.row_offset(), editor.cursor_y()), (6, 2));
    editor.page_cursor(CursorDirection::Down);
    assert_eq!((editor.row_offset(), editor.cursor_y()), (7, 2));
    assert_eq!(editor.position().0, 9);
}

#[test]
fn page_up_snaps_to_the_top_edge_and_scrolls_a_window() {
    let lines = ["0", "1", "2", "3", "4", "5", "6", "7", "8", "9"];
    let mut editor = open(&lines, 3, 80);
    go(&mut editor, CursorDirection::Down, 7);
    assert_eq!((editor.row_offset(), editor.cursor_y()), (5, 2));
    editor.page_cursor(CursorDirection::Up);
    assert_eq!((editor.row_offset(), editor.cursor_y()), (2, 0));
    editor.page_cursor(CursorDirection::Up);
    assert_eq!((editor.row_offset(), editor.cursor_y()), (0, 0));
}

#[test]
fn page_down_in_a_short_document_stops_on_its_last_row() {
    let mut editor = open(&["abc", "d"], 5, 80);
    go(&mut editor, CursorDirection::Right, 3);
    editor.page_cursor(CursorDirection::Down);
    assert_eq!(editor.position(), (1, 1));
    assert_eq!((editor.row_offset(), editor.cursor_y()), (0, 1));
}

#[test]
fn page_sideways_makes_a_window_of_single_steps() {
    let mut editor = open(&["abcdefgh"], 3, 80);
    editor.page_cursor(CursorDirection::Right);
    assert_eq!(editor.position(), (0, 3));
    editor.page_cursor(CursorDirection::Left);
    assert_eq!(editor.position(), (0, 0));
}

#[test]
fn set_screen_size_keeps_the_cursor_in_the_document() {
    let lines = ["0123456789", "1", "2", "3", "4", "5"];
    let mut editor = open(&lines, 10, 80);
    go(&mut editor, CursorDirection::Right, 9);
    assert_eq!(editor.position(), (0, 9));
    editor.set_screen_size(5, 4);
    assert_eq!(editor.screen_rows(), 2);
    assert_eq!(editor.screen_cols(), 4);
    assert_eq!(editor.position(), (0, 9));
    assert_eq!((editor.col_offset(), editor.cursor_x()), (6, 3));
}

#[test]
fn set_screen_size_pulls_the_cursor_line_into_the_window() {
    let lines = ["0", "1", "2", "3", "4", "5"];
    let mut editor = open(&lines, 10, 80);
    go(&mut editor, CursorDirection::Down, 4);
    editor.set_screen_size(5, 80);
    assert_eq!(editor.position(), (4, 0));
    assert_eq!((editor.row_offset(), editor.cursor_y()), (3, 1));
}

#[test]
fn cursor_below_the_document_moves_only_back_into_it() {
    let mut editor = Editor::new(13, 80);
    editor.newline();
    assert_eq!(editor.row_count(), 1);
    assert_eq!(editor.position(), (1, 0));
    editor.move_cursor(CursorDirection::Right);
    assert_eq!(editor.position(), (1, 0));
    editor.move_cursor(CursorDirection::Down);
    assert_eq!(editor.position(), (1, 0));
    editor.move_cursor(CursorDirection::Left);
    assert_eq!(editor.position(), (0, 0));
}

#[test]
fn edges_tell_where_the_cursor_is_in_the_window() {
    let mut editor = open(&["abcd", "e"], 2, 4);
    assert!(editor.left_edge());
    assert!(editor.top_edge());
    assert!(!editor.right_edge());
    assert!(!editor.bottom_edge());
    go(&mut editor, CursorDirection::Right, 3);
    assert!(editor.right_edge());
    assert!(!editor.left_edge());
    editor.move_cursor(CursorDirection::Down);
    assert!(editor.bottom_edge());
    assert!(!editor.top_edge());
}
