use mutxt::row::{HighlightType, Row};

fn normal(cells: &str) -> Vec<(char, HighlightType)> {
    cells.chars().map(|c| (c, HighlightType::Normal)).collect()
}

#[test]
fn tab_renders_as_four_normal_cells() {
    let row = Row::with_content("\t");
    let cells = row.render();
    assert_eq!(cells.len(), 4);
    for cell in cells {
        assert_eq!(cell, (' ', HighlightType::Normal));
    }
}

#[test]
fn row_new_keeps_index_and_content() {
    let row = Row::new(7, "let x = 1;");
    assert_eq!(row.index_in_file(), 7);
    assert_eq!(row.content(), "let x = 1;");
    assert_eq!(row.len(), 10);
}

#[test]
fn row_with_content_has_index_zero() {
    let row = Row::with_content("abc");
    assert_eq!(row.index_in_file(), 0);
    assert_eq!(row.content(), "abc");
}

#[test]
fn row_empty_is_addressable() {
    let row = Row::empty();
    assert_eq!(row.index_in_file(), 0);
    assert_eq!(row.len(), 0);
    assert_eq!(row.content(), "");
    assert!(row.is_end(0));
    assert!(!row.column_exists(0));
    assert_eq!(row.render(), vec![]);
}

#[test]
fn row_render_maps_plain_characters_one_to_one() {
    let row = Row::with_content("a b");
    assert_eq!(row.render(), normal("a b"));
}

#[test]
fn row_render_expands_each_tab() {
    let row = Row::with_content("a\tb\t");
    assert_eq!(row.render(), normal("a    b    "));
}

#[test]
fn row_push_str_appends() {
    let mut row = Row::new(3, "ab");
    row.push_str(String::from("cd"));
    assert_eq!(row.content(), "abcd");
    assert_eq!(row.index_in_file(), 3);
}

#[test]
fn row_backspace_removes_character_left_of_column() {
    let mut row = Row::with_content("abc");
    row.backspace(2);
    assert_eq!(row.content(), "ac");
    row.backspace(2);
    assert_eq!(row.content(), "a");
    row.backspace(1);
    assert_eq!(row.content(), "");
}

#[test]
fn row_backspace_at_column_zero_changes_nothing() {
    let mut row = Row::with_content("abc");
    row.backspace(0);
    assert_eq!(row.content(), "abc");
}

#[test]
fn row_backspace_past_the_end_changes_nothing() {
    let mut row = Row::with_content("abc");
    row.backspace(4);
    assert_eq!(row.content(), "abc");
}

#[test]
fn row_insert_char_inserts_at_column() {
    let mut row = Row::with_content("ac");
    row.insert_char(1, 'b');
    assert_eq!(row.content(), "abc");
    row.insert_char(0, '>');
    assert_eq!(row.content(), ">abc");
    row.insert_char(4, '<');
    assert_eq!(row.content(), ">abc<");
}

#[test]
fn row_column_exists_and_is_end() {
    let row = Row::with_content("abc");
    assert!(row.column_exists(0));
    assert!(row.column_exists(2));
    assert!(!row.column_exists(3));
    assert!(!row.is_end(2));
    assert!(row.is_end(3));
    assert!(!row.is_end(4));
}

#[test]
fn row_char_at_gives_the_character_or_none() {
    let row = Row::with_content("xyz");
    assert_eq!(row.char_at(0), Some('x'));
    assert_eq!(row.char_at(2), Some('z'));
    assert_eq!(row.char_at(3), None);
}

#[test]
fn row_split_off_keeps_the_head_and_returns_the_tail() {
    let mut row = Row::new(5, "hello world");
    let rest = row.split_off(5);
    assert_eq!(row.content(), "hello");
    assert_eq!(row.index_in_file(), 5);
    assert_eq!(rest.content(), " world");
    assert_eq!(rest.index_in_file(), 0);
}

#[test]
fn row_absorb_appends_the_other_row() {
    let mut row = Row::new(2, "ab");
    row.absorb(Row::new(9, "cd"));
    assert_eq!(row.content(), "abcd");
    assert_eq!(row.index_in_file(), 2);
}

#[test]
fn row_columns_count_characters_not_bytes() {
    let mut row = Row::with_content("héllo");
    assert_eq!(row.len(), 5);
    assert!(row.is_end(5));
    row.insert_char(2, 'ß');
    assert_eq!(row.content(), "héßllo");
    row.backspace(2);
    assert_eq!(row.content(), "hßllo");
}
