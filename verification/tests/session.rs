use mutxt::clip::Clipboard;
use mutxt::editor::Editor;
use mutxt::keyboard::Command;
use mutxt::session::{Action, STATUS_SECONDS};

fn session(lines: &[&str]) -> Editor {
    let mut editor = Editor::new(13, 80);
    editor.open_file("notes.txt", lines.iter().map(|l| l.to_string()).collect());
    editor
}

fn rows_of(editor: &Editor) -> Vec<String> {
    (0..editor.row_count()).map(|r| editor.row_text(r).unwrap()).collect()
}

#[test]
fn save_of_an_unmodified_document_writes_nothing() {
    let editor = session(&["abc", "de"]);
    assert!(!editor.is_modified());
    assert_eq!(editor.save_file(), None);
}

#[test]
fn save_of_a_modified_document_writes_every_row_and_a_line_feed() {
    let mut editor = session(&["abc", "de"]);
    editor.insert_char('>');
    assert_eq!(editor.save_file(), Some(String::from(">abc\nde\n")));
}

#[test]
fn save_of_a_document_emptied_by_editing_writes_an_empty_file() {
    let mut editor = Editor::new(13, 80);
    editor.insert_char('x');
    editor.backspace();
    assert_eq!(editor.save_file(), Some(String::from("\n")));
}

#[test]
fn save_finished_after_success_clears_modified_and_tells_the_file() {
    let mut editor = session(&["abc"]);
    editor.insert_char('x');
    editor.save_finished(true);
    assert!(!editor.is_modified());
    assert_eq!(
        editor.status_message(),
        Some(String::from("Successfully written to notes.txt"))
    );
    assert_eq!(editor.save_file(), None);
}

#[test]
fn save_finished_after_failure_keeps_modified_and_reports() {
    let mut editor = session(&["abc"]);
    editor.insert_char('x');
    editor.save_finished(false);
    assert!(editor.is_modified());
    assert_eq!(editor.status_message(), Some(String::from("Failed to save file")));
}

#[test]
fn status_message_is_set_and_emptied() {
    let mut editor = session(&[]);
    assert_eq!(editor.status_message(), None);
    editor.display_status("HELP: CTRL-S to save the file, and CTRL-Q to quit.");
    assert_eq!(
        editor.status_message(),
        Some(String::from("HELP: CTRL-S to save the file, and CTRL-Q to quit."))
    );
    editor.empty_status();
    assert_eq!(editor.status_message(), None);
}

#[test]
fn status_message_stays_for_ten_seconds() {
    assert_eq!(STATUS_SECONDS, 10);
    let mut editor = session(&[]);
    editor.display_status("note");
    editor.expire_status(0, 0);
    assert!(editor.status_message().is_some());
    editor.expire_status(9, 999_999_999);
    assert!(editor.status_message().is_some());
    editor.expire_status(10, 0);
    assert!(editor.status_message().is_some());
    editor.expire_status(10, 1);
    assert_eq!(editor.status_message(), None);
    editor.display_status("note");
    editor.expire_status(11, 0);
    assert_eq!(editor.status_message(), None);
}

#[test]
fn apply_moves_the_cursor() {
    let mut editor = session(&["hello world", "second"]);
    assert_eq!(editor.apply(Command::MoveRight), Action::Redraw);
    assert_eq!(editor.position(), (0, 1));
    assert_eq!(editor.apply(Command::MoveDown), Action::Redraw);
    assert_eq!(editor.position(), (1, 1));
    assert_eq!(editor.apply(Command::MoveLeft), Action::Redraw);
    assert_eq!(editor.position(), (1, 0));
    assert_eq!(editor.apply(Command::MoveUp), Action::Redraw);
    assert_eq!(editor.position(), (0, 0));
    assert_eq!(editor.apply(Command::GoEnd), Action::Redraw);
    assert_eq!(editor.position(), (0, 11));
    assert_eq!(editor.apply(Command::MoveLeftWord), Action::Redraw);
    assert_eq!(editor.position(), (0, 5));
    assert_eq!(editor.apply(Command::MoveRightWord), Action::Redraw);
    assert_eq!(editor.position(), (0, 11));
    assert_eq!(editor.apply(Command::GoHome), Action::Redraw);
    assert_eq!(editor.position(), (0, 0));
    assert_eq!(editor.apply(Command::PageDown), Action::Redraw);
    assert_eq!(editor.position(), (1, 0));
    assert_eq!(editor.apply(Command::PageUp), Action::Redraw);
    assert_eq!(editor.position(), (0, 0));
    assert!(!editor.is_modified());
}

#[test]
fn apply_edits_the_document() {
    let mut editor = session(&["ab cd"]);
    assert_eq!(editor.apply(Command::Char('x')), Action::Redraw);
    assert_eq!(rows_of(&editor), vec!["xab cd"]);
    assert_eq!(editor.apply(Command::Char('\n')), Action::Redraw);
    assert_eq!(rows_of(&editor), vec!["x", "ab cd"]);
    assert_eq!(editor.apply(Command::Backspace), Action::Redraw);
    assert_eq!(rows_of(&editor), vec!["xab cd"]);
    assert_eq!(editor.apply(Command::GoEnd), Action::Redraw);
    assert_eq!(editor.apply(Command::BackspaceWord), Action::Redraw);
    assert_eq!(rows_of(&editor), vec!["xab "]);
    assert_eq!(editor.apply(Command::BackspaceLine), Action::Redraw);
    assert_eq!(rows_of(&editor), vec![""]);
    assert!(editor.is_modified());
}

#[test]
fn apply_leaves_the_program_its_part() {
    let mut editor = session(&["ab"]);
    assert_eq!(editor.apply(Command::Quit), Action::Quit);
    assert_eq!(editor.apply(Command::Save), Action::Save);
    assert_eq!(editor.apply(Command::Paste), Action::Paste);
    assert_eq!(editor.apply(Command::Refresh), Action::Refresh);
    assert_eq!(editor.apply(Command::Open), Action::NotSupported);
    assert_eq!(editor.apply(Command::Find), Action::NotSupported);
    assert_eq!(editor.apply(Command::Cut), Action::NotSupported);
    assert_eq!(editor.apply(Command::Copy), Action::NotSupported);
    assert_eq!(editor.apply(Command::Delete), Action::Redraw);
    assert_eq!(editor.apply(Command::Ignore), Action::Redraw);
    assert_eq!(rows_of(&editor), vec!["ab"]);
    assert_eq!(editor.position(), (0, 0));
    assert!(!editor.is_modified());
}

#[test]
fn clipboard_falls_back_to_the_text_it_keeps() {
    let mut clipboard = Clipboard::new();
    assert_eq!(clipboard.get(None), "");
    clipboard.set("kept");
    assert_eq!(clipboard.get(None), "kept");
    assert_eq!(clipboard.get(Some(String::from("from system"))), "from system");
    assert_eq!(clipboard.get(None), "kept");
    clipboard.set("newer");
    assert_eq!(clipboard.get(None), "newer");
}

#[test]
fn pasting_types_the_clipboard_text() {
    let mut editor = session(&["ad"]);
    let mut clipboard = Clipboard::new();
    clipboard.set("bc");
    assert_eq!(editor.apply(Command::MoveRight), Action::Redraw);
    assert_eq!(editor.apply(Command::Paste), Action::Paste);
    editor.insert_str(&clipboard.get(None));
    assert_eq!(rows_of(&editor), vec!["abcd"]);
    assert_eq!(editor.position(), (0, 3));
}
