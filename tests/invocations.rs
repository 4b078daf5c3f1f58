use notes::command::Command;
use notes::session::{
    run, ADDED_MESSAGE, MISSING_NOTE_MESSAGE, UNKNOWN_COMMAND_MESSAGE, USAGE_TEXT,
};
use notes::store::{is_blank_text, is_white_space, NoteFile, LIST_HEADER, NO_FILE_MESSAGE, NO_NOTES_MESSAGE};

fn args(words: &[&str]) -> Vec<String> {
    let mut v = vec!["notes".to_string()];
    for w in words {
        v.push(w.to_string());
    }
    v
}

fn file_text(store: &NoteFile) -> Option<String> {
    store.content().cloned()
}

#[test]
fn no_arguments_print_usage() {
    let mut store = NoteFile::new(None);
    let reply = run(&args(&[]), &mut store);
    assert_eq!(
        reply.output,
        "Használat:\n  add <szöveg>   - jegyzet hozzáadása\n  list          - jegyzetek listázása"
    );
    assert_eq!(reply.output.lines().filter(|l| l.starts_with("  ")).count(), 2);
    assert_eq!(reply.output, USAGE_TEXT);
    assert_eq!(reply.append, None);
    assert_eq!(file_text(&store), None);
}

#[test]
fn scenario_usage_add_then_list() {
    let mut store = NoteFile::new(None);
    let usage = run(&args(&[]), &mut store);
    assert_eq!(usage.output, USAGE_TEXT);

    let added = run(&args(&["add", "hello"]), &mut store);
    assert_eq!(added.output, ADDED_MESSAGE);
    assert_eq!(added.output, "✅ Jegyzet hozzáadva");
    assert_eq!(added.append, Some("hello\n".to_string()));
    assert_eq!(file_text(&store), Some("hello\n".to_string()));

    let listed = run(&args(&["list"]), &mut store);
    assert_eq!(listed.output, "📒 Jegyzetek:\nhello\n");
    assert_eq!(listed.append, None);
}

#[test]
fn added_note_is_listed() {
    let mut store = NoteFile::new(Some("first\n".to_string()));
    run(&args(&["add", "buy milk"]), &mut store);
    let listed = run(&args(&["list"]), &mut store);
    assert_eq!(listed.output, format!("{}first\nbuy milk\n", LIST_HEADER));
    assert!(listed.output.contains("buy milk"));
}

#[test]
fn notes_are_listed_in_the_order_added() {
    let mut store = NoteFile::new(None);
    run(&args(&["add", "one"]), &mut store);
    run(&args(&["add", "two"]), &mut store);
    let listed = run(&args(&["list"]), &mut store);
    assert_eq!(listed.output, "📒 Jegyzetek:\none\ntwo\n");
    let a = listed.output.find("one").unwrap();
    let b = listed.output.find("two").unwrap();
    assert!(a < b);
}

#[test]
fn list_without_file_says_so_and_writes_nothing() {
    let mut store = NoteFile::new(None);
    let reply = run(&args(&["list"]), &mut store);
    assert_eq!(reply.output, NO_FILE_MESSAGE);
    assert_eq!(reply.output, "📭 Még nincs jegyzet fájl");
    assert_eq!(reply.append, None);
    assert_eq!(file_text(&store), None);
}

#[test]
fn add_without_note_is_an_error_and_writes_nothing() {
    let mut store = NoteFile::new(Some("kept\n".to_string()));
    let reply = run(&args(&["add"]), &mut store);
    assert_eq!(reply.output, MISSING_NOTE_MESSAGE);
    assert_eq!(reply.output, "❌ Add meg a jegyzet szövegét");
    assert_eq!(reply.append, None);
    assert_eq!(file_text(&store), Some("kept\n".to_string()));

    let mut fresh = NoteFile::new(None);
    run(&args(&["add"]), &mut fresh);
    assert_eq!(file_text(&fresh), None);
}

#[test]
fn listing_twice_gives_the_same_output() {
    let mut store = NoteFile::new(Some("a\nb\n".to_string()));
    let first = run(&args(&["list"]), &mut store);
    let second = run(&args(&["list"]), &mut store);
    assert_eq!(first.output, second.output);
    assert_eq!(file_text(&store), Some("a\nb\n".to_string()));
}

#[test]
fn unknown_command_is_reported() {
    let mut store = NoteFile::new(Some("x\n".to_string()));
    let reply = run(&args(&["remove", "x"]), &mut store);
    assert_eq!(reply.output, UNKNOWN_COMMAND_MESSAGE);
    assert_eq!(reply.output, "❌ Ismeretlen parancs");
    assert_eq!(reply.append, None);
    assert_eq!(file_text(&store), Some("x\n".to_string()));
}

#[test]
fn blank_file_has_no_notes() {
    let store = NoteFile::new(Some(" \n\t\r\n".to_string()));
    assert_eq!(store.list(), NO_NOTES_MESSAGE);
    assert_eq!(store.list(), "📭 Nincs egy jegyzet sem");
    let empty = NoteFile::new(Some(String::new()));
    assert_eq!(empty.list(), NO_NOTES_MESSAGE);
}

#[test]
fn blank_note_on_empty_store_lists_no_notes() {
    let mut store = NoteFile::new(None);
    run(&args(&["add", "   "]), &mut store);
    assert_eq!(file_text(&store), Some("   \n".to_string()));
    assert_eq!(run(&args(&["list"]), &mut store).output, NO_NOTES_MESSAGE);
}

#[test]
fn listing_keeps_the_raw_text() {
    let store = NoteFile::new(Some("  padded  \n".to_string()));
    assert_eq!(store.list(), "📒 Jegyzetek:\n  padded  \n");
}

#[test]
fn extra_arguments_after_the_note_are_ignored() {
    let mut store = NoteFile::new(None);
    let reply = run(&args(&["add", "kept", "dropped"]), &mut store);
    assert_eq!(reply.append, Some("kept\n".to_string()));
    assert_eq!(file_text(&store), Some("kept\n".to_string()));
}

#[test]
fn parse_reads_the_subcommand() {
    assert_eq!(Command::parse(&args(&[])), Command::Usage);
    assert_eq!(Command::parse(&args(&["add"])), Command::MissingNote);
    assert_eq!(Command::parse(&args(&["add", "n"])), Command::Add("n".to_string()));
    assert_eq!(Command::parse(&args(&["list"])), Command::List);
    assert_eq!(Command::parse(&args(&["list", "extra"])), Command::List);
    assert_eq!(Command::parse(&args(&["LIST"])), Command::Unknown);
    assert_eq!(Command::parse(&args(&[""])), Command::Unknown);
}

#[test]
fn add_returns_the_line_to_append() {
    let mut store = NoteFile::new(Some("old\n".to_string()));
    let line = store.add("new");
    assert_eq!(line, "new\n");
    assert_eq!(file_text(&store), Some("old\nnew\n".to_string()));
}

#[test]
fn white_space_follows_the_unicode_property() {
    for c in ['\t', '\n', '\u{0B}', '\u{0C}', '\r', ' ', '\u{85}', '\u{A0}', '\u{1680}',
        '\u{2000}', '\u{200A}', '\u{2028}', '\u{2029}', '\u{202F}', '\u{205F}', '\u{3000}'] {
        assert!(is_white_space(c));
        assert_eq!(is_white_space(c), c.is_whitespace());
    }
    for c in ['a', '\u{08}', '\u{0E}', '\u{1F}', '\u{200B}', '\u{FEFF}', '📒'] {
        assert!(!is_white_space(c));
        assert_eq!(is_white_space(c), c.is_whitespace());
    }
}

#[test]
fn blank_text_matches_trim() {
    for s in ["", " ", "\n\n", "\u{3000}\t", "a", " a ", "\u{200B}"] {
        assert_eq!(is_blank_text(s), s.trim().is_empty());
    }
}
