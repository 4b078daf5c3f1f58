//! One invocation of the tool: what it prints and what it appends to the
//! note file, given its arguments and the file as it stands.
use vstd::prelude::*;
use crate::command::{Command, CommandView, command_of};
use crate::store::{NoteFile, appended, line_of, listing};

verus! {

/// Printed when no subcommand is given.
pub const USAGE_TEXT: &'static str = "Használat:\n  add <szöveg>   - jegyzet hozzáadása\n  list          - jegyzetek listázása";

/// Printed when `add` comes without the note's text.
pub const MISSING_NOTE_MESSAGE: &'static str = "❌ Add meg a jegyzet szövegét";

/// Printed when the first argument names no subcommand.
pub const UNKNOWN_COMMAND_MESSAGE: &'static str = "❌ Ismeretlen parancs";

/// Printed once a note has been appended.
pub const ADDED_MESSAGE: &'static str = "✅ Jegyzet hozzáadva";

/// The answer to one invocation: the text to print, and the line to append
/// to the note file (before printing) if any.
pub struct Reply {
    pub output: String,
    pub append: Option<String>,
}

/// What a command prints, given the note file before it runs.
pub open spec fn output_of(cmd: CommandView, file: Option<Seq<char>>) -> Seq<char> {
    match cmd {
        CommandView::Usage => USAGE_TEXT@,
        CommandView::MissingNote => MISSING_NOTE_MESSAGE@,
        CommandView::Add(_) => ADDED_MESSAGE@,
        CommandView::List => listing(file),
        CommandView::Unknown => UNKNOWN_COMMAND_MESSAGE@,
    }
}

/// The line a command appends to the note file, if any.
pub open spec fn append_of(cmd: CommandView) -> Option<Seq<char>> {
    match cmd {
        CommandView::Add(note) => Some(line_of(note)),
        _ => None,
    }
}

/// The note file after a command: only `add` changes it.
pub open spec fn file_after(cmd: CommandView, file: Option<Seq<char>>) -> Option<Seq<char>> {
    match cmd {
        CommandView::Add(note) => appended(file, note),
        _ => file,
    }
}

/// Answers the invocation with arguments `args` (the program's name first)
/// against the note file `store`, which is updated as the file will be once
/// the reply's line, if any, is appended to it.
pub fn run(args: &Vec<String>, store: &mut NoteFile) -> (r: Reply)
    ensures
        r.output@ == output_of(command_of(args.deep_view()), old(store)@),
        r.append.deep_view() == append_of(command_of(args.deep_view())),
        final(store)@ == file_after(command_of(args.deep_view()), old(store)@),
{
    match Command::parse(args) {
        Command::Usage => Reply { output: String::from_str(USAGE_TEXT), append: None },
        Command::MissingNote => Reply {
            output: String::from_str(MISSING_NOTE_MESSAGE),
            append: None,
        },
        Command::Add(note) => {
            let line = store.add(note.as_str());
            Reply { output: String::from_str(ADDED_MESSAGE), append: Some(line) }
        },
        Command::List => Reply { output: store.list(), append: None },
        Command::Unknown => Reply {
            output: String::from_str(UNKNOWN_COMMAND_MESSAGE),
            append: None,
        },
    }
}

} // verus!
