//! Dispatch of the command-line arguments to a command.
use vstd::prelude::*;

verus! {

/// The subcommand that appends a note.
pub const ADD_WORD: &'static str = "add";

/// The subcommand that lists the notes.
pub const LIST_WORD: &'static str = "list";

/// What an invocation asks for.
#[derive(Debug, PartialEq, Eq)]
pub enum Command {
    /// No subcommand was given.
    Usage,
    /// `add` was given without the note's text.
    MissingNote,
    /// `add` with the note's text.
    Add(String),
    /// `list`.
    List,
    /// A first argument that names no subcommand.
    Unknown,
}

/// A command as a mathematical value.
pub enum CommandView {
    Usage,
    MissingNote,
    Add(Seq<char>),
    List,
    Unknown,
}

impl View for Command {
    type V = CommandView;

    open spec fn view(&self) -> CommandView {
        match self {
            Command::Usage => CommandView::Usage,
            Command::MissingNote => CommandView::MissingNote,
            Command::Add(note) => CommandView::Add(note@),
            Command::List => CommandView::List,
            Command::Unknown => CommandView::Unknown,
        }
    }
}

/// The command that an argument list asks for. The first argument is the
/// program's name; the second names the subcommand; for `add`, the third is
/// the note and any later one is ignored.
pub open spec fn command_of(args: Seq<Seq<char>>) -> CommandView {
    if args.len() < 2 {
        CommandView::Usage
    } else if args[1] == ADD_WORD@ {
        if args.len() < 3 {
            CommandView::MissingNote
        } else {
            CommandView::Add(args[2])
        }
    } else if args[1] == LIST_WORD@ {
        CommandView::List
    } else {
        CommandView::Unknown
    }
}

impl Command {
    /// Reads the command from the process's arguments, the program's name first.
    pub fn parse(args: &Vec<String>) -> (r: Command)
        ensures
            r@ == command_of(args.deep_view()),
    {
        if args.len() < 2 {
            return Command::Usage;
        }
        let word = &args[1];
        if *word == String::from_str(ADD_WORD) {
            if args.len() < 3 {
                Command::MissingNote
            } else {
                Command::Add(args[2].clone())
            }
        } else if *word == String::from_str(LIST_WORD) {
            Command::List
        } else {
            Command::Unknown
        }
    }
}

} // verus!
