//! The note store: an append-only text file, one note per line.
use vstd::prelude::*;

verus! {

/// The characters with Unicode's `White_Space` property, the ones that
/// `char::is_whitespace` and `str::trim` treat as white space.
pub open spec fn is_white_space_spec(c: char) -> bool {
    let n = c as u32;
    (0x09 <= n && n <= 0x0D) || n == 0x20 || n == 0x85 || n == 0xA0 || n == 0x1680
        || (0x2000 <= n && n <= 0x200A) || n == 0x2028 || n == 0x2029 || n == 0x202F
        || n == 0x205F || n == 0x3000
}

/// Whether `c` is white space in the sense of Unicode's `White_Space` property.
pub fn is_white_space(c: char) -> (r: bool)
    ensures
        r == is_white_space_spec(c),
{
    let n = c as u32;
    (0x09 <= n && n <= 0x0D) || n == 0x20 || n == 0x85 || n == 0xA0 || n == 0x1680
        || (0x2000 <= n && n <= 0x200A) || n == 0x2028 || n == 0x2029 || n == 0x202F
        || n == 0x205F || n == 0x3000
}

/// A text is blank when trimming its white space leaves nothing.
pub open spec fn is_blank(s: Seq<char>) -> bool {
    forall|i: int| 0 <= i < s.len() ==> is_white_space_spec(#[trigger] s[i])
}

/// Whether `s` holds white space only (or nothing at all).
pub fn is_blank_text(s: &str) -> (r: bool)
    ensures
        r == is_blank(s@),
{
    let mut blank = true;
    for c in it: s.chars()
        invariant
            it.seq() == s@,
            blank == (forall|i: int| 0 <= i < it.index() ==> is_white_space_spec(#[trigger] s@[i])),
    {
        if !is_white_space(c) {
            blank = false;
        }
    }
    blank
}

/// Printed by a listing when no note file could be read.
pub const NO_FILE_MESSAGE: &'static str = "📭 Még nincs jegyzet fájl";

/// Printed by a listing when the note file holds nothing but white space.
pub const NO_NOTES_MESSAGE: &'static str = "📭 Nincs egy jegyzet sem";

/// Printed by a listing before the file's content.
pub const LIST_HEADER: &'static str = "📒 Jegyzetek:\n";

/// The line that stores `note`: the note and a line terminator.
pub open spec fn line_of(note: Seq<char>) -> Seq<char> {
    note.push('\n')
}

/// What a store holds: its text, or nothing when there is no file yet.
pub open spec fn stored(file: Option<Seq<char>>) -> Seq<char> {
    match file {
        Some(text) => text,
        None => Seq::empty(),
    }
}

/// The store after `note` is appended: created if absent, one line longer.
pub open spec fn appended(file: Option<Seq<char>>, note: Seq<char>) -> Option<Seq<char>> {
    Some(stored(file) + line_of(note))
}

/// What a listing prints for a store.
pub open spec fn listing(file: Option<Seq<char>>) -> Seq<char> {
    match file {
        None => NO_FILE_MESSAGE@,
        Some(text) => if is_blank(text) {
            NO_NOTES_MESSAGE@
        } else {
            LIST_HEADER@ + text
        },
    }
}

/// A note file as last read: its full text, or `None` when it does not exist
/// or could not be read.
pub struct NoteFile {
    content: Option<String>,
}

impl View for NoteFile {
    type V = Option<Seq<char>>;

    closed spec fn view(&self) -> Option<Seq<char>> {
        match self.content {
            Some(text) => Some(text@),
            None => None,
        }
    }
}

impl NoteFile {
    /// The store whose file holds `content`; `None` stands for a file that
    /// does not exist or could not be read.
    pub fn new(content: Option<String>) -> (r: NoteFile)
        ensures
            r@ == match content {
                Some(text) => Some(text@),
                None => None::<Seq<char>>,
            },
    {
        NoteFile { content }
    }

    /// The text of the file, if there is one.
    pub fn content(&self) -> (r: Option<&String>)
        ensures
            r is Some <==> self@ is Some,
            r is Some ==> Some(r->0@) == self@,
    {
        match &self.content {
            Some(text) => Some(text),
            None => None,
        }
    }

    /// Appends `note` as the last line, creating the file if absent, and
    /// returns the line to write at the end of the file.
    pub fn add(&mut self, note: &str) -> (line: String)
        ensures
            line@ == line_of(note@),
            final(self)@ == appended(old(self)@, note@),
    {
        let mut line = String::from_str(note);
        line.append("\n");
        proof {
            reveal_strlit("\n");
        }
        let mut text = match &self.content {
            Some(c) => c.clone(),
            None => String::new(),
        };
        text.append(line.as_str());
        self.content = Some(text);
        line
    }

    /// What listing the notes prints: a message when there is no file or no
    /// note in it, else the header followed by the file's full text.
    pub fn list(&self) -> (r: String)
        ensures
            r@ == listing(self@),
    {
        match &self.content {
            None => String::from_str(NO_FILE_MESSAGE),
            Some(text) => if is_blank_text(text.as_str()) {
                String::from_str(NO_NOTES_MESSAGE)
            } else {
                let mut out = String::from_str(LIST_HEADER);
                out.append(text.as_str());
                out
            },
        }
    }
}

} // verus!
