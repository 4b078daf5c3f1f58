//! Facts that hold across invocations of the tool.
use vstd::prelude::*;
use crate::command::{CommandView, command_of, ADD_WORD, LIST_WORD};
use crate::session::{append_of, file_after, output_of, MISSING_NOTE_MESSAGE};
use crate::store::{is_blank, is_white_space_spec, line_of, stored, LIST_HEADER, NO_FILE_MESSAGE};

verus! {

/// `t` stands in `s` from position `i` on.
pub open spec fn occurs_at(s: Seq<char>, t: Seq<char>, i: int) -> bool {
    0 <= i && i + t.len() <= s.len() && s.subrange(i, i + t.len()) == t
}

/// The arguments of `add note`, after the program's name `prog`.
pub open spec fn add_args(prog: Seq<char>, note: Seq<char>) -> Seq<Seq<char>> {
    seq![prog, ADD_WORD@, note]
}

/// The arguments of `list`, after the program's name `prog`.
pub open spec fn list_args(prog: Seq<char>) -> Seq<Seq<char>> {
    seq![prog, LIST_WORD@]
}

proof fn lemma_words_parse(prog: Seq<char>, note: Seq<char>)
    ensures
        command_of(add_args(prog, note)) == CommandView::Add(note),
        command_of(list_args(prog)) == CommandView::List,
{
    reveal_strlit("add");
    reveal_strlit("list");
    assert(ADD_WORD@ != LIST_WORD@) by {
        assert(ADD_WORD@.len() != LIST_WORD@.len());
    }
}

/// Two texts together are blank exactly when each is.
proof fn lemma_blank_concat(a: Seq<char>, b: Seq<char>)
    ensures
        is_blank(a + b) == (is_blank(a) && is_blank(b)),
{
    if is_blank(a + b) {
        assert forall|i: int| 0 <= i < a.len() implies is_white_space_spec(#[trigger] a[i]) by {
            assert((a + b)[i] == a[i]);
        }
        assert forall|i: int| 0 <= i < b.len() implies is_white_space_spec(#[trigger] b[i]) by {
            assert((a + b)[a.len() + i] == b[i]);
        }
    }
}

/// A stored line is blank exactly when its note is.
proof fn lemma_blank_line(note: Seq<char>)
    ensures
        is_blank(line_of(note)) == is_blank(note),
{
    assert(line_of(note) =~= note + seq!['\n']);
    lemma_blank_concat(note, seq!['\n']);
    assert(is_white_space_spec('\n'));
}

/// Once `note` is added, listing prints the header and then the whole file,
/// in which `note` is the last line. This holds unless the file and the note
/// are both blank: then the listing says that there are no notes.
pub proof fn lemma_added_note_is_listed(prog: Seq<char>, file: Option<Seq<char>>, note: Seq<char>)
    requires
        !(is_blank(stored(file)) && is_blank(note)),
    ensures
        ({
            let after = file_after(command_of(add_args(prog, note)), file);
            let out = output_of(command_of(list_args(prog)), after);
            &&& out == LIST_HEADER@ + stored(file) + line_of(note)
            &&& occurs_at(out, note, (LIST_HEADER@.len() + stored(file).len()) as int)
        }),
{
    lemma_words_parse(prog, note);
    lemma_blank_line(note);
    lemma_blank_concat(stored(file), line_of(note));
    let out = LIST_HEADER@ + stored(file) + line_of(note);
    let i: int = (LIST_HEADER@.len() + stored(file).len()) as int;
    assert(out.subrange(i, i + note.len()) =~= note);
}

/// Notes added one after the other are listed in that order: after adding
/// `first` and then `second`, listing prints the header and the file, in which
/// `first` comes before `second`. This holds unless the file and both notes
/// are blank: then the listing says that there are no notes.
pub proof fn lemma_notes_keep_their_order(
    prog: Seq<char>,
    file: Option<Seq<char>>,
    first: Seq<char>,
    second: Seq<char>,
)
    requires
        !(is_blank(stored(file)) && is_blank(first) && is_blank(second)),
    ensures
        ({
            let once = file_after(command_of(add_args(prog, first)), file);
            let twice = file_after(command_of(add_args(prog, second)), once);
            let out = output_of(command_of(list_args(prog)), twice);
            let i: int = (LIST_HEADER@.len() + stored(file).len()) as int;
            let j: int = i + first.len() + 1;
            &&& out == LIST_HEADER@ + stored(file) + line_of(first) + line_of(second)
            &&& occurs_at(out, first, i)
            &&& occurs_at(out, second, j)
            &&& i + first.len() < j
        }),
{
    lemma_words_parse(prog, first);
    lemma_words_parse(prog, second);
    lemma_blank_line(first);
    lemma_blank_line(second);
    lemma_blank_concat(stored(file), line_of(first));
    lemma_blank_concat(stored(file) + line_of(first), line_of(second));
    let twice = stored(file) + line_of(first) + line_of(second);
    assert(!is_blank(twice));
    let out = LIST_HEADER@ + stored(file) + line_of(first) + line_of(second);
    assert(out =~= LIST_HEADER@ + twice);
    let i: int = (LIST_HEADER@.len() + stored(file).len()) as int;
    let j: int = i + first.len() + 1;
    assert(out.subrange(i, i + first.len()) =~= first);
    assert(out.subrange(j, j + second.len()) =~= second);
}

/// Listing with no note file says so, and writes nothing.
pub proof fn lemma_list_without_file(prog: Seq<char>)
    ensures
        output_of(command_of(list_args(prog)), None) == NO_FILE_MESSAGE@,
        append_of(command_of(list_args(prog))) is None,
        file_after(command_of(list_args(prog)), None) is None,
{
    lemma_words_parse(prog, Seq::empty());
}

/// `add` without the note's text prints an error and leaves the file as it was.
pub proof fn lemma_add_without_note(prog: Seq<char>, file: Option<Seq<char>>)
    ensures
        output_of(command_of(seq![prog, ADD_WORD@]), file) == MISSING_NOTE_MESSAGE@,
        append_of(command_of(seq![prog, ADD_WORD@])) is None,
        file_after(command_of(seq![prog, ADD_WORD@]), file) == file,
{
}

/// Listing twice in a row prints the same both times, and changes nothing.
pub proof fn lemma_list_twice(prog: Seq<char>, file: Option<Seq<char>>)
    ensures
        ({
            let cmd = command_of(list_args(prog));
            let after = file_after(cmd, file);
            &&& after == file
            &&& append_of(cmd) is None
            &&& output_of(cmd, after) == output_of(cmd, file)
        }),
{
    lemma_words_parse(prog, Seq::empty());
}

} // verus!
