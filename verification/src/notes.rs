//! Persisting a finished session: deciding whether the note is worth saving,
//! naming the note file from a timestamp, and rendering the `list` output.
//! The file system itself is the caller's business; everything here is pure.

use vstd::prelude::*;
use crate::text::{blank, chars_to_string, decimal, is_blank, push_decimal};

verus! {

/// What to do with a finished session's buffer: write this content to a note
/// file, or discard it because only whitespace was typed.
#[derive(Debug, PartialEq, Eq)]
pub enum SessionOutcome {
    Save(String),
    Discard,
}

/// The name of a note file saved at Unix second `ts`:
/// `note_` + the decimal timestamp + `.txt`.
pub open spec fn note_filename_spec(ts: nat) -> Seq<char> {
    seq!['n', 'o', 't', 'e', '_'] + decimal(ts) + seq!['.', 't', 'x', 't']
}

/// Builds the file name for a note saved at Unix second `ts`.
pub fn note_filename(ts: u64) -> (name: String)
    ensures
        name@ == note_filename_spec(ts as nat),
{
    let mut chars: Vec<char> = Vec::new();
    chars.push('n');
    chars.push('o');
    chars.push('t');
    chars.push('e');
    chars.push('_');
    proof {
        assert(chars@ =~= seq!['n', 'o', 't', 'e', '_']);
    }
    push_decimal(ts, &mut chars);
    chars.push('.');
    chars.push('t');
    chars.push('x');
    chars.push('t');
    proof {
        assert(chars@ =~= note_filename_spec(ts as nat));
    }
    chars_to_string(&chars)
}

/// The name of the per-user directory that holds the note files, to be
/// joined under the user's home directory.
pub fn notes_dir_name() -> (name: String)
    ensures
        name@ == ".noobpad"@,
{
    String::from_str(".noobpad")
}

/// Decides what to do with a finished buffer: a buffer whose trimmed content
/// is empty is discarded and no file is created; any other buffer is saved
/// verbatim, every character kept.
pub fn session_outcome(buffer: &Vec<char>) -> (o: SessionOutcome)
    ensures
        o is Discard <==> blank(buffer@),
        o matches SessionOutcome::Save(content) ==> content@ == buffer@,
{
    if is_blank(buffer) {
        SessionOutcome::Discard
    } else {
        SessionOutcome::Save(chars_to_string(buffer))
    }
}

/// Renders the `list` command's output: a header line, then one line per
/// directory entry, in the order the entries were handed in. On an empty
/// directory the header is the only line.
pub fn render_note_list(names: &Vec<String>) -> (lines: Vec<String>)
    ensures
        lines@.len() == names@.len() + 1,
        lines@[0]@ == "Your notes:"@,
        forall|i: int| 0 <= i < names@.len() ==> lines@[i + 1]@ == names@[i]@,
{
    let mut lines: Vec<String> = Vec::new();
    lines.push(String::from_str("Your notes:"));
    let mut i: usize = 0;
    while i < names.len()
        invariant
            0 <= i <= names@.len(),
            lines@.len() == i + 1,
            lines@[0]@ == "Your notes:"@,
            forall|j: int| 0 <= j < i ==> lines@[j + 1]@ == names@[j]@,
        decreases names@.len() - i,
    {
        lines.push(names[i].clone());
        i = i + 1;
    }
    lines
}

} // verus!
