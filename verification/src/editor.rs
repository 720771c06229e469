//! The raw-mode editing core: a state machine that maps one input event at a
//! time to a buffer mutation and a screen action. The caller owns the
//! terminal; it reads events, feeds them here, and performs the returned
//! action, so the visible screen stays consistent with the buffer.

use vstd::prelude::*;

verus! {

/// Where a finished session's content goes: the OS clipboard, or a note file
/// under the notes directory. The copy/paste shortcuts are only live in the
/// clipboard variant.
#[derive(Clone, Copy, PartialEq, Eq, Structural, Debug)]
pub enum SinkVariant {
    Clipboard,
    FileStore,
}

/// One decoded terminal input event. `PasteText` carries the text the caller
/// fetched from the clipboard; a failed fetch is simply not delivered.
#[derive(Debug, PartialEq, Eq)]
pub enum InputEvent {
    Char(char),
    Backspace,
    Enter,
    Escape,
    CopyShortcut,
    PasteText(Vec<char>),
    Other,
}

/// The screen or clipboard effect the caller must perform after a step.
/// `EraseBack` is the move-back, erase, move-back sequence of a backspace.
#[derive(Debug, PartialEq, Eq)]
pub enum EchoAction {
    Print(char),
    EraseBack,
    LineBreak,
    CopyToClipboard(Vec<char>),
    PrintText(Vec<char>),
    Nothing,
}

/// An editing session: the note under composition, whether the exit key has
/// been seen, and which sink variant this build uses.
pub struct EditorSession {
    pub buffer: Vec<char>,
    pub finished: bool,
    pub variant: SinkVariant,
}

/// How one event transforms the buffer. This is the whole editing semantics:
/// a printable character or a pasted text is appended, Enter appends a
/// newline, Backspace drops the last character of a non-empty buffer and is a
/// no-op on an empty one, everything else leaves the buffer alone.
pub open spec fn step_buffer(buf: Seq<char>, e: InputEvent, clipboard: bool) -> Seq<char> {
    match e {
        InputEvent::Char(c) => buf.push(c),
        InputEvent::Backspace => if buf.len() == 0 {
            buf
        } else {
            buf.drop_last()
        },
        InputEvent::Enter => buf.push('\n'),
        InputEvent::PasteText(t) => if clipboard {
            buf + t@
        } else {
            buf
        },
        _ => buf,
    }
}

/// The buffer after a whole sequence of events, applied in arrival order.
pub open spec fn run_events(buf: Seq<char>, events: Seq<InputEvent>, clipboard: bool) -> Seq<char>
    decreases events.len(),
{
    if events.len() == 0 {
        buf
    } else {
        run_events(step_buffer(buf, events[0], clipboard), events.drop_first(), clipboard)
    }
}

/// An event that inserts one character.
pub open spec fn is_insert(e: InputEvent) -> bool {
    e is Char
}

/// The character a character-insert event carries.
pub open spec fn inserted_char(e: InputEvent) -> char {
    e->Char_0
}

/// The characters carried by a sequence of character-insert events, in order.
pub open spec fn inserted_chars(events: Seq<InputEvent>) -> Seq<char> {
    events.map_values(|e: InputEvent| inserted_char(e))
}

impl EditorSession {
    /// A session starts in the editing state with an empty buffer.
    pub fn new(variant: SinkVariant) -> (s: EditorSession)
        ensures
            s.buffer@ == Seq::<char>::empty(),
            !s.finished,
            s.variant == variant,
    {
        EditorSession { buffer: Vec::new(), finished: false, variant }
    }

    /// Dispatches one input event: mutates the buffer as `step_buffer` says,
    /// reaches the finished state exactly on Escape, and returns the screen
    /// or clipboard action the caller must perform. Backspace on an empty
    /// buffer does nothing, visually too; the copy and paste shortcuts are
    /// ignored outside the clipboard variant.
    pub fn step(&mut self, e: InputEvent) -> (act: EchoAction)
        requires
            !old(self).finished,
        ensures
            final(self).variant == old(self).variant,
            final(self).buffer@ == step_buffer(
                old(self).buffer@,
                e,
                old(self).variant is Clipboard,
            ),
            final(self).finished <==> e is Escape,
            e matches InputEvent::Char(c) ==> act == EchoAction::Print(c),
            e is Backspace && old(self).buffer@.len() > 0 ==> act is EraseBack,
            e is Backspace && old(self).buffer@.len() == 0 ==> act is Nothing,
            e is Enter ==> act is LineBreak,
            e is Escape ==> act is Nothing,
            e is CopyShortcut && old(self).variant is Clipboard ==> (act matches
                EchoAction::CopyToClipboard(v) && v@ == old(self).buffer@),
            e is CopyShortcut && old(self).variant !is Clipboard ==> act is Nothing,
            e matches InputEvent::PasteText(t) ==> (old(self).variant is Clipboard ==> (act
                matches EchoAction::PrintText(p) && p@ == t@)),
            e is PasteText && old(self).variant !is Clipboard ==> act is Nothing,
            e is Other ==> act is Nothing,
    {
        match e {
            InputEvent::Char(c) => {
                self.buffer.push(c);
                EchoAction::Print(c)
            },
            InputEvent::Backspace => {
                if self.buffer.len() > 0 {
                    self.buffer.pop();
                    EchoAction::EraseBack
                } else {
                    EchoAction::Nothing
                }
            },
            InputEvent::Enter => {
                self.buffer.push('\n');
                EchoAction::LineBreak
            },
            InputEvent::Escape => {
                self.finished = true;
                EchoAction::Nothing
            },
            InputEvent::CopyShortcut => {
                match self.variant {
                    SinkVariant::Clipboard => EchoAction::CopyToClipboard(
                        copy_chars(&self.buffer),
                    ),
                    SinkVariant::FileStore => EchoAction::Nothing,
                }
            },
            InputEvent::PasteText(t) => {
                match self.variant {
                    SinkVariant::Clipboard => {
                        append_chars(&mut self.buffer, &t);
                        EchoAction::PrintText(t)
                    },
                    SinkVariant::FileStore => EchoAction::Nothing,
                }
            },
            InputEvent::Other => EchoAction::Nothing,
        }
    }
}

/// A copy of a character buffer, element for element.
fn copy_chars(v: &Vec<char>) -> (r: Vec<char>)
    ensures
        r@ == v@,
{
    let mut out: Vec<char> = Vec::new();
    let mut i: usize = 0;
    while i < v.len()
        invariant
            0 <= i <= v@.len(),
            out@ == v@.subrange(0, i as int),
        decreases v@.len() - i,
    {
        out.push(v[i]);
        i = i + 1;
    }
    proof {
        assert(out@ =~= v@);
    }
    out
}

/// Appends the characters of `src` to `dst`, in order.
fn append_chars(dst: &mut Vec<char>, src: &Vec<char>)
    ensures
        final(dst)@ == old(dst)@ + src@,
{
    let mut i: usize = 0;
    while i < src.len()
        invariant
            0 <= i <= src@.len(),
            dst@ == old(dst)@ + src@.subrange(0, i as int),
        decreases src@.len() - i,
    {
        dst.push(src[i]);
        proof {
            assert(old(dst)@ + src@.subrange(0, i as int) + seq![src@[i as int]] =~= old(dst)@
                + src@.subrange(0, i + 1));
        }
        i = i + 1;
    }
    proof {
        assert(old(dst)@ + src@.subrange(0, src@.len() as int) =~= old(dst)@ + src@);
    }
}

/// A session of nothing but character inserts ends with the buffer equal to
/// the starting content followed by the inserted characters, in arrival
/// order.
pub proof fn lemma_inserts_concatenate(buf: Seq<char>, events: Seq<InputEvent>, clipboard: bool)
    requires
        forall|i: int| 0 <= i < events.len() ==> is_insert(#[trigger] events[i]),
    ensures
        run_events(buf, events, clipboard) == buf + inserted_chars(events),
    decreases events.len(),
{
    if events.len() == 0 {
        assert(buf + inserted_chars(events) =~= buf);
    } else {
        let c = inserted_char(events[0]);
        lemma_inserts_concatenate(buf.push(c), events.drop_first(), clipboard);
        assert(buf.push(c) + inserted_chars(events.drop_first()) =~= buf + inserted_chars(
            events,
        ));
    }
}

/// Single-step edits are locally invertible: on a non-empty buffer, a
/// backspace followed by re-inserting the character it removed restores the
/// buffer exactly.
pub proof fn lemma_backspace_undo(buf: Seq<char>, clipboard: bool)
    requires
        buf.len() > 0,
    ensures
        step_buffer(step_buffer(buf, InputEvent::Backspace, clipboard), InputEvent::Char(
            buf.last(),
        ), clipboard) == buf,
{
    assert(buf.drop_last().push(buf.last()) =~= buf);
}

} // verus!
