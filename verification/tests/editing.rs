use noobpad::editor::{EchoAction, EditorSession, InputEvent, SinkVariant};

fn chars(s: &str) -> Vec<char> {
    s.chars().collect()
}

#[test]
fn inserts_concatenate_in_order() {
    let mut s = EditorSession::new(SinkVariant::FileStore);
    for c in "hello world".chars() {
        let act = s.step(InputEvent::Char(c));
        assert_eq!(act, EchoAction::Print(c));
    }
    assert_eq!(s.buffer, chars("hello world"));
    assert!(!s.finished);
}

#[test]
fn backspace_on_empty_buffer_is_a_noop() {
    let mut s = EditorSession::new(SinkVariant::FileStore);
    let act = s.step(InputEvent::Backspace);
    assert_eq!(s.buffer, chars(""));
    assert_eq!(act, EchoAction::Nothing);
}

#[test]
fn backspace_then_reinsert_restores_buffer() {
    let mut s = EditorSession::new(SinkVariant::FileStore);
    for c in "ab".chars() {
        s.step(InputEvent::Char(c));
    }
    let before = s.buffer.clone();
    let act = s.step(InputEvent::Backspace);
    assert_eq!(act, EchoAction::EraseBack);
    assert_eq!(s.buffer, chars("a"));
    s.step(InputEvent::Char('b'));
    assert_eq!(s.buffer, before);
}

#[test]
fn enter_appends_exactly_one_newline() {
    let mut s = EditorSession::new(SinkVariant::FileStore);
    let act = s.step(InputEvent::Enter);
    assert_eq!(act, EchoAction::LineBreak);
    assert_eq!(s.buffer, chars("\n"));
    for c in "abc".chars() {
        s.step(InputEvent::Char(c));
    }
    s.step(InputEvent::Enter);
    assert_eq!(s.buffer, chars("\nabc\n"));
}

#[test]
fn escape_finishes_without_touching_buffer() {
    let mut s = EditorSession::new(SinkVariant::FileStore);
    s.step(InputEvent::Char('x'));
    let act = s.step(InputEvent::Escape);
    assert_eq!(act, EchoAction::Nothing);
    assert!(s.finished);
    assert_eq!(s.buffer, chars("x"));
}

#[test]
fn other_events_are_ignored() {
    let mut s = EditorSession::new(SinkVariant::FileStore);
    s.step(InputEvent::Char('x'));
    let act = s.step(InputEvent::Other);
    assert_eq!(act, EchoAction::Nothing);
    assert_eq!(s.buffer, chars("x"));
    assert!(!s.finished);
}

#[test]
fn scenario_hi_bang() {
    let mut s = EditorSession::new(SinkVariant::FileStore);
    s.step(InputEvent::Char('H'));
    s.step(InputEvent::Char('i'));
    s.step(InputEvent::Enter);
    s.step(InputEvent::Char('!'));
    s.step(InputEvent::Escape);
    assert!(s.finished);
    assert_eq!(s.buffer, chars("Hi\n!"));
    let text: String = s.buffer.iter().collect();
    assert_eq!(text, "Hi\n!");
    assert_eq!(text.as_bytes(), b"Hi\n!");
}

#[test]
fn scenario_extra_backspaces_are_noops() {
    let mut s = EditorSession::new(SinkVariant::FileStore);
    s.step(InputEvent::Backspace);
    s.step(InputEvent::Backspace);
    s.step(InputEvent::Char('a'));
    s.step(InputEvent::Escape);
    assert_eq!(s.buffer, chars("a"));
}

#[test]
fn copy_shortcut_hands_buffer_to_clipboard() {
    let mut s = EditorSession::new(SinkVariant::Clipboard);
    for c in "note".chars() {
        s.step(InputEvent::Char(c));
    }
    let act = s.step(InputEvent::CopyShortcut);
    assert_eq!(act, EchoAction::CopyToClipboard(chars("note")));
    assert_eq!(s.buffer, chars("note"));
    assert!(!s.finished);
}

#[test]
fn copy_shortcut_is_ignored_in_file_store_variant() {
    let mut s = EditorSession::new(SinkVariant::FileStore);
    for c in "note".chars() {
        s.step(InputEvent::Char(c));
    }
    let act = s.step(InputEvent::CopyShortcut);
    assert_eq!(act, EchoAction::Nothing);
    assert_eq!(s.buffer, chars("note"));
}

#[test]
fn paste_appends_and_echoes_fetched_text() {
    let mut s = EditorSession::new(SinkVariant::Clipboard);
    s.step(InputEvent::Char('a'));
    let act = s.step(InputEvent::PasteText(chars("b\r\nc")));
    assert_eq!(act, EchoAction::PrintText(chars("b\r\nc")));
    assert_eq!(s.buffer, chars("ab\r\nc"));
}

#[test]
fn paste_is_ignored_in_file_store_variant() {
    let mut s = EditorSession::new(SinkVariant::FileStore);
    s.step(InputEvent::Char('a'));
    let act = s.step(InputEvent::PasteText(chars("bc")));
    assert_eq!(act, EchoAction::Nothing);
    assert_eq!(s.buffer, chars("a"));
}
