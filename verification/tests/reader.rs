use robbie::reader::{EchoAction, LineReader, Step, TermEvent, TermFlags};

fn prior() -> TermFlags {
    TermFlags { raw: false, paste: false }
}

#[test]
fn typed_characters_accumulate_and_echo() {
    let mut r = LineReader::start(prior());
    assert!(r.is_reading());
    assert!(matches!(
        r.on_event(TermEvent::Key('h')),
        Step::Continue(EchoAction::Echo('h'))
    ));
    assert!(matches!(
        r.on_event(TermEvent::Key('i')),
        Step::Continue(EchoAction::Echo('i'))
    ));
    assert_eq!(r.line_so_far(), "hi");
    assert!(r.is_reading());
}

#[test]
fn enter_completes_with_trailing_newline() {
    let mut r = LineReader::start(prior());
    r.on_event(TermEvent::Key('o'));
    r.on_event(TermEvent::Key('k'));
    assert!(matches!(r.on_event(TermEvent::Enter), Step::Complete));
    assert!(r.is_done());
    assert_eq!(r.take_line(), "ok\n");
}

#[test]
fn backspace_on_empty_buffer_is_silent_noop() {
    let mut r = LineReader::start(prior());
    assert!(matches!(
        r.on_event(TermEvent::Backspace),
        Step::Continue(EchoAction::Silent)
    ));
    assert_eq!(r.line_so_far(), "");
    assert!(r.is_reading());
}

#[test]
fn backspace_removes_last_character_and_erases_glyph() {
    let mut r = LineReader::start(prior());
    r.on_event(TermEvent::Key('a'));
    r.on_event(TermEvent::Key('b'));
    assert!(matches!(
        r.on_event(TermEvent::Backspace),
        Step::Continue(EchoAction::EraseGlyph)
    ));
    assert_eq!(r.line_so_far(), "a");
}

#[test]
fn paste_accumulates_verbatim_without_completing() {
    let mut r = LineReader::start(prior());
    let step = r.on_event(TermEvent::Paste("a\nb".to_string()));
    match step {
        Step::Continue(EchoAction::EchoStr(s)) => assert_eq!(s, "a\nb"),
        other => panic!("unexpected step: {:?}", other),
    }
    assert_eq!(r.line_so_far(), "a\nb");
    assert!(r.is_reading());
}

#[test]
fn unhandled_event_fails_and_restores_flags() {
    let mut r = LineReader::start(prior());
    r.on_event(TermEvent::Key('x'));
    assert!(matches!(r.on_event(TermEvent::Other), Step::Unhandled));
    assert!(!r.is_reading());
    assert!(!r.is_done());
    assert_eq!(r.flags(), prior());
}

#[test]
fn read_error_restores_flags_before_failure_returns() {
    let prior = TermFlags { raw: false, paste: true };
    let mut r = LineReader::start(prior);
    r.on_event(TermEvent::Key('x'));
    assert_eq!(r.flags(), TermFlags { raw: true, paste: true });
    r.on_read_error();
    assert!(!r.is_reading());
    assert!(!r.is_done());
    assert_eq!(r.flags(), prior);
    assert_eq!(r.line_so_far(), "x");
}

#[test]
fn completion_restores_flags() {
    let mut r = LineReader::start(prior());
    assert_eq!(r.flags(), TermFlags { raw: true, paste: true });
    r.on_event(TermEvent::Enter);
    assert_eq!(r.flags(), prior());
}
