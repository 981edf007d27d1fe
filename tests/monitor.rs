use exec_util::monitor::{
    after_stderr_read, after_stdout_read, chunk_text, poll_action, PollAction, ReaderState, ReaderStep,
    CHUNK_SIZE, POLL_INTERVAL_MS, READ_PAUSE_MS,
};

#[test]
fn constants() {
    assert_eq!(CHUNK_SIZE, 1024);
    assert_eq!(READ_PAUSE_MS, 100);
    assert_eq!(POLL_INTERVAL_MS, 500);
}

#[test]
fn stdout_chunk_is_shown_while_open() {
    let step = after_stdout_read(ReaderState::ReadingBoth, 5);
    assert_eq!(step, ReaderStep { next: ReaderState::ReadingBoth, show: true });
}

#[test]
fn empty_stdout_read_closes_it() {
    let step = after_stdout_read(ReaderState::ReadingBoth, 0);
    assert_eq!(step, ReaderStep { next: ReaderState::StderrOnly, show: false });
}

#[test]
fn stdout_stays_closed() {
    let step = after_stdout_read(ReaderState::StderrOnly, 7);
    assert_eq!(step, ReaderStep { next: ReaderState::StderrOnly, show: false });
}

#[test]
fn stderr_chunk_is_shown() {
    assert_eq!(
        after_stderr_read(ReaderState::ReadingBoth, 3),
        ReaderStep { next: ReaderState::ReadingBoth, show: true }
    );
    assert_eq!(
        after_stderr_read(ReaderState::StderrOnly, 3),
        ReaderStep { next: ReaderState::StderrOnly, show: true }
    );
}

#[test]
fn empty_stderr_read_while_stdout_open_goes_on() {
    assert_eq!(
        after_stderr_read(ReaderState::ReadingBoth, 0),
        ReaderStep { next: ReaderState::ReadingBoth, show: true }
    );
}

#[test]
fn reader_ends_after_both_pipes_end() {
    let s = after_stdout_read(ReaderState::ReadingBoth, 0);
    let e = after_stderr_read(s.next, 0);
    assert_eq!(e, ReaderStep { next: ReaderState::Done, show: false });
}

#[test]
fn poll_waits_until_exit() {
    assert_eq!(poll_action(false), PollAction::Wait { millis: 500 });
    assert_eq!(poll_action(true), PollAction::Finish);
}

#[test]
fn chunk_text_escapes_line_feeds() {
    assert_eq!(chunk_text(b"hello\nworld\n"), "hello\\nworld\\n");
    assert_eq!(chunk_text(b"no feed"), "no feed");
    assert_eq!(chunk_text(b""), "");
    assert_eq!(chunk_text(&[0xff, b'\n']), "\u{FFFD}\\n");
}
