//! Decisions of the streaming runner: the reader that drains a child's two output
//! pipes, and the loop that polls the child for its exit.
use vstd::prelude::*;
use crate::outcome::utf8_lossy;

verus! {

/// Largest number of bytes taken from a pipe in one read.
pub const CHUNK_SIZE: usize = 1024;

/// Pause of the reader between two rounds, in milliseconds.
pub const READ_PAUSE_MS: u64 = 100;

/// Pause between two polls of the child's status, in milliseconds.
pub const POLL_INTERVAL_MS: u64 = 500;

/// Where the reader stands. It only moves forward: both pipes open, then standard
/// output at its end, then done.
#[derive(Clone, Copy, PartialEq, Eq, Structural, Debug)]
pub enum ReaderState {
    ReadingBoth,
    StderrOnly,
    Done,
}

/// What the reader does after one read.
#[derive(Clone, Copy, PartialEq, Eq, Structural, Debug)]
pub struct ReaderStep {
    pub next: ReaderState,
    /// Whether the chunk just read is shown (the last terminal line is replaced
    /// and the chunk traced).
    pub show: bool,
}

/// Position of a state along the reader's one-way path.
pub open spec fn stage(s: ReaderState) -> int {
    match s {
        ReaderState::ReadingBoth => 0,
        ReaderState::StderrOnly => 1,
        ReaderState::Done => 2,
    }
}

/// After `n` bytes were read from standard output: an empty read marks its end,
/// and a chunk is shown only while standard output is still open.
pub fn after_stdout_read(state: ReaderState, n: usize) -> (r: ReaderStep)
    requires
        state != ReaderState::Done,
    ensures
        r.next == (if n == 0 || state == ReaderState::StderrOnly {
            ReaderState::StderrOnly
        } else {
            ReaderState::ReadingBoth
        }),
        r.show == (r.next == ReaderState::ReadingBoth),
        stage(state) <= stage(r.next),
{
    let next = if n == 0 {
        ReaderState::StderrOnly
    } else {
        state
    };
    ReaderStep { next, show: next == ReaderState::ReadingBoth }
}

/// After `n` bytes were read from standard error: once standard output has ended,
/// an empty read ends the reader; otherwise the chunk is shown and the reader
/// pauses for another round.
pub fn after_stderr_read(state: ReaderState, n: usize) -> (r: ReaderStep)
    requires
        state != ReaderState::Done,
    ensures
        r.next == (if n == 0 && state == ReaderState::StderrOnly {
            ReaderState::Done
        } else {
            state
        }),
        r.show == (r.next != ReaderState::Done),
        stage(state) <= stage(r.next),
{
    if n == 0 && state == ReaderState::StderrOnly {
        ReaderStep { next: ReaderState::Done, show: false }
    } else {
        ReaderStep { next: state, show: true }
    }
}

/// What the polling loop does after one look at the child's status.
#[derive(Clone, Copy, PartialEq, Eq, Structural, Debug)]
pub enum PollAction {
    Wait { millis: u64 },
    Finish,
}

/// The polling loop finishes once the child has exited, and waits otherwise.
pub fn poll_action(exited: bool) -> (r: PollAction)
    ensures
        r == (if exited {
            PollAction::Finish
        } else {
            PollAction::Wait { millis: POLL_INTERVAL_MS }
        }),
{
    if exited {
        PollAction::Finish
    } else {
        PollAction::Wait { millis: POLL_INTERVAL_MS }
    }
}

/// `s` with each line feed written as the two characters `\` and `n`.
pub open spec fn escape_newlines(s: Seq<char>) -> Seq<char>
    decreases s.len(),
{
    if s.len() == 0 {
        seq![]
    } else {
        escape_newlines(s.drop_last()) + (if s.last() == '\n' {
            seq!['\\', 'n']
        } else {
            seq![s.last()]
        })
    }
}

/// The one-line trace text of a chunk read from a pipe.
pub fn chunk_text(chunk: &[u8]) -> (r: String)
    ensures
        r@ == escape_newlines(utf8_lossy(chunk@)),
{
    let text = crate::outcome::decode_lossy(chunk);
    let s = text.as_str();
    let n = s.unicode_len();
    let mut r = String::new();
    let mut i: usize = 0;
    while i < n
        invariant
            n == s@.len(),
            s@ == utf8_lossy(chunk@),
            i <= n,
            r@ == escape_newlines(s@.take(i as int)),
        decreases n - i,
    {
        assert(s@.take(i + 1).drop_last() =~= s@.take(i as int));
        if s.get_char(i) == '\n' {
            proof {
                reveal_strlit("\\n");
            }
            r.append("\\n");
        } else {
            r.append(s.substring_char(i, i + 1));
        }
        i = i + 1;
    }
    assert(s@.take(n as int) =~= s@);
    r
}

} // verus!
