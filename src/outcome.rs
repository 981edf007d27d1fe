//! What a finished command run reports: its output text, or a failure message.
use vstd::prelude::*;
use vstd::utf8::{decode_utf8, valid_utf8};

verus! {

/// The text that lossy UTF-8 decoding gives for `bytes`.
pub uninterp spec fn utf8_lossy(bytes: Seq<u8>) -> Seq<char>;

/// The quoted, escaped form that `Debug` gives for the text `s`.
pub uninterp spec fn debug_text(s: Seq<char>) -> Seq<char>;

/// Relies on `String::from_utf8_lossy`: the text depends on the bytes alone, and
/// bytes that are valid UTF-8 decode to the characters they encode.
#[verifier::external_body]
pub(crate) fn decode_lossy(bytes: &[u8]) -> (r: String)
    ensures
        r@ == utf8_lossy(bytes@),
        valid_utf8(bytes@) ==> r@ == decode_utf8(bytes@),
{
    String::from_utf8_lossy(bytes).into_owned()
}

/// Relies on `<str as Debug>::fmt`: the quoted form depends on the text alone.
#[verifier::external_body]
fn debug_quoted(s: &str) -> (r: String)
    ensures
        r@ == debug_text(s@),
{
    format!("{:?}", s)
}

/// A command as it is reported: the program, and the environment overrides and
/// arguments as rendered by the process builder.
pub struct Invocation {
    pub program: String,
    pub envs: String,
    pub args: String,
}

/// What one run of a command left behind.
pub struct Finished {
    /// Whether the exit status counts as success.
    pub success: bool,
    /// The exit status, rendered for reports.
    pub status: String,
    pub stdout: Vec<u8>,
    pub stderr: Vec<u8>,
}

/// The message of a failed run.
pub open spec fn failure_text(inv: Invocation, done: Finished) -> Seq<char> {
    "Command failed: "@ + debug_text(inv.program@) + " envs:"@ + inv.envs@ + " args:"@ + inv.args@
        + " status:"@ + done.status@ + " stdout:"@ + debug_text(utf8_lossy(done.stdout@))
        + " stderr:"@ + debug_text(utf8_lossy(done.stderr@))
}

/// Builds the message of a failed run.
pub fn failure_message(inv: &Invocation, done: &Finished) -> (r: String)
    ensures
        r@ == failure_text(*inv, *done),
{
    let stdout = decode_lossy(done.stdout.as_slice());
    let stderr = decode_lossy(done.stderr.as_slice());
    let mut m = String::from_str("Command failed: ");
    m.append(debug_quoted(inv.program.as_str()).as_str());
    m.append(" envs:");
    m.append(inv.envs.as_str());
    m.append(" args:");
    m.append(inv.args.as_str());
    m.append(" status:");
    m.append(done.status.as_str());
    m.append(" stdout:");
    m.append(debug_quoted(stdout.as_str()).as_str());
    m.append(" stderr:");
    m.append(debug_quoted(stderr.as_str()).as_str());
    m
}

/// The result of a synchronous run: the captured standard output as text when the
/// run succeeded, else the failure message.
pub fn command_outcome(inv: &Invocation, done: &Finished) -> (r: Result<String, String>)
    ensures
        r is Ok <==> done.success,
        r matches Ok(out) ==> out@ == utf8_lossy(done.stdout@),
        r matches Ok(out) ==> (valid_utf8(done.stdout@) ==> out@ == decode_utf8(done.stdout@)),
        r matches Err(m) ==> m@ == failure_text(*inv, *done),
{
    if done.success {
        Ok(decode_lossy(done.stdout.as_slice()))
    } else {
        Err(failure_message(inv, done))
    }
}

/// The result of a streamed run: empty text when the run succeeded, else the
/// failure message. What the command wrote has already gone to the terminal.
pub fn streamed_outcome(inv: &Invocation, done: &Finished) -> (r: Result<String, String>)
    ensures
        r is Ok <==> done.success,
        r matches Ok(out) ==> out@.len() == 0,
        r matches Err(m) ==> m@ == failure_text(*inv, *done),
{
    if done.success {
        Ok(String::new())
    } else {
        Err(failure_message(inv, done))
    }
}

/// Two successful runs whose commands wrote the same bytes to standard output
/// report the same text: nothing is carried from one report to the next.
pub proof fn lemma_same_output_same_report(first: Finished, second: Finished)
    requires
        first.success,
        second.success,
        first.stdout@ == second.stdout@,
    ensures
        utf8_lossy(first.stdout@) == utf8_lossy(second.stdout@),
{
}

} // verus!
