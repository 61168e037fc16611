//! The prompt-and-echo reader: two fixed prompt lines, one blocking line
//! read, one echo line holding the captured text verbatim. The blocking
//! read itself is the caller's business; it hands its outcome in as a
//! [`ReadOutcome`], and everything that follows is a pure function of it.

use vstd::prelude::*;
use vstd::string::StringExecFns;

verus! {

/// The outcome of one blocking line read from a line source.
pub enum ReadOutcome {
    /// The read completed. The captured text includes the line terminator
    /// when one was seen; at end-of-stream with no bytes left it is empty.
    Line(String),
    /// The read could not complete: an operating-system error or invalid
    /// text encoding. The session aborts and no echo line is produced.
    Failure,
}

impl View for ReadOutcome {
    type V = Option<Seq<char>>;

    open spec fn view(&self) -> Option<Seq<char>> {
        match self {
            ReadOutcome::Line(text) => Some(text@),
            ReadOutcome::Failure => None,
        }
    }
}

/// The first fixed prompt line.
pub open spec fn first_prompt() -> Seq<char> {
    "Guess a number!"@
}

/// The second fixed prompt line.
pub open spec fn second_prompt() -> Seq<char> {
    "Please input your guess!"@
}

/// The echo line: a fixed prefix followed by the captured text, unchanged.
pub open spec fn echo_of(captured: Seq<char>) -> Seq<char> {
    "You guessed: "@ + captured
}

/// Every output line of one session, in print order, as a function of the
/// read's outcome: the two prompts, then the echo when the read completed.
pub open spec fn transcript_of(outcome: Option<Seq<char>>) -> Seq<Seq<char>> {
    match outcome {
        Some(line) => seq![first_prompt(), second_prompt(), echo_of(line)],
        None => seq![first_prompt(), second_prompt()],
    }
}

/// Whether the session ends in a fatal abort instead of an echo.
pub open spec fn aborts(outcome: Option<Seq<char>>) -> bool {
    outcome is None
}

/// What one session writes: its output lines in print order, and whether it
/// ends in a fatal abort instead of running to completion.
pub struct Transcript {
    pub lines: Vec<String>,
    pub aborted: bool,
}

impl Transcript {
    /// The output lines as sequences of characters.
    pub open spec fn lines_view(self) -> Seq<Seq<char>> {
        self.lines@.map_values(|l: String| l@)
    }
}

/// The two fixed prompt lines, in the order they are printed before the read.
pub fn prompts() -> (r: Vec<String>)
    ensures
        r@.len() == 2,
        r@[0]@ == first_prompt(),
        r@[1]@ == second_prompt(),
{
    let mut r: Vec<String> = Vec::new();
    r.push(String::from_str("Guess a number!"));
    r.push(String::from_str("Please input your guess!"));
    r
}

/// Builds the echo line for captured text: the fixed prefix, then the text
/// exactly as captured, terminator included.
pub fn echo_line(captured: &str) -> (r: String)
    ensures
        r@ == echo_of(captured@),
{
    let mut r = String::from_str("You guessed: ");
    r.append(captured);
    r
}

/// Decides what follows the read: the echo line when it completed (for any
/// captured text, the empty one included), nothing when it failed.
pub fn respond(outcome: &ReadOutcome) -> (r: Option<String>)
    ensures
        outcome@ matches Some(line) ==> r matches Some(echo) && echo@ == echo_of(line),
        outcome@ is None ==> r is None,
{
    match outcome {
        ReadOutcome::Line(text) => Some(echo_line(text.as_str())),
        ReadOutcome::Failure => None,
    }
}

/// One whole session as a function of the read's outcome: the two prompts,
/// then either the echo of the captured text or a fatal abort with no echo.
pub fn run_session(outcome: ReadOutcome) -> (t: Transcript)
    ensures
        t.lines_view() == transcript_of(outcome@),
        t.aborted == aborts(outcome@),
{
    let mut lines = prompts();
    match respond(&outcome) {
        Some(echo) => {
            lines.push(echo);
            let t = Transcript { lines, aborted: false };
            proof {
                assert(t.lines_view() =~= transcript_of(outcome@));
            }
            t
        },
        None => {
            let t = Transcript { lines, aborted: true };
            proof {
                assert(t.lines_view() =~= transcript_of(outcome@));
            }
            t
        },
    }
}

/// Law: for any captured line, the session that read it writes exactly three
/// lines — the two fixed prompts, in order, then the echo — and the echo
/// carries the captured text unchanged: stripping the fixed prefix from the
/// echo gives back the line exactly, terminator included.
pub proof fn lemma_echo_preserves_line(line: Seq<char>)
    ensures
        transcript_of(Some(line)) =~= seq![first_prompt(), second_prompt(), echo_of(line)],
        echo_of(line).len() == "You guessed: "@.len() + line.len(),
        echo_of(line).skip("You guessed: "@.len() as int) =~= line,
{
}

/// Law: a read that cannot complete aborts the session, and its transcript
/// holds the two prompts alone — no echo line is ever produced.
pub proof fn lemma_failed_read_aborts()
    ensures
        aborts(None),
        transcript_of(None) =~= seq![first_prompt(), second_prompt()],
        forall|line: Seq<char>| transcript_of(None).len() < transcript_of(Some(line)).len(),
{
}

/// Law: the session is deterministic — it keeps no hidden state, so two
/// transcripts produced from equal read outcomes are equal, line for line,
/// and agree on whether the session aborted.
pub proof fn lemma_session_deterministic(a: Transcript, b: Transcript, outcome: Option<Seq<char>>)
    requires
        a.lines_view() == transcript_of(outcome),
        a.aborted == aborts(outcome),
        b.lines_view() == transcript_of(outcome),
        b.aborted == aborts(outcome),
    ensures
        a.lines_view() == b.lines_view(),
        a.aborted == b.aborted,
{
}

} // verus!
