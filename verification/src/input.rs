//! Classifying and reporting the outcome of reading one line of input.
//!
//! Reading itself is I/O and stays outside the library; the surrounding
//! program hands in what the read produced.  Absence of input (the stream
//! ended before any data) is a distinct, non-error outcome: it is reported
//! as `"Keine Eingabe"` and the process still succeeds.  Only a read
//! failure makes the propagating variant exit with a non-zero status.

use vstd::prelude::*;
use vstd::string::StringExecFns;

verus! {

/// The outcome of trying to read one line from the input stream.
pub enum LineRead {
    /// A line arrived, with its text (no trailing line break).
    Line(String),
    /// The stream ended before any data: no input, which is not an error.
    EndOfInput,
    /// The read itself failed.
    Failed,
}

/// The report for each outcome: the read line quoted, the fixed
/// `"Keine Eingabe"` notice for an empty stream, or the fixed
/// `"Fehler beim Lesen"` notice for a failed read.
pub open spec fn message_spec(r: LineRead) -> Seq<char> {
    match r {
        LineRead::Line(line) => "Gelesene Eingabe: \""@ + line@ + "\""@,
        LineRead::EndOfInput => "Keine Eingabe"@,
        LineRead::Failed => "Fehler beim Lesen"@,
    }
}

/// The prompt shown before the read is attempted.
pub fn input_prompt() -> (r: String)
    ensures
        r@ == "Eingabe: "@,
{
    String::from_str("Eingabe: ")
}

/// Renders the report for a read outcome, exactly as `message_spec`
/// describes it.
pub fn input_message(read: &LineRead) -> (r: String)
    ensures
        r@ == message_spec(*read),
{
    match read {
        LineRead::Line(line) => {
            let mut r = String::from_str("Gelesene Eingabe: \"");
            r.append(line.as_str());
            r.append("\"");
            proof {
                assert(r@ =~= message_spec(*read));
            }
            r
        },
        LineRead::EndOfInput => String::from_str("Keine Eingabe"),
        LineRead::Failed => String::from_str("Fehler beim Lesen"),
    }
}

/// The process status the propagating variant ends with: zero on a read
/// line and on absent input, non-zero exactly on a failed read.
pub open spec fn exit_code_spec(r: LineRead) -> i32 {
    if r is Failed {
        1
    } else {
        0
    }
}

/// The exit status for a read outcome: `0` unless the read failed, and
/// non-zero (`1`) if and only if it did.
pub fn exit_code(read: &LineRead) -> (c: i32)
    ensures
        c == exit_code_spec(*read),
        (c == 0) <==> !(*read is Failed),
{
    match read {
        LineRead::Failed => 1,
        _ => 0,
    }
}

/// Absence of input is success, not failure: the empty stream is reported
/// with the fixed notice and still exits with status zero.
pub proof fn lemma_no_input_is_success()
    ensures
        exit_code_spec(LineRead::EndOfInput) == 0,
        message_spec(LineRead::EndOfInput) == "Keine Eingabe"@,
{
}

} // verus!
