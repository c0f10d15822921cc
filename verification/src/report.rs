//! The lines that report a failed call of the presentation layer.

use vstd::prelude::*;

verus! {

/// `String::push_str` of the standard library, which appends a string
/// slice to the end of a string. Claimed and not proved: afterwards the
/// string holds its old characters followed by those of `string`.
pub assume_specification[ String::push_str ](s: &mut String, string: &str)
    ensures
        final(s)@ == old(s)@ + string@,
;

/// The first line of a report: the name of the call, the words
/// `() failed: `, and the error's own message.
pub open spec fn failure_line(method_name: Seq<char>, message: Seq<char>) -> Seq<char> {
    method_name + "() failed: "@ + message
}

/// A further line of a report: the words `Caused by: ` behind two spaces,
/// and the message of one underlying error.
pub open spec fn cause_line(message: Seq<char>) -> Seq<char> {
    "  Caused by: "@ + message
}

/// The lines to log when the call named `method_name` has failed: one line
/// with the error's own message `message`, then one line for each of the
/// errors that lie behind it, whose messages are `causes`, outermost first.
pub fn log_error(method_name: &str, message: &str, causes: &Vec<String>) -> (lines: Vec<String>)
    ensures
        lines@.len() == 1 + causes@.len(),
        lines@[0]@ == failure_line(method_name@, message@),
        forall|i: int|
            0 <= i < causes@.len() ==> (#[trigger] lines@[i + 1])@ == cause_line(causes@[i]@),
{
    let mut lines: Vec<String> = Vec::new();
    let mut first = String::new();
    first.push_str(method_name);
    first.push_str("() failed: ");
    first.push_str(message);
    assert(first@ =~= failure_line(method_name@, message@));
    lines.push(first);
    let mut k: usize = 0;
    while k < causes.len()
        invariant
            k <= causes@.len(),
            lines@.len() == 1 + k,
            lines@[0]@ == failure_line(method_name@, message@),
            forall|i: int| 0 <= i < k ==> (#[trigger] lines@[i + 1])@ == cause_line(causes@[i]@),
        decreases causes@.len() - k,
    {
        let mut line = String::new();
        line.push_str("  Caused by: ");
        line.push_str(causes[k].as_str());
        assert(line@ =~= cause_line(causes@[k as int]@));
        lines.push(line);
        k = k + 1;
    }
    lines
}

} // verus!
