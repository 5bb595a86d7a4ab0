//! The serverless simulator's read loop: each input line is trimmed and
//! either ends the session, is skipped, or becomes the next invocation.
use vstd::prelude::*;
use vstd::string::*;
use crate::service::same_text;
use crate::text::{trim, trim_spec};

verus! {

broadcast use vstd::string::group_string_axioms;

/// What the simulator does with one input line.
pub enum LineCommand {
    /// `quit` or `exit`: stop reading.
    Stop,
    /// A blank line: read the next one.
    Skip,
    /// Invoke the guest, cold and warm, with this payload.
    Invoke(String),
}

/// The trimmed line asks to end the session.
pub open spec fn is_stop_word(t: Seq<char>) -> bool {
    t == "quit"@ || t == "exit"@
}

/// Decides what to do with `line` after `invocations` invocations, and how
/// many invocations there are afterwards. The count is a `u32`, which would
/// overflow on an invocation after 2^32 - 1 of them; that case is excluded.
pub fn next_step(invocations: u32, line: &str) -> (r: (u32, LineCommand))
    requires
        !is_stop_word(trim_spec(line@)) && trim_spec(line@).len() > 0 ==> invocations < u32::MAX,
    ensures
        is_stop_word(trim_spec(line@)) ==> r.0 == invocations && r.1 is Stop,
        !is_stop_word(trim_spec(line@)) && trim_spec(line@).len() == 0 ==> r.0 == invocations
            && r.1 is Skip,
        !is_stop_word(trim_spec(line@)) && trim_spec(line@).len() > 0 ==> (r.0
            == invocations + 1 && (r.1 matches LineCommand::Invoke(p) && p@ == trim_spec(line@))),
{
    let input = trim(line);
    if same_text(input.as_str(), "quit") || same_text(input.as_str(), "exit") {
        return (invocations, LineCommand::Stop);
    }
    if input.as_str().is_empty() {
        return (invocations, LineCommand::Skip);
    }
    (invocations + 1, LineCommand::Invoke(input))
}

} // verus!
