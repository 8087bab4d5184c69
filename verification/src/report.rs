//! What is shown when a call could not be made.

use vstd::prelude::*;

verus! {

/// The line that reports a transport failure.
pub open spec fn error_text(message: Seq<char>) -> Seq<char> {
    "Error is "@ + message
}

/// Words a transport failure, given the transport's own message for it.
pub fn handler(message: &str) -> (line: String)
    ensures
        line@ == error_text(message@),
{
    "Error is ".to_owned().concat(message)
}

} // verus!
