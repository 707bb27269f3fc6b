//! What can go wrong while waiting for a slot.

use vstd::prelude::*;
use vstd::string::StringExecFns;

verus! {

/// The kinds of failure a waiting caller can be told of.
#[derive(Debug)]
pub enum ErrorKind {
    /// The timer that was to end a sleep between two scan rounds failed. The
    /// pool's guarantee rests on those sleeps, so the failure is passed on to
    /// the waiting caller and the wait is not taken up again.
    Timer(&'static str),
}

impl ErrorKind {
    /// The text that comes with the failure.
    pub open spec fn detail(&self) -> Seq<char> {
        match self {
            ErrorKind::Timer(detail) => detail@,
        }
    }

    /// The failure in words: `timer error: ` and the timer's own text.
    pub fn message(&self) -> (text: String)
        ensures
            text@ == "timer error: "@ + self.detail(),
    {
        match self {
            ErrorKind::Timer(detail) => String::from_str("timer error: ").concat(detail),
        }
    }
}

} // verus!
