//! Error of the one-shot state channel.
use vstd::prelude::*;

verus! {

/// The sender was dropped before it sent a state.
#[derive(Debug, Clone, Copy, PartialEq, Eq)]
pub struct RecvError;

impl RecvError {
    /// The message of this error.
    pub fn to_string(&self) -> (s: String)
        ensures
            s@ == "sender dropped"@,
    {
        "sender dropped".to_owned()
    }
}

} // verus!
