//! Errors of the one-shot channels.
use vstd::prelude::*;

verus! {

/// The sender was dropped before it sent a value.
#[derive(Debug, Clone, Copy, PartialEq, Eq)]
pub struct RecvError;

impl RecvError {
    /// The message of this error.
    pub fn to_string(&self) -> (s: String)
        ensures
            s@ == "channel closed"@,
    {
        "channel closed".to_owned()
    }
}

/// Why `try_recv` returned no value.
#[derive(Debug, Clone, Copy, PartialEq, Eq)]
pub enum TryRecvError {
    /// No value has been sent yet.
    Empty,
    /// The sender was dropped without sending a value.
    Closed,
}

impl TryRecvError {
    /// The message of this error.
    pub fn to_string(&self) -> (s: String)
        ensures
            s@ == (match self {
                TryRecvError::Empty => "channel empty"@,
                TryRecvError::Closed => "channel closed"@,
            }),
    {
        match self {
            TryRecvError::Empty => "channel empty".to_owned(),
            TryRecvError::Closed => "channel closed".to_owned(),
        }
    }
}

} // verus!
