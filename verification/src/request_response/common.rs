//! Types shared by the request-response channels.
use vstd::prelude::*;

verus! {

/// Error of a request-response channel operation.
#[derive(Debug, Clone, Copy, PartialEq, Eq)]
pub enum ChannelError {
    /// The other side has been closed.
    Closed,
    /// The channel is full.
    Full,
}

impl ChannelError {
    /// The message of this error.
    pub fn to_string(&self) -> (s: String)
        ensures
            s@ == (match self {
                ChannelError::Closed => "channel closed"@,
                ChannelError::Full => "channel full"@,
            }),
    {
        match self {
            ChannelError::Closed => "channel closed".to_owned(),
            ChannelError::Full => "channel full".to_owned(),
        }
    }
}

/// The channel is idle and accepts a new request.
pub const IDLE: u8 = 0;

/// A request was sent and awaits its response.
pub const WAITING_RESPONSE: u8 = 1;

/// The response is ready to be received.
pub const RESPONSE_READY: u8 = 2;

} // verus!
