//! Bidirectional request-response channels: one requester and one responder
//! (`one_to_one`), or many requesters and one responder (`many_to_one`).
mod common;
pub mod many_to_one;
pub mod one_to_one;

pub use common::{ChannelError, IDLE, RESPONSE_READY, WAITING_RESPONSE};
