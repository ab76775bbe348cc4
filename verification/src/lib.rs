//! Lightweight synchronization primitives: a single-waiter notifier, one-shot
//! channels, a bounded single-producer single-consumer channel and
//! request-response channels.
//!
//! Each primitive is a state machine (its channel state) whose every
//! operation is specified exactly over a model. The sides of a primitive
//! (sender and receiver, side A and side B, a wait) are values whose
//! operations take that state as an argument; the caller shares the state
//! between threads, behind a lock, and hands it to each operation in turn.
pub mod atomic_waker;
pub mod notify;
pub mod oneshot;
pub mod request_response;

pub mod spsc;

