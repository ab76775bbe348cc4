//! One-shot channels: a value, or a completion state, sent once from one task
//! to another.
//!
//! `lite` carries a small state encoded in one byte; `generic` carries a value
//! of any type. `common` holds the parts they share.
pub mod common;
pub mod generic;
pub mod lite;
