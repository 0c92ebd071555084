//! An append-only, authorization-gated record store's creation core.
//!
//! A caller submits a short topic and a content text; the core validates
//! both against character limits, then stamps the record with the caller's
//! identity and the current time and writes it into a pre-allocated slot.
//! The hosting runtime that provisions accounts, proves the caller's
//! identity, reads the clock and persists the slot lives outside this
//! crate; it hands the core plain values and takes plain values back.

pub mod layout;
pub mod tweet;

pub use crate::layout::max_record_size;
pub use crate::tweet::send_tweet;
pub use crate::tweet::ErrorCode;
pub use crate::tweet::SendTweet;
pub use crate::tweet::Tweet;
