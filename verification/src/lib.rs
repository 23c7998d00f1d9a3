//! Payload decoding for event-submission request bodies: sniffs the real
//! compression of the raw bytes, turns them into UTF-8 text, parses the text
//! as JSON, and normalizes the result into an ordered list of raw event
//! records ready for downstream processing.

pub mod api;
pub mod event;
pub mod json;
pub mod payload;
