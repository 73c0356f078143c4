//! Streaming client core for a chat assistant with server-side code
//! execution.
//!
//! A long-lived HTTP response arrives as arbitrarily cut chunks of bytes.
//! [`frame`] cuts the text into blank-line-delimited frames, [`protocol`]
//! decodes each frame's payload, [`tool`] reassembles fragmented tool input
//! and interprets tool results, and [`session`] holds the decisions of one
//! send: what each network outcome does to the session and which domain
//! events reach the consumer. [`files`] resolves the files that executed
//! code produced; [`ui`] holds the state of the conversation view; [`request`]
//! and [`prompt`] prepare what a request carries. [`laws`] states and proves
//! the properties that hold across calls: chunking does not matter, tool
//! input is reassembled whatever its split, unreadable frames are silent, and
//! cancellation is final.
//!
//! JSON is read by serde_json, UTF-8 by the standard library and the clock by
//! chrono, each behind a small function whose contract names what it relies on.
pub mod files;
pub mod frame;
pub mod json;
pub mod laws;
pub mod prompt;
pub mod protocol;
pub mod request;
pub mod session;
pub mod text;
pub mod tool;
pub mod ui;
