//! A planner for fetching files over HTTP: byte-range arithmetic, header
//! probing, and the decision logic of single-stream, segmented and
//! multi-file downloads, expressed as verified state machines.

pub mod assembly;
pub mod driver;
pub mod error;
pub mod event;
pub mod fetch;
pub mod fetched;
pub mod fetcher;
pub mod probe;
pub mod range;
pub mod stream;
pub mod text;
pub mod time;
