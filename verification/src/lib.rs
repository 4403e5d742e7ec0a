//! Verified conversion of NCSA/Apache access-log lines into structured
//! JSON events.
//!
//! The library recognizes the Common and Combined access-log grammars,
//! extracts typed fields (text, unsigned integers, timezone-aware
//! timestamps), renders each accepted line as one JSON object, and drives
//! a per-line pipeline in which a malformed line is skipped with a
//! diagnostic instead of aborting the stream.

pub mod errors;
pub mod event;
pub mod json;
pub mod matcher;
pub mod numbers;
pub mod parser;
pub mod pipeline;
pub mod scan;
pub mod timestamp;
