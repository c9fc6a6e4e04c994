//! Bifrost: a verified core for a manifest-driven container workspace tool.
//!
//! The library holds the logic worth proving: the manifest document grammar,
//! path validation against the reserved-name blacklist, composition of the
//! container invocation, the child-session protocol, output collection and
//! report rendering. All process, file and environment I/O lives outside the
//! library, which exchanges only plain values with its callers.

pub mod bifrost_run;
pub mod config;
pub mod docker;
pub mod errors;
pub mod manifest;
pub mod parse;
pub mod report;
