//! Lifecycle of dataset dumps and the chunked transfer of their artifacts.
//!
//! The crate holds the decisions: which dump is current and in what state,
//! what a status query answers, which bytes a download emits and in what
//! order an upload writes them. The caller performs the file and network
//! work and reports each outcome back as a plain value.

pub mod error;
pub mod registry;
pub mod manager;
pub mod reader;
pub mod writer;
pub mod naming;
