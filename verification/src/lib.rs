//! Decision logic of a tool that squash-merges the pull requests of a
//! dependency-update bot once all their check runs have succeeded.
//!
//! The library holds no connection and performs no request. It says which
//! request comes next, reads the body that came back, and says what to print.
//! The program around it sends the requests and feeds the answers back in.

pub mod checks;
pub mod cli;
pub mod client;
pub mod error;
pub mod json;
pub mod merge;
pub mod proofs;
pub mod pulls;
pub mod retry;
pub mod run;
pub mod text;
