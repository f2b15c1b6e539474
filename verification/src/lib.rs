//! Replication of secrets from one store to another: the decisions that keep a
//! destination prefix in step with a watched source prefix.
//!
//! The crate holds no I/O. Each component is a value that is told what
//! happened (a line arrived, a listing came back, a call failed) and answers
//! with what to do next; the program around it performs the calls.

pub mod apply;
pub mod audit;
pub mod config;
pub mod event;
pub mod json;
pub mod path;
pub mod registration;
pub mod scan;
pub mod session;
pub mod text;
