//! Decision core of a host monitoring agent: normalisation of raw audit
//! records, the delivery and spool-replay rules, and the dispatch of remote
//! commands to local response actions.
//!
//! Every function here computes on plain values. The program around the
//! library performs the reads, sends and system calls that these functions
//! ask for, and hands their results back.

pub mod collector;
pub mod communicator;
pub mod config;
pub mod processor;
pub mod queue_manager;
pub mod responder;
