//! Normalisation of raw event records into structured events.

pub mod fields;
pub mod linux_parser;
pub mod models;
pub mod processor;
pub mod text;
