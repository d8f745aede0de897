//! A small task service: the tasks table, the SQL statements that act on it,
//! and the JSON envelopes that the HTTP handlers answer with.

pub mod config;
pub mod json;
pub mod table;
pub mod task;
pub mod statement;
pub mod envelope;
pub mod service;
pub mod laws;
