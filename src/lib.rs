//! Document persistence, path rules, delta flattening and grammar-response
//! mapping for a desktop word processor.

pub mod autosave;
pub mod exporter;
pub mod file_handler;
pub mod grammar;
pub mod json;
pub mod text;
