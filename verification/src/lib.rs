//! Protocol core of a job-listing analyser: the JSON-line envelopes, the tool
//! registry and its dispatch, the per-connection and worker state machines,
//! and the extraction and scoring of a scraped listing.

pub mod agent;
pub mod codec;
pub mod commands;
pub mod envelope;
pub mod extraction;
pub mod html;
pub mod json;
pub mod pattern;
pub mod records;
pub mod scoring;
pub mod server;
pub mod settings;
pub mod stamp;
pub mod text;
pub mod tools;
