//! A security scanner library: a catalogue of pattern rules, the per-file
//! matching that turns rule hits into findings, and the summaries and
//! reports built from a scan.
pub mod text;
pub mod types;
pub mod rules;
pub mod scanner;
pub mod report;
pub mod cli;
pub mod llm;
pub mod terminal;
