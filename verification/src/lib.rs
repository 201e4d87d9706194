//! Golden-vector suite runner: validates example JSON documents against
//! compiled JSON Schemas and aggregates pass/fail verdicts.
//!
//! The schema compilation and validation algorithm itself, and generic JSON
//! parsing, are services of outside crates consumed through a small set of
//! trusted declarations; everything that decides, counts and reports here is
//! verified.

pub mod classify;
pub mod emit;
pub mod json;
pub mod report;
pub mod result;
pub mod runner;
pub mod suites;
