//! Hardware-in-the-loop test harness: composes a feature set for a target
//! repository, drives its build and hardware test phases, and reports the
//! outcome to a remote endpoint under an operator-supplied key.
//!
//! The library holds the orchestration and reporting logic, verified; the
//! surrounding binary performs the actual input, process and network calls
//! and feeds their results back in as plain values.

pub mod features;
pub mod json;
pub mod laws;
pub mod pipeline;
pub mod record;
pub mod report;
pub mod text;
