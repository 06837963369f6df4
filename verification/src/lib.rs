//! Harness for comparing two data-access strategies on one relational schema:
//! deterministic seed data, the per-sample correctness gate, the scenario
//! state machine and the fixed table of scenarios.

pub mod dataset;
pub mod decimal;
pub mod entries;
pub mod error;
pub mod oracle;
pub mod runner;
pub mod scenario;
pub mod sql;
pub mod sweep;
pub mod trace;
