//! A verified installation engine for versioned, content-addressed game
//! artifacts: it resolves a version document into download tasks, decides per
//! task whether a fetch is needed, admits only digest-verified bytes for
//! writing, and aggregates per-task outcomes, with platform-applicability
//! rules, maven-style coordinates, and a mod-loader flow built on the same
//! primitives. Network and filesystem I/O stay outside: callers perform the
//! steps the sync state machine asks for and feed the results back.

pub mod batch;
pub mod coords;
pub mod errors;
pub mod fabric;
pub mod hashing;
pub mod mc_data;
pub mod resolve;
pub mod rules;
pub mod sync;
pub mod types;
pub mod urls;
