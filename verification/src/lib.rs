//! Schema-migration engine for an embedded, file-backed relational database.
//!
//! The crate owns the pieces of a desktop application's database lifecycle
//! that must not go wrong across upgrades: a versioned catalog of forward
//! schema-change steps, a runner that applies the not-yet-applied steps in
//! order and records them, a resolver that derives the on-disk database
//! paths from a host-supplied configuration directory, and a destructive
//! reset protocol that wipes those paths and replays the full catalog.
//!
//! The host performs the actual statement execution and filesystem work;
//! this crate decides, step by step, what to do next and what each outcome
//! means, and those decisions are verified.

pub mod catalog;
pub mod errors;
pub mod location;
pub mod reset;
pub mod runner;
