//! Lifecycle core of a local service supervisor.
//!
//! The supervisor manages two independently lifecycled local services — a
//! model runtime and an HTTP backend — and keeps, for each, a record of
//! whether this supervisor instance spawned it and therefore may stop it.
//! This crate holds the verified core: the per-service ownership state
//! machine, the health-probe and model-catalog decision logic, the
//! preferences record with its persisted text format, and the path layout
//! under the user's data directory. Process spawning, networking and file
//! access are performed by the surrounding application, which feeds their
//! outcomes into the functions here as plain values.

pub mod catalog;
pub mod decimal;
pub mod lifecycle;
pub mod paths;
pub mod prefs;
pub mod probe;
pub mod setup;
pub mod text;

pub use lifecycle::AppState;
pub use prefs::AppPreferences;
