//! Pod-lifecycle core for a container engine front-end.
//!
//! The library keeps the last good listing of pods, guards mutating
//! operations so that at most one is in flight per pod name, and maps
//! results and errors into one caller-facing shape. All calls to the
//! engine itself are made by the caller, which hands their outcomes back.
pub mod pod;
pub mod registry;
pub mod coordinator;
pub mod manager;
