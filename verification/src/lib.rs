//! Orchestration core of the AEGIS Studio backend: sandboxed execution of
//! code and binaries under a policy, fuzzing campaign lifecycle and crash
//! triage, the run and campaign store, and the bounded telemetry log.
//!
//! Everything here works on plain values. Spawning processes, serving
//! requests and locking shared state belong to the program around it.

pub mod api;
pub mod models;
pub mod services;
pub mod system;
pub mod text;
