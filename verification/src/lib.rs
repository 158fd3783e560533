//! Host telemetry reporter: periodic sampling of CPU, memory and thermal
//! sensors into immutable snapshots, a one-shot hardware inventory query,
//! and a small window input-passthrough toggle.
//!
//! The OS-facing reads go through a thin trusted layer over `sysinfo`; all
//! aggregation, fallback and toggle logic is verified.

pub mod cpu;
pub mod inventory;
pub mod publisher;
pub mod snapshot;
pub mod source;
pub mod window;
