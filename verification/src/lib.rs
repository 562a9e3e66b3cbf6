//! Core of a long-running GPU presentation harness: the lifecycle of a
//! surface bound to one window, a self-sustaining per-frame render loop,
//! and periodic throughput telemetry.
//!
//! The host shell owns the actual window, event loop and GPU handles; this
//! crate holds the decisions: when resources are created (exactly once),
//! what configuration the surface is given (never zero-sized), when the
//! frame counter advances (only on a presented frame), and when a
//! throughput report is emitted (at most once per interval).

pub mod config;
pub mod lifecycle;
pub mod telemetry;
