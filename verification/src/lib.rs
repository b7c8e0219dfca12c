//! Process telemetry sampler.
//!
//! The crate decides what a background observer of one operating-system
//! process does: how the process is resolved, which identity tags it carries,
//! which six gauges exist, how each counter of a snapshot becomes a
//! measurement, and how the sampling loop moves from tick to tick.  It performs
//! no input or output itself.  A driver reads the operating system, the GPU
//! driver and the clock, hands plain values in, and carries out the actions it
//! gets back.
//!
//! - [`error`]: what can go wrong, and what of it ends a session.
//! - [`convert`]: the narrowing of counters to the value types of the gauges.
//! - [`config`]: the mode of a session, its bounds, and the sampling interval.
//! - [`attribute`]: tags.
//! - [`identity`]: the resolver, and the identity tags of a process.
//! - [`instrument`]: the six gauges and their schema.
//! - [`gpu`]: the lookup of the GPU memory of a process.
//! - [`observation`]: what one recording pass records.
//! - [`session`]: the start of a session and its state machine.
//! - [`laws`]: what holds of every session.

pub mod error;
pub mod convert;
pub mod config;
pub mod attribute;
pub mod identity;
pub mod instrument;
pub mod gpu;
pub mod observation;
pub mod session;
pub mod laws;
