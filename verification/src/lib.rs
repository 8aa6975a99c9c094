//! Core logic of an interactive single-quad renderer: surface format
//! negotiation, surface and depth-buffer reconfiguration, the per-tick
//! event-to-render state machine, input routing, and the transform
//! uniform's model/normal matrix pair.
//!
//! The GPU device, window and event pump are collaborators at the edge;
//! this crate holds the decisions and the resource bookkeeping, stated
//! and proved as contracts.

pub mod format;
pub mod frame;
pub mod gpu;
pub mod input;
pub mod pipeline;
pub mod surface;
pub mod transform;
