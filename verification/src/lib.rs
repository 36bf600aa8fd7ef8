//! A host-window lifecycle manager, modelled as a verified state machine.
//!
//! The library owns the decisions of the lifecycle: resolving a native window
//! handle into the platform data a rendering backend expects, deciding when a
//! framebuffer-size change must trigger a backend reset, mapping window-system
//! events to lifecycle actions, and moving a window strictly forward through
//! its states. The windowing system and the GPU backend themselves are outside
//! collaborators: an unverified shell performs their calls and hands their
//! answers back to the state machine as plain values.

pub mod config;
pub mod error;
pub mod events;
pub mod gate;
pub mod lifecycle;
pub mod platform;
