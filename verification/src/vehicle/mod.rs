//! Modular-vehicle connection planning: which welds fuse which modules, which
//! hinges join which bodies, and why a connection could not be resolved.
pub mod hierarchy;
pub mod lookup;
pub mod wiring;
