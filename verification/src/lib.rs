//! Build-time configuration and freestanding dispatch for a USB device
//! firmware on an 8-bit microcontroller.
//!
//! The crate decides, for one build target, what the vendored USB stack is
//! built with, what the binding generator is configured with, in which order
//! the build stages run, and what the firmware's entry loop does on each
//! step. Running processes, reading the build environment and touching
//! hardware are left to the caller.

pub mod decimal;
pub mod error;
pub mod target;
pub mod text;
pub mod builder;
pub mod bindings;
pub mod pipeline;
pub mod entry;
