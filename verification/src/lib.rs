//! A single accelerated compute task, planned and sequenced on the host.
//!
//! The task uploads an array of 32-bit values to device memory, runs a compute
//! program over it in place, copies the result into a host-readable buffer and
//! reads it back. This crate holds everything about that task that can be
//! decided without touching a device: how values are laid out as bytes, what
//! buffers are asked for, which resources are bound to which slot, which
//! commands are recorded in which order, and in what order the stages follow
//! one another. The caller performs each requested action on the device and
//! reports how it went.

pub mod binding;
pub mod buffer;
pub mod command;
pub mod error;
pub mod layout;
pub mod task;

