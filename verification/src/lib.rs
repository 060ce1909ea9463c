//! USB access through the illumos `ugen` driver: the rules that decide which
//! device nodes are opened, which requests are written to them, how queued
//! transfers complete and how failures are reported.
//!
//! Everything here works on plain values. Opening files, reading, writing and
//! asynchronous I/O are done by the caller, who asks a state machine what to do
//! next and reports back what happened.

pub mod buffer;
pub mod claim;
pub mod control;
pub mod descriptor;
pub mod device;
pub mod endpoint;
pub mod errno;
pub mod error;
pub mod host;
pub mod interface;
pub mod node;
pub mod opening;
pub mod paths;
pub mod text;
pub mod transfer;
pub mod usb;
