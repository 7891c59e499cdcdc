//! Serial protocol engine for GRBL-driven CNC and laser machines: the wire
//! codec, the telemetry parser, the worker's retry and polling policy, and
//! the controller's cached state with its validated operations.

pub mod text;
pub mod realtime;
pub mod system;
pub mod protocol;
pub mod status;
pub mod worker;
pub mod controller;
pub mod workspace;
pub mod serial;
