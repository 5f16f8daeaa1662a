//! A point-in-time diagnostic snapshot of a machine, as text.
//!
//! Two independent reports are offered: one on the host (memory, swap,
//! operating-system identity, processors, processes, disks, network
//! interfaces, thermal sensors) and one on its compute platforms and their
//! GPU-class devices. Each report is a sequence of lines, every line tagged
//! with the stream it is meant for, so that a caller only has to write them
//! out in order.
//!
//! Sampling the machine is left to `sysinfo` and `opencl3`; what this crate
//! proves is how a sample is turned into lines.

pub mod compute;
pub mod discovery;
pub mod host;
pub mod probe;
pub mod report;
pub mod text;
