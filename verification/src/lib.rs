//! Bully leader election for a mesh of ESP-NOW nodes, and the monitor that
//! watches them: identifiers, roles, the wire messages and their encoding,
//! the election decisions, the status report and the LED indication.

pub mod bully;
pub mod led;
pub mod wire;
pub mod tasks;
pub mod monitor;
