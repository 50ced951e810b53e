//! Driver logic for ELK-BLEDOM Bluetooth LE light controllers: the command
//! codec that produces the nine-byte frames the controller understands, and
//! the acquisition state machine that decides how a controller is located,
//! connected and bound.

pub mod error;
pub mod tables;
pub mod frame;
pub mod clock;
pub mod device;
pub mod bleuuid;
pub mod acquisition;
pub mod trace;
