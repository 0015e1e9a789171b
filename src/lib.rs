//! A battery-aware charger controller: it reads the power state of a device,
//! validates it, decides whether a charger relay should be on or off, and
//! describes the request that switches it. All I/O is left to the caller.

pub mod text;
pub mod reading;
pub mod policy;
pub mod bridge;
pub mod actuator;
pub mod control;
