//! Pin and register assignments of the bus interface.

pub mod gpio;
pub mod reg;
