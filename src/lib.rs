//! Driver lifecycle and operation dispatch for a host kernel.
//!
//! Drivers present a descriptor and an operation table to a registry, which
//! alone advances each driver through its lifecycle and never dispatches an
//! operation that the driver's state or its table does not allow.
pub mod descriptor;
pub mod example_driver;
pub mod module;
pub mod registry;
pub mod simple_driver;
pub mod status;
