//! Identity metadata and the operation-slot table that a driver presents at
//! registration, and the lifecycle states the kernel tracks.
use vstd::prelude::*;

verus! {

/// Severity of a fault escalated to the kernel.
#[derive(Clone, Copy, Debug, PartialEq, Eq, Structural)]
pub enum PanicLevel {
    KernelBug,
    HardwareFault,
    OutOfMemory,
    StackOverflow,
    AssertFailed,
    MemError,
    Testing,
    RunningOutProcess,
}

/// The implementation language a driver module was written in.
#[derive(Clone, Copy, Debug, PartialEq, Eq, Structural)]
pub enum DriverLang {
    C,
    Cpp,
    Rust,
}

impl DriverLang {
    /// The numeric language tag used at the foreign boundary.
    pub open spec fn spec_tag(self) -> u32 {
        match self {
            DriverLang::C => 0,
            DriverLang::Cpp => 1,
            DriverLang::Rust => 2,
        }
    }

    pub fn tag(&self) -> (r: u32)
        ensures
            r == self.spec_tag(),
    {
        match self {
            DriverLang::C => 0,
            DriverLang::Cpp => 1,
            DriverLang::Rust => 2,
        }
    }
}

/// Where a driver stands in its lifecycle.
#[derive(Clone, Copy, Debug, PartialEq, Eq, Structural)]
pub enum DriverState {
    Unregistered,
    Registered,
    Initialized,
    Active,
    Failed,
}

/// Static identity metadata of a driver.
#[derive(Clone, Debug)]
pub struct DriverInfo {
    pub name: String,
    pub version: String,
    pub author: String,
    pub description: String,
    pub language: DriverLang,
}

/// Which of the nine operation slots a driver has set. An unset slot means
/// that the operation is unsupported: the kernel never invokes it.
#[derive(Clone, Copy, Debug, PartialEq, Eq, Structural)]
pub struct DriverOps {
    pub init: bool,
    pub probe: bool,
    pub remove: bool,
    pub shutdown: bool,
    pub read: bool,
    pub write: bool,
    pub ioctl: bool,
    pub suspend: bool,
    pub resume: bool,
}

/// One byte written to an I/O port.
#[derive(Clone, Copy, Debug, PartialEq, Eq, Structural)]
pub struct PortWrite {
    pub port: u16,
    pub value: u8,
}

} // verus!
