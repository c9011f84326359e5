//! A minimal driver that only tracks whether it is initialized; it sets the
//! `init` and `shutdown` slots and nothing else.
use vstd::prelude::*;
use crate::descriptor::{DriverInfo, DriverLang, DriverOps, DriverState, PortWrite};
use crate::module::DriverModule;
use crate::registry::{has_id, has_name, DriverHandle, DriverRegistry};
use crate::status::{
    DriverStatus, IR0_DRIVER_ERR_INVAL, IR0_DRIVER_ERR_UNSUPPORTED, IR0_DRIVER_OK,
};

verus! {

/// The simple driver's private state.
pub struct SimpleDriver {
    pub initialized: bool,
}

impl SimpleDriver {
    pub fn new() -> (r: SimpleDriver)
        ensures
            !r.initialized,
    {
        SimpleDriver { initialized: false }
    }
}

/// Initializes the driver; it acquires nothing, so this always succeeds.
pub fn rust_simple_init(drv: &mut SimpleDriver) -> (r: i32)
    ensures
        r == IR0_DRIVER_OK,
        final(drv).initialized,
{
    drv.initialized = true;
    IR0_DRIVER_OK
}

/// Marks the driver uninitialized.
pub fn rust_simple_shutdown(drv: &mut SimpleDriver)
    ensures
        !final(drv).initialized,
{
    drv.initialized = false;
}

/// The simple driver's descriptor.
pub fn simple_driver_info() -> (r: DriverInfo)
    ensures
        r.name@ == "rust_simple"@,
        r.version@ == "1.0.0"@,
        r.author@ == "IR0 Kernel Team"@,
        r.description@ == "Simple Rust driver for testing multi-language support"@,
        r.language == DriverLang::Rust,
{
    DriverInfo {
        name: "rust_simple".to_string(),
        version: "1.0.0".to_string(),
        author: "IR0 Kernel Team".to_string(),
        description: "Simple Rust driver for testing multi-language support".to_string(),
        language: DriverLang::Rust,
    }
}

/// The slot table of the simple driver.
pub open spec fn simple_driver_ops_spec() -> DriverOps {
    DriverOps {
        init: true,
        probe: false,
        remove: false,
        shutdown: true,
        read: false,
        write: false,
        ioctl: false,
        suspend: false,
        resume: false,
    }
}

/// The simple driver sets `init` and `shutdown` only.
pub fn simple_driver_ops() -> (r: DriverOps)
    ensures
        r == simple_driver_ops_spec(),
{
    DriverOps {
        init: true,
        probe: false,
        remove: false,
        shutdown: true,
        read: false,
        write: false,
        ioctl: false,
        suspend: false,
        resume: false,
    }
}

impl DriverModule for SimpleDriver {
    open spec fn initialized(&self) -> bool {
        self.initialized
    }

    /// The simple driver owns no port.
    open spec fn port_writes(&self) -> Seq<PortWrite> {
        Seq::empty()
    }

    open spec fn init_code(&self, has_buffer: bool) -> i32 {
        IR0_DRIVER_OK
    }

    open spec fn probe_code(&self, device: Option<u64>) -> i32 {
        if device is None {
            IR0_DRIVER_ERR_INVAL
        } else {
            IR0_DRIVER_ERR_UNSUPPORTED
        }
    }

    open spec fn read_code(&self, buf_len: Option<nat>, len: usize) -> i32 {
        if buf_len is None {
            IR0_DRIVER_ERR_INVAL
        } else {
            IR0_DRIVER_ERR_UNSUPPORTED
        }
    }

    open spec fn write_code(&self, buf_len: Option<nat>, len: usize) -> i32 {
        if buf_len is None {
            IR0_DRIVER_ERR_INVAL
        } else {
            IR0_DRIVER_ERR_UNSUPPORTED
        }
    }

    open spec fn ioctl_code(&self, command: u32, argument: u64) -> i32 {
        IR0_DRIVER_ERR_UNSUPPORTED
    }

    open spec fn suspend_code(&self) -> i32 {
        IR0_DRIVER_ERR_UNSUPPORTED
    }

    open spec fn resume_code(&self) -> i32 {
        IR0_DRIVER_ERR_UNSUPPORTED
    }

    open spec fn init_step(&self, buffer: Option<Vec<u8>>, next: Self) -> bool {
        next.initialized
    }

    open spec fn probe_step(&self, device: Option<u64>, next: Self) -> bool {
        next == *self
    }

    open spec fn after_remove(&self, device: Option<u64>) -> Self {
        *self
    }

    open spec fn shutdown_step(&self, next: Self) -> bool {
        !next.initialized
    }

    open spec fn read_step(&self, buf_len: Option<nat>, len: usize, next: Self) -> bool {
        next == *self
    }

    /// The simple driver never reads, so the buffer keeps its bytes.
    open spec fn read_data(&self, buf: Seq<u8>, len: usize) -> Seq<u8> {
        buf
    }

    open spec fn write_step(&self, buf: Option<Seq<u8>>, len: usize, next: Self) -> bool {
        next == *self
    }

    open spec fn ioctl_step(&self, command: u32, argument: u64, next: Self) -> bool {
        next == *self
    }

    open spec fn suspend_step(&self, next: Self) -> bool {
        next == *self
    }

    open spec fn resume_step(&self, next: Self) -> bool {
        next == *self
    }

    fn is_initialized(&self) -> (r: bool) {
        self.initialized
    }

    fn init(&mut self, buffer: Option<Vec<u8>>) -> (r: i32) {
        rust_simple_init(self)
    }

    fn shutdown(&mut self) {
        rust_simple_shutdown(self)
    }

    /// The simple driver has no `probe` slot.
    fn probe(&mut self, device: Option<u64>) -> (r: i32) {
        match device {
            None => IR0_DRIVER_ERR_INVAL,
            Some(_) => IR0_DRIVER_ERR_UNSUPPORTED,
        }
    }

    /// The simple driver has no `remove` slot.
    fn remove(&mut self, device: Option<u64>) {
    }

    /// The simple driver has no `read` slot.
    fn read(&mut self, buf: Option<&mut [u8]>, len: usize) -> (r: i32) {
        match buf {
            None => IR0_DRIVER_ERR_INVAL,
            Some(_) => IR0_DRIVER_ERR_UNSUPPORTED,
        }
    }

    /// The simple driver has no `write` slot.
    fn write(&mut self, buf: Option<&[u8]>, len: usize) -> (r: i32) {
        match buf {
            None => IR0_DRIVER_ERR_INVAL,
            Some(_) => IR0_DRIVER_ERR_UNSUPPORTED,
        }
    }

    /// The simple driver has no `ioctl` slot.
    fn ioctl(&mut self, command: u32, argument: u64) -> (r: i32) {
        IR0_DRIVER_ERR_UNSUPPORTED
    }

    /// The simple driver has no `suspend` slot.
    fn suspend(&mut self) -> (r: i32) {
        IR0_DRIVER_ERR_UNSUPPORTED
    }

    /// The simple driver has no `resume` slot.
    fn resume(&mut self) -> (r: i32) {
        IR0_DRIVER_ERR_UNSUPPORTED
    }
}

/// Registers a fresh SimpleDriver under its own descriptor and slot table.
pub fn register_rust_simple_driver(registry: &mut DriverRegistry<SimpleDriver>) -> (r: Result<
    DriverHandle,
    DriverStatus,
>)
    requires
        old(registry).wf(),
    ensures
        final(registry).wf(),
        has_name(old(registry).records(), "rust_simple"@) ==> r == Err::<DriverHandle, DriverStatus>(
            DriverStatus::AlreadyExists,
        ),
        !has_name(old(registry).records(), "rust_simple"@) && old(registry).ids_exhausted() ==> r
            == Err::<DriverHandle, DriverStatus>(DriverStatus::OutOfMemory),
        !has_name(old(registry).records(), "rust_simple"@) && !old(registry).ids_exhausted() ==> r is Ok,
        r is Err ==> final(registry).records() == old(registry).records(),
        r matches Ok(h) ==> {
            let recs = final(registry).records();
            let rec = recs.last();
            &&& !has_id(old(registry).records(), h.id())
            &&& recs.drop_last() == old(registry).records()
            &&& recs.len() == old(registry).records().len() + 1
            &&& rec.id == h.id()
            &&& rec.info.name@ == "rust_simple"@
            &&& rec.info.version@ == "1.0.0"@
            &&& rec.info.author@ == "IR0 Kernel Team"@
            &&& rec.info.description@ == "Simple Rust driver for testing multi-language support"@
            &&& rec.info.language == DriverLang::Rust
            &&& rec.ops == simple_driver_ops_spec()
            &&& rec.state == DriverState::Registered
            &&& !rec.driver.initialized
        },
{
    let info = simple_driver_info();
    let ops = simple_driver_ops();
    let r = registry.register(info, ops, SimpleDriver::new());
    proof {
        if r is Ok {
            assert(final(registry).records().drop_last() == old(registry).records());
        }
    }
    r
}

} // verus!
