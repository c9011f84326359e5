//! A serial-style example driver: it owns a kernel-allocated buffer while
//! initialized and writes data bytes to its device port.
use vstd::prelude::*;
use crate::descriptor::{DriverInfo, DriverLang, DriverOps, DriverState, PortWrite};
use crate::module::DriverModule;
use crate::registry::{has_id, has_name, DriverHandle, DriverRegistry};
use crate::status::{
    DriverStatus, IR0_DRIVER_ERR, IR0_DRIVER_ERR_INVAL, IR0_DRIVER_ERR_UNSUPPORTED, IR0_DRIVER_OK,
};

verus! {

/// The port the example driver talks to (the first serial port).
pub const EXAMPLE_DEVICE_PORT: u16 = 0x3F8;

/// The size of the buffer the example driver asks the kernel for.
pub const EXAMPLE_BUFFER_SIZE: usize = 4096;

/// The most bytes one `write` sends to the device port.
pub const EXAMPLE_WRITE_CAPACITY: usize = 64;

/// The example driver's private state, threaded through its operations.
pub struct ExampleDriver {
    pub initialized: bool,
    pub device_port: u16,
    pub buffer: Option<Vec<u8>>,
    /// Port writes issued and not yet handed to the host.
    pub port_out: Vec<PortWrite>,
}

/// The port writes that send `bytes` to `port`, in order.
pub open spec fn port_bytes(port: u16, bytes: Seq<u8>) -> Seq<PortWrite> {
    bytes.map_values(|b: u8| PortWrite { port, value: b })
}

/// The smallest of three counts.
pub open spec fn min3(a: int, b: int, c: int) -> int {
    if a <= b && a <= c {
        a
    } else if b <= c {
        b
    } else {
        c
    }
}

/// How many bytes one `write` transfers: what was asked for, bounded by the
/// write capacity and by the caller's buffer.
pub open spec fn write_count(len: int, buf_len: int) -> int {
    min3(len, EXAMPLE_WRITE_CAPACITY as int, buf_len)
}

/// A write of more bytes than the capacity never transfers more than the
/// capacity, nor more than the buffer holds; from a buffer at least that
/// large it transfers exactly the capacity.
pub proof fn lemma_write_capped(len: int, buf_len: int)
    requires
        len > EXAMPLE_WRITE_CAPACITY,
        buf_len >= 0,
    ensures
        0 <= write_count(len, buf_len) <= EXAMPLE_WRITE_CAPACITY,
        write_count(len, buf_len) <= buf_len,
        buf_len >= EXAMPLE_WRITE_CAPACITY ==> write_count(len, buf_len) == EXAMPLE_WRITE_CAPACITY,
{
}

impl ExampleDriver {
    /// A driver that is not initialized, on the first serial port.
    pub fn new() -> (r: ExampleDriver)
        ensures
            !r.initialized,
            r.device_port == EXAMPLE_DEVICE_PORT,
            r.buffer is None,
            r.port_out@ == Seq::<PortWrite>::empty(),
    {
        ExampleDriver {
            initialized: false,
            device_port: EXAMPLE_DEVICE_PORT,
            buffer: None,
            port_out: Vec::new(),
        }
    }

    /// Hands the issued port writes to the host, oldest first, and forgets
    /// them.
    pub fn take_port_writes(&mut self) -> (r: Vec<PortWrite>)
        ensures
            r@ == old(self).port_out@,
            final(self).port_out@ == Seq::<PortWrite>::empty(),
            final(self).initialized == old(self).initialized,
            final(self).device_port == old(self).device_port,
            final(self).buffer == old(self).buffer,
    {
        let mut out: Vec<PortWrite> = Vec::new();
        std::mem::swap(&mut out, &mut self.port_out);
        out
    }
}

/// Initializes the driver with the kernel's allocation (`None` where it
/// failed), then resets the device port by writing a zero byte to it.
pub fn rust_example_init(drv: &mut ExampleDriver, buffer: Option<Vec<u8>>) -> (r: i32)
    ensures
        buffer is None ==> r == IR0_DRIVER_ERR && *final(drv) == *old(drv),
        buffer is Some ==> {
            &&& r == IR0_DRIVER_OK
            &&& final(drv).initialized
            &&& final(drv).buffer == buffer
            &&& final(drv).device_port == old(drv).device_port
            &&& final(drv).port_out@ == old(drv).port_out@.push(
                PortWrite { port: old(drv).device_port, value: 0 },
            )
        },
{
    match buffer {
        None => IR0_DRIVER_ERR,
        Some(b) => {
            drv.buffer = Some(b);
            drv.initialized = true;
            drv.port_out.push(PortWrite { port: drv.device_port, value: 0 });
            IR0_DRIVER_OK
        },
    }
}

/// Inspects a device; a missing device is an invalid argument.
pub fn rust_example_probe(drv: &ExampleDriver, device: Option<u64>) -> (r: i32)
    ensures
        device is None ==> r == IR0_DRIVER_ERR_INVAL,
        device is Some ==> r == IR0_DRIVER_OK,
{
    match device {
        None => IR0_DRIVER_ERR_INVAL,
        Some(_) => IR0_DRIVER_OK,
    }
}

/// Removes a device; the example driver holds nothing per device.
pub fn rust_example_remove(drv: &ExampleDriver, device: Option<u64>) {
}

/// Releases the driver's buffer and marks it uninitialized.
pub fn rust_example_shutdown(drv: &mut ExampleDriver)
    ensures
        !final(drv).initialized,
        final(drv).buffer is None,
        final(drv).device_port == old(drv).device_port,
        final(drv).port_out == old(drv).port_out,
{
    drv.buffer = None;
    drv.initialized = false;
}

/// Reads from the device into `buf`. The example device produces no data of
/// its own, so `buf` keeps its contents; the count reported is `len`,
/// bounded by the buffer and by what a status code can carry.
pub fn rust_example_read(drv: &ExampleDriver, buf: Option<&mut [u8]>, len: usize) -> (r: i32)
    ensures
        buf is None ==> r == IR0_DRIVER_ERR_INVAL,
        buf is Some && !drv.initialized ==> r == IR0_DRIVER_ERR,
        buf is Some ==> final(buf->0)@ == (buf->0)@,
        buf is Some && drv.initialized ==> r == min3(
            len as int,
            buf->0@.len() as int,
            i32::MAX as int,
        ),
{
    match buf {
        None => IR0_DRIVER_ERR_INVAL,
        Some(b) => {
            if !drv.initialized {
                IR0_DRIVER_ERR
            } else {
                let mut n: usize = len;
                if b.len() < n {
                    n = b.len();
                }
                if n > i32::MAX as usize {
                    n = i32::MAX as usize;
                }
                n as i32
            }
        },
    }
}

/// Writes the first bytes of `buf` to the device port: `len` of them,
/// bounded by the buffer and by the write capacity. Returns the count sent.
pub fn rust_example_write(drv: &mut ExampleDriver, buf: Option<&[u8]>, len: usize) -> (r: i32)
    ensures
        buf is None ==> r == IR0_DRIVER_ERR_INVAL && *final(drv) == *old(drv),
        buf is Some && !old(drv).initialized ==> r == IR0_DRIVER_ERR && *final(drv) == *old(drv),
        buf is Some && old(drv).initialized ==> {
            let n = write_count(len as int, buf->0@.len() as int);
            &&& r == n
            &&& final(drv).initialized == old(drv).initialized
            &&& final(drv).device_port == old(drv).device_port
            &&& final(drv).buffer == old(drv).buffer
            &&& final(drv).port_out@ == old(drv).port_out@ + port_bytes(
                old(drv).device_port,
                buf->0@.subrange(0, n),
            )
        },
{
    match buf {
        None => IR0_DRIVER_ERR_INVAL,
        Some(b) => {
            if !drv.initialized {
                return IR0_DRIVER_ERR;
            }
            let mut n: usize = len;
            if EXAMPLE_WRITE_CAPACITY < n {
                n = EXAMPLE_WRITE_CAPACITY;
            }
            if b.len() < n {
                n = b.len();
            }
            let port = drv.device_port;
            let ghost start = drv.port_out@;
            let mut i: usize = 0;
            while i < n
                invariant
                    n <= b@.len(),
                    n <= EXAMPLE_WRITE_CAPACITY,
                    i <= n,
                    port == drv.device_port,
                    drv.initialized == old(drv).initialized,
                    drv.buffer == old(drv).buffer,
                    drv.port_out@ == start + port_bytes(port, b@.subrange(0, i as int)),
                decreases n - i,
            {
                drv.port_out.push(PortWrite { port, value: b[i] });
                assert(port_bytes(port, b@.subrange(0, i + 1 as int)) =~= port_bytes(
                    port,
                    b@.subrange(0, i as int),
                ).push(PortWrite { port, value: b@[i as int] }));
                i = i + 1;
            }
            assert(n == write_count(len as int, b@.len() as int));
            n as i32
        },
    }
}

/// The example driver's descriptor.
pub fn example_driver_info() -> (r: DriverInfo)
    ensures
        r.name@ == "rust_example"@,
        r.version@ == "1.0.0"@,
        r.author@ == "IR0 Kernel Team"@,
        r.description@ == "Example Rust driver demonstrating kernel integration"@,
        r.language == DriverLang::Rust,
{
    DriverInfo {
        name: "rust_example".to_string(),
        version: "1.0.0".to_string(),
        author: "IR0 Kernel Team".to_string(),
        description: "Example Rust driver demonstrating kernel integration".to_string(),
        language: DriverLang::Rust,
    }
}

/// The slot table of the example driver.
pub open spec fn example_driver_ops_spec() -> DriverOps {
    DriverOps {
        init: true,
        probe: true,
        remove: true,
        shutdown: true,
        read: true,
        write: true,
        ioctl: false,
        suspend: false,
        resume: false,
    }
}

/// The example driver sets the lifecycle and data-transfer slots.
pub fn example_driver_ops() -> (r: DriverOps)
    ensures
        r == example_driver_ops_spec(),
{
    DriverOps {
        init: true,
        probe: true,
        remove: true,
        shutdown: true,
        read: true,
        write: true,
        ioctl: false,
        suspend: false,
        resume: false,
    }
}

impl DriverModule for ExampleDriver {
    open spec fn initialized(&self) -> bool {
        self.initialized
    }

    open spec fn port_writes(&self) -> Seq<PortWrite> {
        self.port_out@
    }

    open spec fn init_code(&self, has_buffer: bool) -> i32 {
        if has_buffer {
            IR0_DRIVER_OK
        } else {
            IR0_DRIVER_ERR
        }
    }

    open spec fn probe_code(&self, device: Option<u64>) -> i32 {
        if device is None {
            IR0_DRIVER_ERR_INVAL
        } else {
            IR0_DRIVER_OK
        }
    }

    open spec fn read_code(&self, buf_len: Option<nat>, len: usize) -> i32 {
        match buf_len {
            None => IR0_DRIVER_ERR_INVAL,
            Some(n) => if !self.initialized {
                IR0_DRIVER_ERR
            } else {
                min3(len as int, n as int, i32::MAX as int) as i32
            },
        }
    }

    open spec fn write_code(&self, buf_len: Option<nat>, len: usize) -> i32 {
        match buf_len {
            None => IR0_DRIVER_ERR_INVAL,
            Some(n) => if !self.initialized {
                IR0_DRIVER_ERR
            } else {
                write_count(len as int, n as int) as i32
            },
        }
    }

    open spec fn ioctl_code(&self, command: u32, argument: u64) -> i32 {
        IR0_DRIVER_ERR_UNSUPPORTED
    }

    open spec fn suspend_code(&self) -> i32 {
        IR0_DRIVER_ERR_UNSUPPORTED
    }

    open spec fn resume_code(&self) -> i32 {
        IR0_DRIVER_ERR_UNSUPPORTED
    }

    open spec fn init_step(&self, buffer: Option<Vec<u8>>, next: Self) -> bool {
        match buffer {
            None => next == *self,
            Some(_) => {
                &&& next.initialized
                &&& next.buffer == buffer
                &&& next.device_port == self.device_port
                &&& next.port_out@ == self.port_out@.push(
                    PortWrite { port: self.device_port, value: 0 },
                )
            },
        }
    }

    open spec fn probe_step(&self, device: Option<u64>, next: Self) -> bool {
        next == *self
    }

    open spec fn after_remove(&self, device: Option<u64>) -> Self {
        *self
    }

    open spec fn shutdown_step(&self, next: Self) -> bool {
        &&& !next.initialized
        &&& next.buffer is None
        &&& next.device_port == self.device_port
        &&& next.port_out == self.port_out
    }

    open spec fn read_step(&self, buf_len: Option<nat>, len: usize, next: Self) -> bool {
        next == *self
    }

    /// The example device produces no data, so the buffer keeps its bytes.
    open spec fn read_data(&self, buf: Seq<u8>, len: usize) -> Seq<u8> {
        buf
    }

    open spec fn write_step(&self, buf: Option<Seq<u8>>, len: usize, next: Self) -> bool {
        match buf {
            None => next == *self,
            Some(b) => if !self.initialized {
                next == *self
            } else {
                &&& next.initialized == self.initialized
                &&& next.device_port == self.device_port
                &&& next.buffer == self.buffer
                &&& next.port_out@ == self.port_out@ + port_bytes(
                    self.device_port,
                    b.subrange(0, write_count(len as int, b.len() as int)),
                )
            },
        }
    }

    open spec fn ioctl_step(&self, command: u32, argument: u64, next: Self) -> bool {
        next == *self
    }

    open spec fn suspend_step(&self, next: Self) -> bool {
        next == *self
    }

    open spec fn resume_step(&self, next: Self) -> bool {
        next == *self
    }

    fn is_initialized(&self) -> (r: bool) {
        self.initialized
    }

    fn init(&mut self, buffer: Option<Vec<u8>>) -> (r: i32) {
        rust_example_init(self, buffer)
    }

    fn probe(&mut self, device: Option<u64>) -> (r: i32) {
        rust_example_probe(self, device)
    }

    fn remove(&mut self, device: Option<u64>) {
        rust_example_remove(self, device)
    }

    fn shutdown(&mut self) {
        rust_example_shutdown(self)
    }

    fn read(&mut self, buf: Option<&mut [u8]>, len: usize) -> (r: i32) {
        rust_example_read(self, buf, len)
    }

    fn write(&mut self, buf: Option<&[u8]>, len: usize) -> (r: i32) {
        rust_example_write(self, buf, len)
    }

    /// The example driver has no `ioctl` slot.
    fn ioctl(&mut self, command: u32, argument: u64) -> (r: i32) {
        IR0_DRIVER_ERR_UNSUPPORTED
    }

    /// The example driver has no `suspend` slot.
    fn suspend(&mut self) -> (r: i32) {
        IR0_DRIVER_ERR_UNSUPPORTED
    }

    /// The example driver has no `resume` slot.
    fn resume(&mut self) -> (r: i32) {
        IR0_DRIVER_ERR_UNSUPPORTED
    }
}

/// Registers a fresh ExampleDriver under its own descriptor and slot table.
pub fn register_rust_example_driver(registry: &mut DriverRegistry<ExampleDriver>) -> (r: Result<
    DriverHandle,
    DriverStatus,
>)
    requires
        old(registry).wf(),
    ensures
        final(registry).wf(),
        has_name(old(registry).records(), "rust_example"@) ==> r == Err::<DriverHandle, DriverStatus>(
            DriverStatus::AlreadyExists,
        ),
        !has_name(old(registry).records(), "rust_example"@) && old(registry).ids_exhausted() ==> r
            == Err::<DriverHandle, DriverStatus>(DriverStatus::OutOfMemory),
        !has_name(old(registry).records(), "rust_example"@) && !old(registry).ids_exhausted() ==> r is Ok,
        r is Err ==> final(registry).records() == old(registry).records(),
        r matches Ok(h) ==> {
            let recs = final(registry).records();
            let rec = recs.last();
            &&& !has_id(old(registry).records(), h.id())
            &&& recs.drop_last() == old(registry).records()
            &&& recs.len() == old(registry).records().len() + 1
            &&& rec.id == h.id()
            &&& rec.info.name@ == "rust_example"@
            &&& rec.info.version@ == "1.0.0"@
            &&& rec.info.author@ == "IR0 Kernel Team"@
            &&& rec.info.description@ == "Example Rust driver demonstrating kernel integration"@
            &&& rec.info.language == DriverLang::Rust
            &&& rec.ops == example_driver_ops_spec()
            &&& rec.state == DriverState::Registered
            &&& !rec.driver.initialized
            &&& rec.driver.device_port == EXAMPLE_DEVICE_PORT
            &&& rec.driver.port_out@ == Seq::<PortWrite>::empty()
        },
{
    let info = example_driver_info();
    let ops = example_driver_ops();
    let r = registry.register(info, ops, ExampleDriver::new());
    proof {
        if r is Ok {
            assert(final(registry).records().drop_last() == old(registry).records());
        }
    }
    r
}

} // verus!
