//! The operation contract every driver implements. The kernel reaches a
//! driver only through these operations, and each of them guards itself
//! against missing arguments and a driver that is not initialized.
use vstd::prelude::*;
use crate::descriptor::PortWrite;
use crate::status::{is_status_code, IR0_DRIVER_ERR_INVAL, IR0_DRIVER_OK};

verus! {

/// The length of a caller's buffer, `None` where there is no buffer.
pub open spec fn buf_len(buf: Option<&[u8]>) -> Option<nat> {
    match buf {
        Some(b) => Some(b@.len()),
        None => None,
    }
}

/// The length of a caller's writable buffer, `None` where there is none.
pub open spec fn buf_len_mut(buf: Option<&mut [u8]>) -> Option<nat> {
    match buf {
        Some(b) => Some(b@.len()),
        None => None,
    }
}

/// The bytes of a caller's buffer, `None` where there is no buffer.
pub open spec fn buf_bytes(buf: Option<&[u8]>) -> Option<Seq<u8>> {
    match buf {
        Some(b) => Some(b@),
        None => None,
    }
}

/// A driver's operation table, carried by the driver's own context object.
pub trait DriverModule: Sized {
    /// Whether the driver holds the resources that `init` acquires.
    spec fn initialized(&self) -> bool;

    /// Every byte the driver has written to an I/O port and not yet handed
    /// to the host.
    spec fn port_writes(&self) -> Seq<PortWrite>;

    /// The code `init` returns, given whether the kernel's allocation
    /// succeeded.
    spec fn init_code(&self, has_buffer: bool) -> i32;

    /// The code `probe` returns for `device`.
    spec fn probe_code(&self, device: Option<u64>) -> i32;

    /// The code `read` returns for a buffer of length `buf_len` and a
    /// request of `len` bytes.
    spec fn read_code(&self, buf_len: Option<nat>, len: usize) -> i32;

    /// The code `write` returns for a buffer of length `buf_len` and a
    /// request of `len` bytes.
    spec fn write_code(&self, buf_len: Option<nat>, len: usize) -> i32;

    /// The code `ioctl` returns for `command` and `argument`.
    spec fn ioctl_code(&self, command: u32, argument: u64) -> i32;

    /// The code `suspend` returns.
    spec fn suspend_code(&self) -> i32;

    /// The code `resume` returns.
    spec fn resume_code(&self) -> i32;

    /// Whether `next` is the driver's context after `init` with `buffer`.
    spec fn init_step(&self, buffer: Option<Vec<u8>>, next: Self) -> bool;

    /// Whether `next` is the driver's context after `probe` of `device`.
    spec fn probe_step(&self, device: Option<u64>, next: Self) -> bool;

    /// The driver's context after `remove` of `device`.
    spec fn after_remove(&self, device: Option<u64>) -> Self;

    /// Whether `next` is the driver's context after `shutdown`.
    spec fn shutdown_step(&self, next: Self) -> bool;

    /// Whether `next` is the driver's context after a `read` of `len` bytes
    /// into a buffer of length `buf_len`.
    spec fn read_step(&self, buf_len: Option<nat>, len: usize, next: Self) -> bool;

    /// What a caller's buffer holds after a `read` of `len` bytes into it,
    /// from what it held before.
    spec fn read_data(&self, buf: Seq<u8>, len: usize) -> Seq<u8>;

    /// Whether `next` is the driver's context after a `write` of `len`
    /// bytes from `buf`.
    spec fn write_step(&self, buf: Option<Seq<u8>>, len: usize, next: Self) -> bool;

    /// Whether `next` is the driver's context after `ioctl`.
    spec fn ioctl_step(&self, command: u32, argument: u64, next: Self) -> bool;

    /// Whether `next` is the driver's context after `suspend`.
    spec fn suspend_step(&self, next: Self) -> bool;

    /// Whether `next` is the driver's context after `resume`.
    spec fn resume_step(&self, next: Self) -> bool;

    fn is_initialized(&self) -> (r: bool)
        ensures
            r == self.initialized(),
    ;

    /// Acquires the driver's resources; `buffer` is the kernel's allocation
    /// for the driver, `None` where the allocation failed. A failed `init`
    /// leaves the driver as it was.
    fn init(&mut self, buffer: Option<Vec<u8>>) -> (r: i32)
        ensures
            r == old(self).init_code(buffer is Some),
            old(self).init_step(buffer, *final(self)),
            is_status_code(r),
            r == IR0_DRIVER_OK ==> final(self).initialized(),
            r != IR0_DRIVER_OK ==> *final(self) == *old(self),
    ;

    /// Inspects a device; a missing device is an invalid argument and has
    /// no effect.
    fn probe(&mut self, device: Option<u64>) -> (r: i32)
        ensures
            r == old(self).probe_code(device),
            old(self).probe_step(device, *final(self)),
            is_status_code(r),
            device is None ==> r == IR0_DRIVER_ERR_INVAL && *final(self) == *old(self),
            final(self).initialized() == old(self).initialized(),
    ;

    /// Best-effort cleanup of what a successful `probe` set up.
    fn remove(&mut self, device: Option<u64>)
        ensures
            *final(self) == old(self).after_remove(device),
            final(self).initialized() == old(self).initialized(),
    ;

    /// Releases what `init` acquired. Safe in every state, and touches no
    /// port.
    fn shutdown(&mut self)
        ensures
            old(self).shutdown_step(*final(self)),
            !final(self).initialized(),
            final(self).port_writes() == old(self).port_writes(),
    ;

    /// Reads up to `len` bytes into `buf`. Returns the count transferred, or
    /// a negative status code. Without a buffer it is an invalid argument,
    /// before `init` it fails; either way it has no effect.
    fn read(&mut self, buf: Option<&mut [u8]>, len: usize) -> (r: i32)
        ensures
            r == old(self).read_code(buf_len_mut(buf), len),
            old(self).read_step(buf_len_mut(buf), len, *final(self)),
            buf is Some ==> final(buf->0)@ == old(self).read_data((buf->0)@, len),
            r < 0 ==> is_status_code(r),
            r >= 0 ==> r <= len,
            buf is None ==> r == IR0_DRIVER_ERR_INVAL && *final(self) == *old(self),
            !old(self).initialized() ==> r < 0 && *final(self) == *old(self),
            final(self).initialized() == old(self).initialized(),
    ;

    /// Writes up to `len` bytes of `buf`. Returns the count transferred, or
    /// a negative status code. Without a buffer it is an invalid argument,
    /// before `init` it fails; either way it has no effect.
    fn write(&mut self, buf: Option<&[u8]>, len: usize) -> (r: i32)
        ensures
            r == old(self).write_code(buf_len(buf), len),
            old(self).write_step(buf_bytes(buf), len, *final(self)),
            r < 0 ==> is_status_code(r),
            r >= 0 ==> buf is Some && r <= len && r <= buf->0@.len(),
            buf is None ==> r == IR0_DRIVER_ERR_INVAL && *final(self) == *old(self),
            !old(self).initialized() ==> r < 0 && *final(self) == *old(self),
            final(self).initialized() == old(self).initialized(),
    ;

    /// A device-specific control request.
    fn ioctl(&mut self, command: u32, argument: u64) -> (r: i32)
        ensures
            r == old(self).ioctl_code(command, argument),
            old(self).ioctl_step(command, argument, *final(self)),
            is_status_code(r),
            final(self).initialized() == old(self).initialized(),
    ;

    /// Enters a low-power state.
    fn suspend(&mut self) -> (r: i32)
        ensures
            r == old(self).suspend_code(),
            old(self).suspend_step(*final(self)),
            is_status_code(r),
            final(self).initialized() == old(self).initialized(),
    ;

    /// Leaves a low-power state.
    fn resume(&mut self) -> (r: i32)
        ensures
            r == old(self).resume_code(),
            old(self).resume_step(*final(self)),
            is_status_code(r),
            final(self).initialized() == old(self).initialized(),
    ;
}

} // verus!
