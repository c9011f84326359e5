//! Status codes exchanged between the kernel and driver operation slots.
use vstd::prelude::*;
use crate::registry::DriverHandle;

verus! {

/// The operation succeeded.
pub const IR0_DRIVER_OK: i32 = 0;

/// A generic failure.
pub const IR0_DRIVER_ERR: i32 = -1;

/// An allocation failed.
pub const IR0_DRIVER_ERR_NOMEM: i32 = -2;

/// An argument was invalid (a missing buffer or device, for instance).
pub const IR0_DRIVER_ERR_INVAL: i32 = -3;

/// A driver of the same name is already registered.
pub const IR0_DRIVER_ERR_EXISTS: i32 = -4;

/// No driver matches the name or handle.
pub const IR0_DRIVER_ERR_NOTFOUND: i32 = -5;

/// The operation slot is not set in the driver's table.
pub const IR0_DRIVER_ERR_UNSUPPORTED: i32 = -6;

/// The driver hit an unrecoverable internal fault.
pub const IR0_DRIVER_ERR_FAULT: i32 = -7;

/// The operation slot a fault was caught in.
#[derive(Clone, Copy, Debug, PartialEq, Eq, Structural)]
pub enum DriverSlot {
    Init,
    Probe,
    Remove,
    Shutdown,
    Read,
    Write,
    Ioctl,
    Suspend,
    Resume,
}

/// Which driver faulted, and where: the slot whose call reported the fault.
#[derive(Clone, Copy, Debug, PartialEq, Eq, Structural)]
pub struct FaultReport {
    pub driver: DriverHandle,
    pub slot: DriverSlot,
}

/// The uniform outcome taxonomy of driver operations.
#[derive(Clone, Copy, Debug, PartialEq, Eq, Structural)]
pub enum DriverStatus {
    Success,
    GenericError,
    OutOfMemory,
    InvalidArgument,
    AlreadyExists,
    NotFound,
    Unsupported,
    /// A driver hit an unrecoverable fault. A bare status code carries no
    /// report; the dispatcher that catches the fault attaches one.
    DriverFault(Option<FaultReport>),
}

/// Whether `c` is one of the status codes above.
pub open spec fn is_status_code(c: i32) -> bool {
    IR0_DRIVER_ERR_FAULT <= c <= IR0_DRIVER_OK
}

impl DriverStatus {
    /// The numeric code of a status.
    pub open spec fn spec_code(self) -> i32 {
        match self {
            DriverStatus::Success => IR0_DRIVER_OK,
            DriverStatus::GenericError => IR0_DRIVER_ERR,
            DriverStatus::OutOfMemory => IR0_DRIVER_ERR_NOMEM,
            DriverStatus::InvalidArgument => IR0_DRIVER_ERR_INVAL,
            DriverStatus::AlreadyExists => IR0_DRIVER_ERR_EXISTS,
            DriverStatus::NotFound => IR0_DRIVER_ERR_NOTFOUND,
            DriverStatus::Unsupported => IR0_DRIVER_ERR_UNSUPPORTED,
            DriverStatus::DriverFault(_) => IR0_DRIVER_ERR_FAULT,
        }
    }

    /// The status that a code stands for; a code outside the taxonomy is a
    /// generic error.
    pub open spec fn spec_from_code(c: i32) -> DriverStatus {
        if c == IR0_DRIVER_OK {
            DriverStatus::Success
        } else if c == IR0_DRIVER_ERR_NOMEM {
            DriverStatus::OutOfMemory
        } else if c == IR0_DRIVER_ERR_INVAL {
            DriverStatus::InvalidArgument
        } else if c == IR0_DRIVER_ERR_EXISTS {
            DriverStatus::AlreadyExists
        } else if c == IR0_DRIVER_ERR_NOTFOUND {
            DriverStatus::NotFound
        } else if c == IR0_DRIVER_ERR_UNSUPPORTED {
            DriverStatus::Unsupported
        } else if c == IR0_DRIVER_ERR_FAULT {
            DriverStatus::DriverFault(None)
        } else {
            DriverStatus::GenericError
        }
    }

    pub fn code(&self) -> (r: i32)
        ensures
            r == self.spec_code(),
            is_status_code(r),
    {
        match self {
            DriverStatus::Success => IR0_DRIVER_OK,
            DriverStatus::GenericError => IR0_DRIVER_ERR,
            DriverStatus::OutOfMemory => IR0_DRIVER_ERR_NOMEM,
            DriverStatus::InvalidArgument => IR0_DRIVER_ERR_INVAL,
            DriverStatus::AlreadyExists => IR0_DRIVER_ERR_EXISTS,
            DriverStatus::NotFound => IR0_DRIVER_ERR_NOTFOUND,
            DriverStatus::Unsupported => IR0_DRIVER_ERR_UNSUPPORTED,
            DriverStatus::DriverFault(_) => IR0_DRIVER_ERR_FAULT,
        }
    }

    pub fn from_code(c: i32) -> (r: DriverStatus)
        ensures
            r == DriverStatus::spec_from_code(c),
    {
        if c == IR0_DRIVER_OK {
            DriverStatus::Success
        } else if c == IR0_DRIVER_ERR_NOMEM {
            DriverStatus::OutOfMemory
        } else if c == IR0_DRIVER_ERR_INVAL {
            DriverStatus::InvalidArgument
        } else if c == IR0_DRIVER_ERR_EXISTS {
            DriverStatus::AlreadyExists
        } else if c == IR0_DRIVER_ERR_NOTFOUND {
            DriverStatus::NotFound
        } else if c == IR0_DRIVER_ERR_UNSUPPORTED {
            DriverStatus::Unsupported
        } else if c == IR0_DRIVER_ERR_FAULT {
            DriverStatus::DriverFault(None)
        } else {
            DriverStatus::GenericError
        }
    }
}

/// The diagnostic the fault channel logs for a driver fault, by whether the
/// fault's source location is known.
pub fn fault_message(has_location: bool) -> (r: &'static str)
    ensures
        has_location ==> r@ == "Rust driver panic"@,
        !has_location ==> r@ == "Rust driver panic (no location)"@,
{
    if has_location {
        "Rust driver panic"
    } else {
        "Rust driver panic (no location)"
    }
}

/// Every status without a fault report survives the trip through its
/// numeric code.
pub proof fn lemma_code_round_trip(s: DriverStatus)
    requires
        s matches DriverStatus::DriverFault(report) ==> report is None,
    ensures
        DriverStatus::spec_from_code(s.spec_code()) == s,
{
}

} // verus!
