//! The kernel's driver registry: it binds a descriptor, an operation table
//! and a driver context under a handle, keeps names unique, and is the sole
//! authority that advances each driver's lifecycle.
use vstd::prelude::*;
use crate::descriptor::{DriverInfo, DriverOps, DriverState};
use crate::module::{buf_bytes, buf_len, buf_len_mut, DriverModule};
use crate::status::{DriverSlot, DriverStatus, FaultReport, IR0_DRIVER_ERR_FAULT, IR0_DRIVER_OK};

verus! {

/// An opaque token naming one registration.
#[derive(Clone, Copy, Debug, PartialEq, Eq, Structural)]
pub struct DriverHandle {
    id: u64,
}

impl DriverHandle {
    pub closed spec fn id(self) -> u64 {
        self.id
    }
}

/// One registered driver: its identity, its slot table, its lifecycle state
/// and its private context.
pub struct DriverRecord<D> {
    pub id: u64,
    pub info: DriverInfo,
    pub ops: DriverOps,
    pub state: DriverState,
    pub driver: D,
}

/// Whether some record carries the handle id `id`.
pub open spec fn has_id<D>(recs: Seq<DriverRecord<D>>, id: u64) -> bool {
    exists|i: int| 0 <= i < recs.len() && (#[trigger] recs[i]).id == id
}

/// Whether some record carries the driver name `name`.
pub open spec fn has_name<D>(recs: Seq<DriverRecord<D>>, name: Seq<char>) -> bool {
    exists|i: int| 0 <= i < recs.len() && (#[trigger] recs[i]).info.name@ == name
}

/// Whether `s` is a state in which data transfer and device operations may
/// be dispatched.
pub open spec fn is_running(s: DriverState) -> bool {
    s == DriverState::Initialized || s == DriverState::Active
}

/// The state `init` leads to: a driver without a `probe` slot has no
/// separate activation step and is active at once.
pub open spec fn state_after_init(ops: DriverOps) -> DriverState {
    if ops.probe {
        DriverState::Initialized
    } else {
        DriverState::Active
    }
}

/// The state `shutdown` leads to: resources are released and the entry
/// stays registered; a failed driver stays failed.
pub open spec fn state_after_shutdown(s: DriverState) -> DriverState {
    if s == DriverState::Failed {
        DriverState::Failed
    } else {
        DriverState::Registered
    }
}

/// `new` is `old` with record `i` possibly changed in its state and driver
/// context, and nothing else.
pub open spec fn same_except<D>(old: Seq<DriverRecord<D>>, new: Seq<DriverRecord<D>>, i: int) -> bool {
    &&& new.len() == old.len()
    &&& 0 <= i < old.len()
    &&& forall|j: int| 0 <= j < old.len() && j != i ==> new[j] == old[j]
    &&& new[i].id == old[i].id
    &&& new[i].info == old[i].info
    &&& new[i].ops == old[i].ops
}

/// The lifecycle state and the driver context agree: a merely registered
/// driver holds no resources, and a running one holds them.
pub open spec fn record_wf<D: DriverModule>(r: DriverRecord<D>) -> bool {
    &&& r.state != DriverState::Unregistered
    &&& r.state == DriverState::Registered ==> !r.driver.initialized()
    &&& is_running(r.state) ==> r.driver.initialized()
}

/// The error a failing code from slot `slot` of the driver `h` names
/// stands for: a fault is reported with the driver and the slot.
pub open spec fn error_of(code: i32, h: DriverHandle, slot: DriverSlot) -> DriverStatus {
    if code == IR0_DRIVER_ERR_FAULT {
        DriverStatus::DriverFault(Some(FaultReport { driver: h, slot }))
    } else {
        DriverStatus::spec_from_code(code)
    }
}

/// The outcome of a dispatched operation from the status code it returned.
pub open spec fn outcome(code: i32, h: DriverHandle, slot: DriverSlot) -> Result<(), DriverStatus> {
    if code == IR0_DRIVER_OK {
        Ok(())
    } else {
        Err(error_of(code, h, slot))
    }
}

/// The outcome of a data transfer from what the driver returned: a count,
/// or a negative status code.
pub open spec fn transfer_outcome(code: i32, h: DriverHandle, slot: DriverSlot) -> Result<
    usize,
    DriverStatus,
> {
    if code >= 0 {
        Ok(code as usize)
    } else {
        Err(error_of(code, h, slot))
    }
}

/// The error for a failing code from slot `slot` of the driver `h` names.
pub fn error_status(code: i32, h: DriverHandle, slot: DriverSlot) -> (r: DriverStatus)
    ensures
        r == error_of(code, h, slot),
{
    if code == IR0_DRIVER_ERR_FAULT {
        DriverStatus::DriverFault(Some(FaultReport { driver: h, slot }))
    } else {
        DriverStatus::from_code(code)
    }
}

/// The state after an operation on a running driver returned `code`: a
/// fault fails the driver, anything else leaves it where it was, or makes it
/// active where the operation activates it.
pub open spec fn state_after_op(s: DriverState, code: i32, activates: bool) -> DriverState {
    if code == IR0_DRIVER_ERR_FAULT {
        DriverState::Failed
    } else if code == IR0_DRIVER_OK && activates {
        DriverState::Active
    } else {
        s
    }
}

/// Names that differ between any two records.
pub open spec fn names_unique<D>(recs: Seq<DriverRecord<D>>) -> bool {
    forall|i: int, j: int|
        0 <= i < recs.len() && 0 <= j < recs.len() && i != j ==> (#[trigger] recs[i]).info.name@
            != (#[trigger] recs[j]).info.name@
}

/// Once a driver's record is taken out of a registry whose names are
/// unique, no record carries its name any more, so a lookup of that name
/// finds nothing.
pub proof fn lemma_unregistered_name_unknown<D>(recs: Seq<DriverRecord<D>>, i: int)
    requires
        names_unique(recs),
        0 <= i < recs.len(),
    ensures
        !has_name(recs.remove(i), recs[i].info.name@),
{
    let rest = recs.remove(i);
    assert forall|j: int| 0 <= j < rest.len() implies (#[trigger] rest[j]).info.name@
        != recs[i].info.name@ by {
        if j < i {
            assert(rest[j] == recs[j]);
        } else {
            assert(rest[j] == recs[j + 1]);
        }
    }
}

/// Shutting a driver down a second time leaves it in the state the first
/// shutdown left it in.
pub proof fn lemma_shutdown_twice(s: DriverState)
    ensures
        state_after_shutdown(state_after_shutdown(s)) == state_after_shutdown(s),
{
}

/// The registry of drivers, each under a unique name and a unique handle.
pub struct DriverRegistry<D: DriverModule> {
    records: Vec<DriverRecord<D>>,
    next_id: u64,
}

impl<D: DriverModule> DriverRegistry<D> {
    /// The registered drivers, in order of registration.
    pub closed spec fn records(&self) -> Seq<DriverRecord<D>> {
        self.records@
    }

    pub closed spec fn wf(&self) -> bool {
        &&& forall|i: int| 0 <= i < self.records@.len() ==> record_wf(#[trigger] self.records@[i])
        &&& forall|i: int| 0 <= i < self.records@.len() ==> (#[trigger] self.records@[i]).id < self.next_id
        &&& forall|i: int, j: int|
            0 <= i < self.records@.len() && 0 <= j < self.records@.len() && i != j ==> (
            #[trigger] self.records@[i]).id != (#[trigger] self.records@[j]).id
        &&& names_unique(self.records@)
    }

    /// The record that `h` names, where it names one.
    pub open spec fn index_of(&self, h: DriverHandle) -> int {
        choose|i: int| 0 <= i < self.records().len() && (#[trigger] self.records()[i]).id == h.id()
    }

    pub fn new() -> (r: Self)
        ensures
            r.wf(),
            r.records() == Seq::<DriverRecord<D>>::empty(),
            !r.ids_exhausted(),
    {
        DriverRegistry { records: Vec::new(), next_id: 0 }
    }

    /// The number of registered drivers.
    pub fn len(&self) -> (r: usize)
        ensures
            r == self.records().len(),
    {
        self.records.len()
    }

    /// Where the record of `h` stands.
    fn position(&self, h: DriverHandle) -> (r: Option<usize>)
        requires
            self.wf(),
        ensures
            r is None ==> !has_id(self.records(), h.id()),
            r is Some ==> r->0 < self.records().len() && self.records()[r->0 as int].id == h.id()
                && self.index_of(h) == r->0,
    {
        let mut i: usize = 0;
        while i < self.records.len()
            invariant
                self.wf(),
                i <= self.records@.len(),
                forall|j: int| 0 <= j < i ==> (#[trigger] self.records@[j]).id != h.id(),
            decreases self.records@.len() - i,
        {
            if self.records[i].id == h.id {
                proof {
                    assert(0 <= i < self.records().len() && self.records()[i as int].id == h.id());
                    let k = self.index_of(h);
                    assert(self.records@[k].id == self.records@[i as int].id);
                }
                return Some(i);
            }
            i = i + 1;
        }
        None
    }

    /// Whether the handle space is used up, so that no further driver can
    /// be registered.
    pub closed spec fn ids_exhausted(&self) -> bool {
        self.next_id == u64::MAX
    }

    /// Where the record named `name` stands.
    fn position_of_name(&self, name: &String) -> (r: Option<usize>)
        requires
            self.wf(),
        ensures
            r is None ==> !has_name(self.records(), name@),
            r is Some ==> r->0 < self.records().len() && self.records()[r->0 as int].info.name@
                == name@,
    {
        let mut i: usize = 0;
        while i < self.records.len()
            invariant
                i <= self.records@.len(),
                forall|j: int| 0 <= j < i ==> (#[trigger] self.records@[j]).info.name@ != name@,
            decreases self.records@.len() - i,
        {
            if self.records[i].info.name == *name {
                return Some(i);
            }
            i = i + 1;
        }
        None
    }

    /// Registers a driver under a new handle in state `Registered`. A name
    /// that is already registered is refused with `AlreadyExists`, a driver
    /// that is already initialized with `InvalidArgument`, and a registry
    /// whose handles are used up with `OutOfMemory`; a refusal changes
    /// nothing.
    pub fn register(&mut self, info: DriverInfo, ops: DriverOps, driver: D) -> (r: Result<
        DriverHandle,
        DriverStatus,
    >)
        requires
            old(self).wf(),
        ensures
            final(self).wf(),
            has_name(old(self).records(), info.name@) ==> r == Err::<DriverHandle, DriverStatus>(
                DriverStatus::AlreadyExists,
            ),
            !has_name(old(self).records(), info.name@) && driver.initialized() ==> r == Err::<
                DriverHandle,
                DriverStatus,
            >(DriverStatus::InvalidArgument),
            !has_name(old(self).records(), info.name@) && !driver.initialized()
                && old(self).ids_exhausted() ==> r == Err::<DriverHandle, DriverStatus>(
                DriverStatus::OutOfMemory,
            ),
            r is Err ==> final(self).records() == old(self).records(),
            r is Err ==> final(self).ids_exhausted() == old(self).ids_exhausted(),
            !has_name(old(self).records(), info.name@) && !driver.initialized()
                && !old(self).ids_exhausted() ==> r is Ok,
            r matches Ok(h) ==> {
                &&& !has_id(old(self).records(), h.id())
                &&& final(self).records() == old(self).records().push(
                    (DriverRecord { id: h.id(), info, ops, state: DriverState::Registered, driver }),
                )
            },
    {
        if self.position_of_name(&info.name).is_some() {
            return Err(DriverStatus::AlreadyExists);
        }
        if driver.is_initialized() {
            return Err(DriverStatus::InvalidArgument);
        }
        if self.next_id == u64::MAX {
            return Err(DriverStatus::OutOfMemory);
        }
        let id = self.next_id;
        self.next_id = self.next_id + 1;
        let ghost before = self.records@;
        self.records.push(DriverRecord { id, info, ops, state: DriverState::Registered, driver });
        proof {
            assert(self.records@[before.len() as int].id == id);
            assert forall|i: int| 0 <= i < before.len() implies self.records@[i] == before[i] by {}
        }
        Ok(DriverHandle { id })
    }

    /// Looks a driver up by name; changes nothing.
    pub fn find(&self, name: &str) -> (r: Result<DriverHandle, DriverStatus>)
        requires
            self.wf(),
        ensures
            r is Err <==> !has_name(self.records(), name@),
            r is Err ==> r == Err::<DriverHandle, DriverStatus>(DriverStatus::NotFound),
            r matches Ok(h) ==> has_id(self.records(), h.id()) && self.records()[self.index_of(
                h,
            )].info.name@ == name@,
    {
        let target = name.to_string();
        match self.position_of_name(&target) {
            None => Err(DriverStatus::NotFound),
            Some(i) => {
                let h = DriverHandle { id: self.records[i].id };
                proof {
                    assert(self.records()[i as int].id == h.id());
                    let k = self.index_of(h);
                    assert(self.records@[k].id == self.records@[i as int].id);
                }
                Ok(h)
            },
        }
    }

    /// The lifecycle state of the driver that `h` names.
    pub fn state(&self, h: DriverHandle) -> (r: Result<DriverState, DriverStatus>)
        requires
            self.wf(),
        ensures
            r is Err <==> !has_id(self.records(), h.id()),
            r is Err ==> r == Err::<DriverState, DriverStatus>(DriverStatus::NotFound),
            r matches Ok(s) ==> s == self.records()[self.index_of(h)].state,
    {
        match self.position(h) {
            None => Err(DriverStatus::NotFound),
            Some(i) => Ok(self.records[i].state),
        }
    }

    /// Probes a device through the driver that `h` names. Only a running
    /// driver with a `probe` slot is probed; its first successful probe
    /// makes it active, a fault fails it, and any other error leaves its
    /// state alone.
    pub fn probe(&mut self, h: DriverHandle, device: Option<u64>) -> (r: Result<(), DriverStatus>)
        requires
            old(self).wf(),
        ensures
            final(self).wf(),
            final(self).ids_exhausted() == old(self).ids_exhausted(),
            !has_id(old(self).records(), h.id()) ==> r == Err::<(), DriverStatus>(
                DriverStatus::NotFound,
            ) && final(self).records() == old(self).records(),
            has_id(old(self).records(), h.id()) ==> {
                let i = old(self).index_of(h);
                let rec = old(self).records()[i];
                let new = final(self).records()[i];
                &&& !rec.ops.probe ==> r == Err::<(), DriverStatus>(DriverStatus::Unsupported)
                    && final(self).records() == old(self).records()
                &&& rec.ops.probe && !is_running(rec.state) ==> r == Err::<(), DriverStatus>(
                    DriverStatus::GenericError,
                ) && final(self).records() == old(self).records()
                &&& rec.ops.probe && is_running(rec.state) ==> {
                    &&& same_except(old(self).records(), final(self).records(), i)
                    &&& rec.driver.probe_step(device, new.driver)
                    &&& r == outcome(rec.driver.probe_code(device), h, DriverSlot::Probe)
                    &&& new.state == state_after_op(rec.state, rec.driver.probe_code(device), true)
                    &&& device is None ==> r == Err::<(), DriverStatus>(
                        DriverStatus::InvalidArgument,
                    ) && final(self).records() == old(self).records()
                }
            },
    {
        let i = match self.position(h) {
            None => return Err(DriverStatus::NotFound),
            Some(i) => i,
        };
        if !self.records[i].ops.probe {
            return Err(DriverStatus::Unsupported);
        }
        let state = self.records[i].state;
        if !(state == DriverState::Initialized || state == DriverState::Active) {
            return Err(DriverStatus::GenericError);
        }
        let code = self.records[i].driver.probe(device);
        let next = if code == IR0_DRIVER_ERR_FAULT {
            DriverState::Failed
        } else if code == IR0_DRIVER_OK {
            DriverState::Active
        } else {
            state
        };
        self.records[i].state = next;
        if code == IR0_DRIVER_OK {
            Ok(())
        } else {
            Err(error_status(code, h, DriverSlot::Probe))
        }
    }

    /// Sends a control request to the driver that `h` names. Only a running
    /// driver with an `ioctl` slot is reached; a fault fails it, and any other
    /// outcome leaves its state alone.
    pub fn ioctl(&mut self, h: DriverHandle, command: u32, argument: u64) -> (r: Result<(), DriverStatus>)
        requires
            old(self).wf(),
        ensures
            final(self).wf(),
            final(self).ids_exhausted() == old(self).ids_exhausted(),
            !has_id(old(self).records(), h.id()) ==> r == Err::<(), DriverStatus>(
                DriverStatus::NotFound,
            ) && final(self).records() == old(self).records(),
            has_id(old(self).records(), h.id()) ==> {
                let i = old(self).index_of(h);
                let rec = old(self).records()[i];
                let new = final(self).records()[i];
                &&& !rec.ops.ioctl ==> r == Err::<(), DriverStatus>(DriverStatus::Unsupported)
                    && final(self).records() == old(self).records()
                &&& rec.ops.ioctl && !is_running(rec.state) ==> r == Err::<(), DriverStatus>(
                    DriverStatus::GenericError,
                ) && final(self).records() == old(self).records()
                &&& rec.ops.ioctl && is_running(rec.state) ==> {
                    &&& same_except(old(self).records(), final(self).records(), i)
                    &&& rec.driver.ioctl_step(command, argument, new.driver)
                    &&& r == outcome(rec.driver.ioctl_code(command, argument), h, DriverSlot::Ioctl)
                    &&& new.state == state_after_op(rec.state, rec.driver.ioctl_code(command, argument), false)
                }
            },
    {
        let i = match self.position(h) {
            None => return Err(DriverStatus::NotFound),
            Some(i) => i,
        };
        if !self.records[i].ops.ioctl {
            return Err(DriverStatus::Unsupported);
        }
        let state = self.records[i].state;
        if !(state == DriverState::Initialized || state == DriverState::Active) {
            return Err(DriverStatus::GenericError);
        }
        let code = self.records[i].driver.ioctl(command, argument);
        if code == IR0_DRIVER_ERR_FAULT {
            self.records[i].state = DriverState::Failed;
        }
        if code == IR0_DRIVER_OK {
            Ok(())
        } else {
            Err(error_status(code, h, DriverSlot::Ioctl))
        }
    }

    /// Suspends the driver that `h` names. Only a running driver with a
    /// `suspend` slot is reached; a fault fails it, and any other outcome
    /// leaves its state alone.
    pub fn suspend(&mut self, h: DriverHandle) -> (r: Result<(), DriverStatus>)
        requires
            old(self).wf(),
        ensures
            final(self).wf(),
            final(self).ids_exhausted() == old(self).ids_exhausted(),
            !has_id(old(self).records(), h.id()) ==> r == Err::<(), DriverStatus>(
                DriverStatus::NotFound,
            ) && final(self).records() == old(self).records(),
            has_id(old(self).records(), h.id()) ==> {
                let i = old(self).index_of(h);
                let rec = old(self).records()[i];
                let new = final(self).records()[i];
                &&& !rec.ops.suspend ==> r == Err::<(), DriverStatus>(DriverStatus::Unsupported)
                    && final(self).records() == old(self).records()
                &&& rec.ops.suspend && !is_running(rec.state) ==> r == Err::<(), DriverStatus>(
                    DriverStatus::GenericError,
                ) && final(self).records() == old(self).records()
                &&& rec.ops.suspend && is_running(rec.state) ==> {
                    &&& same_except(old(self).records(), final(self).records(), i)
                    &&& rec.driver.suspend_step(new.driver)
                    &&& r == outcome(rec.driver.suspend_code(), h, DriverSlot::Suspend)
                    &&& new.state == state_after_op(rec.state, rec.driver.suspend_code(), false)
                }
            },
    {
        let i = match self.position(h) {
            None => return Err(DriverStatus::NotFound),
            Some(i) => i,
        };
        if !self.records[i].ops.suspend {
            return Err(DriverStatus::Unsupported);
        }
        let state = self.records[i].state;
        if !(state == DriverState::Initialized || state == DriverState::Active) {
            return Err(DriverStatus::GenericError);
        }
        let code = self.records[i].driver.suspend();
        if code == IR0_DRIVER_ERR_FAULT {
            self.records[i].state = DriverState::Failed;
        }
        if code == IR0_DRIVER_OK {
            Ok(())
        } else {
            Err(error_status(code, h, DriverSlot::Suspend))
        }
    }

    /// Resumes the driver that `h` names. Only a running driver with a
    /// `resume` slot is reached; a fault fails it, and any other outcome
    /// leaves its state alone.
    pub fn resume(&mut self, h: DriverHandle) -> (r: Result<(), DriverStatus>)
        requires
            old(self).wf(),
        ensures
            final(self).wf(),
            final(self).ids_exhausted() == old(self).ids_exhausted(),
            !has_id(old(self).records(), h.id()) ==> r == Err::<(), DriverStatus>(
                DriverStatus::NotFound,
            ) && final(self).records() == old(self).records(),
            has_id(old(self).records(), h.id()) ==> {
                let i = old(self).index_of(h);
                let rec = old(self).records()[i];
                let new = final(self).records()[i];
                &&& !rec.ops.resume ==> r == Err::<(), DriverStatus>(DriverStatus::Unsupported)
                    && final(self).records() == old(self).records()
                &&& rec.ops.resume && !is_running(rec.state) ==> r == Err::<(), DriverStatus>(
                    DriverStatus::GenericError,
                ) && final(self).records() == old(self).records()
                &&& rec.ops.resume && is_running(rec.state) ==> {
                    &&& same_except(old(self).records(), final(self).records(), i)
                    &&& rec.driver.resume_step(new.driver)
                    &&& r == outcome(rec.driver.resume_code(), h, DriverSlot::Resume)
                    &&& new.state == state_after_op(rec.state, rec.driver.resume_code(), false)
                }
            },
    {
        let i = match self.position(h) {
            None => return Err(DriverStatus::NotFound),
            Some(i) => i,
        };
        if !self.records[i].ops.resume {
            return Err(DriverStatus::Unsupported);
        }
        let state = self.records[i].state;
        if !(state == DriverState::Initialized || state == DriverState::Active) {
            return Err(DriverStatus::GenericError);
        }
        let code = self.records[i].driver.resume();
        if code == IR0_DRIVER_ERR_FAULT {
            self.records[i].state = DriverState::Failed;
        }
        if code == IR0_DRIVER_OK {
            Ok(())
        } else {
            Err(error_status(code, h, DriverSlot::Resume))
        }
    }

    /// Initializes the driver that `h` names, handing it `buffer`, the
    /// kernel's allocation for it. Only a registered driver with an `init`
    /// slot is initialized: success makes it initialized (active at once
    /// where it has no `probe` slot), and an error fails it.
    pub fn init(&mut self, h: DriverHandle, buffer: Option<Vec<u8>>) -> (r: Result<(), DriverStatus>)
        requires
            old(self).wf(),
        ensures
            final(self).wf(),
            final(self).ids_exhausted() == old(self).ids_exhausted(),
            !has_id(old(self).records(), h.id()) ==> r == Err::<(), DriverStatus>(
                DriverStatus::NotFound,
            ) && final(self).records() == old(self).records(),
            has_id(old(self).records(), h.id()) ==> {
                let i = old(self).index_of(h);
                let rec = old(self).records()[i];
                let new = final(self).records()[i];
                &&& !rec.ops.init ==> r == Err::<(), DriverStatus>(DriverStatus::Unsupported)
                    && final(self).records() == old(self).records()
                &&& rec.ops.init && rec.state != DriverState::Registered ==> r == Err::<
                    (),
                    DriverStatus,
                >(DriverStatus::GenericError) && final(self).records() == old(self).records()
                &&& rec.ops.init && rec.state == DriverState::Registered ==> {
                    &&& same_except(old(self).records(), final(self).records(), i)
                    &&& r == outcome(rec.driver.init_code(buffer is Some), h, DriverSlot::Init)
                    &&& rec.driver.init_step(buffer, new.driver)
                    &&& r is Ok ==> new.state == state_after_init(rec.ops) && new.driver.initialized()
                    &&& r is Err ==> new.state == DriverState::Failed && new.driver == rec.driver
                }
            },
    {
        let i = match self.position(h) {
            None => return Err(DriverStatus::NotFound),
            Some(i) => i,
        };
        if !self.records[i].ops.init {
            return Err(DriverStatus::Unsupported);
        }
        if self.records[i].state != DriverState::Registered {
            return Err(DriverStatus::GenericError);
        }
        let code = self.records[i].driver.init(buffer);
        if code == IR0_DRIVER_OK {
            self.records[i].state = if self.records[i].ops.probe {
                DriverState::Initialized
            } else {
                DriverState::Active
            };
            Ok(())
        } else {
            self.records[i].state = DriverState::Failed;
            Err(error_status(code, h, DriverSlot::Init))
        }
    }

    /// Shuts down the driver that `h` names, releasing its resources while
    /// keeping its registration. Callable in every state where the driver
    /// has a `shutdown` slot, and again after a shutdown.
    pub fn shutdown(&mut self, h: DriverHandle) -> (r: Result<(), DriverStatus>)
        requires
            old(self).wf(),
        ensures
            final(self).wf(),
            final(self).ids_exhausted() == old(self).ids_exhausted(),
            !has_id(old(self).records(), h.id()) ==> r == Err::<(), DriverStatus>(
                DriverStatus::NotFound,
            ) && final(self).records() == old(self).records(),
            has_id(old(self).records(), h.id()) ==> {
                let i = old(self).index_of(h);
                let rec = old(self).records()[i];
                let new = final(self).records()[i];
                &&& !rec.ops.shutdown ==> r == Err::<(), DriverStatus>(DriverStatus::Unsupported)
                    && final(self).records() == old(self).records()
                &&& rec.ops.shutdown ==> {
                    &&& r == Ok::<(), DriverStatus>(())
                    &&& same_except(old(self).records(), final(self).records(), i)
                    &&& rec.driver.shutdown_step(new.driver)
                    &&& new.state == state_after_shutdown(rec.state)
                    &&& !new.driver.initialized()
                    &&& new.driver.port_writes() == rec.driver.port_writes()
                }
            },
    {
        let i = match self.position(h) {
            None => return Err(DriverStatus::NotFound),
            Some(i) => i,
        };
        if !self.records[i].ops.shutdown {
            return Err(DriverStatus::Unsupported);
        }
        self.records[i].driver.shutdown();
        if self.records[i].state != DriverState::Failed {
            self.records[i].state = DriverState::Registered;
        }
        Ok(())
    }

    /// Removes a device through the driver that `h` names. Only a running
    /// driver with a `remove` slot is reached; its state does not change.
    pub fn remove(&mut self, h: DriverHandle, device: Option<u64>) -> (r: Result<(), DriverStatus>)
        requires
            old(self).wf(),
        ensures
            final(self).wf(),
            final(self).ids_exhausted() == old(self).ids_exhausted(),
            !has_id(old(self).records(), h.id()) ==> r == Err::<(), DriverStatus>(
                DriverStatus::NotFound,
            ) && final(self).records() == old(self).records(),
            has_id(old(self).records(), h.id()) ==> {
                let i = old(self).index_of(h);
                let rec = old(self).records()[i];
                let new = final(self).records()[i];
                &&& !rec.ops.remove ==> r == Err::<(), DriverStatus>(DriverStatus::Unsupported)
                    && final(self).records() == old(self).records()
                &&& rec.ops.remove && !is_running(rec.state) ==> r == Err::<(), DriverStatus>(
                    DriverStatus::GenericError,
                ) && final(self).records() == old(self).records()
                &&& rec.ops.remove && is_running(rec.state) ==> {
                    &&& r == Ok::<(), DriverStatus>(())
                    &&& same_except(old(self).records(), final(self).records(), i)
                    &&& new.driver == rec.driver.after_remove(device)
                    &&& new.state == rec.state
                }
            },
    {
        let i = match self.position(h) {
            None => return Err(DriverStatus::NotFound),
            Some(i) => i,
        };
        if !self.records[i].ops.remove {
            return Err(DriverStatus::Unsupported);
        }
        let state = self.records[i].state;
        if !(state == DriverState::Initialized || state == DriverState::Active) {
            return Err(DriverStatus::GenericError);
        }
        self.records[i].driver.remove(device);
        Ok(())
    }

    /// Reads through the driver that `h` names into `buf`. Only a running
    /// driver with a `read` slot is reached; it returns the count
    /// transferred, at most `len`. A fault fails the driver; any other
    /// error leaves its state alone.
    pub fn read(&mut self, h: DriverHandle, buf: Option<&mut [u8]>, len: usize) -> (r: Result<
        usize,
        DriverStatus,
    >)
        requires
            old(self).wf(),
        ensures
            final(self).wf(),
            final(self).ids_exhausted() == old(self).ids_exhausted(),
            buf is Some && !(has_id(old(self).records(), h.id()) && old(self).records()[old(
                self,
            ).index_of(h)].ops.read && is_running(old(self).records()[old(self).index_of(h)].state))
                ==> final(buf->0)@ == (buf->0)@,
            !has_id(old(self).records(), h.id()) ==> r == Err::<usize, DriverStatus>(
                DriverStatus::NotFound,
            ) && final(self).records() == old(self).records(),
            has_id(old(self).records(), h.id()) ==> {
                let i = old(self).index_of(h);
                let rec = old(self).records()[i];
                let new = final(self).records()[i];
                &&& !rec.ops.read ==> r == Err::<usize, DriverStatus>(DriverStatus::Unsupported)
                    && final(self).records() == old(self).records()
                &&& rec.ops.read && !is_running(rec.state) ==> r == Err::<usize, DriverStatus>(
                    DriverStatus::GenericError,
                ) && final(self).records() == old(self).records()
                &&& rec.ops.read && is_running(rec.state) ==> {
                    &&& same_except(old(self).records(), final(self).records(), i)
                    &&& rec.driver.read_step(buf_len_mut(buf), len, new.driver)
                    &&& buf is Some ==> final(buf->0)@ == rec.driver.read_data((buf->0)@, len)
                    &&& r == transfer_outcome(rec.driver.read_code(buf_len_mut(buf), len), h, DriverSlot::Read)
                    &&& new.state == state_after_op(rec.state, rec.driver.read_code(buf_len_mut(buf), len), false)
                    &&& r matches Ok(n) ==> n <= len
                    &&& buf is None ==> r == Err::<usize, DriverStatus>(
                        DriverStatus::InvalidArgument,
                    ) && final(self).records() == old(self).records()
                }
            },
    {
        let i = match self.position(h) {
            None => return Err(DriverStatus::NotFound),
            Some(i) => i,
        };
        if !self.records[i].ops.read {
            return Err(DriverStatus::Unsupported);
        }
        let state = self.records[i].state;
        if !(state == DriverState::Initialized || state == DriverState::Active) {
            return Err(DriverStatus::GenericError);
        }
        let code = self.records[i].driver.read(buf, len);
        if code == IR0_DRIVER_ERR_FAULT {
            self.records[i].state = DriverState::Failed;
        }
        let r = if code >= 0 {
            Ok(code as usize)
        } else {
            Err(error_status(code, h, DriverSlot::Read))
        };
        r
    }

    /// Writes through the driver that `h` names from `buf`. Only a running
    /// driver with a `write` slot is reached; it returns the count
    /// transferred, at most `len` and never past the buffer. A fault fails
    /// the driver; any other error leaves its state alone.
    pub fn write(&mut self, h: DriverHandle, buf: Option<&[u8]>, len: usize) -> (r: Result<
        usize,
        DriverStatus,
    >)
        requires
            old(self).wf(),
        ensures
            final(self).wf(),
            final(self).ids_exhausted() == old(self).ids_exhausted(),
            !has_id(old(self).records(), h.id()) ==> r == Err::<usize, DriverStatus>(
                DriverStatus::NotFound,
            ) && final(self).records() == old(self).records(),
            has_id(old(self).records(), h.id()) ==> {
                let i = old(self).index_of(h);
                let rec = old(self).records()[i];
                let new = final(self).records()[i];
                &&& !rec.ops.write ==> r == Err::<usize, DriverStatus>(DriverStatus::Unsupported)
                    && final(self).records() == old(self).records()
                &&& rec.ops.write && !is_running(rec.state) ==> r == Err::<usize, DriverStatus>(
                    DriverStatus::GenericError,
                ) && final(self).records() == old(self).records()
                &&& rec.ops.write && is_running(rec.state) ==> {
                    &&& same_except(old(self).records(), final(self).records(), i)
                    &&& rec.driver.write_step(buf_bytes(buf), len, new.driver)
                    &&& r == transfer_outcome(rec.driver.write_code(buf_len(buf), len), h, DriverSlot::Write)
                    &&& new.state == state_after_op(rec.state, rec.driver.write_code(buf_len(buf), len), false)
                    &&& r matches Ok(n) ==> buf is Some && n <= len && n <= buf->0@.len()
                    &&& buf is None ==> r == Err::<usize, DriverStatus>(
                        DriverStatus::InvalidArgument,
                    ) && final(self).records() == old(self).records()
                }
            },
    {
        let i = match self.position(h) {
            None => return Err(DriverStatus::NotFound),
            Some(i) => i,
        };
        if !self.records[i].ops.write {
            return Err(DriverStatus::Unsupported);
        }
        let state = self.records[i].state;
        if !(state == DriverState::Initialized || state == DriverState::Active) {
            return Err(DriverStatus::GenericError);
        }
        let code = self.records[i].driver.write(buf, len);
        if code == IR0_DRIVER_ERR_FAULT {
            self.records[i].state = DriverState::Failed;
        }
        let r = if code >= 0 {
            Ok(code as usize)
        } else {
            Err(error_status(code, h, DriverSlot::Write))
        };
        r
    }

    /// Removes the driver that `h` names from the registry and hands its
    /// context back. A running driver with a `shutdown` slot is shut down
    /// first.
    pub fn unregister(&mut self, h: DriverHandle) -> (r: Result<D, DriverStatus>)
        requires
            old(self).wf(),
        ensures
            final(self).wf(),
            final(self).ids_exhausted() == old(self).ids_exhausted(),
            !has_id(old(self).records(), h.id()) ==> r == Err::<D, DriverStatus>(
                DriverStatus::NotFound,
            ) && final(self).records() == old(self).records(),
            has_id(old(self).records(), h.id()) ==> {
                let i = old(self).index_of(h);
                let rec = old(self).records()[i];
                let new = final(self).records()[i];
                &&& r is Ok
                &&& final(self).records() == old(self).records().remove(i)
                &&& !has_name(final(self).records(), rec.info.name@)
                &&& !has_id(final(self).records(), h.id())
                &&& r matches Ok(d) ==> if is_running(rec.state) && rec.ops.shutdown {
                    &&& rec.driver.shutdown_step(d)
                    &&& !d.initialized()
                    &&& d.port_writes() == rec.driver.port_writes()
                } else {
                    d == rec.driver
                }
            },
    {
        let i = match self.position(h) {
            None => return Err(DriverStatus::NotFound),
            Some(i) => i,
        };
        let ghost before = self.records@;
        let rec = self.records.remove(i);
        proof {
            lemma_unregistered_name_unknown(before, i as int);
            assert forall|j: int| 0 <= j < self.records@.len() implies (#[trigger] self.records@[j]).id
                != h.id() by {
                if j < i {
                    assert(self.records@[j] == before[j]);
                } else {
                    assert(self.records@[j] == before[j + 1]);
                }
            }
        }
        let mut d = rec.driver;
        if (rec.state == DriverState::Initialized || rec.state == DriverState::Active)
            && rec.ops.shutdown {
            d.shutdown();
        }
        Ok(d)
    }

    /// The context of the driver that `h` names.
    pub fn driver(&self, h: DriverHandle) -> (r: Result<&D, DriverStatus>)
        requires
            self.wf(),
        ensures
            r is Err <==> !has_id(self.records(), h.id()),
            r is Err ==> r == Err::<&D, DriverStatus>(DriverStatus::NotFound),
            r matches Ok(d) ==> *d == self.records()[self.index_of(h)].driver,
    {
        match self.position(h) {
            None => Err(DriverStatus::NotFound),
            Some(i) => Ok(&self.records[i].driver),
        }
    }
}

} // verus!
