//! Dispatch of a driver's lifecycle entry points.
use vstd::prelude::*;

use crate::driver::descriptor::{DriverCallbackType, DriverDescriptor, DriverEntry};
use crate::error::{error_of, HalError, HalResult, HalStatus};

verus! {

/// What a raw status reports: success for zero, else the error it encodes.
pub open spec fn status_outcome(status: HalStatus) -> HalResult<()> {
    if status == 0 {
        Ok(())
    } else {
        Err(error_of(status))
    }
}

/// Maps a raw status returned by an entry point to a result.
pub fn status_result(status: HalStatus) -> (r: HalResult<()>)
    ensures
        r == status_outcome(status),
{
    if status != 0 {
        return Err(HalError::from(status));
    }
    Ok(())
}

/// Calls `entry` for a phase when the slot holds one, with the phase and the
/// two handles, and maps the status it answers; an empty slot is a
/// successful no-op.
fn dispatch<E: DriverEntry>(
    entry: &Option<E>,
    callback_type: DriverCallbackType,
    device: usize,
    data: usize,
) -> (r: HalResult<()>)
    ensures
        entry is None ==> r == Ok::<(), HalError>(()),
        entry matches Some(f) ==> exists|status: HalStatus|
            f.answers(device, callback_type, data, status) && r == status_outcome(status),
{
    match entry {
        None => Ok(()),
        Some(callback) => {
            let status = callback.call(device, callback_type, data);
            status_result(status)
        },
    }
}

/// A validated descriptor whose entry points can be invoked.
pub struct DriverCallback<E> {
    descriptor: DriverDescriptor<E>,
}

impl<E: DriverEntry> DriverCallback<E> {
    /// The wrapped descriptor.
    pub closed spec fn descriptor(&self) -> DriverDescriptor<E> {
        self.descriptor
    }

    /// Wraps a descriptor; `InvalidArg` unless it is well formed.
    pub fn new(descriptor: DriverDescriptor<E>) -> (r: HalResult<DriverCallback<E>>)
        ensures
            r is Ok <==> descriptor.well_formed(),
            r matches Ok(c) ==> c.descriptor() == descriptor,
            r matches Err(e) ==> e == HalError::InvalidArg,
    {
        descriptor.validate()?;
        Ok(DriverCallback { descriptor })
    }

    /// Runs the init entry point, if any, and reports its status.
    pub fn call_init(&self, device: usize, data: usize) -> (r: HalResult<()>)
        ensures
            self.descriptor().init is None ==> r == Ok::<(), HalError>(()),
            self.descriptor().init matches Some(f) ==> exists|status: HalStatus|
                f.answers(device, DriverCallbackType::Init, data, status) && r == status_outcome(status),
    {
        dispatch(&self.descriptor.init, DriverCallbackType::Init, device, data)
    }

    /// Runs the probe entry point, if any, and reports its status.
    pub fn call_probe(&self, device: usize, data: usize) -> (r: HalResult<()>)
        ensures
            self.descriptor().probe is None ==> r == Ok::<(), HalError>(()),
            self.descriptor().probe matches Some(f) ==> exists|status: HalStatus|
                f.answers(device, DriverCallbackType::Probe, data, status) && r == status_outcome(status),
    {
        dispatch(&self.descriptor.probe, DriverCallbackType::Probe, device, data)
    }

    /// Runs the suspend entry point, if any, and reports its status.
    pub fn call_suspend(&self, device: usize, data: usize) -> (r: HalResult<()>)
        ensures
            self.descriptor().suspend is None ==> r == Ok::<(), HalError>(()),
            self.descriptor().suspend matches Some(f) ==> exists|status: HalStatus|
                f.answers(device, DriverCallbackType::Suspend, data, status) && r == status_outcome(status),
    {
        dispatch(&self.descriptor.suspend, DriverCallbackType::Suspend, device, data)
    }

    /// Runs the resume entry point, if any, and reports its status.
    pub fn call_resume(&self, device: usize, data: usize) -> (r: HalResult<()>)
        ensures
            self.descriptor().resume is None ==> r == Ok::<(), HalError>(()),
            self.descriptor().resume matches Some(f) ==> exists|status: HalStatus|
                f.answers(device, DriverCallbackType::Resume, data, status) && r == status_outcome(status),
    {
        dispatch(&self.descriptor.resume, DriverCallbackType::Resume, device, data)
    }

    /// Runs the remove entry point, if any, and reports its status.
    pub fn call_remove(&self, device: usize, data: usize) -> (r: HalResult<()>)
        ensures
            self.descriptor().remove is None ==> r == Ok::<(), HalError>(()),
            self.descriptor().remove matches Some(f) ==> exists|status: HalStatus|
                f.answers(device, DriverCallbackType::Remove, data, status) && r == status_outcome(status),
    {
        dispatch(&self.descriptor.remove, DriverCallbackType::Remove, device, data)
    }
}

} // verus!
