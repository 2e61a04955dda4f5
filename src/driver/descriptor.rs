//! Driver descriptors: a driver's identity, version, priority and lifecycle
//! entry points.
use vstd::prelude::*;

use crate::error::{HalError, HalResult, HalStatus};

verus! {

/// The lifecycle phases a driver entry point is called for.
#[derive(Debug, Clone, Copy, PartialEq, Eq, Structural)]
pub enum DriverCallbackType {
    Init,
    Probe,
    Suspend,
    Resume,
    Remove,
    Shutdown,
}

/// A lifecycle entry point of a driver, implemented by each driver. `device`
/// and `data` are opaque handles passed through untouched; the entry point
/// returns a raw status, zero for success. What it does to the driver's own
/// state is its affair.
pub trait DriverEntry {
    /// Whether `status` is an answer this entry point may give when called
    /// with these arguments.
    spec fn answers(&self, device: usize, callback_type: DriverCallbackType, data: usize, status: HalStatus) -> bool;

    fn call(&self, device: usize, callback_type: DriverCallbackType, data: usize) -> (r: HalStatus)
        ensures
            self.answers(device, callback_type, data, r),
    ;
}

/// Registration record of a driver, generic over the type of its entry
/// points. Only `probe` is mandatory.
#[derive(Clone, Copy)]
pub struct DriverDescriptor<E> {
    pub driver_id: u32,
    pub driver_name: &'static str,
    pub version: u32,
    pub flags: u32,
    pub init: Option<E>,
    pub probe: Option<E>,
    pub suspend: Option<E>,
    pub resume: Option<E>,
    pub remove: Option<E>,
    /// Higher values run first.
    pub priority: u32,
}

impl<E> DriverDescriptor<E> {
    /// A descriptor is acceptable when its id is nonzero, its name non-empty
    /// and it has a probe entry point.
    pub open spec fn well_formed(&self) -> bool {
        &&& self.driver_id != 0
        &&& self.driver_name@.len() > 0
        &&& self.probe is Some
    }

    /// `InvalidArg` unless the descriptor is well formed.
    pub fn validate(&self) -> (r: HalResult<()>)
        ensures
            r is Ok <==> self.well_formed(),
            r is Err ==> r == Err::<(), HalError>(HalError::InvalidArg),
    {
        if self.driver_id == 0 {
            return Err(HalError::InvalidArg);
        }
        if self.driver_name.is_empty() {
            return Err(HalError::InvalidArg);
        }
        if self.probe.is_none() {
            return Err(HalError::InvalidArg);
        }
        Ok(())
    }

    /// The driver's name.
    pub fn name(&self) -> (r: &'static str)
        ensures
            r@ == self.driver_name@,
    {
        self.driver_name
    }
}

} // verus!
