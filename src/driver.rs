//! Drivers and devices: registration of driver descriptors, dispatch of
//! lifecycle entry points, and the device table.
pub mod callback;
pub mod descriptor;
pub mod device;
pub mod registry;

use vstd::prelude::*;

use crate::driver::descriptor::DriverDescriptor;
use crate::driver::device::Device;
use crate::driver::registry::{register_outcome, DriverRegistry};
use crate::error::{HalError, HalResult};

verus! {

/// The most devices the device table holds.
pub const MAX_DEVICES: usize = 1024;

/// Index of the first device of `devices` carrying `id`, if any.
pub open spec fn first_device(devices: Seq<Device>, id: u32) -> Option<int> {
    if exists|i: int| 0 <= i < devices.len() && #[trigger] devices[i].id == id {
        Some(
            choose|i: int|
                0 <= i < devices.len() && #[trigger] devices[i].id == id && forall|j: int|
                    0 <= j < i ==> #[trigger] devices[j].id != id,
        )
    } else {
        None
    }
}

/// The registry of drivers together with the table of discovered devices.
pub struct DriverManager<E> {
    registry: DriverRegistry<E>,
    devices: Vec<Device>,
}

impl<E: Copy> DriverManager<E> {
    /// The registry of drivers.
    pub closed spec fn drivers(&self) -> DriverRegistry<E> {
        self.registry
    }

    /// The device table, in order of probing.
    pub closed spec fn devices(&self) -> Seq<Device> {
        self.devices@
    }

    /// A well-formed registry and a device table within its bound.
    pub open spec fn wf(&self) -> bool {
        &&& self.drivers().wf()
        &&& self.devices().len() <= MAX_DEVICES
    }

    /// An empty manager over a registry of the default capacity.
    pub fn new() -> (r: DriverManager<E>)
        ensures
            r.wf(),
            r.drivers()@.len() == 0,
            r.drivers().capacity() == registry::MAX_DRIVERS,
            r.devices().len() == 0,
    {
        DriverManager { registry: DriverRegistry::new(), devices: Vec::new() }
    }

    /// Read access to the registry, for lookups by id and by priority.
    pub fn registry(&self) -> (r: &DriverRegistry<E>)
        ensures
            *r == self.drivers(),
    {
        &self.registry
    }

    /// Registers a driver; see `DriverRegistry::register`.
    pub fn register_driver(&mut self, descriptor: &DriverDescriptor<E>) -> (r: HalResult<()>)
        requires
            old(self).wf(),
        ensures
            final(self).wf(),
            final(self).drivers().capacity() == old(self).drivers().capacity(),
            r == register_outcome(old(self).drivers()@, old(self).drivers().capacity(), *descriptor),
            r is Ok ==> final(self).drivers()@ == old(self).drivers()@.push(*descriptor),
            r is Err ==> final(self).drivers()@ == old(self).drivers()@,
            final(self).devices() == old(self).devices(),
    {
        self.registry.register(descriptor)
    }

    /// Appends a copy of `device` to the device table; `NoMemory` when the
    /// table is full.
    pub fn probe_device(&mut self, device: &Device) -> (r: HalResult<()>)
        requires
            old(self).wf(),
        ensures
            final(self).wf(),
            final(self).drivers() == old(self).drivers(),
            old(self).devices().len() >= MAX_DEVICES ==> r == Err::<(), HalError>(HalError::NoMemory)
                && final(self).devices() == old(self).devices(),
            old(self).devices().len() < MAX_DEVICES ==> r == Ok::<(), HalError>(())
                && final(self).devices() == old(self).devices().push(*device),
    {
        if self.devices.len() >= MAX_DEVICES {
            return Err(HalError::NoMemory);
        }
        self.devices.push(*device);
        Ok(())
    }

    /// The first device of the table carrying `device_id`.
    pub fn get_device(&self, device_id: u32) -> (r: Option<&Device>)
        ensures
            r is None <==> first_device(self.devices(), device_id) is None,
            r matches Some(d) ==> *d == self.devices()[first_device(self.devices(), device_id)->0],
    {
        let mut i: usize = 0;
        while i < self.devices.len()
            invariant
                i <= self.devices@.len(),
                forall|k: int| 0 <= k < i ==> #[trigger] self.devices@[k].id != device_id,
            decreases self.devices@.len() - i,
        {
            if self.devices[i].id == device_id {
                proof {
                    let f = first_device(self.devices@, device_id);
                    assert(self.devices@[i as int].id == device_id);
                    let j = f->0;
                    assert(0 <= j < self.devices@.len() && self.devices@[j].id == device_id);
                    assert(j == i);
                }
                return Some(&self.devices[i]);
            }
            i = i + 1;
        }
        None
    }
}

} // verus!
