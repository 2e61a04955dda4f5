//! Device records kept in the driver manager's device table.
use vstd::prelude::*;

verus! {

/// The closed set of hardware categories.
#[derive(Debug, Clone, Copy, PartialEq, Eq, Structural)]
pub enum DeviceClass {
    Cpu,
    Gpu,
    Audio,
    Block,
    Usb,
    Network,
    Sensor,
    Acpi,
    Uefi,
}

/// A discovered device. `priv_data` is an opaque handle owned by the driver,
/// zero when there is none.
#[derive(Debug, Clone, Copy, PartialEq, Eq, Structural)]
pub struct Device {
    pub id: u32,
    pub class: DeviceClass,
    pub vendor_id: u16,
    pub device_id: u16,
    pub status: u8,
    pub priv_data: usize,
}

impl Device {
    /// An inactive device without private data.
    pub fn new(id: u32, class: DeviceClass, vendor_id: u16, device_id: u16) -> (r: Device)
        ensures
            r == (Device { id, class, vendor_id, device_id, status: 0, priv_data: 0 }),
    {
        Device { id, class, vendor_id, device_id, status: 0, priv_data: 0 }
    }

    pub fn is_active(&self) -> (r: bool)
        ensures
            r == (self.status != 0),
    {
        self.status != 0
    }

    /// Sets the status to 1 when `active`, else to 0; nothing else changes.
    pub fn set_active(&mut self, active: bool)
        ensures
            *final(self) == (Device { status: if active { 1u8 } else { 0u8 }, ..*old(self) }),
    {
        self.status = if active { 1 } else { 0 };
    }
}

} // verus!
