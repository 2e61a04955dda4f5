//! An NVMe storage driver that gates each I/O request on a capability token.
use vstd::prelude::*;

use crate::capability::manager::{permitted, verify_outcome};
use crate::capability::permissions::Permission;
use crate::capability::token::CapabilityToken;
use crate::capability::CapabilitySystem;
use crate::error::{HalError, HalResult};

verus! {

/// Identity under which the NVMe driver registers.
pub const NVME_DRIVER_ID: u32 = 0x1001;

/// The most controllers one driver instance manages.
pub const MAX_NVME_DEVICES: usize = 16;

/// One NVMe controller found on the PCI bus.
#[derive(Debug, Clone, Copy, PartialEq, Eq, Structural)]
pub struct NvmeDevice {
    pub pci_vendor: u16,
    pub pci_device: u16,
    pub bar0_addr: u64,
    pub queue_depth: u16,
}

/// Outcome of an I/O request on controller `device_index` of `count`, with
/// `buffer` as the address of the caller's buffer (zero for none): the index
/// first, then the token, then the permission bit `bit`, then the buffer.
pub open spec fn request_outcome(
    count: nat,
    tokens: Seq<CapabilityToken>,
    device_index: usize,
    buffer: usize,
    token: CapabilityToken,
    bit: u32,
) -> HalResult<()> {
    if device_index >= count {
        Err(HalError::InvalidArg)
    } else if verify_outcome(tokens, token) is Err {
        verify_outcome(tokens, token)
    } else if !permitted(tokens, token, bit) {
        Err(HalError::PermissionDenied)
    } else if buffer == 0 {
        Err(HalError::InvalidArg)
    } else {
        Ok(())
    }
}

/// A driver instance: its controllers and the capability system that
/// authorises requests.
pub struct NvmeDriver {
    devices: Vec<NvmeDevice>,
    cap_system: CapabilitySystem,
}

impl NvmeDriver {
    /// The controllers, in order of registration.
    pub closed spec fn devices(&self) -> Seq<NvmeDevice> {
        self.devices@
    }

    /// The capability system that authorises requests.
    pub closed spec fn capabilities(&self) -> CapabilitySystem {
        self.cap_system
    }

    /// Within the controller bound, over a well-formed capability pool.
    pub open spec fn wf(&self) -> bool {
        &&& self.devices().len() <= MAX_NVME_DEVICES
        &&& self.capabilities().manager().wf()
    }

    /// A driver with no controller and a fresh capability system.
    pub fn new() -> (r: NvmeDriver)
        ensures
            r.wf(),
            r.devices().len() == 0,
            r.capabilities().manager()@.len() == 0,
            r.capabilities().manager().capacity() == crate::capability::manager::MAX_TOKENS,
            r.capabilities().manager().next_id() == 1,
    {
        NvmeDriver { devices: Vec::new(), cap_system: CapabilitySystem::new() }
    }

    /// Adds a controller; `NoMemory` when the driver already manages its
    /// maximum.
    pub fn register_device(&mut self, device: NvmeDevice) -> (r: HalResult<()>)
        requires
            old(self).wf(),
        ensures
            final(self).wf(),
            final(self).capabilities() == old(self).capabilities(),
            old(self).devices().len() >= MAX_NVME_DEVICES ==> r == Err::<(), HalError>(
                HalError::NoMemory,
            ) && final(self).devices() == old(self).devices(),
            old(self).devices().len() < MAX_NVME_DEVICES ==> r == Ok::<(), HalError>(())
                && final(self).devices() == old(self).devices().push(device),
    {
        if self.devices.len() >= MAX_NVME_DEVICES {
            return Err(HalError::NoMemory);
        }
        self.devices.push(device);
        Ok(())
    }

    /// Number of managed controllers.
    pub fn enumerate_devices(&self) -> (r: usize)
        ensures
            r == self.devices().len(),
    {
        self.devices.len()
    }

    /// Checks a read request of `length` blocks at `lba` into the buffer at
    /// address `buffer`; the token must verify and grant `READ`.
    pub fn submit_read_request(
        &self,
        device_index: usize,
        lba: u64,
        length: u32,
        buffer: usize,
        token: &CapabilityToken,
    ) -> (r: HalResult<()>)
        requires
            self.wf(),
        ensures
            r == request_outcome(
                self.devices().len(),
                self.capabilities().manager()@,
                device_index,
                buffer,
                *token,
                Permission::READ,
            ),
    {
        self.authorize(device_index, buffer, token, Permission::READ)
    }

    /// Checks a write request of `length` blocks at `lba` from the buffer at
    /// address `buffer`; the token must verify and grant `WRITE`.
    pub fn submit_write_request(
        &self,
        device_index: usize,
        lba: u64,
        length: u32,
        buffer: usize,
        token: &CapabilityToken,
    ) -> (r: HalResult<()>)
        requires
            self.wf(),
        ensures
            r == request_outcome(
                self.devices().len(),
                self.capabilities().manager()@,
                device_index,
                buffer,
                *token,
                Permission::WRITE,
            ),
    {
        self.authorize(device_index, buffer, token, Permission::WRITE)
    }

    fn authorize(&self, device_index: usize, buffer: usize, token: &CapabilityToken, bit: u32) -> (r:
        HalResult<()>)
        requires
            self.wf(),
        ensures
            r == request_outcome(
                self.devices().len(),
                self.capabilities().manager()@,
                device_index,
                buffer,
                *token,
                bit,
            ),
    {
        if device_index >= self.devices.len() {
            return Err(HalError::InvalidArg);
        }
        match self.cap_system.verify_token(token) {
            Err(e) => {
                return Err(e);
            },
            Ok(()) => {},
        }
        if !self.cap_system.has_permission(token, Permission::from_bits_retain(bit)) {
            return Err(HalError::PermissionDenied);
        }
        if buffer == 0 {
            return Err(HalError::InvalidArg);
        }
        Ok(())
    }
}

} // verus!
