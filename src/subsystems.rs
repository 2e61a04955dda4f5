//! Hardware subsystems that hold no decision logic of their own: each is
//! brought up once and then asks the capability gate before acting.
use vstd::prelude::*;

verus! {

/// The core of the layer, before and after bring-up.
pub struct HalCore {
    initialized: bool,
}

impl HalCore {
    /// Whether the subsystem has been brought up.
    pub closed spec fn is_initialized(&self) -> bool {
        self.initialized
    }

    /// A subsystem not yet brought up.
    pub fn new() -> (r: HalCore)
        ensures
            !r.is_initialized(),
    {
        HalCore { initialized: false }
    }
}

/// ACPI firmware tables.
pub struct AcpiSubsystem {
    initialized: bool,
}

impl AcpiSubsystem {
    /// Whether the subsystem has been brought up.
    pub closed spec fn is_initialized(&self) -> bool {
        self.initialized
    }

    /// A subsystem not yet brought up.
    pub fn new() -> (r: AcpiSubsystem)
        ensures
            !r.is_initialized(),
    {
        AcpiSubsystem { initialized: false }
    }

    /// Brings the subsystem up.
    pub fn init(&mut self)
        ensures
            final(self).is_initialized(),
    {
        self.initialized = true;
    }
}

/// Audio streams and devices.
pub struct AudioSubsystem {
    initialized: bool,
}

impl AudioSubsystem {
    /// Whether the subsystem has been brought up.
    pub closed spec fn is_initialized(&self) -> bool {
        self.initialized
    }

    /// A subsystem not yet brought up.
    pub fn new() -> (r: AudioSubsystem)
        ensures
            !r.is_initialized(),
    {
        AudioSubsystem { initialized: false }
    }

    /// Brings the subsystem up.
    pub fn init(&mut self)
        ensures
            final(self).is_initialized(),
    {
        self.initialized = true;
    }
}

/// Block storage devices and partitions.
pub struct BlockSubsystem {
    initialized: bool,
}

impl BlockSubsystem {
    /// Whether the subsystem has been brought up.
    pub closed spec fn is_initialized(&self) -> bool {
        self.initialized
    }

    /// A subsystem not yet brought up.
    pub fn new() -> (r: BlockSubsystem)
        ensures
            !r.is_initialized(),
    {
        BlockSubsystem { initialized: false }
    }

    /// Brings the subsystem up.
    pub fn init(&mut self)
        ensures
            final(self).is_initialized(),
    {
        self.initialized = true;
    }
}

/// Display, framebuffers and planes.
pub struct GpuSubsystem {
    initialized: bool,
}

impl GpuSubsystem {
    /// Whether the subsystem has been brought up.
    pub closed spec fn is_initialized(&self) -> bool {
        self.initialized
    }

    /// A subsystem not yet brought up.
    pub fn new() -> (r: GpuSubsystem)
        ensures
            !r.is_initialized(),
    {
        GpuSubsystem { initialized: false }
    }

    /// Brings the subsystem up.
    pub fn init(&mut self)
        ensures
            final(self).is_initialized(),
    {
        self.initialized = true;
    }
}

/// Power states, profiles and batteries.
pub struct PowerSubsystem {
    initialized: bool,
}

impl PowerSubsystem {
    /// Whether the subsystem has been brought up.
    pub closed spec fn is_initialized(&self) -> bool {
        self.initialized
    }

    /// A subsystem not yet brought up.
    pub fn new() -> (r: PowerSubsystem)
        ensures
            !r.is_initialized(),
    {
        PowerSubsystem { initialized: false }
    }

    /// Brings the subsystem up.
    pub fn init(&mut self)
        ensures
            final(self).is_initialized(),
    {
        self.initialized = true;
    }
}

/// UEFI variables and boot services.
pub struct UefiSubsystem {
    initialized: bool,
}

impl UefiSubsystem {
    /// Whether the subsystem has been brought up.
    pub closed spec fn is_initialized(&self) -> bool {
        self.initialized
    }

    /// A subsystem not yet brought up.
    pub fn new() -> (r: UefiSubsystem)
        ensures
            !r.is_initialized(),
    {
        UefiSubsystem { initialized: false }
    }

    /// Brings the subsystem up.
    pub fn init(&mut self)
        ensures
            final(self).is_initialized(),
    {
        self.initialized = true;
    }
}

/// USB devices.
pub struct UsbSubsystem {
    initialized: bool,
}

impl UsbSubsystem {
    /// Whether the subsystem has been brought up.
    pub closed spec fn is_initialized(&self) -> bool {
        self.initialized
    }

    /// A subsystem not yet brought up.
    pub fn new() -> (r: UsbSubsystem)
        ensures
            !r.is_initialized(),
    {
        UsbSubsystem { initialized: false }
    }

    /// Brings the subsystem up.
    pub fn init(&mut self)
        ensures
            final(self).is_initialized(),
    {
        self.initialized = true;
    }
}

} // verus!
