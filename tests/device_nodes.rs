use kernel_hal::device_node::{FileMode, Permissions};
use kernel_hal::subsystems::{
    AcpiSubsystem, AudioSubsystem, BlockSubsystem, GpuSubsystem, HalCore, PowerSubsystem,
    UefiSubsystem, UsbSubsystem,
};

#[test]
fn default_node_permissions() {
    let p = Permissions::default();
    assert_eq!(p.mode, 0o644);
    assert_eq!((p.uid, p.gid), (0, 0));
    assert!(p.readable());
    assert!(p.writable());
    assert!(!p.executable());
}

#[test]
fn mode_bits() {
    let p = Permissions::new(0o001, 5, 6);
    assert!(!p.readable());
    assert!(!p.writable());
    assert!(p.executable());
    assert_eq!(Permissions::new(0o020, 0, 0).writable(), true);
    assert_eq!(FileMode::UserRead.bits(), 0o400);
    assert_eq!(FileMode::GroupWrite.bits(), 0o020);
    assert_eq!(FileMode::OtherExec.bits(), 0o001);
}

#[test]
fn subsystems_come_up() {
    let _core = HalCore::new();
    let mut acpi = AcpiSubsystem::new();
    acpi.init();
    let mut audio = AudioSubsystem::new();
    audio.init();
    let mut block = BlockSubsystem::new();
    block.init();
    let mut gpu = GpuSubsystem::new();
    gpu.init();
    let mut power = PowerSubsystem::new();
    power.init();
    let mut uefi = UefiSubsystem::new();
    uefi.init();
    let mut usb = UsbSubsystem::new();
    usb.init();
}
