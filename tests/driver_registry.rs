use kernel_hal::driver::callback::{status_result, DriverCallback};
use kernel_hal::driver::descriptor::{DriverCallbackType, DriverDescriptor, DriverEntry};
use kernel_hal::driver::device::{Device, DeviceClass};
use kernel_hal::driver::registry::{DriverRegistry, MAX_DRIVERS};
use kernel_hal::driver::{DriverManager, MAX_DEVICES};
use kernel_hal::error::HalError;

/// Answers each phase with a fixed status, so that a test sees which phase
/// was dispatched.
#[derive(Clone, Copy, Debug)]
struct PhaseStatus;

impl DriverEntry for PhaseStatus {
    fn answers(&self, device: usize, callback_type: DriverCallbackType, data: usize, status: i32) -> bool {
        status == self.call(device, callback_type, data)
    }

    fn call(&self, _device: usize, callback_type: DriverCallbackType, _data: usize) -> i32 {
        match callback_type {
            DriverCallbackType::Init => 0,
            DriverCallbackType::Probe => -3,
            DriverCallbackType::Suspend => -5,
            DriverCallbackType::Resume => 42,
            DriverCallbackType::Remove => -7,
            DriverCallbackType::Shutdown => -2,
        }
    }
}

fn descriptor(id: u32, priority: u32) -> DriverDescriptor<PhaseStatus> {
    DriverDescriptor {
        driver_id: id,
        driver_name: "test",
        version: 0x010000,
        flags: 0,
        init: None,
        probe: Some(PhaseStatus),
        suspend: None,
        resume: None,
        remove: None,
        priority,
    }
}

fn ids(v: &[&DriverDescriptor<PhaseStatus>]) -> Vec<u32> {
    v.iter().map(|d| d.driver_id).collect()
}

#[test]
fn register_find_and_priority_scenario() {
    let mut reg = DriverRegistry::new();
    assert_eq!(reg.register(&descriptor(5, 10)), Ok(()));
    let found = reg.find(5).unwrap();
    assert_eq!(found.driver_id, 5);
    assert_eq!(found.priority, 10);
    assert!(reg.get_by_priority(20).is_empty());
    assert_eq!(ids(&reg.get_by_priority(5)), vec![5]);
}

#[test]
fn invalid_descriptors_are_refused() {
    let mut reg = DriverRegistry::new();
    assert_eq!(reg.register(&descriptor(0, 1)), Err(HalError::InvalidArg));
    let mut no_probe = descriptor(3, 1);
    no_probe.probe = None;
    assert_eq!(reg.register(&no_probe), Err(HalError::InvalidArg));
    assert_eq!(no_probe.validate(), Err(HalError::InvalidArg));
    let mut unnamed = descriptor(4, 1);
    unnamed.driver_name = "";
    assert_eq!(reg.register(&unnamed), Err(HalError::InvalidArg));
    assert!(reg.find(3).is_none());
    assert!(reg.get_by_priority(0).is_empty());
}

#[test]
fn duplicate_registration_is_busy() {
    let mut reg = DriverRegistry::new();
    assert_eq!(reg.register(&descriptor(8, 1)), Ok(()));
    assert_eq!(reg.register(&descriptor(8, 2)), Err(HalError::DeviceBusy));
    assert_eq!(reg.find(8).unwrap().priority, 1);
}

#[test]
fn full_registry_answers_no_memory() {
    let mut reg = DriverRegistry::with_capacity(1);
    assert_eq!(reg.register(&descriptor(1, 1)), Ok(()));
    assert_eq!(reg.register(&descriptor(2, 1)), Err(HalError::NoMemory));
    // room is checked before uniqueness
    assert_eq!(reg.register(&descriptor(1, 1)), Err(HalError::NoMemory));

    let mut big = DriverRegistry::new();
    for id in 1..=(MAX_DRIVERS as u32) {
        assert_eq!(big.register(&descriptor(id, 0)), Ok(()));
    }
    assert_eq!(big.register(&descriptor(9999, 0)), Err(HalError::NoMemory));
}

#[test]
fn priority_query_selects_exactly() {
    let mut reg = DriverRegistry::new();
    for (id, prio) in [(1, 5), (2, 50), (3, 0), (4, 200), (5, 50)] {
        reg.register(&descriptor(id, prio)).unwrap();
    }
    assert_eq!(ids(&reg.get_by_priority(0)), vec![1, 2, 3, 4, 5]);
    assert_eq!(ids(&reg.get_by_priority(50)), vec![2, 4, 5]);
    assert_eq!(ids(&reg.get_by_priority(51)), vec![4]);
    assert!(reg.get_by_priority(201).is_empty());
    assert!(reg.get_by_priority(u32::MAX).is_empty());
}

#[test]
fn unregister_then_register_again() {
    let mut reg = DriverRegistry::new();
    for id in [1, 2, 3] {
        reg.register(&descriptor(id, id)).unwrap();
    }
    assert_eq!(reg.unregister(2), Ok(()));
    assert!(reg.find(2).is_none());
    assert_eq!(ids(&reg.get_by_priority(0)), vec![1, 3]);
    assert_eq!(reg.unregister(2), Err(HalError::InvalidArg));
    assert_eq!(reg.register(&descriptor(2, 9)), Ok(()));
    assert_eq!(ids(&reg.get_by_priority(0)), vec![1, 3, 2]);
}

#[test]
fn callbacks_dispatch_each_phase() {
    let mut d = descriptor(7, 1);
    d.init = Some(PhaseStatus);
    d.suspend = Some(PhaseStatus);
    d.resume = Some(PhaseStatus);
    let cb = DriverCallback::new(d).unwrap();
    assert_eq!(cb.call_init(0, 0), Ok(()));
    assert_eq!(cb.call_probe(0x10, 0), Err(HalError::DeviceBusy));
    assert_eq!(cb.call_suspend(0, 0), Err(HalError::Timeout));
    assert_eq!(cb.call_resume(0, 0), Err(HalError::DeviceFailed));
    // an empty slot is a successful no-op
    assert_eq!(cb.call_remove(0, 0), Ok(()));

    let mut all = descriptor(8, 1);
    all.remove = Some(PhaseStatus);
    let cb = DriverCallback::new(all).unwrap();
    assert_eq!(cb.call_remove(0, 0), Err(HalError::PermissionDenied));
    assert_eq!(cb.call_init(0, 0), Ok(()));
}

#[test]
fn callback_wrapper_validates() {
    let mut d = descriptor(7, 1);
    d.probe = None;
    assert_eq!(DriverCallback::new(d).err(), Some(HalError::InvalidArg));
    assert_eq!(DriverCallback::new(descriptor(0, 1)).err(), Some(HalError::InvalidArg));
}

#[test]
fn raw_status_mapping() {
    assert_eq!(status_result(0), Ok(()));
    assert_eq!(status_result(-1), Err(HalError::InvalidArg));
    assert_eq!(status_result(-2), Err(HalError::NotSupported));
    assert_eq!(status_result(-4), Err(HalError::NoMemory));
    assert_eq!(status_result(-6), Err(HalError::DeviceFailed));
    assert_eq!(status_result(1), Err(HalError::DeviceFailed));
    assert_eq!(status_result(i32::MIN), Err(HalError::DeviceFailed));
}

#[test]
fn descriptor_name() {
    assert_eq!(descriptor(1, 1).name(), "test");
}

#[test]
fn device_table_bookkeeping() {
    let mut mgr: DriverManager<PhaseStatus> = DriverManager::new();
    assert_eq!(mgr.register_driver(&descriptor(5, 10)), Ok(()));
    assert_eq!(mgr.register_driver(&descriptor(5, 10)), Err(HalError::DeviceBusy));
    assert_eq!(mgr.registry().find(5).unwrap().priority, 10);
    assert!(mgr.get_device(1).is_none());

    let mut first = Device::new(1, DeviceClass::Block, 0x8086, 0x0953);
    first.set_active(true);
    assert_eq!(mgr.probe_device(&first), Ok(()));
    assert_eq!(mgr.probe_device(&Device::new(2, DeviceClass::Usb, 1, 2)), Ok(()));
    assert_eq!(mgr.probe_device(&Device::new(1, DeviceClass::Gpu, 3, 4)), Ok(()));
    let got = mgr.get_device(1).unwrap();
    assert_eq!(got.class, DeviceClass::Block);
    assert!(got.is_active());
    assert_eq!(mgr.get_device(2).unwrap().vendor_id, 1);
    assert!(mgr.get_device(3).is_none());
}

#[test]
fn device_table_is_bounded() {
    let mut mgr: DriverManager<PhaseStatus> = DriverManager::new();
    for id in 0..MAX_DEVICES as u32 {
        assert_eq!(mgr.probe_device(&Device::new(id, DeviceClass::Sensor, 0, 0)), Ok(()));
    }
    assert_eq!(mgr.probe_device(&Device::new(5000, DeviceClass::Cpu, 0, 0)), Err(HalError::NoMemory));
    assert!(mgr.get_device(5000).is_none());
    assert_eq!(mgr.get_device(1023).unwrap().id, 1023);
}

#[test]
fn device_status() {
    let mut d = Device::new(3, DeviceClass::Audio, 10, 20);
    assert_eq!(d.status, 0);
    assert_eq!(d.priv_data, 0);
    assert!(!d.is_active());
    d.set_active(true);
    assert_eq!(d.status, 1);
    d.set_active(false);
    assert!(!d.is_active());
}
