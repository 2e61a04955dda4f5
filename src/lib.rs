//! Access gate of a kernel hardware abstraction layer: capability tokens that
//! grant permissions to a requester, and the registry of drivers and devices.
pub mod capability;
pub mod device_node;
pub mod driver;
pub mod error;
pub mod nvme;
pub mod subsystems;
