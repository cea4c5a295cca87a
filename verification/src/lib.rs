//! Wiring layer for the legacy (port-mapped) peripherals of a virtual
//! machine: two serial UART ports and a keyboard/reset controller, each
//! registered on the guest's I/O dispatch bus and, when a hypervisor handle
//! is supplied, bound to its guest interrupt line.
//!
//! Construction is all-or-nothing: one call wires every device, and the
//! first failure aborts the call with the failing collaborator's error. A
//! platform profile decides where each device sits — the compiled-in port
//! and interrupt constants, or a per-device resource lookup supplied by the
//! embedder.

pub mod errors;
pub mod manager;
pub mod outside;
pub mod profile;
pub mod resources;

pub use errors::Error;
pub use manager::LegacyDeviceManager;
pub use outside::SerialDeviceHandle;
pub use profile::DeviceName;
pub use profile::DeviceResourceSet;
pub use profile::PlatformProfile;
pub use profile::ResourceMap;
pub use resources::PioRange;
