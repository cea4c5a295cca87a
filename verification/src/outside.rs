//! The boundary to the outside collaborators: declarations of their types
//! and trusted wrappers around the calls the wiring layer makes into them.
//!
//! Everything in this module marked `external_body` is believed, not proved:
//! each doc comment names the outside function relied on.

use vstd::prelude::*;

use std::sync::Arc;
use std::sync::Mutex;

use dbs_device::device_manager::Error as IoManagerError;
use dbs_device::device_manager::IoManager;
use dbs_device::resources::Resource;
use dbs_legacy_devices::EventFdTrigger;
use dbs_legacy_devices::I8042Device;
use dbs_legacy_devices::I8042DeviceMetrics;
use dbs_legacy_devices::SerialDevice;
use kvm_ioctls::VmFd;
use std::io::Error as OsIoError;
use vmm_sys_util::errno::Error as ErrnoError;
use vmm_sys_util::eventfd::EventFd;

use crate::resources::bases_fresh;
use crate::resources::with_ranges;
use crate::resources::PioRange;

verus! {

#[verifier::external_type_specification]
#[verifier::external_body]
pub struct ExIoManager(IoManager);

#[verifier::external_type_specification]
#[verifier::external_body]
pub struct ExIoManagerError(IoManagerError);

#[verifier::external_type_specification]
#[verifier::external_body]
pub struct ExEventFd(EventFd);

#[verifier::external_type_specification]
#[verifier::external_body]
pub struct ExVmFd(VmFd);

#[verifier::external_type_specification]
#[verifier::external_body]
pub struct ExErrnoError(ErrnoError);

#[verifier::external_type_specification]
#[verifier::external_body]
pub struct ExIoError(OsIoError);

/// Shared-ownership handle to one serial device's lock-protected state.
///
/// The device type's own declaration carries trait bounds of an outside
/// crate that Verus refuses, so the whole handle is held opaquely; the field
/// stays reachable for unverified embedding code.
#[verifier::external_body]
pub struct SerialDeviceHandle {
    /// Another clone of this reference is held by the dispatch bus.
    pub inner: Arc<Mutex<SerialDevice>>,
}

/// Shared-ownership handle to the reset controller's lock-protected state,
/// opaque for the same reason as the serial handle.
#[verifier::external_body]
pub struct I8042DeviceHandle {
    /// Another clone of this reference is held by the dispatch bus.
    pub inner: Arc<Mutex<I8042Device>>,
}

impl SerialDeviceHandle {
    /// Relies on `Arc::clone`: the result is another owner of the very same
    /// lock-protected device state.
    #[verifier::external_body]
    pub fn clone_handle(&self) -> (r: SerialDeviceHandle)
        ensures
            r == *self,
    {
        SerialDeviceHandle { inner: self.inner.clone() }
    }
}

/// What the dispatch bus holds of port ranges: each registered range's base
/// port, mapped to that range's size.
pub uninterp spec fn bus_pio_map(bus: IoManager) -> Map<u16, u16>;

/// Relies on vmm_sys_util's `EventFd::new`, called with the non-blocking
/// flag: it creates a fresh notifier, or reports the OS error.
#[verifier::external_body]
pub(crate) fn new_event_notifier() -> Result<EventFd, OsIoError> {
    EventFd::new(libc::EFD_NONBLOCK)
}

/// Relies on vmm_sys_util's `EventFd::try_clone`: the duplicate is an
/// independent descriptor of the same underlying signal, so a notification
/// raised through either side is observable through the other; failure is an
/// OS error.
#[verifier::external_body]
pub(crate) fn duplicate_event_notifier(evt: &EventFd) -> Result<EventFd, OsIoError> {
    evt.try_clone()
}

/// Relies on dbs_legacy_devices' `SerialDevice::new`: the serial device is
/// built around the given notifier and signals its interrupt through it.
#[verifier::external_body]
pub(crate) fn new_serial_device(trigger: EventFd) -> SerialDeviceHandle {
    SerialDeviceHandle { inner: Arc::new(Mutex::new(SerialDevice::new(trigger))) }
}

/// Relies on dbs_legacy_devices' `I8042Device::new`: the reset controller is
/// built around the given notifier and signals a guest reset request through
/// it.
#[verifier::external_body]
pub(crate) fn new_i8042_device(reset_evt: EventFd) -> I8042DeviceHandle {
    I8042DeviceHandle {
        inner: Arc::new(Mutex::new(I8042Device::new(
            EventFdTrigger::new(reset_evt),
            Arc::new(I8042DeviceMetrics::default()),
        ))),
    }
}

/// Relies on dbs_device's `IoManager::register_device_io`, read against its
/// source: each port range is keyed by its base alone, a base already present
/// is a conflict, and on a conflict the call removes its own earlier
/// insertions and returns the bus's overlap error, leaving every previously
/// held base with its old size.
#[verifier::external_body]
pub(crate) fn register_serial_device(
    bus: &mut IoManager,
    device: &SerialDeviceHandle,
    ranges: &Vec<PioRange>,
) -> (r: Result<(), IoManagerError>)
    ensures
        r.is_ok() == bases_fresh(bus_pio_map(*old(bus)), ranges@),
        r.is_ok() ==> bus_pio_map(*final(bus)) == with_ranges(bus_pio_map(*old(bus)), ranges@),
        r.is_err() ==> bus_pio_map(*final(bus)) == bus_pio_map(*old(bus)),
{
    let mut resources: Vec<Resource> = Vec::new();
    for range in ranges.iter() {
        resources.push(Resource::PioAddressRange { base: range.base, size: range.size });
    }
    bus.register_device_io(device.inner.clone(), &resources)
}

/// Relies on dbs_device's `IoManager::register_device_io`, exactly as the
/// serial wrapper above does, for the reset controller's handle.
#[verifier::external_body]
pub(crate) fn register_i8042_device(
    bus: &mut IoManager,
    device: &I8042DeviceHandle,
    ranges: &Vec<PioRange>,
) -> (r: Result<(), IoManagerError>)
    ensures
        r.is_ok() == bases_fresh(bus_pio_map(*old(bus)), ranges@),
        r.is_ok() ==> bus_pio_map(*final(bus)) == with_ranges(bus_pio_map(*old(bus)), ranges@),
        r.is_err() ==> bus_pio_map(*final(bus)) == bus_pio_map(*old(bus)),
{
    let mut resources: Vec<Resource> = Vec::new();
    for range in ranges.iter() {
        resources.push(Resource::PioAddressRange { base: range.base, size: range.size });
    }
    bus.register_device_io(device.inner.clone(), &resources)
}

/// Relies on kvm_ioctls' `VmFd::register_irqfd`: it asks the hypervisor to
/// bind the notifier to the guest interrupt line; the kernel alone decides
/// the outcome, so nothing is promised of it.
#[verifier::external_body]
pub(crate) fn bind_interrupt(
    vm_fd: &Arc<VmFd>,
    evt: &EventFd,
    irq: u32,
) -> Result<(), ErrnoError> {
    vm_fd.register_irqfd(evt, irq)
}

} // verus!
