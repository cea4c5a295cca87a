//! Why a construction call failed. Every failure aborts the whole call;
//! nothing is retried inside this layer.

use vstd::prelude::*;

use dbs_device::device_manager::Error as IoManagerError;

use crate::profile::DeviceName;

verus! {

/// The first failure met while wiring the legacy devices. The first three
/// variants wrap the failing collaborator's own error.
#[derive(Debug)]
pub enum Error {
    /// The dispatch bus refused a device's address ranges.
    BusError(IoManagerError),
    /// An event notifier could not be created or duplicated.
    EventFd(std::io::Error),
    /// The hypervisor refused to bind an interrupt line.
    IrqManager(vmm_sys_util::errno::Error),
    /// The resource lookup holds no descriptor under the given device name.
    MissingResourceDescriptor(DeviceName),
}

} // verus!
