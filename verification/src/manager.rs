//! The legacy device manager: one construction call wires the two serial
//! ports and the reset controller onto the dispatch bus and, when a
//! hypervisor handle is supplied, binds each serial port's interrupt line.
//! Construction is all-or-nothing: the first failure aborts the call and no
//! manager is produced.

use vstd::prelude::*;

use std::sync::Arc;

use dbs_device::device_manager::IoManager;
use kvm_ioctls::VmFd;
use vmm_sys_util::eventfd::EventFd;

use crate::errors::Error;
use crate::outside::bind_interrupt;
use crate::outside::bus_pio_map;
use crate::outside::duplicate_event_notifier;
use crate::outside::new_event_notifier;
use crate::outside::new_i8042_device;
use crate::outside::new_serial_device;
use crate::outside::register_i8042_device;
use crate::outside::register_serial_device;
use crate::outside::SerialDeviceHandle;
use crate::profile::com1_fixed_range;
use crate::profile::com2_fixed_range;
use crate::profile::i8042_fixed_range;
use crate::profile::DeviceName;
use crate::profile::DeviceResourceSet;
use crate::profile::PlatformProfile;
use crate::profile::COM1_PORT1;
use crate::profile::COM2_PORT1;
use crate::profile::COM_RANGE_SIZE;
use crate::profile::I8042_DATA_PORT;
use crate::profile::I8042_RANGE_SIZE;
use crate::resources::bases_fresh;
use crate::resources::lemma_bases_fresh_singleton;
use crate::resources::lemma_with_ranges_singleton;
use crate::resources::with_ranges;
use crate::resources::PioRange;

verus! {

/// None of the fixed layout's base ports is taken on the bus yet: the
/// condition under which construction on that bus can reserve all three
/// ranges.
pub open spec fn fixed_bases_fresh(m: Map<u16, u16>) -> bool {
    &&& !m.dom().contains(COM1_PORT1)
    &&& !m.dom().contains(COM2_PORT1)
    &&& !m.dom().contains(I8042_DATA_PORT)
}

/// The bus's port map once the whole fixed layout is registered.
pub open spec fn fixed_layout_registered(m: Map<u16, u16>) -> Map<u16, u16> {
    m.insert(COM1_PORT1, COM_RANGE_SIZE).insert(COM2_PORT1, COM_RANGE_SIZE).insert(
        I8042_DATA_PORT,
        I8042_RANGE_SIZE,
    )
}

/// The wired set of legacy devices. A value exists only after every device
/// is registered on the bus, and its topology never changes afterwards.
pub struct LegacyDeviceManager {
    i8042_reset_eventfd: EventFd,
    com1_device: SerialDeviceHandle,
    _com1_eventfd: EventFd,
    com2_device: SerialDeviceHandle,
    _com2_eventfd: EventFd,
}

impl LegacyDeviceManager {
    /// The first serial port's handle.
    pub closed spec fn spec_com1(self) -> SerialDeviceHandle {
        self.com1_device
    }

    /// The second serial port's handle.
    pub closed spec fn spec_com2(self) -> SerialDeviceHandle {
        self.com2_device
    }

    /// Another reference to the first serial port's lock-protected state,
    /// shared with the dispatch bus and with this manager.
    pub fn get_com1_serial(&self) -> (r: SerialDeviceHandle)
        ensures
            r == self.spec_com1(),
    {
        self.com1_device.clone_handle()
    }

    /// Another reference to the second serial port's lock-protected state.
    pub fn get_com2_serial(&self) -> (r: SerialDeviceHandle)
        ensures
            r == self.spec_com2(),
    {
        self.com2_device.clone_handle()
    }

    /// A fresh duplicate of the exit-signal notifier: the guest's reset
    /// request raised through the controller is observable through it, and
    /// duplicating leaves the manager's own descriptor in place.
    pub fn get_reset_eventfd(&self) -> (r: Result<EventFd, Error>)
        ensures
            r matches Err(e) ==> e is EventFd,
    {
        match duplicate_event_notifier(&self.i8042_reset_eventfd) {
            Ok(evt) => Ok(evt),
            Err(e) => Err(Error::EventFd(e)),
        }
    }

    /// Builds one serial device over `res`: a fresh notifier, the device
    /// around a duplicate of it, the bus registration, and — only when both
    /// a hypervisor handle and an interrupt line are present — one binding
    /// of notifier to line.
    pub fn create_com_device(
        bus: &mut IoManager,
        vm_fd: Option<&Arc<VmFd>>,
        res: &DeviceResourceSet,
    ) -> (r: Result<(SerialDeviceHandle, EventFd), Error>)
        ensures
            r.is_ok() ==> bases_fresh(bus_pio_map(*old(bus)), res.pio_ranges@) && bus_pio_map(
                *final(bus),
            ) == with_ranges(bus_pio_map(*old(bus)), res.pio_ranges@),
            !bases_fresh(bus_pio_map(*old(bus)), res.pio_ranges@) ==> r.is_err(),
            r matches Err(e) ==> match e {
                Error::EventFd(_) => bus_pio_map(*final(bus)) == bus_pio_map(*old(bus)),
                Error::BusError(_) => bus_pio_map(*final(bus)) == bus_pio_map(*old(bus))
                    && !bases_fresh(bus_pio_map(*old(bus)), res.pio_ranges@),
                Error::IrqManager(_) => vm_fd is Some && res.irq is Some && bases_fresh(
                    bus_pio_map(*old(bus)),
                    res.pio_ranges@,
                ) && bus_pio_map(*final(bus)) == with_ranges(
                    bus_pio_map(*old(bus)),
                    res.pio_ranges@,
                ),
                Error::MissingResourceDescriptor(_) => false,
            },
    {
        let eventfd = match new_event_notifier() {
            Ok(evt) => evt,
            Err(e) => return Err(Error::EventFd(e)),
        };
        let device_evt = match duplicate_event_notifier(&eventfd) {
            Ok(evt) => evt,
            Err(e) => return Err(Error::EventFd(e)),
        };
        let device = new_serial_device(device_evt);
        match register_serial_device(bus, &device, &res.pio_ranges) {
            Ok(_) => {},
            Err(e) => return Err(Error::BusError(e)),
        }
        if let Some(fd) = vm_fd {
            if let Some(irq) = res.irq {
                match bind_interrupt(fd, &eventfd, irq) {
                    Ok(_) => {},
                    Err(e) => return Err(Error::IrqManager(e)),
                }
            }
        }
        Ok((device, eventfd))
    }

    /// The single construction entry point for the fixed layout. It wires
    /// COM1, COM2 and the reset controller, in that order; each device's bus
    /// registration happens before the call returns, and a first failure
    /// aborts the whole call without rolling earlier registrations back.
    pub fn create_manager(bus: &mut IoManager, vm_fd: Option<Arc<VmFd>>) -> (r: Result<
        LegacyDeviceManager,
        Error,
    >)
        ensures
            r.is_ok() ==> fixed_bases_fresh(bus_pio_map(*old(bus))) && bus_pio_map(*final(bus))
                == fixed_layout_registered(bus_pio_map(*old(bus))),
            !fixed_bases_fresh(bus_pio_map(*old(bus))) ==> r.is_err(),
            r matches Err(e) ==> match e {
                Error::BusError(_) => !fixed_bases_fresh(bus_pio_map(*old(bus))),
                Error::EventFd(_) => true,
                Error::IrqManager(_) => vm_fd is Some,
                Error::MissingResourceDescriptor(_) => false,
            },
    {
        let ghost m0 = bus_pio_map(*bus);
        let profile = PlatformProfile::FixedLayout;

        let com1_res = match profile.resolve_resources(DeviceName::Com1) {
            Ok(res) => res,
            Err(e) => return Err(e),
        };
        proof {
            lemma_bases_fresh_singleton(m0, com1_fixed_range());
            lemma_with_ranges_singleton(m0, com1_fixed_range());
        }
        let (com1_device, com1_eventfd) = match Self::create_com_device(
            bus,
            vm_fd.as_ref(),
            &com1_res,
        ) {
            Ok(pair) => pair,
            Err(e) => return Err(e),
        };
        let ghost m1 = bus_pio_map(*bus);
        assert(m1 == m0.insert(COM1_PORT1, COM_RANGE_SIZE));

        let com2_res = match profile.resolve_resources(DeviceName::Com2) {
            Ok(res) => res,
            Err(e) => return Err(e),
        };
        proof {
            lemma_bases_fresh_singleton(m1, com2_fixed_range());
            lemma_with_ranges_singleton(m1, com2_fixed_range());
        }
        let (com2_device, com2_eventfd) = match Self::create_com_device(
            bus,
            vm_fd.as_ref(),
            &com2_res,
        ) {
            Ok(pair) => pair,
            Err(e) => return Err(e),
        };
        let ghost m2 = bus_pio_map(*bus);
        assert(m2 == m1.insert(COM2_PORT1, COM_RANGE_SIZE));

        let exit_evt = match new_event_notifier() {
            Ok(evt) => evt,
            Err(e) => return Err(Error::EventFd(e)),
        };
        let reset_evt = match duplicate_event_notifier(&exit_evt) {
            Ok(evt) => evt,
            Err(e) => return Err(Error::EventFd(e)),
        };
        let i8042_device = new_i8042_device(reset_evt);
        let mut i8042_ranges: Vec<PioRange> = Vec::new();
        i8042_ranges.push(PioRange { base: I8042_DATA_PORT, size: I8042_RANGE_SIZE });
        proof {
            assert(i8042_ranges@ =~= seq![i8042_fixed_range()]);
            lemma_bases_fresh_singleton(m2, i8042_fixed_range());
            lemma_with_ranges_singleton(m2, i8042_fixed_range());
        }
        match register_i8042_device(bus, &i8042_device, &i8042_ranges) {
            Ok(_) => {},
            Err(e) => return Err(Error::BusError(e)),
        }

        Ok(
            LegacyDeviceManager {
                i8042_reset_eventfd: exit_evt,
                com1_device,
                _com1_eventfd: com1_eventfd,
                com2_device,
                _com2_eventfd: com2_eventfd,
            },
        )
    }
}

} // verus!
