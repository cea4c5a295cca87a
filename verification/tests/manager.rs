//! Construction of the fixed-layout manager against the real dispatch bus.

use dbs_device::device_manager::IoManager;
use legacy_device_manager::DeviceResourceSet;
use legacy_device_manager::Error;
use legacy_device_manager::PioRange;
use legacy_device_manager::DeviceName;
use legacy_device_manager::LegacyDeviceManager;
use legacy_device_manager::PlatformProfile;

#[test]
fn test_create_legacy_device_manager() {
    let mut bus = IoManager::new();
    let mgr = LegacyDeviceManager::create_manager(&mut bus, None).unwrap();
    let _exit_fd = mgr.get_reset_eventfd().unwrap();
}

#[test]
fn construction_without_hypervisor_handle_succeeds() {
    let mut bus = IoManager::new();
    let mgr = LegacyDeviceManager::create_manager(&mut bus, None);
    assert!(mgr.is_ok());
}

#[test]
fn serial_accessors_return_usable_handles() {
    let mut bus = IoManager::new();
    let mgr = LegacyDeviceManager::create_manager(&mut bus, None).unwrap();
    let com1 = mgr.get_com1_serial();
    let com2 = mgr.get_com2_serial();
    // Each handle's lock is independent: both can be held at once.
    let g1 = com1.inner.lock().unwrap();
    let g2 = com2.inner.lock().unwrap();
    drop(g1);
    drop(g2);
}

#[test]
fn reset_eventfd_duplicates_share_one_signal() {
    let mut bus = IoManager::new();
    let mgr = LegacyDeviceManager::create_manager(&mut bus, None).unwrap();
    let a = mgr.get_reset_eventfd().unwrap();
    let b = mgr.get_reset_eventfd().unwrap();
    a.write(3).unwrap();
    assert_eq!(b.read().unwrap(), 3);
}

#[test]
fn overlapping_registration_fails_with_bus_error() {
    let mut bus = IoManager::new();
    let _first = LegacyDeviceManager::create_manager(&mut bus, None).unwrap();
    // The same bus already holds every fixed base port.
    let second = LegacyDeviceManager::create_manager(&mut bus, None);
    assert!(matches!(second, Err(Error::BusError(_))));
}

#[test]
fn each_serial_device_gets_its_own_notifier() {
    let mut bus = IoManager::new();
    let profile = PlatformProfile::FixedLayout;
    let com1_res = profile.resolve_resources(DeviceName::Com1).unwrap();
    let com2_res = profile.resolve_resources(DeviceName::Com2).unwrap();
    let (_com1, evt1) =
        LegacyDeviceManager::create_com_device(&mut bus, None, &com1_res).unwrap();
    let (_com2, evt2) =
        LegacyDeviceManager::create_com_device(&mut bus, None, &com2_res).unwrap();
    evt1.write(5).unwrap();
    assert_eq!(evt1.read().unwrap(), 5);
    // The second port's notifier saw nothing: the two are independent
    // non-blocking signals, so reading it reports that nothing is pending.
    assert!(evt2.read().is_err());
}

#[test]
fn construction_installs_the_devices_on_the_bus() {
    let mut bus = IoManager::new();
    let mut data = [0u8; 1];
    assert!(bus.pio_read(0x3f8, &mut data).is_err());
    let _mgr = LegacyDeviceManager::create_manager(&mut bus, None).unwrap();
    assert!(bus.pio_read(0x3f8, &mut data).is_ok());
    assert!(bus.pio_read(0x2f8, &mut data).is_ok());
    assert!(bus.pio_read(0x60, &mut data).is_ok());
}

#[test]
fn multi_range_descriptor_reserves_every_range() {
    let mut bus = IoManager::new();
    let res = DeviceResourceSet {
        pio_ranges: vec![
            PioRange { base: 0x3f8, size: 8 },
            PioRange { base: 0x2f8, size: 8 },
        ],
        irq: None,
    };
    let (_dev, _evt) = LegacyDeviceManager::create_com_device(&mut bus, None, &res).unwrap();
    let res2 = DeviceResourceSet {
        pio_ranges: vec![PioRange { base: 0x2f8, size: 4 }],
        irq: None,
    };
    let second = LegacyDeviceManager::create_com_device(&mut bus, None, &res2);
    assert!(matches!(second, Err(Error::BusError(_))));
}

#[test]
fn rejected_registration_leaves_the_bus_as_it_was() {
    let mut bus = IoManager::new();
    // Two ranges on the same base port conflict with each other.
    let res = DeviceResourceSet {
        pio_ranges: vec![
            PioRange { base: 0x3f8, size: 8 },
            PioRange { base: 0x3f8, size: 4 },
        ],
        irq: None,
    };
    let first = LegacyDeviceManager::create_com_device(&mut bus, None, &res);
    assert!(matches!(first, Err(Error::BusError(_))));
    // The failed call rolled its own insertions back: the base is still free.
    let res2 = DeviceResourceSet {
        pio_ranges: vec![PioRange { base: 0x3f8, size: 8 }],
        irq: None,
    };
    assert!(LegacyDeviceManager::create_com_device(&mut bus, None, &res2).is_ok());
}
