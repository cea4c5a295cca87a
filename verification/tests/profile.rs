//! The two layout profiles' resource resolution.

use legacy_device_manager::DeviceName;
use legacy_device_manager::DeviceResourceSet;
use legacy_device_manager::Error;
use legacy_device_manager::PioRange;
use legacy_device_manager::PlatformProfile;
use legacy_device_manager::ResourceMap;
use legacy_device_manager::profile::COM1_IRQ;
use legacy_device_manager::profile::COM1_PORT1;
use legacy_device_manager::profile::COM2_IRQ;
use legacy_device_manager::profile::COM2_PORT1;
use legacy_device_manager::profile::COM_RANGE_SIZE;
use legacy_device_manager::profile::I8042_DATA_PORT;
use legacy_device_manager::profile::I8042_RANGE_SIZE;
use legacy_device_manager::resources::overlaps;

#[test]
fn fixed_layout_assigns_the_conventional_ports_and_lines() {
    assert_eq!(COM1_IRQ, 4);
    assert_eq!(COM1_PORT1, 0x3f8);
    assert_eq!(COM2_IRQ, 3);
    assert_eq!(COM2_PORT1, 0x2f8);
    assert_eq!(I8042_DATA_PORT, 0x60);
    assert_eq!(I8042_RANGE_SIZE, 5);

    let profile = PlatformProfile::FixedLayout;
    assert!(profile.has_fixed_layout());

    let com1 = profile.resolve_resources(DeviceName::Com1).unwrap();
    assert_eq!(com1.irq, Some(4));
    assert_eq!(com1.pio_ranges.len(), 1);
    assert_eq!(com1.pio_ranges[0], PioRange { base: 0x3f8, size: 8 });

    let com2 = profile.resolve_resources(DeviceName::Com2).unwrap();
    assert_eq!(com2.irq, Some(3));
    assert_eq!(com2.pio_ranges[0], PioRange { base: 0x2f8, size: 8 });
}

#[test]
fn fixed_layout_ranges_are_pairwise_disjoint() {
    let com1 = PioRange { base: COM1_PORT1, size: COM_RANGE_SIZE };
    let com2 = PioRange { base: COM2_PORT1, size: COM_RANGE_SIZE };
    let i8042 = PioRange { base: I8042_DATA_PORT, size: I8042_RANGE_SIZE };
    assert!(!overlaps(com1, com2));
    assert!(!overlaps(com1, i8042));
    assert!(!overlaps(com2, i8042));
    assert!(overlaps(com1, com1));
}

#[test]
fn flexible_layout_resolves_what_the_map_holds() {
    let mut map = ResourceMap::new();
    map.set_entry(
        DeviceName::Com1,
        DeviceResourceSet {
            pio_ranges: vec![PioRange { base: 0x3f8, size: 8 }],
            irq: Some(4),
        },
    );
    let profile = PlatformProfile::FlexibleLayout(map);
    assert!(!profile.has_fixed_layout());
    let com1 = profile.resolve_resources(DeviceName::Com1).unwrap();
    assert_eq!(com1.irq, Some(4));
    assert_eq!(com1.pio_ranges, vec![PioRange { base: 0x3f8, size: 8 }]);
}

#[test]
fn flexible_layout_missing_name_is_a_defined_error() {
    let mut map = ResourceMap::new();
    map.set_entry(
        DeviceName::Com1,
        DeviceResourceSet {
            pio_ranges: vec![PioRange { base: 0x3f8, size: 8 }],
            irq: Some(4),
        },
    );
    let profile = PlatformProfile::FlexibleLayout(map);
    let rtc = profile.resolve_resources(DeviceName::Rtc);
    assert!(matches!(
        rtc,
        Err(Error::MissingResourceDescriptor(DeviceName::Rtc))
    ));
    let com2 = profile.resolve_resources(DeviceName::Com2);
    assert!(matches!(
        com2,
        Err(Error::MissingResourceDescriptor(DeviceName::Com2))
    ));
}
