//! Per-target policy for where each legacy device sits: either the
//! compiled-in port and interrupt constants, or a per-device lookup that the
//! embedder supplies.

use vstd::prelude::*;

use crate::errors::Error;
use crate::resources::PioRange;

verus! {

/// Interrupt line of the first serial port.
pub const COM1_IRQ: u32 = 4;

/// First port of the first serial port's register file.
pub const COM1_PORT1: u16 = 0x3f8;

/// Interrupt line of the second serial port.
pub const COM2_IRQ: u32 = 3;

/// First port of the second serial port's register file.
pub const COM2_PORT1: u16 = 0x2f8;

/// A serial port's register file spans eight ports.
pub const COM_RANGE_SIZE: u16 = 0x8;

/// The reset controller's data port, where its five-port window starts.
pub const I8042_DATA_PORT: u16 = 0x60;

/// The reset controller's window: its two registers plus adjacent status
/// ports.
pub const I8042_RANGE_SIZE: u16 = 0x5;

/// The devices a resource lookup is keyed by.
#[derive(Clone, Copy, Debug, PartialEq, Eq, Structural)]
pub enum DeviceName {
    /// The first serial port.
    Com1,
    /// The second serial port.
    Com2,
    /// The real-time clock.
    Rtc,
}

/// The resources one device asks the wiring layer to reserve: its port
/// ranges, and its interrupt line where it has one.
#[derive(Debug)]
pub struct DeviceResourceSet {
    /// The port ranges to reserve on the dispatch bus.
    pub pio_ranges: Vec<PioRange>,
    /// The guest interrupt line the device signals through, if any.
    pub irq: Option<u32>,
}

impl DeviceResourceSet {
    /// An equal, independently owned descriptor set.
    pub fn duplicate(&self) -> (r: DeviceResourceSet)
        ensures
            r.pio_ranges@ == self.pio_ranges@,
            r.irq == self.irq,
    {
        let mut pio_ranges: Vec<PioRange> = Vec::new();
        let mut i: usize = 0;
        while i < self.pio_ranges.len()
            invariant
                i <= self.pio_ranges.len(),
                pio_ranges@ == self.pio_ranges@.take(i as int),
            decreases self.pio_ranges.len() - i,
        {
            pio_ranges.push(self.pio_ranges[i]);
            i = i + 1;
            proof {
                assert(pio_ranges@ =~= self.pio_ranges@.take(i as int));
            }
        }
        proof {
            assert(pio_ranges@ =~= self.pio_ranges@);
        }
        DeviceResourceSet { pio_ranges, irq: self.irq }
    }
}

/// The externally supplied resource lookup of the flexible layout: at most
/// one descriptor set per device name.
#[derive(Debug)]
pub struct ResourceMap {
    com1: Option<DeviceResourceSet>,
    com2: Option<DeviceResourceSet>,
    rtc: Option<DeviceResourceSet>,
}

impl ResourceMap {
    /// The entry under a name.
    pub closed spec fn spec_get(self, name: DeviceName) -> Option<DeviceResourceSet> {
        match name {
            DeviceName::Com1 => self.com1,
            DeviceName::Com2 => self.com2,
            DeviceName::Rtc => self.rtc,
        }
    }

    /// An empty lookup.
    pub fn new() -> (r: ResourceMap)
        ensures
            forall|n: DeviceName| r.spec_get(n) is None,
    {
        ResourceMap { com1: None, com2: None, rtc: None }
    }

    /// Puts `res` under `name`, replacing what was there.
    pub fn set_entry(&mut self, name: DeviceName, res: DeviceResourceSet)
        ensures
            final(self).spec_get(name) == Some(res),
            forall|n: DeviceName| n != name ==> final(self).spec_get(n) == old(self).spec_get(n),
    {
        match name {
            DeviceName::Com1 => self.com1 = Some(res),
            DeviceName::Com2 => self.com2 = Some(res),
            DeviceName::Rtc => self.rtc = Some(res),
        }
    }

    /// The entry under `name`, if any.
    pub fn get_entry(&self, name: DeviceName) -> (r: Option<&DeviceResourceSet>)
        ensures
            match r {
                Some(res) => self.spec_get(name) == Some(*res),
                None => self.spec_get(name) is None,
            },
    {
        match name {
            DeviceName::Com1 => self.com1.as_ref(),
            DeviceName::Com2 => self.com2.as_ref(),
            DeviceName::Rtc => self.rtc.as_ref(),
        }
    }
}

/// The fixed layout's descriptor for the first serial port.
pub open spec fn com1_fixed_range() -> PioRange {
    PioRange { base: COM1_PORT1, size: COM_RANGE_SIZE }
}

/// The fixed layout's descriptor for the second serial port.
pub open spec fn com2_fixed_range() -> PioRange {
    PioRange { base: COM2_PORT1, size: COM_RANGE_SIZE }
}

/// The fixed layout's descriptor for the reset controller.
pub open spec fn i8042_fixed_range() -> PioRange {
    PioRange { base: I8042_DATA_PORT, size: I8042_RANGE_SIZE }
}

/// What a profile answers when asked for a device's resources.
pub open spec fn spec_resolve(
    profile: PlatformProfile,
    name: DeviceName,
) -> Result<(Seq<PioRange>, Option<u32>), Error> {
    match profile {
        PlatformProfile::FixedLayout => match name {
            DeviceName::Com1 => Ok((seq![com1_fixed_range()], Some(COM1_IRQ))),
            DeviceName::Com2 => Ok((seq![com2_fixed_range()], Some(COM2_IRQ))),
            DeviceName::Rtc => Err(Error::MissingResourceDescriptor(DeviceName::Rtc)),
        },
        PlatformProfile::FlexibleLayout(map) => match map.spec_get(name) {
            Some(res) => Ok((res.pio_ranges@, res.irq)),
            None => Err(Error::MissingResourceDescriptor(name)),
        },
    }
}

/// Which layout the construction call follows.
pub enum PlatformProfile {
    /// Compiled-in port and interrupt constants for the serial ports, plus
    /// the reset controller.
    FixedLayout,
    /// A per-device resource lookup supplied by the embedder, plus the
    /// real-time clock in place of the reset controller.
    FlexibleLayout(ResourceMap),
}

impl PlatformProfile {
    /// Whether this is the compiled-in layout.
    pub fn has_fixed_layout(&self) -> (r: bool)
        ensures
            r == (*self is FixedLayout),
    {
        match self {
            PlatformProfile::FixedLayout => true,
            PlatformProfile::FlexibleLayout(_) => false,
        }
    }

    /// The resources reserved for the named device, or the error that
    /// construction fails with when the profile holds none for it.
    pub fn resolve_resources(&self, name: DeviceName) -> (r: Result<DeviceResourceSet, Error>)
        ensures
            match (r, spec_resolve(*self, name)) {
                (Ok(res), Ok((ranges, irq))) => res.pio_ranges@ == ranges && res.irq == irq,
                (Err(e), Err(se)) => e == se,
                _ => false,
            },
    {
        match self {
            PlatformProfile::FixedLayout => match name {
                DeviceName::Com1 => {
                    let mut pio_ranges: Vec<PioRange> = Vec::new();
                    pio_ranges.push(PioRange { base: COM1_PORT1, size: COM_RANGE_SIZE });
                    proof {
                        assert(pio_ranges@ =~= seq![com1_fixed_range()]);
                    }
                    Ok(DeviceResourceSet { pio_ranges, irq: Some(COM1_IRQ) })
                },
                DeviceName::Com2 => {
                    let mut pio_ranges: Vec<PioRange> = Vec::new();
                    pio_ranges.push(PioRange { base: COM2_PORT1, size: COM_RANGE_SIZE });
                    proof {
                        assert(pio_ranges@ =~= seq![com2_fixed_range()]);
                    }
                    Ok(DeviceResourceSet { pio_ranges, irq: Some(COM2_IRQ) })
                },
                DeviceName::Rtc => Err(Error::MissingResourceDescriptor(DeviceName::Rtc)),
            },
            PlatformProfile::FlexibleLayout(map) => match map.get_entry(name) {
                Some(res) => Ok(res.duplicate()),
                None => Err(Error::MissingResourceDescriptor(name)),
            },
        }
    }
}

/// The fixed layout assigns the two serial ports and the reset controller
/// pairwise disjoint port ranges, and the serial ports distinct interrupt
/// lines.
pub proof fn lemma_fixed_layout_disjoint()
    ensures
        !crate::resources::ranges_overlap(com1_fixed_range(), com2_fixed_range()),
        !crate::resources::ranges_overlap(com1_fixed_range(), i8042_fixed_range()),
        !crate::resources::ranges_overlap(com2_fixed_range(), i8042_fixed_range()),
        COM1_IRQ != COM2_IRQ,
{
}

} // verus!
