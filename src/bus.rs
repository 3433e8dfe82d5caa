//! The hardware channels that can be opened, and the driver's number for each.

use vstd::prelude::*;

verus! {

/// A channel of a USB interface.
#[derive(Debug, Clone, Copy, PartialEq, Eq, Structural)]
pub enum UsbBus {
    USB1,
    USB2,
    USB3,
    USB4,
    USB5,
    USB6,
    USB7,
    USB8,
    USB9,
    USB10,
    USB11,
    USB12,
    USB13,
    USB14,
    USB15,
    USB16,
}

/// A channel of a dongle on the parallel port.
#[derive(Debug, Clone, Copy, PartialEq, Eq, Structural)]
pub enum DngBus {
    DNG1,
}

impl UsbBus {
    /// The driver's channel number of this bus.
    pub open spec fn spec_code(self) -> u16 {
        match self {
            UsbBus::USB1 => 0x51,
            UsbBus::USB2 => 0x52,
            UsbBus::USB3 => 0x53,
            UsbBus::USB4 => 0x54,
            UsbBus::USB5 => 0x55,
            UsbBus::USB6 => 0x56,
            UsbBus::USB7 => 0x57,
            UsbBus::USB8 => 0x58,
            UsbBus::USB9 => 0x509,
            UsbBus::USB10 => 0x50A,
            UsbBus::USB11 => 0x50B,
            UsbBus::USB12 => 0x50C,
            UsbBus::USB13 => 0x50D,
            UsbBus::USB14 => 0x50E,
            UsbBus::USB15 => 0x50F,
            UsbBus::USB16 => 0x510,
        }
    }

    /// The driver's channel number of this bus.
    pub fn code(self) -> (r: u16)
        ensures
            r == self.spec_code(),
    {
        match self {
            UsbBus::USB1 => 0x51,
            UsbBus::USB2 => 0x52,
            UsbBus::USB3 => 0x53,
            UsbBus::USB4 => 0x54,
            UsbBus::USB5 => 0x55,
            UsbBus::USB6 => 0x56,
            UsbBus::USB7 => 0x57,
            UsbBus::USB8 => 0x58,
            UsbBus::USB9 => 0x509,
            UsbBus::USB10 => 0x50A,
            UsbBus::USB11 => 0x50B,
            UsbBus::USB12 => 0x50C,
            UsbBus::USB13 => 0x50D,
            UsbBus::USB14 => 0x50E,
            UsbBus::USB15 => 0x50F,
            UsbBus::USB16 => 0x510,
        }
    }
}

impl DngBus {
    /// The driver's channel number of this bus.
    pub open spec fn spec_code(self) -> u16 {
        match self {
            DngBus::DNG1 => 0x31,
        }
    }

    /// The driver's channel number of this bus.
    pub fn code(self) -> (r: u16)
        ensures
            r == self.spec_code(),
    {
        match self {
            DngBus::DNG1 => 0x31,
        }
    }
}

/// Distinct USB buses have distinct channel numbers, none of them a dongle's.
pub proof fn lemma_bus_codes_distinct(a: UsbBus, b: UsbBus, d: DngBus)
    ensures
        a != b ==> a.spec_code() != b.spec_code(),
        a.spec_code() != d.spec_code(),
{
}

} // verus!
