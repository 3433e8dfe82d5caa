//! Channels opened on the driver: bit rates, the handle every socket owns,
//! and the CAN and CAN-FD transfer capabilities.

pub mod dng;
pub mod usb;

use vstd::prelude::*;

verus! {

/// Bit rates of a classic CAN channel.
#[derive(Debug, Clone, Copy, PartialEq, Eq, Structural)]
pub enum Baudrate {
    Baud1M,
    Baud800K,
    Baud500K,
    Baud250K,
    Baud125K,
    Baud100K,
    Baud95K,
    Baud83K,
    Baud50K,
    Baud47K,
    Baud33K,
    Baud20K,
    Baud10K,
    Baud5K,
}

impl Baudrate {
    /// The driver's bit-timing register value for this bit rate.
    pub open spec fn spec_code(self) -> u16 {
        match self {
            Baudrate::Baud1M => 0x0014,
            Baudrate::Baud800K => 0x0016,
            Baudrate::Baud500K => 0x001C,
            Baudrate::Baud250K => 0x011C,
            Baudrate::Baud125K => 0x031C,
            Baudrate::Baud100K => 0x432F,
            Baudrate::Baud95K => 0xC34E,
            Baudrate::Baud83K => 0x852B,
            Baudrate::Baud50K => 0x472F,
            Baudrate::Baud47K => 0x1414,
            Baudrate::Baud33K => 0x8B2F,
            Baudrate::Baud20K => 0x532F,
            Baudrate::Baud10K => 0x672F,
            Baudrate::Baud5K => 0x7F7F,
        }
    }

    /// The driver's bit-timing register value for this bit rate.
    pub fn code(self) -> (r: u16)
        ensures
            r == self.spec_code(),
    {
        match self {
            Baudrate::Baud1M => 0x0014,
            Baudrate::Baud800K => 0x0016,
            Baudrate::Baud500K => 0x001C,
            Baudrate::Baud250K => 0x011C,
            Baudrate::Baud125K => 0x031C,
            Baudrate::Baud100K => 0x432F,
            Baudrate::Baud95K => 0xC34E,
            Baudrate::Baud83K => 0x852B,
            Baudrate::Baud50K => 0x472F,
            Baudrate::Baud47K => 0x1414,
            Baudrate::Baud33K => 0x8B2F,
            Baudrate::Baud20K => 0x532F,
            Baudrate::Baud10K => 0x672F,
            Baudrate::Baud5K => 0x7F7F,
        }
    }
}

/// An open channel, which owns the driver handle it was opened with.
pub trait Socket {
    spec fn spec_handle(&self) -> u16;

    /// The driver handle; the same on every call.
    fn handle(&self) -> (r: u16)
        ensures
            r == self.spec_handle(),
    ;
}

/// The channel reads classic CAN frames.
pub trait HasCanRead: Socket {}

/// The channel reads CAN-FD frames.
pub trait HasCanReadFd: Socket {}

/// The channel writes classic CAN frames.
pub trait HasCanWrite: Socket {}

/// The channel writes CAN-FD frames.
pub trait HasCanWriteFd: Socket {}

} // verus!
