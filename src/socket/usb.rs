//! Channels of USB interfaces.

use vstd::prelude::*;

use crate::bus::UsbBus;
use crate::channel::Channel;
use crate::df::{
    HasAcceptanceFilter11Bit, HasAcceptanceFilter29Bit, HasAllowErrorFrames, HasAllowRTRFrames, HasAllowStatusFrames, HasMessageFilter,
    HasReceiveStatus, HasSetAllowErrorFrames, HasSetAllowRTRFrames, HasSetAllowStatusFrames,
    HasSetMessageFilter, HasSetReceiveStatus,
};
use crate::error::{status_of, PcanError, PcanOkError};
use crate::hw::{
    HasChannelIdentifying, HasControllerNumber, HasDeviceId, HasDevicePartNumber, HasHardwareName,
    HasSetControllerNumber, HasSetDeviceId,
};
use crate::info::{
    HasBitrateInfo, HasChannelFeatures, HasChannelVersion, HasDataBusSpeed, HasFirmwareVersion,
    HasNominalBusSpeed,
};
use crate::socket::{HasCanRead, HasCanReadFd, HasCanWrite, HasCanWriteFd, Socket};
use crate::special::{
    HasBusOffAutoreset, HasFiveVoltsPower, HasInterframeDelay, HasListenOnly,
    HasSetBusOffAutoreset, HasSetFiveVoltsPower, HasSetInterframeDelay, HasSetListenOnly,
};

verus! {

/// An open channel of a USB interface. It owns its driver handle: the only
/// way to give the handle back is `close`, which takes the socket.
#[derive(Debug, PartialEq, Eq, Structural)]
pub struct UsbCanSocket {
    handle: u16,
}

impl UsbCanSocket {
    /// Opens `bus` once the driver's initialize call on `bus.code()` has
    /// answered `init_status`: the socket on success, else the error kind of
    /// the status, and then no socket holds the handle.
    pub fn open(bus: UsbBus, init_status: u32) -> (r: Result<UsbCanSocket, PcanError>)
        ensures
            match status_of(init_status) {
                PcanOkError::Success => r is Ok && r->Ok_0.spec_handle() == bus.spec_code(),
                PcanOkError::Failure(e) => r == Err::<UsbCanSocket, PcanError>(e),
            },
    {
        let handle = bus.code();
        match PcanOkError::from_code(init_status) {
            PcanOkError::Success => Ok(UsbCanSocket { handle }),
            PcanOkError::Failure(err) => Err(err),
        }
    }

    /// Gives the socket up; the result is the handle that the driver's
    /// uninitialize call is to release, once.
    pub fn close(self) -> (r: u16)
        ensures
            r == self.spec_handle(),
    {
        self.handle
    }
}

impl Socket for UsbCanSocket {
    closed spec fn spec_handle(&self) -> u16 {
        self.handle
    }

    fn handle(&self) -> (r: u16) {
        self.handle
    }
}

impl Channel for UsbCanSocket {
    closed spec fn spec_channel(&self) -> u16 {
        self.handle
    }

    fn channel(&self) -> (r: u16) {
        self.handle
    }
}

impl UsbCanSocket {
    /// The channel number is the handle the socket was opened with.
    pub proof fn lemma_channel_is_handle(s: &UsbCanSocket)
        ensures
            s.spec_channel() == s.spec_handle(),
    {
    }
}

impl HasCanRead for UsbCanSocket {}

impl HasCanReadFd for UsbCanSocket {}

impl HasCanWrite for UsbCanSocket {}

impl HasCanWriteFd for UsbCanSocket {}

impl HasChannelIdentifying for UsbCanSocket {}

impl HasDeviceId for UsbCanSocket {}

impl HasSetDeviceId for UsbCanSocket {}

impl HasHardwareName for UsbCanSocket {}

impl HasControllerNumber for UsbCanSocket {}

impl HasSetControllerNumber for UsbCanSocket {}

impl HasDevicePartNumber for UsbCanSocket {}

impl HasChannelVersion for UsbCanSocket {}

impl HasChannelFeatures for UsbCanSocket {}

impl HasBitrateInfo for UsbCanSocket {}

impl HasNominalBusSpeed for UsbCanSocket {}

impl HasDataBusSpeed for UsbCanSocket {}

impl HasFirmwareVersion for UsbCanSocket {}

impl HasFiveVoltsPower for UsbCanSocket {}

impl HasSetFiveVoltsPower for UsbCanSocket {}

impl HasBusOffAutoreset for UsbCanSocket {}

impl HasSetBusOffAutoreset for UsbCanSocket {}

impl HasListenOnly for UsbCanSocket {}

impl HasSetListenOnly for UsbCanSocket {}

impl HasInterframeDelay for UsbCanSocket {}

impl HasSetInterframeDelay for UsbCanSocket {}

impl HasMessageFilter for UsbCanSocket {}

impl HasSetMessageFilter for UsbCanSocket {}

impl HasReceiveStatus for UsbCanSocket {}

impl HasSetReceiveStatus for UsbCanSocket {}

impl HasAllowStatusFrames for UsbCanSocket {}

impl HasSetAllowStatusFrames for UsbCanSocket {}

impl HasAllowRTRFrames for UsbCanSocket {}

impl HasSetAllowRTRFrames for UsbCanSocket {}

impl HasAllowErrorFrames for UsbCanSocket {}

impl HasSetAllowErrorFrames for UsbCanSocket {}

impl HasAcceptanceFilter11Bit for UsbCanSocket {}

impl HasAcceptanceFilter29Bit for UsbCanSocket {}

} // verus!
