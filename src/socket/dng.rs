//! Channels of dongles on the parallel port.

use vstd::prelude::*;

use crate::bus::DngBus;
use crate::channel::Channel;
use crate::error::{status_of, PcanError, PcanOkError};
use crate::hw::{HasControllerNumber, HasDevicePartNumber, HasHardwareName, HasSetControllerNumber};
use crate::socket::{HasCanRead, HasCanReadFd, HasCanWrite, HasCanWriteFd, Socket};

verus! {

/// An open channel of a dongle. It owns its driver handle: the only way to
/// give the handle back is `close`, which takes the socket.
#[derive(Debug, PartialEq, Eq, Structural)]
pub struct DngCanSocket {
    handle: u16,
}

impl DngCanSocket {
    /// Opens `bus` once the driver's initialize call on `bus.code()` has
    /// answered `init_status`: the socket on success, else the error kind of
    /// the status, and then no socket holds the handle.
    pub fn open(bus: DngBus, init_status: u32) -> (r: Result<DngCanSocket, PcanError>)
        ensures
            match status_of(init_status) {
                PcanOkError::Success => r is Ok && r->Ok_0.spec_handle() == bus.spec_code(),
                PcanOkError::Failure(e) => r == Err::<DngCanSocket, PcanError>(e),
            },
    {
        let handle = bus.code();
        match PcanOkError::from_code(init_status) {
            PcanOkError::Success => Ok(DngCanSocket { handle }),
            PcanOkError::Failure(err) => Err(err),
        }
    }

    /// Gives the socket up; the result is the handle that the driver's
    /// uninitialize call is to release, once.
    pub fn close(self) -> (r: u16)
        ensures
            r == self.spec_handle(),
    {
        self.handle
    }
}

impl Socket for DngCanSocket {
    closed spec fn spec_handle(&self) -> u16 {
        self.handle
    }

    fn handle(&self) -> (r: u16) {
        self.handle
    }
}

impl Channel for DngCanSocket {
    closed spec fn spec_channel(&self) -> u16 {
        self.handle
    }

    fn channel(&self) -> (r: u16) {
        self.handle
    }
}

impl DngCanSocket {
    /// The channel number is the handle the socket was opened with.
    pub proof fn lemma_channel_is_handle(s: &DngCanSocket)
        ensures
            s.spec_channel() == s.spec_handle(),
    {
    }
}

impl HasCanRead for DngCanSocket {}

impl HasCanReadFd for DngCanSocket {}

impl HasCanWrite for DngCanSocket {}

impl HasCanWriteFd for DngCanSocket {}

impl HasHardwareName for DngCanSocket {}

impl HasControllerNumber for DngCanSocket {}

impl HasSetControllerNumber for DngCanSocket {}

impl HasDevicePartNumber for DngCanSocket {}

} // verus!
