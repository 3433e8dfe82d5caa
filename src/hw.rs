//! Capabilities of hardware identification.

use vstd::prelude::*;

use crate::channel::Channel;

verus! {

/// The channel reports the name of its hardware.
pub trait HasHardwareName: Channel {}

/// The channel reports its controller number.
pub trait HasControllerNumber: Channel {}

/// The channel's controller number can be set.
pub trait HasSetControllerNumber: Channel {}

/// The channel reports the part number of its device.
pub trait HasDevicePartNumber: Channel {}

/// The channel reports its device id.
pub trait HasDeviceId: Channel {}

/// The channel's device id can be set.
pub trait HasSetDeviceId: Channel {}

/// The channel can make its device signal itself (a blinking LED).
pub trait HasChannelIdentifying: Channel {}

} // verus!
