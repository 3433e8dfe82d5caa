//! Capabilities of read-only informational parameters.

use vstd::prelude::*;

use crate::channel::Channel;

verus! {

/// The channel reports its driver version.
pub trait HasChannelVersion: Channel {}

/// The channel reports the features it supports.
pub trait HasChannelFeatures: Channel {}

/// The channel reports its bit-rate configuration.
pub trait HasBitrateInfo: Channel {}

/// The channel reports its nominal bus speed.
pub trait HasNominalBusSpeed: Channel {}

/// The channel reports its data bus speed.
pub trait HasDataBusSpeed: Channel {}

/// The channel reports its firmware version.
pub trait HasFirmwareVersion: Channel {}

} // verus!
