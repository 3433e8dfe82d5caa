//! Capabilities of special behaviours.

use vstd::prelude::*;

use crate::channel::Channel;

verus! {

/// The channel reports whether it powers the bus with five volts.
pub trait HasFiveVoltsPower: Channel {}

/// The channel's five-volt power can be switched.
pub trait HasSetFiveVoltsPower: Channel {}

/// The channel reports whether it resets itself after bus-off.
pub trait HasBusOffAutoreset: Channel {}

/// The channel's reset after bus-off can be switched.
pub trait HasSetBusOffAutoreset: Channel {}

/// The channel reports whether it only listens.
pub trait HasListenOnly: Channel {}

/// The channel's listen-only mode can be switched.
pub trait HasSetListenOnly: Channel {}

/// The channel reports the delay between frames it sends.
pub trait HasInterframeDelay: Channel {}

/// The channel's delay between frames can be set.
pub trait HasSetInterframeDelay: Channel {}

} // verus!
