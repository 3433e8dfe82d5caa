//! Typed access to CAN and CAN-FD channels of a PCAN-Basic driver: validated
//! frames, driver status codes as a closed error set, bus identities, and the
//! handle lifecycle and capability sets of each channel family.

pub mod bus;
pub mod channel;
pub mod df;
pub mod error;
pub mod frame;
pub mod hw;
pub mod info;
pub mod socket;
pub mod special;

pub use frame::{
    CanFdFrame, CanFrame, FrameConstructionError, MessageType, EXTENDED_MASK, STANDARD_MASK,
};
