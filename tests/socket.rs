use pcan_basic::bus::{DngBus, UsbBus};
use pcan_basic::channel::Channel;
use pcan_basic::error::{PcanError, PcanOkError};
use pcan_basic::socket::dng::DngCanSocket;
use pcan_basic::socket::usb::UsbCanSocket;
use pcan_basic::socket::{Baudrate, Socket};

#[test]
fn status_codes_translate() {
    assert_eq!(PcanOkError::from_code(0), PcanOkError::Success);
    assert_eq!(PcanOkError::from_code(0x1), PcanOkError::Failure(PcanError::XmtFull));
    assert_eq!(PcanOkError::from_code(0x20), PcanOkError::Failure(PcanError::QrcvEmpty));
    assert_eq!(PcanOkError::from_code(0x1400), PcanOkError::Failure(PcanError::IllHw));
    assert_eq!(PcanOkError::from_code(0x8000), PcanOkError::Failure(PcanError::IllParamVal));
    assert_eq!(PcanOkError::from_code(0x4000000), PcanOkError::Failure(PcanError::Initialize));
    assert_eq!(PcanOkError::from_code(0x3), PcanOkError::Failure(PcanError::Unknown));
    assert_eq!(PcanOkError::from_code(0xFFFF_FFFF), PcanOkError::Failure(PcanError::Unknown));
    assert_eq!(PcanOkError::from_code(0).into_result(), Ok(()));
    assert_eq!(PcanOkError::from_code(0x200).into_result(), Err(PcanError::NoDriver));
}

#[test]
fn bus_and_baud_codes() {
    assert_eq!(UsbBus::USB1.code(), 0x51);
    assert_eq!(UsbBus::USB8.code(), 0x58);
    assert_eq!(UsbBus::USB9.code(), 0x509);
    assert_eq!(UsbBus::USB16.code(), 0x510);
    assert_eq!(DngBus::DNG1.code(), 0x31);
    assert_eq!(Baudrate::Baud500K.code(), 0x001C);
    assert_eq!(Baudrate::Baud1M.code(), 0x0014);
    assert_eq!(Baudrate::Baud5K.code(), 0x7F7F);
}

#[test]
fn open_succeeds_on_success_status() {
    let s = UsbCanSocket::open(UsbBus::USB2, 0).unwrap();
    assert_eq!(s.handle(), 0x52);
    assert_eq!(s.channel(), 0x52);
    assert_eq!(s.channel(), s.channel());
    assert_eq!(s.close(), 0x52);
    let d = DngCanSocket::open(DngBus::DNG1, 0).unwrap();
    assert_eq!(d.handle(), 0x31);
    assert_eq!(d.channel(), 0x31);
    assert_eq!(d.close(), 0x31);
}

#[test]
fn open_fails_with_the_status_kind() {
    assert_eq!(UsbCanSocket::open(UsbBus::USB1, 0x400), Err(PcanError::HwInUse));
    assert_eq!(UsbCanSocket::open(UsbBus::USB1, 0x7), Err(PcanError::Unknown));
    assert_eq!(DngCanSocket::open(DngBus::DNG1, 0x4000000), Err(PcanError::Initialize));
}

use pcan_basic::df::{acceptance_filter_11bit, acceptance_filter_29bit};

#[test]
fn acceptance_filter_values() {
    assert_eq!(acceptance_filter_29bit(&[0x1FF, 0x3FF]), Ok((0x1FFu64 << 32) | 0x200));
    assert_eq!(acceptance_filter_11bit(&[0x100]), Ok(0x100u64 << 32));
    assert_eq!(acceptance_filter_11bit(&[]), Ok(0));
    assert_eq!(acceptance_filter_11bit(&[0x10, 0x11, 0x12]), Ok((0x10u64 << 32) | 0x3));
    assert_eq!(acceptance_filter_11bit(&[0x7FF]), Ok(0x7FFu64 << 32));
}

#[test]
fn acceptance_filter_rejects_wide_identifiers() {
    assert_eq!(acceptance_filter_11bit(&[0x10, 0x800]), Err(PcanError::IllParamVal));
    assert_eq!(acceptance_filter_11bit(&[0x800]), Err(PcanError::IllParamVal));
    assert_eq!(acceptance_filter_29bit(&[0x2000_0000]), Err(PcanError::IllParamVal));
    assert!(acceptance_filter_29bit(&[0x1FFF_FFFF, 0x800]).is_ok());
}
