use pcan_basic::{CanFdFrame, CanFrame, FrameConstructionError, MessageType};

#[test]
fn can_frame_new_001() {
    let can_frame_1 = CanFrame::new(0x20, MessageType::Standard, &[0, 1, 2, 3, 4, 5, 6, 7]).unwrap();
    let can_frame_2 = CanFrame::new(0x20, MessageType::Standard, &[0, 1, 2, 3, 4, 5, 6, 7]).unwrap();
    assert_eq!(can_frame_1, can_frame_2);
}

#[test]
fn can_frame_new_002() {
    let can_frame_1 = CanFrame::new(0x20, MessageType::Extended, &[0, 1, 2, 3, 4, 5, 6, 7]).unwrap();
    let can_frame_2 = CanFrame::new(0x20, MessageType::Extended, &[0, 1, 2, 3, 4, 5, 6, 7]).unwrap();
    assert_eq!(can_frame_1, can_frame_2);
}

#[test]
#[should_panic]
fn can_frame_new_003() {
    let _can_frame_1 =
        CanFrame::new(0x20, MessageType::Standard, &[0, 1, 2, 3, 4, 5, 6, 7, 8]).unwrap();
}

#[test]
#[should_panic]
fn can_frame_new_004() {
    let _can_frame_1 =
        CanFrame::new(0x20, MessageType::Extended, &[0, 1, 2, 3, 4, 5, 6, 7, 8]).unwrap();
}

#[test]
fn can_fd_frame_new_001() {
    let can_frame_1 =
        CanFdFrame::new(0x20, MessageType::Standard, &(0..64u8).collect::<Vec<_>>()).unwrap();
    let can_frame_2 =
        CanFdFrame::new(0x20, MessageType::Standard, &(0..64u8).collect::<Vec<_>>()).unwrap();
    assert_eq!(can_frame_1, can_frame_2);
}

#[test]
fn can_fd_frame_new_002() {
    let can_frame_1 =
        CanFdFrame::new(0x20, MessageType::Extended, &(0..64u8).collect::<Vec<_>>()).unwrap();
    let can_frame_2 =
        CanFdFrame::new(0x20, MessageType::Extended, &(0..64u8).collect::<Vec<_>>()).unwrap();
    assert_eq!(can_frame_1, can_frame_2);
}

#[test]
#[should_panic]
fn can_fd_frame_new_003() {
    let _can_frame_1 =
        CanFdFrame::new(0x20, MessageType::Standard, &(0..65u8).collect::<Vec<_>>()).unwrap();
}

#[test]
#[should_panic]
fn can_fd_frame_new_004() {
    let _can_frame_1 =
        CanFrame::new(0x20, MessageType::Extended, &&(0..65u8).collect::<Vec<_>>()).unwrap();
}

#[test]
fn classic_lengths_up_to_eight_are_kept() {
    for n in 0..=8usize {
        let data: Vec<u8> = (0..n as u8).collect();
        let f = CanFrame::new(0x1, MessageType::Standard, &data).unwrap();
        assert_eq!(f.dlc() as usize, n);
        assert_eq!(f.data(), &data[..]);
    }
}

#[test]
fn fd_lengths_up_to_sixty_four_are_kept() {
    for n in [0usize, 1, 8, 9, 63, 64] {
        let data: Vec<u8> = (0..n as u8).collect();
        let f = CanFdFrame::new(0x1, MessageType::Extended, &data).unwrap();
        assert_eq!(f.dlc() as usize, n);
        assert_eq!(f.data(), &data[..]);
    }
}

#[test]
fn too_long_payloads_are_refused() {
    assert_eq!(
        CanFrame::new(0x20, MessageType::Standard, &[0; 9]).unwrap_err(),
        FrameConstructionError::TooMuchData
    );
    assert_eq!(
        CanFdFrame::new(0x20, MessageType::Extended, &[0; 65]).unwrap_err(),
        FrameConstructionError::TooMuchData
    );
    assert_eq!(
        CanFdFrame::new(0x20, MessageType::Extended, &[0; 200]).unwrap_err(),
        FrameConstructionError::TooMuchData
    );
}

#[test]
fn standard_identifier_is_masked_to_eleven_bits() {
    let f = CanFrame::new(0xFFFF_FFFF, MessageType::Standard, &[]).unwrap();
    assert_eq!(f.can_id(), 0x7FF);
    let f = CanFdFrame::new(0x1234_5678, MessageType::Standard, &[]).unwrap();
    assert_eq!(f.can_id(), 0x1234_5678 & 0x7FF);
    assert!(f.is_standard_frame());
    assert!(!f.is_extended_frame());
}

#[test]
fn extended_identifier_is_masked_to_twenty_nine_bits() {
    let f = CanFrame::new(0xFFFF_FFFF, MessageType::Extended, &[1]).unwrap();
    assert_eq!(f.can_id(), 0x1FFF_FFFF);
    let f = CanFdFrame::new(0x1234_5678, MessageType::Extended, &[1]).unwrap();
    assert_eq!(f.can_id(), 0x1234_5678);
    assert!(f.is_extended_frame());
    assert!(!f.is_standard_frame());
}

#[test]
fn equality_ignores_padding() {
    let a = CanFrame::from_raw(0x20, 0x00, 2, &[1, 2, 0, 0, 0, 0, 0, 0]).unwrap();
    let b = CanFrame::from_raw(0x20, 0x00, 2, &[1, 2, 9, 9, 9, 9, 9, 9]).unwrap();
    let c = CanFrame::new(0x20, MessageType::Standard, &[1, 2]).unwrap();
    assert_eq!(a, a);
    assert_eq!(a, b);
    assert_eq!(b, a);
    assert_eq!(b, c);
    assert_eq!(a, c);
    let mut buf = [0u8; 64];
    buf[60] = 7;
    let d = CanFdFrame::from_raw(0x20, 0x02, 3, &buf).unwrap();
    let e = CanFdFrame::new(0x20, MessageType::Extended, &[0, 0, 0]).unwrap();
    assert_eq!(d, e);
}

#[test]
fn changing_one_input_changes_the_frame() {
    let base = CanFrame::new(0x20, MessageType::Standard, &[1, 2, 3]).unwrap();
    assert_ne!(base, CanFrame::new(0x21, MessageType::Standard, &[1, 2, 3]).unwrap());
    assert_ne!(base, CanFrame::new(0x20, MessageType::Extended, &[1, 2, 3]).unwrap());
    assert_ne!(base, CanFrame::new(0x20, MessageType::Standard, &[1, 2, 4]).unwrap());
    assert_ne!(base, CanFrame::new(0x20, MessageType::Standard, &[1, 2]).unwrap());
    let fd = CanFdFrame::new(0x20, MessageType::Standard, &[5; 20]).unwrap();
    assert_ne!(fd, CanFdFrame::new(0x20, MessageType::Standard, &[5; 21]).unwrap());
}

#[test]
fn default_frames_are_empty_and_standard() {
    let f = CanFrame::default();
    assert_eq!(f.can_id(), 0);
    assert!(f.is_standard_frame());
    assert_eq!(f.dlc(), 0);
    assert!(f.data().is_empty());
    let g = CanFdFrame::default();
    assert_eq!(g.can_id(), 0);
    assert!(g.is_standard_frame());
    assert_eq!(g.dlc(), 0);
    assert!(g.data().is_empty());
}

#[test]
fn mutable_payload_writes_in_place() {
    let mut f = CanFrame::new(0x20, MessageType::Standard, &[1, 2, 3]).unwrap();
    {
        let d = f.mut_data();
        assert_eq!(d.len(), 3);
        d[0] = 9;
    }
    assert_eq!(f.data(), &[9, 2, 3]);
    assert_eq!(f.dlc(), 3);
    let mut g = CanFdFrame::new(0x20, MessageType::Standard, &[0; 10]).unwrap();
    g.mut_data()[9] = 4;
    assert_eq!(g.data()[9], 4);
    assert_eq!(g.dlc(), 10);
}

#[test]
fn raw_layout_round_trip() {
    let f = CanFrame::new(0x1ABC_DEF0, MessageType::Extended, &[7, 8]).unwrap();
    assert_eq!(f.tag(), 0x02);
    assert_eq!(f.raw_data(), [7, 8, 0, 0, 0, 0, 0, 0]);
    let g = CanFrame::from_raw(f.can_id(), f.tag(), f.dlc(), &f.raw_data()).unwrap();
    assert_eq!(f, g);
    assert!(g.is_extended_frame());
    let h = CanFdFrame::new(0x7FF, MessageType::Standard, &[3; 12]).unwrap();
    assert_eq!(h.tag(), 0x00);
    let k = CanFdFrame::from_raw(h.can_id(), h.tag(), h.dlc(), &h.raw_data()).unwrap();
    assert_eq!(h, k);
}

#[test]
fn raw_layout_errors() {
    assert_eq!(
        CanFrame::from_raw(0x20, 0x00, 9, &[0; 8]).unwrap_err(),
        FrameConstructionError::TooMuchData
    );
    assert_eq!(
        CanFrame::from_raw(0x800, 0x00, 1, &[0; 8]).unwrap_err(),
        FrameConstructionError::CanIdMessageTypeMismatch
    );
    assert!(CanFrame::from_raw(0x800, 0x02, 1, &[0; 8]).is_ok());
    assert_eq!(
        CanFdFrame::from_raw(0x2000_0000, 0x02, 1, &[0; 64]).unwrap_err(),
        FrameConstructionError::CanIdMessageTypeMismatch
    );
    assert_eq!(
        CanFdFrame::from_raw(0x20, 0x02, 65, &[0; 64]).unwrap_err(),
        FrameConstructionError::TooMuchData
    );
}
