use usbd_gscan::host::{Frame, FrameFlag, Id};

fn record_of(frame: &Frame) -> Vec<u8> {
    frame.to_bytes().to_vec()
}

fn fd_flags() -> FrameFlag {
    FrameFlag::from_bits_retain(FrameFlag::FD)
}

#[test]
fn zeroed_frame_is_all_zero() {
    let frame = Frame::new_zeroed();
    assert_eq!(record_of(&frame), vec![0u8; 80]);
    assert_eq!(frame.data(), Some(&[][..]));
}

#[test]
fn data_frame_with_standard_id() {
    let frame = Frame::new(Id::Standard(0x123), &[1, 2, 3]).unwrap();
    assert_eq!(frame.echo_id, 0);
    assert_eq!(frame.can_id, 0x123);
    assert_eq!(frame.can_dlc, 3);
    assert_eq!(frame.dlc(), 3);
    assert_eq!(frame.interface, 0);
    assert_eq!(frame.flags, FrameFlag::empty());
    assert_eq!(frame.id(), Some(Id::Standard(0x123)));
    assert!(!frame.is_extended());
    assert!(!frame.is_remote_frame());
    assert!(!frame.is_fd());
    assert_eq!(frame.data(), Some(&[1u8, 2, 3][..]));
    let mut expected = vec![0u8; 80];
    expected[4] = 0x23;
    expected[5] = 0x01;
    expected[8] = 3;
    expected[12] = 1;
    expected[13] = 2;
    expected[14] = 3;
    assert_eq!(record_of(&frame), expected);
}

#[test]
fn data_frame_with_extended_id() {
    let frame = Frame::new(Id::Extended(0x1234_5678), &[0xaa; 8]).unwrap();
    assert_eq!(frame.can_id, 0x9234_5678);
    assert_eq!(frame.can_dlc, 8);
    assert!(frame.is_extended());
    assert!(!frame.is_remote_frame());
    assert_eq!(frame.id(), Some(Id::Extended(0x1234_5678)));
    assert_eq!(frame.data(), Some(&[0xaau8; 8][..]));
}

#[test]
fn data_frame_lengths_follow_the_table() {
    for len in 0..=70usize {
        let data = vec![0x5au8; len];
        let frame = Frame::new(Id::Standard(1), &data);
        let in_table = len <= 8 || [12, 16, 20, 24, 32, 48, 64].contains(&len);
        assert_eq!(frame.is_some(), in_table);
    }
    let frame = Frame::new(Id::Standard(1), &[7u8; 12]).unwrap();
    assert_eq!(frame.can_dlc, 9);
    let frame = Frame::new(Id::Standard(1), &[7u8; 64]).unwrap();
    assert_eq!(frame.can_dlc, 15);
    assert_eq!(&frame.can_data[..64], &[7u8; 64][..]);
    assert_eq!(&frame.can_data[64..], &[0u8; 4][..]);
}

#[test]
fn identifier_beyond_its_width_makes_no_frame() {
    assert!(Id::Standard(0x7ff).is_valid());
    assert!(!Id::Standard(0x800).is_valid());
    assert!(Id::Extended(0x1fff_ffff).is_valid());
    assert!(!Id::Extended(0x2000_0000).is_valid());
    assert_eq!(Frame::new(Id::Standard(0x800), &[]), None);
    assert_eq!(Frame::new(Id::Extended(0x2000_0000), &[]), None);
    assert_eq!(Frame::new_remote(Id::Standard(0x800), 0), None);
    assert!(Frame::new(Id::Standard(0x7ff), &[]).is_some());
    assert!(Frame::new(Id::Extended(0x1fff_ffff), &[]).is_some());
    assert_eq!(Id::Standard(0x7ff).to_can_id(), 0x7ff);
    assert_eq!(Id::Extended(1).to_can_id(), 0x8000_0001);
}

#[test]
fn remote_frame_has_the_remote_flag_and_no_payload() {
    let frame = Frame::new_remote(Id::Extended(0x42), 5).unwrap();
    assert_eq!(frame.can_id, 0xc000_0042);
    assert_eq!(frame.can_dlc, 5);
    assert!(frame.is_remote_frame());
    assert!(frame.is_extended());
    assert_eq!(frame.id(), Some(Id::Extended(0x42)));
    assert_eq!(frame.can_data, [0u8; 68]);
    let frame = Frame::new_remote(Id::Standard(0x42), 15).unwrap();
    assert_eq!(frame.can_id, 0x4000_0042);
    assert_eq!(frame.id(), Some(Id::Standard(0x42)));
    assert_eq!(Frame::new_remote(Id::Standard(0x42), 16), None);
}

#[test]
fn standard_frame_with_wide_identifier_has_no_id() {
    let mut frame = Frame::new_zeroed();
    frame.can_id = 0x0000_0800;
    assert_eq!(frame.id(), None);
    frame.can_id = 0x2000_07ff;
    assert_eq!(frame.id(), Some(Id::Standard(0x7ff)));
    frame.can_id = 0x8000_0800;
    assert_eq!(frame.id(), Some(Id::Extended(0x800)));
}

#[test]
fn payload_follows_dlc_and_fd_flag() {
    let mut frame = Frame::new(Id::Standard(1), &[9u8; 12]).unwrap();
    assert_eq!(frame.data(), None);
    frame.flags = fd_flags();
    assert_eq!(frame.data(), Some(&[9u8; 12][..]));
    frame.can_dlc = 16;
    assert_eq!(frame.data(), None);
    frame.can_dlc = 15;
    assert_eq!(frame.data().map(|d| d.len()), Some(64));
    frame.flags = FrameFlag::empty();
    frame.can_dlc = 8;
    assert_eq!(frame.data(), Some(&[9u8; 8][..]));
}

#[test]
fn frame_from_the_bus_is_marked_as_received() {
    let flags = FrameFlag::from_bits_retain(FrameFlag::FD | FrameFlag::BIT_RATE_SWITCH);
    let frame = Frame::from_bus(2, Id::Standard(0x10), false, 0, &[1, 2], flags).unwrap();
    assert_eq!(frame.echo_id, 0xffff_ffff);
    assert_eq!(frame.interface, 2);
    assert_eq!(frame.flags, flags);
    assert_eq!(frame.can_id, 0x10);
    assert_eq!(frame.can_dlc, 2);
    assert_eq!(frame.data(), Some(&[1u8, 2][..]));
    let remote = Frame::from_bus(0, Id::Standard(0x10), true, 4, &[1, 2], flags).unwrap();
    assert_eq!(remote.can_id, 0x4000_0010);
    assert_eq!(remote.can_dlc, 4);
    assert_eq!(remote.can_data, [0u8; 68]);
    assert_eq!(Frame::from_bus(3, Id::Standard(0x10), false, 0, &[1, 2], flags), None);
    assert_eq!(Frame::from_bus(0, Id::Standard(0x10), false, 0, &[0; 9], flags), None);
    assert_eq!(Frame::from_bus(0, Id::Standard(0x10), true, 16, &[], flags), None);
    assert_eq!(Frame::from_bus(0, Id::Standard(0x800), false, 0, &[], flags), None);
}

#[test]
fn record_layout_is_byte_exact() {
    let mut frame = Frame::new_zeroed();
    frame.echo_id = 0x0403_0201;
    frame.can_id = 0x0807_0605;
    frame.can_dlc = 9;
    frame.interface = 10;
    frame.flags = FrameFlag::from_bits_retain(11);
    frame.reserved = 12;
    for i in 0..68 {
        frame.can_data[i] = 13 + i as u8;
    }
    let expected: Vec<u8> = (1..=80).collect();
    assert_eq!(record_of(&frame), expected);
    assert_eq!(&frame.first_packet()[..], &expected[..64]);
    assert_eq!(&frame.second_packet()[..], &expected[64..76]);
}

#[test]
fn payload_layouts_share_the_region() {
    let mut frame = Frame::new_zeroed();
    for i in 0..68 {
        frame.can_data[i] = i as u8 + 1;
    }
    assert_eq!(frame.classic_can().data, [1, 2, 3, 4, 5, 6, 7, 8]);
    let stamped = frame.classic_can_timestamp();
    assert_eq!(stamped.data, [1, 2, 3, 4, 5, 6, 7, 8]);
    assert_eq!(stamped.timestamp_us, u32::from_le_bytes([9, 10, 11, 12]));
    assert_eq!(&frame.can_fd().data[..], &frame.can_data[..64]);
    let fd = frame.can_fd_timestamp();
    assert_eq!(&fd.data[..], &frame.can_data[..64]);
    assert_eq!(fd.timestamp_us, u32::from_le_bytes([65, 66, 67, 68]));
}

#[test]
fn first_packet_begins_a_record() {
    let bytes: Vec<u8> = (1..=64).collect();
    let frame = Frame::from_first_packet(&bytes).unwrap();
    assert_eq!(frame.echo_id, 0x0403_0201);
    assert_eq!(frame.can_id, 0x0807_0605);
    assert_eq!(frame.can_dlc, 9);
    assert_eq!(frame.interface, 10);
    assert_eq!(frame.flags.bits(), 11);
    assert_eq!(frame.reserved, 12);
    let mut expected = bytes.clone();
    expected.extend_from_slice(&[0u8; 16]);
    assert_eq!(record_of(&frame), expected);
}

#[test]
fn short_first_packet_leaves_the_rest_zero() {
    let bytes: Vec<u8> = (1..=20).collect();
    let frame = Frame::from_first_packet(&bytes).unwrap();
    let mut expected = bytes.clone();
    expected.extend_from_slice(&[0u8; 60]);
    assert_eq!(record_of(&frame), expected);
    assert_eq!(record_of(&Frame::from_first_packet(&[]).unwrap()), vec![0u8; 80]);
}

#[test]
fn packets_longer_than_their_part_are_refused() {
    assert_eq!(Frame::from_first_packet(&[0u8; 65]), None);
    assert!(Frame::from_first_packet(&[0u8; 64]).is_some());
    let frame = Frame::new_zeroed();
    assert_eq!(frame.with_second_packet(&[0u8; 13]), None);
    assert!(frame.with_second_packet(&[0u8; 12]).is_some());
}

#[test]
fn second_packet_is_laid_over_bytes_64_onward() {
    let first: Vec<u8> = (1..=64).collect();
    let second: Vec<u8> = (101..=112).collect();
    let frame = Frame::from_first_packet(&first).unwrap();
    let whole = frame.with_second_packet(&second).unwrap();
    let mut expected = first.clone();
    expected.extend_from_slice(&second);
    expected.extend_from_slice(&[0u8; 4]);
    assert_eq!(record_of(&whole), expected);
    let short = whole.with_second_packet(&[0xee, 0xef]).unwrap();
    expected[64] = 0xee;
    expected[65] = 0xef;
    assert_eq!(record_of(&short), expected);
}

#[test]
fn record_round_trips_through_its_packets() {
    let flags = FrameFlag::from_bits_retain(FrameFlag::FD);
    let data: Vec<u8> = (0..64).map(|i| 200 - i as u8).collect();
    let frame = Frame::from_bus(1, Id::Extended(0x1abc_def0), false, 0, &data, flags).unwrap();
    let again = Frame::from_first_packet(&frame.first_packet())
        .unwrap()
        .with_second_packet(&frame.second_packet())
        .unwrap();
    assert_eq!(again, frame);
    assert_eq!(again.data(), Some(&data[..]));
}
