use usbd_gscan::host::{
    fd_dlc_to_len, fd_len_to_dlc, CanBitTimingConst, CanState, DeviceBitTiming,
    DeviceBitTimingConst, DeviceBitTimingConstExtended, DeviceConfig, DeviceMode, DeviceState,
    DeviceTerminationState, Feature, FrameFlag, HostConfig, IdFlag, IdentifyMode, Mode,
};

const LENGTHS: [usize; 16] = [0, 1, 2, 3, 4, 5, 6, 7, 8, 12, 16, 20, 24, 32, 48, 64];

fn timing(base: u32) -> CanBitTimingConst {
    CanBitTimingConst {
        tseg1_min: base + 1,
        tseg1_max: base + 2,
        tseg2_min: base + 3,
        tseg2_max: base + 4,
        sjw_max: base + 5,
        brp_min: base + 6,
        brp_max: base + 7,
        brp_inc: base + 8,
    }
}

#[test]
fn dlc_table_is_exact() {
    for dlc in 0..16usize {
        assert_eq!(fd_dlc_to_len(dlc), Some(LENGTHS[dlc]));
        assert_eq!(fd_len_to_dlc(LENGTHS[dlc]), Some(dlc as u8));
    }
}

#[test]
fn dlc_round_trips_from_length() {
    for len in LENGTHS {
        let dlc = fd_len_to_dlc(len).unwrap();
        assert_eq!(fd_dlc_to_len(dlc as usize), Some(len));
    }
}

#[test]
fn dlc_round_trips_from_code() {
    for dlc in 0..16usize {
        let len = fd_dlc_to_len(dlc).unwrap();
        assert_eq!(fd_len_to_dlc(len), Some(dlc as u8));
    }
}

#[test]
fn dlc_beyond_fifteen_has_no_length() {
    assert_eq!(fd_dlc_to_len(16), None);
    assert_eq!(fd_dlc_to_len(255), None);
    assert_eq!(fd_dlc_to_len(usize::MAX), None);
}

#[test]
fn length_outside_the_table_has_no_dlc() {
    for len in 0..200usize {
        assert_eq!(fd_len_to_dlc(len).is_some(), LENGTHS.contains(&len));
    }
    assert_eq!(fd_len_to_dlc(9), None);
    assert_eq!(fd_len_to_dlc(63), None);
    assert_eq!(fd_len_to_dlc(65), None);
    assert_eq!(fd_len_to_dlc(usize::MAX), None);
}

#[test]
fn feature_bits_are_those_of_the_protocol() {
    assert_eq!(Feature::LISTEN_ONLY, 1 << 0);
    assert_eq!(Feature::LOOP_BACK, 1 << 1);
    assert_eq!(Feature::TRIPLE_SAMPLE, 1 << 2);
    assert_eq!(Feature::ONE_SHOT, 1 << 3);
    assert_eq!(Feature::HW_TIMESTAMP, 1 << 4);
    assert_eq!(Feature::IDENTIFY, 1 << 5);
    assert_eq!(Feature::USER_ID, 1 << 6);
    assert_eq!(Feature::PAD_PKTS_TO_MAX_PKT_SIZE, 1 << 7);
    assert_eq!(Feature::FD, 1 << 8);
    assert_eq!(Feature::REQ_USB_QUIRK_LPC546XX, 1 << 9);
    assert_eq!(Feature::BT_CONST_EXT, 1 << 10);
    assert_eq!(Feature::TERMINATION, 1 << 11);
    assert_eq!(Feature::BUS_ERROR_REPORTING, 1 << 12);
    assert_eq!(Feature::GET_STATE, 1 << 13);
    assert_eq!(Feature::all().bits(), 0x3fff);
    assert_eq!(Feature::empty().bits(), 0);
}

#[test]
fn feature_set_operations() {
    let fd = Feature::from_bits_retain(Feature::FD);
    let both = Feature::from_bits_retain(Feature::FD | Feature::LOOP_BACK);
    assert!(both.intersects(fd));
    assert!(both.contains(fd));
    assert!(!fd.contains(both));
    assert!(!fd.intersects(Feature::from_bits_retain(Feature::LOOP_BACK)));
    assert!(!Feature::empty().intersects(Feature::all()));
    assert!(Feature::empty().is_empty());
    assert!(!fd.is_empty());
    assert_eq!(fd.union(Feature::from_bits_retain(Feature::LOOP_BACK)), both);
    assert_eq!(both.intersection(fd), fd);
    assert_eq!(both.difference(fd).bits(), Feature::LOOP_BACK);
    assert_eq!(Feature::from_bits(0x4000), None);
    assert_eq!(Feature::from_bits(0x0101), Some(Feature { bits: 0x0101 }));
    assert_eq!(Feature::from_bits_truncate(0xffff_ffff).bits(), 0x3fff);
    assert_eq!(Feature::from_bits_retain(0xffff_ffff).bits(), 0xffff_ffff);
}

#[test]
fn frame_flag_bits_and_operations() {
    assert_eq!(FrameFlag::OVERFLOW, 1);
    assert_eq!(FrameFlag::FD, 2);
    assert_eq!(FrameFlag::BIT_RATE_SWITCH, 4);
    assert_eq!(FrameFlag::ERROR_STATE_INDICATOR, 8);
    assert_eq!(FrameFlag::all().bits(), 0x0f);
    let fd = FrameFlag::from_bits_retain(FrameFlag::FD);
    let brs = FrameFlag::from_bits_retain(FrameFlag::BIT_RATE_SWITCH);
    assert!(fd.union(brs).intersects(fd));
    assert!(fd.union(brs).contains(brs));
    assert!(!fd.intersects(brs));
    assert!(FrameFlag::empty().is_empty());
    assert_eq!(FrameFlag::from_bits(0x10), None);
    assert_eq!(FrameFlag::from_bits(0x06), Some(FrameFlag { bits: 6 }));
    assert_eq!(FrameFlag::from_bits_truncate(0xf6).bits(), 0x06);
}

#[test]
fn id_flag_bits_and_operations() {
    assert_eq!(IdFlag::EXTENDED, 0x8000_0000);
    assert_eq!(IdFlag::REMOTE, 0x4000_0000);
    assert_eq!(IdFlag::ERROR, 0x2000_0000);
    assert_eq!(IdFlag::all().bits(), 0xe000_0000);
    assert_eq!(IdFlag::empty().bits(), 0);
    let flags = IdFlag::from_bits_truncate(0x8000_0123);
    assert_eq!(flags.bits(), 0x8000_0000);
    assert!(flags.intersects(IdFlag { bits: IdFlag::EXTENDED }));
    assert!(!flags.intersects(IdFlag { bits: IdFlag::REMOTE }));
    assert_eq!(flags.union(IdFlag { bits: IdFlag::ERROR }).bits(), 0xa000_0000);
}

#[test]
fn device_config_counts_interfaces_from_zero() {
    let config = DeviceConfig::new(2);
    assert_eq!(config.interface_count, 1);
    assert_eq!(config.software_version, 2);
    assert_eq!(config.hardware_version, 0);
    assert_eq!(config.to_bytes(), [0, 0, 0, 1, 2, 0, 0, 0, 0, 0, 0, 0]);
    assert_eq!(DeviceConfig::new(1).interface_count, 0);
    assert_eq!(DeviceConfig::new(255).interface_count, 254);
}

#[test]
fn device_config_bytes_are_little_endian() {
    let config = DeviceConfig {
        reserved0: 0xa0,
        reserved1: 0xa1,
        reserved2: 0xa2,
        interface_count: 3,
        software_version: 0x0403_0201,
        hardware_version: 0x0807_0605,
    };
    assert_eq!(config.to_bytes(), [0xa0, 0xa1, 0xa2, 3, 1, 2, 3, 4, 5, 6, 7, 8]);
}

#[test]
fn host_config_reads_four_bytes() {
    let config = HostConfig::from_bytes(&[0xef, 0xbe, 0x00, 0x00]).unwrap();
    assert_eq!(config.byte_order, 0x0000_beef);
    assert!(config.is_little_endian());
    let big = HostConfig::from_bytes(&[0x00, 0x00, 0xbe, 0xef]).unwrap();
    assert_eq!(big.byte_order, 0xefbe_0000);
    assert!(!big.is_little_endian());
    assert_eq!(HostConfig::from_bytes(&[0xef, 0xbe, 0x00]), None);
    assert_eq!(HostConfig::from_bytes(&[0xef, 0xbe, 0x00, 0x00, 0x00]), None);
    assert_eq!(HostConfig::from_bytes(&[]), None);
}

#[test]
fn mode_is_reset_or_start() {
    assert_eq!(Mode::try_from(0), Ok(Mode::Reset));
    assert_eq!(Mode::try_from(1), Ok(Mode::Start));
    assert_eq!(Mode::try_from(2), Err(()));
    assert_eq!(Mode::try_from(u32::MAX), Err(()));
}

#[test]
fn device_mode_reads_eight_bytes() {
    let mode = DeviceMode::from_bytes(&[1, 0, 0, 0, 0x01, 0x01, 0, 0]).unwrap();
    assert_eq!(mode.mode, 1);
    assert_eq!(mode.flags.bits(), Feature::FD | Feature::LISTEN_ONLY);
    assert_eq!(DeviceMode::from_bytes(&[1, 0, 0, 0, 0, 0, 0]), None);
    assert_eq!(DeviceMode::from_bytes(&[1, 0, 0, 0, 0, 0, 0, 0, 0]), None);
}

#[test]
fn can_state_codes() {
    assert_eq!(CanState::Active.into(), 0);
    assert_eq!(CanState::Warning.into(), 1);
    assert_eq!(CanState::Passive.into(), 2);
    assert_eq!(CanState::BusOff.into(), 3);
    assert_eq!(CanState::Stopped.into(), 4);
    assert_eq!(CanState::Sleeping.into(), 5);
}

#[test]
fn device_state_bytes() {
    let state = DeviceState { state: CanState::BusOff, rx_errors: 0x0102, tx_errors: 0xff00_0000 };
    assert_eq!(state.to_bytes(), [3, 0, 0, 0, 2, 1, 0, 0, 0, 0, 0, 0xff]);
}

#[test]
fn device_bit_timing_reads_twenty_bytes() {
    let mut data = [0u8; 20];
    for (i, value) in [10u32, 0x2000, 0x30_0000, 0x4000_0000, 5].iter().enumerate() {
        data[4 * i..4 * i + 4].copy_from_slice(&value.to_le_bytes());
    }
    let timing = DeviceBitTiming::from_bytes(&data).unwrap();
    assert_eq!(
        timing,
        DeviceBitTiming {
            prop_seg: 10,
            phase_seg1: 0x2000,
            phase_seg2: 0x30_0000,
            sjw: 0x4000_0000,
            brp: 5,
        }
    );
    assert_eq!(DeviceBitTiming::from_bytes(&data[..19]), None);
    assert_eq!(DeviceBitTiming::from_bytes(&[0u8; 21]), None);
}

#[test]
fn bit_timing_const_bytes() {
    let record = DeviceBitTimingConst {
        features: Feature::all(),
        fclk_can: 80_000_000,
        timing: timing(0x100),
    };
    let bytes = record.to_bytes();
    let mut expected = Vec::new();
    expected.extend_from_slice(&0x3fffu32.to_le_bytes());
    expected.extend_from_slice(&80_000_000u32.to_le_bytes());
    for k in 1..=8u32 {
        expected.extend_from_slice(&(0x100 + k).to_le_bytes());
    }
    assert_eq!(bytes.len(), 40);
    assert_eq!(&bytes[..], &expected[..]);
    assert_eq!(&timing(0x100).to_bytes()[..], &expected[8..]);
}

#[test]
fn bit_timing_const_extended_bytes() {
    let record = DeviceBitTimingConstExtended {
        features: Feature::from_bits_retain(Feature::FD),
        fclk_can: 0x0102_0304,
        timing_nominal: timing(0),
        timing_data: timing(0x1000_0000),
    };
    let bytes = record.to_bytes();
    let mut expected = Vec::new();
    expected.extend_from_slice(&0x100u32.to_le_bytes());
    expected.extend_from_slice(&[4, 3, 2, 1]);
    for k in 1..=8u32 {
        expected.extend_from_slice(&k.to_le_bytes());
    }
    for k in 1..=8u32 {
        expected.extend_from_slice(&(0x1000_0000 + k).to_le_bytes());
    }
    assert_eq!(bytes.len(), 72);
    assert_eq!(&bytes[..], &expected[..]);
}

#[test]
fn small_records_read_and_write_four_bytes() {
    assert_eq!(IdentifyMode::from_bytes(&[1, 0, 0, 0]), Some(IdentifyMode { mode: 1 }));
    assert_eq!(IdentifyMode::from_bytes(&[1, 0, 0]), None);
    let state = DeviceTerminationState::from_bytes(&[0x78, 0x56, 0x34, 0x12]).unwrap();
    assert_eq!(state.state, 0x1234_5678);
    assert_eq!(state.to_bytes(), [0x78, 0x56, 0x34, 0x12]);
    assert_eq!(DeviceTerminationState::from_bytes(&[0; 5]), None);
}
