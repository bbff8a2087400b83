//! Host interface messages.
//!
//! Every record is laid out as the host decodes it: field after field,
//! each 32-bit field least significant byte first, nothing in between.

pub use crate::dlc::{dlc_len, fd_dlc_to_len, fd_len_to_dlc, is_frame_len, len_dlc};
pub use crate::flags::{Feature, FrameFlag, IdFlag};
pub use crate::frame::{CanFd, CanFdTimestamp, ClassicCan, ClassicCanTimestamp, Frame, Id};

use crate::wire::{
    get_u32, le_at, le_bytes, lemma_le_bytes_of_value, lemma_le_value_of_bytes, put_u32,
};
use vstd::prelude::*;

verus! {

/// The `byte_order` of a little-endian host.
pub const LITTLE_ENDIAN_MARK: u32 = 0x0000_beef;

/// Tells the device the byte order of the host.
///
/// `byte_order` will contain `0x0000beef` for little endian and `0xefbe0000`
/// for big endian.
#[derive(Clone, Copy, Debug, PartialEq, Eq, Structural)]
pub struct HostConfig {
    pub byte_order: u32,
}

impl HostConfig {
    /// The record's 4 bytes.
    pub open spec fn wire(self) -> Seq<u8> {
        le_bytes(self.byte_order)
    }

    /// The record that `data` holds, where `data` is 4 bytes long.
    pub open spec fn parse(data: Seq<u8>) -> Option<HostConfig> {
        if data.len() == 4 {
            Some(HostConfig { byte_order: le_at(data, 0) })
        } else {
            None
        }
    }

    /// The record that `data` holds: `data` must be its 4 bytes.
    pub fn from_bytes(data: &[u8]) -> (r: Option<HostConfig>)
        ensures
            r == HostConfig::parse(data@),
            r matches Some(v) ==> v.wire() == data@,
    {
        if data.len() != 4 {
            return None;
        }
        let v = HostConfig { byte_order: get_u32(data, 0) };
        assert(data@.subrange(0, 4) =~= data@);
        Some(v)
    }

    /// Whether the host announced the byte order that the device speaks.
    pub fn is_little_endian(&self) -> (r: bool)
        ensures
            r == (self.byte_order == LITTLE_ENDIAN_MARK),
    {
        self.byte_order == LITTLE_ENDIAN_MARK
    }
}

/// Device configuration.
///
/// `interface_count` is the number of interfaces less one.
#[derive(Clone, Copy, Debug, PartialEq, Eq, Structural)]
pub struct DeviceConfig {
    pub reserved0: u8,
    pub reserved1: u8,
    pub reserved2: u8,
    pub interface_count: u8,
    pub software_version: u32,
    pub hardware_version: u32,
}

impl DeviceConfig {
    /// Creates a new device config.
    ///
    /// The number of interfaces must be at least 1.
    pub fn new(interfaces: u8) -> (r: DeviceConfig)
        requires
            interfaces > 0,
        ensures
            r == (DeviceConfig {
                reserved0: 0,
                reserved1: 0,
                reserved2: 0,
                interface_count: (interfaces - 1) as u8,
                software_version: 2,
                hardware_version: 0,
            }),
    {
        DeviceConfig {
            reserved0: 0,
            reserved1: 0,
            reserved2: 0,
            interface_count: interfaces - 1,
            software_version: 2,
            hardware_version: 0,
        }
    }

    /// The record's 12 bytes.
    pub open spec fn wire(self) -> Seq<u8> {
        seq![self.reserved0, self.reserved1, self.reserved2, self.interface_count] + le_bytes(
            self.software_version,
        ) + le_bytes(self.hardware_version)
    }

    /// The record's 12 bytes.
    pub fn to_bytes(&self) -> (bytes: [u8; 12])
        ensures
            bytes@ == self.wire(),
    {
        let mut buf = [0u8;12];
        buf[0] = self.reserved0;
        buf[1] = self.reserved1;
        buf[2] = self.reserved2;
        buf[3] = self.interface_count;
        put_u32(&mut buf, 4, self.software_version);
        put_u32(&mut buf, 8, self.hardware_version);
        assert(buf@ =~= self.wire());
        buf
    }
}

/// Device mode.
#[derive(Clone, Copy, Debug, PartialEq, Eq, Structural)]
pub enum Mode {
    Reset,
    Start,
}

impl Mode {
    /// The number that stands for the mode on the wire.
    pub open spec fn code(self) -> u32 {
        match self {
            Mode::Reset => 0,
            Mode::Start => 1,
        }
    }

    /// The mode that a number stands for: 0 and 1 are modes, no other
    /// number is.
    pub fn try_from(value: u32) -> (r: Result<Mode, ()>)
        ensures
            r is Ok <==> value <= 1,
            r matches Ok(mode) ==> mode.code() == value,
    {
        if value == 0 {
            Ok(Mode::Reset)
        } else if value == 1 {
            Ok(Mode::Start)
        } else {
            Err(())
        }
    }
}

/// What the host asks of an interface: a mode, and the features to run
/// with.
#[derive(Clone, Copy, Debug, PartialEq, Eq, Structural)]
pub struct DeviceMode {
    pub mode: u32,
    pub flags: Feature,
}

impl DeviceMode {
    /// The record's 8 bytes.
    pub open spec fn wire(self) -> Seq<u8> {
        le_bytes(self.mode) + le_bytes(self.flags.bits)
    }

    /// The record that `data` holds, where `data` is 8 bytes long.
    pub open spec fn parse(data: Seq<u8>) -> Option<DeviceMode> {
        if data.len() == 8 {
            Some(DeviceMode { mode: le_at(data, 0), flags: Feature { bits: le_at(data, 4) } })
        } else {
            None
        }
    }

    /// The record that `data` holds: `data` must be its 8 bytes.
    pub fn from_bytes(data: &[u8]) -> (r: Option<DeviceMode>)
        ensures
            r == DeviceMode::parse(data@),
            r matches Some(v) ==> v.wire() == data@,
    {
        if data.len() != 8 {
            return None;
        }
        let v = DeviceMode {
            mode: get_u32(data, 0),
            flags: Feature::from_bits_retain(get_u32(data, 4)),
        };
        assert(v.wire() =~= data@);
        Some(v)
    }
}

/// Same as Linux netlink can_state.
#[derive(Clone, Copy, Debug, PartialEq, Eq, Structural)]
pub enum CanState {
    /// RX/TX error count < 96
    Active,
    /// RX/TX error count < 128
    Warning,
    /// RX/TX error count < 256
    Passive,
    /// RX/TX error count >= 256
    BusOff,
    /// Device is stopped
    Stopped,
    /// Device is sleeping
    Sleeping,
}

impl CanState {
    /// The number that stands for the state on the wire.
    pub open spec fn code(self) -> u32 {
        match self {
            CanState::Active => 0,
            CanState::Warning => 1,
            CanState::Passive => 2,
            CanState::BusOff => 3,
            CanState::Stopped => 4,
            CanState::Sleeping => 5,
        }
    }

    /// The number that stands for the state on the wire.
    pub fn into(self) -> (r: u32)
        ensures
            r == self.code(),
    {
        match self {
            CanState::Active => 0,
            CanState::Warning => 1,
            CanState::Passive => 2,
            CanState::BusOff => 3,
            CanState::Stopped => 4,
            CanState::Sleeping => 5,
        }
    }
}

/// Bus state of an interface with its error counters.
#[derive(Clone, Copy, Debug, PartialEq, Eq, Structural)]
pub struct DeviceState {
    pub state: CanState,
    pub rx_errors: u32,
    pub tx_errors: u32,
}

impl DeviceState {
    /// The record's 12 bytes.
    pub open spec fn wire(self) -> Seq<u8> {
        le_bytes(self.state.code()) + le_bytes(self.rx_errors) + le_bytes(self.tx_errors)
    }

    /// The record's 12 bytes.
    pub fn to_bytes(&self) -> (bytes: [u8; 12])
        ensures
            bytes@ == self.wire(),
    {
        let mut buf = [0u8;12];
        put_u32(&mut buf, 0, self.state.into());
        put_u32(&mut buf, 4, self.rx_errors);
        put_u32(&mut buf, 8, self.tx_errors);
        assert(buf@ =~= self.wire());
        buf
    }
}

/// Bit timing that the host sets for an interface.
#[derive(Clone, Copy, Debug, PartialEq, Eq, Structural)]
pub struct DeviceBitTiming {
    pub prop_seg: u32,
    pub phase_seg1: u32,
    pub phase_seg2: u32,
    pub sjw: u32,
    pub brp: u32,
}

impl DeviceBitTiming {
    /// The record's 20 bytes.
    pub open spec fn wire(self) -> Seq<u8> {
        le_bytes(self.prop_seg) + le_bytes(self.phase_seg1) + le_bytes(self.phase_seg2)
            + le_bytes(self.sjw) + le_bytes(self.brp)
    }

    /// The record that `data` holds, where `data` is 20 bytes long.
    pub open spec fn parse(data: Seq<u8>) -> Option<DeviceBitTiming> {
        if data.len() == 20 {
            Some(
                DeviceBitTiming {
                    prop_seg: le_at(data, 0),
                    phase_seg1: le_at(data, 4),
                    phase_seg2: le_at(data, 8),
                    sjw: le_at(data, 12),
                    brp: le_at(data, 16),
                },
            )
        } else {
            None
        }
    }

    /// The record that `data` holds: `data` must be its 20 bytes.
    pub fn from_bytes(data: &[u8]) -> (r: Option<DeviceBitTiming>)
        ensures
            r == DeviceBitTiming::parse(data@),
            r matches Some(v) ==> v.wire() == data@,
    {
        if data.len() != 20 {
            return None;
        }
        let v = DeviceBitTiming {
            prop_seg: get_u32(data, 0),
            phase_seg1: get_u32(data, 4),
            phase_seg2: get_u32(data, 8),
            sjw: get_u32(data, 12),
            brp: get_u32(data, 16),
        };
        assert(v.wire() =~= data@);
        Some(v)
    }
}

/// The ranges from which the host may pick a bit timing.
#[derive(Clone, Copy, Debug, PartialEq, Eq, Structural)]
pub struct CanBitTimingConst {
    pub tseg1_min: u32,
    pub tseg1_max: u32,
    pub tseg2_min: u32,
    pub tseg2_max: u32,
    pub sjw_max: u32,
    pub brp_min: u32,
    pub brp_max: u32,
    pub brp_inc: u32,
}

impl CanBitTimingConst {
    /// The record's 32 bytes.
    pub open spec fn wire(self) -> Seq<u8> {
        le_bytes(self.tseg1_min) + le_bytes(self.tseg1_max) + le_bytes(self.tseg2_min) + le_bytes(
            self.tseg2_max,
        ) + le_bytes(self.sjw_max) + le_bytes(self.brp_min) + le_bytes(self.brp_max) + le_bytes(
            self.brp_inc,
        )
    }

    /// Writes the record's 32 bytes into `buf` at `at`.
    pub(crate) fn put<const N: usize>(&self, buf: &mut [u8; N], at: usize)
        requires
            at + 32 <= N,
        ensures
            final(buf)@ == old(buf)@.subrange(0, at as int) + self.wire() + old(buf)@.subrange(
                at + 32,
                N as int,
            ),
    {
        put_u32(buf, at, self.tseg1_min);
        put_u32(buf, at + 4, self.tseg1_max);
        put_u32(buf, at + 8, self.tseg2_min);
        put_u32(buf, at + 12, self.tseg2_max);
        put_u32(buf, at + 16, self.sjw_max);
        put_u32(buf, at + 20, self.brp_min);
        put_u32(buf, at + 24, self.brp_max);
        put_u32(buf, at + 28, self.brp_inc);
        assert(buf@ =~= old(buf)@.subrange(0, at as int) + self.wire() + old(buf)@.subrange(
            at + 32,
            N as int,
        ));
    }

    /// The record's 32 bytes.
    pub fn to_bytes(&self) -> (bytes: [u8; 32])
        ensures
            bytes@ == self.wire(),
    {
        let mut buf = [0u8;32];
        self.put(&mut buf, 0);
        assert(buf@ =~= self.wire());
        buf
    }
}

/// Device bit timing and feature flags.
#[derive(Clone, Copy, Debug, PartialEq, Eq, Structural)]
pub struct DeviceBitTimingConst {
    pub features: Feature,
    pub fclk_can: u32,
    pub timing: CanBitTimingConst,
}

impl DeviceBitTimingConst {
    /// The record's 40 bytes.
    pub open spec fn wire(self) -> Seq<u8> {
        le_bytes(self.features.bits) + le_bytes(self.fclk_can) + self.timing.wire()
    }

    /// The record's 40 bytes.
    pub fn to_bytes(&self) -> (bytes: [u8; 40])
        ensures
            bytes@ == self.wire(),
    {
        let mut buf = [0u8;40];
        put_u32(&mut buf, 0, self.features.bits);
        put_u32(&mut buf, 4, self.fclk_can);
        self.timing.put(&mut buf, 8);
        assert(buf@ =~= self.wire());
        buf
    }
}

/// Device extended bit timing and feature flags for CAN FD devices.
#[derive(Clone, Copy, Debug, PartialEq, Eq, Structural)]
pub struct DeviceBitTimingConstExtended {
    pub features: Feature,
    pub fclk_can: u32,
    pub timing_nominal: CanBitTimingConst,
    pub timing_data: CanBitTimingConst,
}

impl DeviceBitTimingConstExtended {
    /// The record's 72 bytes.
    pub open spec fn wire(self) -> Seq<u8> {
        le_bytes(self.features.bits) + le_bytes(self.fclk_can) + self.timing_nominal.wire()
            + self.timing_data.wire()
    }

    /// The record's 72 bytes.
    pub fn to_bytes(&self) -> (bytes: [u8; 72])
        ensures
            bytes@ == self.wire(),
    {
        let mut buf = [0u8;72];
        put_u32(&mut buf, 0, self.features.bits);
        put_u32(&mut buf, 4, self.fclk_can);
        self.timing_nominal.put(&mut buf, 8);
        self.timing_data.put(&mut buf, 40);
        assert(buf@ =~= self.wire());
        buf
    }
}

/// Whether the device shall make itself known to its user.
#[derive(Clone, Copy, Debug, PartialEq, Eq, Structural)]
pub struct IdentifyMode {
    pub mode: u32,
}

impl IdentifyMode {
    /// The record's 4 bytes.
    pub open spec fn wire(self) -> Seq<u8> {
        le_bytes(self.mode)
    }

    /// The record that `data` holds, where `data` is 4 bytes long.
    pub open spec fn parse(data: Seq<u8>) -> Option<IdentifyMode> {
        if data.len() == 4 {
            Some(IdentifyMode { mode: le_at(data, 0) })
        } else {
            None
        }
    }

    /// The record that `data` holds: `data` must be its 4 bytes.
    pub fn from_bytes(data: &[u8]) -> (r: Option<IdentifyMode>)
        ensures
            r == IdentifyMode::parse(data@),
            r matches Some(v) ==> v.wire() == data@,
    {
        if data.len() != 4 {
            return None;
        }
        let v = IdentifyMode { mode: get_u32(data, 0) };
        assert(data@.subrange(0, 4) =~= data@);
        Some(v)
    }
}

/// Whether the bus termination of an interface is switched on.
#[derive(Clone, Copy, Debug, PartialEq, Eq, Structural)]
pub struct DeviceTerminationState {
    pub state: u32,
}

impl DeviceTerminationState {
    /// The record's 4 bytes.
    pub open spec fn wire(self) -> Seq<u8> {
        le_bytes(self.state)
    }

    /// The record that `data` holds, where `data` is 4 bytes long.
    pub open spec fn parse(data: Seq<u8>) -> Option<DeviceTerminationState> {
        if data.len() == 4 {
            Some(DeviceTerminationState { state: le_at(data, 0) })
        } else {
            None
        }
    }

    /// The record that `data` holds: `data` must be its 4 bytes.
    pub fn from_bytes(data: &[u8]) -> (r: Option<DeviceTerminationState>)
        ensures
            r == DeviceTerminationState::parse(data@),
            r matches Some(v) ==> v.wire() == data@,
    {
        if data.len() != 4 {
            return None;
        }
        let v = DeviceTerminationState { state: get_u32(data, 0) };
        assert(data@.subrange(0, 4) =~= data@);
        Some(v)
    }

    /// The record's 4 bytes.
    pub fn to_bytes(&self) -> (bytes: [u8; 4])
        ensures
            bytes@ == self.wire(),
    {
        let mut buf = [0u8;4];
        put_u32(&mut buf, 0, self.state);
        assert(buf@ =~= self.wire());
        buf
    }
}

/// Reading the bytes of a host configuration gives the record back.
pub proof fn lemma_host_config_round_trip(v: HostConfig)
    ensures
        HostConfig::parse(v.wire()) == Some(v),
{
    lemma_le_value_of_bytes(v.byte_order);
}

/// Reading the bytes of a device mode gives the record back.
pub proof fn lemma_device_mode_round_trip(v: DeviceMode)
    ensures
        DeviceMode::parse(v.wire()) == Some(v),
{
    lemma_le_value_of_bytes(v.mode);
    lemma_le_value_of_bytes(v.flags.bits);
}

/// Reading the bytes of a bit timing gives the record back.
pub proof fn lemma_bit_timing_round_trip(v: DeviceBitTiming)
    ensures
        DeviceBitTiming::parse(v.wire()) == Some(v),
{
    lemma_le_value_of_bytes(v.prop_seg);
    lemma_le_value_of_bytes(v.phase_seg1);
    lemma_le_value_of_bytes(v.phase_seg2);
    lemma_le_value_of_bytes(v.sjw);
    lemma_le_value_of_bytes(v.brp);
}

/// A record that was read from bytes has those bytes.
pub proof fn lemma_parsed_records_keep_their_bytes(data: Seq<u8>)
    ensures
        HostConfig::parse(data) matches Some(v) ==> v.wire() == data,
        DeviceMode::parse(data) matches Some(v) ==> v.wire() == data,
        DeviceBitTiming::parse(data) matches Some(v) ==> v.wire() == data,
{
    if data.len() == 4 {
        lemma_le_bytes_of_value(data[0], data[1], data[2], data[3]);
        assert(HostConfig::parse(data)->Some_0.wire() =~= data);
    }
    if data.len() == 8 {
        lemma_le_bytes_of_value(data[0], data[1], data[2], data[3]);
        lemma_le_bytes_of_value(data[4], data[5], data[6], data[7]);
        assert(DeviceMode::parse(data)->Some_0.wire() =~= data);
    }
    if data.len() == 20 {
        lemma_le_bytes_of_value(data[0], data[1], data[2], data[3]);
        lemma_le_bytes_of_value(data[4], data[5], data[6], data[7]);
        lemma_le_bytes_of_value(data[8], data[9], data[10], data[11]);
        lemma_le_bytes_of_value(data[12], data[13], data[14], data[15]);
        lemma_le_bytes_of_value(data[16], data[17], data[18], data[19]);
        assert(DeviceBitTiming::parse(data)->Some_0.wire() =~= data);
    }
}

} // verus!
