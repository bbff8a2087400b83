//! The CAN frame record that travels over the bulk endpoints.

use crate::control::MAX_INTF;
use crate::dlc::{dlc_len, fd_dlc_to_len, fd_len_to_dlc, is_frame_len, len_dlc};
use crate::flags::{FrameFlag, IdFlag};
use crate::wire::{
    get_u32, le_bytes, lemma_le_bytes_injective, lemma_le_bytes_zero, put_u32, take, zeros,
};
use vstd::prelude::*;
use vstd::slice::slice_subrange;

verus! {

/// Length of the frame record on the wire.
pub const FRAME_LEN: usize = 80;

/// Greatest length of a bulk packet, and the length of the first packet of
/// a frame that is sent to the host.
pub const MAX_PACKET_LEN: usize = 64;

/// The bits of `can_id` that hold the arbitration identifier.
pub const ID_MASK: u32 = 0x1fff_ffff;

/// Greatest identifier of a standard frame.
pub const STANDARD_ID_MAX: u16 = 0x7ff;

/// A CAN identifier: 11 bits for a standard frame, 29 for an extended one.
#[derive(Clone, Copy, Debug, PartialEq, Eq, Structural)]
pub enum Id {
    Standard(u16),
    Extended(u32),
}

impl Id {
    /// Whether the number fits the identifier's width.
    pub open spec fn wf(self) -> bool {
        match self {
            Id::Standard(raw) => raw <= STANDARD_ID_MAX,
            Id::Extended(raw) => raw <= ID_MASK,
        }
    }

    /// The `can_id` field of a data frame with this identifier.
    pub open spec fn can_id(self) -> u32 {
        match self {
            Id::Standard(raw) => raw as u32,
            Id::Extended(raw) => raw | IdFlag::EXTENDED,
        }
    }

    /// Whether the number fits the identifier's width.
    pub fn is_valid(&self) -> (r: bool)
        ensures
            r == self.wf(),
    {
        match self {
            Id::Standard(raw) => *raw <= STANDARD_ID_MAX,
            Id::Extended(raw) => *raw <= ID_MASK,
        }
    }

    /// The identifier's bits together with the extended flag.
    pub fn to_can_id(&self) -> (r: u32)
        ensures
            r == self.can_id(),
    {
        match self {
            Id::Standard(raw) => *raw as u32,
            Id::Extended(raw) => *raw | IdFlag::EXTENDED,
        }
    }
}

/// Payload of a classic frame.
#[derive(Clone, Copy, Debug, PartialEq, Eq)]
pub struct ClassicCan {
    pub data: [u8; 8],
}

/// Payload of a classic frame, followed by the hardware timestamp.
#[derive(Clone, Copy, Debug, PartialEq, Eq)]
pub struct ClassicCanTimestamp {
    pub data: [u8; 8],
    pub timestamp_us: u32,
}

/// Payload of an FD frame.
#[derive(Clone, Copy, Debug, PartialEq, Eq)]
pub struct CanFd {
    pub data: [u8; 64],
}

/// Payload of an FD frame, followed by the hardware timestamp.
#[derive(Clone, Copy, Debug, PartialEq, Eq)]
pub struct CanFdTimestamp {
    pub data: [u8; 64],
    pub timestamp_us: u32,
}

/// One CAN message as it is carried over USB.
///
/// The payload region is kept as the 68 raw bytes of the record; the four
/// layouts that the protocol gives it are read through `classic_can`,
/// `classic_can_timestamp`, `can_fd` and `can_fd_timestamp`.
#[derive(Clone, Copy, Debug, PartialEq, Eq)]
pub struct Frame {
    pub echo_id: u32,
    pub can_id: u32,
    pub can_dlc: u8,
    pub interface: u8,
    pub flags: FrameFlag,
    pub reserved: u8,
    pub can_data: [u8; 68],
}

impl Frame {
    /// The 80 bytes of the record, as the host reads and writes them.
    pub open spec fn wire(self) -> Seq<u8> {
        le_bytes(self.echo_id) + le_bytes(self.can_id) + seq![
            self.can_dlc,
            self.interface,
            self.flags.bits,
            self.reserved,
        ] + self.can_data@
    }

    /// The first bulk packet of the frame: bytes 0 to 63 of the record.
    pub open spec fn first_half(self) -> Seq<u8> {
        self.wire().subrange(0, 64)
    }

    /// The second bulk packet of the frame: bytes 64 to 75 of the record.
    pub open spec fn second_half(self) -> Seq<u8> {
        self.wire().subrange(64, 76)
    }

    /// Whether the FD flag is set.
    pub open spec fn spec_is_fd(self) -> bool {
        self.flags.bits & FrameFlag::FD != 0
    }

    /// Whether the extended flag is set in `can_id`.
    pub open spec fn spec_is_extended(self) -> bool {
        self.can_id & IdFlag::EXTENDED != 0
    }

    /// Whether the remote flag is set in `can_id`.
    pub open spec fn spec_is_remote_frame(self) -> bool {
        self.can_id & IdFlag::REMOTE != 0
    }

    /// The identifier that `can_id` holds. A frame without the extended flag
    /// whose identifier bits go beyond 11 bits has none.
    pub open spec fn spec_id(self) -> Option<Id> {
        let masked = self.can_id & ID_MASK;
        if self.spec_is_extended() {
            Some(Id::Extended(masked))
        } else if masked <= STANDARD_ID_MAX {
            Some(Id::Standard(masked as u16))
        } else {
            None
        }
    }

    /// Number of payload bytes: the length that the DLC stands for, which
    /// in a frame without the FD flag is at most 8.
    pub open spec fn payload_len(self) -> Option<int> {
        match dlc_len(self.can_dlc as int) {
            Some(len) => if self.spec_is_fd() || len <= 8 {
                Some(len)
            } else {
                None
            },
            None => None,
        }
    }

    /// Whether this is the data frame with the given identifier and
    /// payload: the identifier with its extended flag in `can_id`, the
    /// payload's code in `can_dlc`, the payload at the start of the payload
    /// region, and zero everywhere else.
    pub open spec fn is_data(self, id: Id, data: Seq<u8>) -> bool {
        &&& self.echo_id == 0
        &&& self.can_id == id.can_id()
        &&& len_dlc(data.len() as int) == Some(self.can_dlc as int)
        &&& self.interface == 0
        &&& self.flags.bits == 0
        &&& self.reserved == 0
        &&& self.can_data@ == data + zeros(68 - data.len())
    }

    /// Whether this is the remote frame with the given identifier and DLC:
    /// the identifier with its extended flag and the remote flag in
    /// `can_id`, the DLC in `can_dlc`, and zero everywhere else.
    pub open spec fn is_remote(self, id: Id, dlc: int) -> bool {
        &&& self.echo_id == 0
        &&& self.can_id == id.can_id() | IdFlag::REMOTE
        &&& self.can_dlc == dlc
        &&& self.interface == 0
        &&& self.flags.bits == 0
        &&& self.reserved == 0
        &&& self.can_data@ == zeros(68)
    }

    /// Whether a frame from the bus with these properties can be carried
    /// to the host: the interface exists, the identifier fits its width,
    /// and a remote frame's DLC is one of the sixteen codes, a data
    /// frame's payload length one that has a code.
    pub open spec fn bus_frame_ok(
        interface: u16,
        id: Id,
        remote: bool,
        dlc: usize,
        data: Seq<u8>,
    ) -> bool {
        &&& interface < MAX_INTF
        &&& id.wf()
        &&& if remote {
            dlc <= 15
        } else {
            is_frame_len(data.len() as int)
        }
    }

    /// Whether this is the frame that carries a frame from the bus to the
    /// host: the remote or data frame of the identifier, marked as
    /// received by an echo id of all ones, with the interface and the
    /// flags given.
    pub open spec fn is_from_bus(
        self,
        interface: u16,
        id: Id,
        remote: bool,
        dlc: usize,
        data: Seq<u8>,
        flags: FrameFlag,
    ) -> bool {
        let made = Frame { echo_id: 0, interface: 0, flags: FrameFlag { bits: 0 }, ..self };
        &&& self.echo_id == u32::MAX
        &&& self.interface == interface
        &&& self.flags == flags
        &&& if remote {
            made.is_remote(id, dlc as int)
        } else {
            made.is_data(id, data)
        }
    }

    /// The frame whose record is all zero.
    pub fn new_zeroed() -> (f: Frame)
        ensures
            f.wire() == zeros(80),
            f.echo_id == 0,
            f.can_id == 0,
            f.can_dlc == 0,
            f.interface == 0,
            f.flags.bits == 0,
            f.reserved == 0,
            f.can_data@ == zeros(68),
    {
        let f = Frame {
            echo_id: 0,
            can_id: 0,
            can_dlc: 0,
            interface: 0,
            flags: FrameFlag::empty(),
            reserved: 0,
            can_data: [0u8;68],
        };
        proof {
            lemma_le_bytes_zero();
            assert(f.can_data@ =~= zeros(68));
            assert(f.wire() =~= zeros(80));
        }
        f
    }

    /// A data frame with the given identifier and payload. The payload's
    /// length must be one that a DLC stands for, and the identifier must
    /// fit its width; otherwise there is no such frame.
    pub fn new(id: Id, data: &[u8]) -> (r: Option<Frame>)
        ensures
            r is Some <==> id.wf() && is_frame_len(data@.len() as int),
            r matches Some(f) ==> f.is_data(id, data@),
    {
        if !id.is_valid() {
            return None;
        }
        let dlc = match fd_len_to_dlc(data.len()) {
            Some(dlc) => dlc,
            None => {
                return None;
            },
        };
        let mut frame = Frame::new_zeroed();
        frame.can_dlc = dlc;
        frame.can_id = id.to_can_id();
        let mut buf = [0u8;68];
        let mut i: usize = 0;
        while i < data.len()
            invariant
                i <= data@.len() <= 64,
                buf@ == data@.subrange(0, i as int) + zeros(68 - i),
            decreases data@.len() - i,
        {
            buf[i] = data[i];
            i += 1;
            assert(buf@ =~= data@.subrange(0, i as int) + zeros(68 - i));
        }
        assert(data@.subrange(0, i as int) =~= data@);
        frame.can_data = buf;
        Some(frame)
    }

    /// A remote frame with the given identifier and DLC: no payload, the
    /// remote flag set. The DLC must be one of the sixteen codes and the
    /// identifier must fit its width; otherwise there is no such frame.
    pub fn new_remote(id: Id, dlc: usize) -> (r: Option<Frame>)
        ensures
            r is Some <==> id.wf() && dlc <= 15,
            r matches Some(f) ==> f.is_remote(id, dlc as int),
    {
        if !id.is_valid() || dlc > 15 {
            return None;
        }
        let mut frame = Frame::new_zeroed();
        frame.can_id = id.to_can_id() | IdFlag::REMOTE;
        frame.can_dlc = dlc as u8;
        Some(frame)
    }

    /// Makes the frame that carries a frame from the bus to the host.
    pub fn from_bus(
        interface: u16,
        id: Id,
        remote: bool,
        dlc: usize,
        data: &[u8],
        flags: FrameFlag,
    ) -> (r: Option<Frame>)
        ensures
            r is Some <==> Frame::bus_frame_ok(interface, id, remote, dlc, data@),
            r matches Some(f) ==> f.is_from_bus(interface, id, remote, dlc, data@, flags),
    {
        if interface >= 3 {
            return None;
        }
        let made = if remote {
            Frame::new_remote(id, dlc)
        } else {
            Frame::new(id, data)
        };
        match made {
            Some(mut frame) => {
                frame.echo_id = u32::MAX;
                frame.interface = interface as u8;
                frame.flags = flags;
                Some(frame)
            },
            None => None,
        }
    }

    /// The frame's identifier.
    pub fn id(&self) -> (r: Option<Id>)
        ensures
            r == self.spec_id(),
    {
        let masked: u32 = self.can_id & ID_MASK;
        if self.is_extended() {
            Some(Id::Extended(masked))
        } else if masked <= 0x7ff {
            Some(Id::Standard(masked as u16))
        } else {
            None
        }
    }

    /// Whether the frame has an extended identifier.
    pub fn is_extended(&self) -> (r: bool)
        ensures
            r == self.spec_is_extended(),
    {
        (self.can_id & IdFlag::EXTENDED) != 0
    }

    /// Whether the frame is a remote frame.
    pub fn is_remote_frame(&self) -> (r: bool)
        ensures
            r == self.spec_is_remote_frame(),
    {
        (self.can_id & IdFlag::REMOTE) != 0
    }

    /// Whether the frame is an FD frame.
    pub fn is_fd(&self) -> (r: bool)
        ensures
            r == self.spec_is_fd(),
    {
        (self.flags.bits & FrameFlag::FD) != 0
    }

    /// The frame's data length code.
    pub fn dlc(&self) -> (r: usize)
        ensures
            r == self.can_dlc,
    {
        self.can_dlc as usize
    }

    /// The payload: the first bytes of the payload region, as many as the
    /// DLC stands for. `None` where the DLC is none of the sixteen codes,
    /// or stands for more than 8 bytes in a frame without the FD flag.
    pub fn data(&self) -> (r: Option<&[u8]>)
        ensures
            match r {
                Some(d) => self.payload_len() == Some(d@.len() as int) && d@
                    == self.can_data@.subrange(0, d@.len() as int),
                None => self.payload_len() is None,
            },
    {
        match fd_dlc_to_len(self.dlc()) {
            Some(len) => {
                if self.is_fd() || len <= 8 {
                    Some(slice_subrange(self.can_data.as_slice(), 0, len))
                } else {
                    None
                }
            },
            None => None,
        }
    }

    /// The payload region read as that of a classic frame.
    pub fn classic_can(&self) -> (r: ClassicCan)
        ensures
            r.data@ == self.can_data@.subrange(0, 8),
    {
        ClassicCan { data: take::<8>(self.can_data.as_slice(), 0) }
    }

    /// The payload region read as that of a classic frame with a timestamp,
    /// which stands behind the 8 data bytes.
    pub fn classic_can_timestamp(&self) -> (r: ClassicCanTimestamp)
        ensures
            r.data@ == self.can_data@.subrange(0, 8),
            le_bytes(r.timestamp_us) == self.can_data@.subrange(8, 12),
    {
        ClassicCanTimestamp {
            data: take::<8>(self.can_data.as_slice(), 0),
            timestamp_us: get_u32(self.can_data.as_slice(), 8),
        }
    }

    /// The payload region read as that of an FD frame.
    pub fn can_fd(&self) -> (r: CanFd)
        ensures
            r.data@ == self.can_data@.subrange(0, 64),
    {
        CanFd { data: take::<64>(self.can_data.as_slice(), 0) }
    }

    /// The payload region read as that of an FD frame with a timestamp,
    /// which stands behind the 64 data bytes.
    pub fn can_fd_timestamp(&self) -> (r: CanFdTimestamp)
        ensures
            r.data@ == self.can_data@.subrange(0, 64),
            le_bytes(r.timestamp_us) == self.can_data@.subrange(64, 68),
    {
        CanFdTimestamp {
            data: take::<64>(self.can_data.as_slice(), 0),
            timestamp_us: get_u32(self.can_data.as_slice(), 64),
        }
    }

    /// The record's 80 bytes.
    pub fn to_bytes(&self) -> (bytes: [u8; 80])
        ensures
            bytes@ == self.wire(),
    {
        let mut buf = [0u8;80];
        put_u32(&mut buf, 0, self.echo_id);
        put_u32(&mut buf, 4, self.can_id);
        buf[8] = self.can_dlc;
        buf[9] = self.interface;
        buf[10] = self.flags.bits;
        buf[11] = self.reserved;
        let ghost head = buf@.subrange(0, 12);
        assert(head =~= le_bytes(self.echo_id) + le_bytes(self.can_id) + seq![
            self.can_dlc,
            self.interface,
            self.flags.bits,
            self.reserved,
        ]);
        let mut i: usize = 0;
        while i < 68
            invariant
                i <= 68,
                buf@.subrange(0, 12) == head,
                buf@.subrange(12, 12 + i) == self.can_data@.subrange(0, i as int),
            decreases 68 - i,
        {
            buf[12 + i] = self.can_data[i];
            i += 1;
            assert(buf@.subrange(0, 12) =~= head);
            assert(buf@.subrange(12, 12 + i) =~= self.can_data@.subrange(0, i as int));
        }
        assert(self.can_data@.subrange(0, 68) =~= self.can_data@);
        assert(buf@ =~= buf@.subrange(0, 12) + buf@.subrange(12, 80));
        buf
    }

    /// The first bulk packet of the frame.
    pub fn first_packet(&self) -> (packet: [u8; 64])
        ensures
            packet@ == self.first_half(),
    {
        let bytes = self.to_bytes();
        take::<64>(bytes.as_slice(), 0)
    }

    /// The second bulk packet of the frame.
    pub fn second_packet(&self) -> (packet: [u8; 12])
        ensures
            packet@ == self.second_half(),
    {
        let bytes = self.to_bytes();
        take::<12>(bytes.as_slice(), 64)
    }

    /// The frame that a first bulk packet begins: the packet's bytes are
    /// the start of the record and the rest of the record is zero. A packet
    /// of more than 64 bytes begins none.
    pub fn from_first_packet(packet: &[u8]) -> (r: Option<Frame>)
        ensures
            r is Some <==> packet@.len() <= 64,
            r matches Some(f) ==> f.wire() == packet@ + zeros(80 - packet@.len()),
    {
        if packet.len() > 64 {
            return None;
        }
        let mut buf = [0u8;80];
        let mut i: usize = 0;
        while i < packet.len()
            invariant
                i <= packet@.len() <= 64,
                buf@ == packet@.subrange(0, i as int) + zeros(80 - i),
            decreases packet@.len() - i,
        {
            buf[i] = packet[i];
            i += 1;
            assert(buf@ =~= packet@.subrange(0, i as int) + zeros(80 - i));
        }
        assert(packet@.subrange(0, i as int) =~= packet@);
        let bytes = buf.as_slice();
        let frame = Frame {
            echo_id: get_u32(bytes, 0),
            can_id: get_u32(bytes, 4),
            can_dlc: bytes[8],
            interface: bytes[9],
            flags: FrameFlag::from_bits_retain(bytes[10]),
            reserved: bytes[11],
            can_data: take::<68>(bytes, 12),
        };
        assert(frame.wire() =~= buf@);
        Some(frame)
    }

    /// The frame with a second bulk packet laid over bytes 64 onward of its
    /// record; what the packet does not reach stays. A packet of more than
    /// 12 bytes is refused.
    pub fn with_second_packet(&self, packet: &[u8]) -> (r: Option<Frame>)
        ensures
            r is Some <==> packet@.len() <= 12,
            r matches Some(f) ==> f.wire() == self.wire().subrange(0, 64) + packet@
                + self.wire().subrange(64 + packet@.len() as int, 80),
    {
        if packet.len() > 12 {
            return None;
        }
        let mut frame = *self;
        let mut buf = self.can_data;
        let mut i: usize = 0;
        while i < packet.len()
            invariant
                i <= packet@.len() <= 12,
                buf@ == self.can_data@.subrange(0, 52) + packet@.subrange(0, i as int)
                    + self.can_data@.subrange(52 + i, 68),
            decreases packet@.len() - i,
        {
            buf[52 + i] = packet[i];
            i += 1;
            assert(buf@ =~= self.can_data@.subrange(0, 52) + packet@.subrange(0, i as int)
                + self.can_data@.subrange(52 + i, 68));
        }
        assert(packet@.subrange(0, i as int) =~= packet@);
        frame.can_data = buf;
        assert(frame.wire() =~= self.wire().subrange(0, 64) + packet@ + self.wire().subrange(
            64 + packet@.len() as int,
            80,
        ));
        Some(frame)
    }
}

/// A frame is what its record says: two frames with the same 80 bytes are
/// the same frame.
pub proof fn lemma_wire_injective(f: Frame, g: Frame)
    requires
        f.wire() == g.wire(),
    ensures
        f == g,
{
    let w = f.wire();
    assert(le_bytes(f.echo_id) =~= w.subrange(0, 4));
    assert(le_bytes(g.echo_id) =~= w.subrange(0, 4));
    assert(le_bytes(f.can_id) =~= w.subrange(4, 8));
    assert(le_bytes(g.can_id) =~= w.subrange(4, 8));
    lemma_le_bytes_injective(f.echo_id, g.echo_id);
    lemma_le_bytes_injective(f.can_id, g.can_id);
    assert(f.can_dlc == w[8] && g.can_dlc == w[8]);
    assert(f.interface == w[9] && g.interface == w[9]);
    assert(f.flags.bits == w[10] && g.flags.bits == w[10]);
    assert(f.reserved == w[11] && g.reserved == w[11]);
    assert(f.can_data@ =~= w.subrange(12, 80));
    assert(g.can_data@ =~= w.subrange(12, 80));
    assert(f.can_data =~= g.can_data);
}

/// The identifier that a data frame was made with is the identifier that
/// the frame has, and the frame is no remote frame.
pub proof fn lemma_data_frame_keeps_id(f: Frame, id: Id, data: Seq<u8>)
    requires
        id.wf(),
        f.is_data(id, data),
    ensures
        f.spec_id() == Some(id),
        f.spec_is_extended() == (id is Extended),
        !f.spec_is_remote_frame(),
{
    match id {
        Id::Standard(raw) => {
            let x = raw as u32;
            assert(x & 0x8000_0000 == 0 && x & 0x4000_0000 == 0 && x & 0x1fff_ffff == x) by (bit_vector)
                requires
                    x <= 0x7ff,
            ;
        },
        Id::Extended(raw) => {
            assert((raw | 0x8000_0000) & 0x8000_0000 != 0 && (raw | 0x8000_0000) & 0x4000_0000 == 0
                && (raw | 0x8000_0000) & 0x1fff_ffff == raw) by (bit_vector)
                requires
                    raw <= 0x1fff_ffff,
            ;
        },
    }
}

/// The identifier that a remote frame was made with is the identifier that
/// the frame has, and the frame is a remote frame.
pub proof fn lemma_remote_frame_keeps_id(f: Frame, id: Id, dlc: int)
    requires
        id.wf(),
        f.is_remote(id, dlc),
    ensures
        f.spec_id() == Some(id),
        f.spec_is_extended() == (id is Extended),
        f.spec_is_remote_frame(),
{
    match id {
        Id::Standard(raw) => {
            let x = raw as u32;
            assert((x | 0x4000_0000) & 0x8000_0000 == 0 && (x | 0x4000_0000) & 0x4000_0000 != 0 && (
            x | 0x4000_0000) & 0x1fff_ffff == x) by (bit_vector)
                requires
                    x <= 0x7ff,
            ;
        },
        Id::Extended(raw) => {
            assert((raw | 0x8000_0000 | 0x4000_0000) & 0x8000_0000 != 0 && (raw | 0x8000_0000
                | 0x4000_0000) & 0x4000_0000 != 0 && (raw | 0x8000_0000 | 0x4000_0000)
                & 0x1fff_ffff == raw) by (bit_vector)
                requires
                    raw <= 0x1fff_ffff,
            ;
        },
    }
}

/// The payload of a data frame of at most 8 bytes is the payload that it
/// was made with; with the FD flag set this holds of every data frame.
pub proof fn lemma_data_frame_keeps_payload(f: Frame, id: Id, data: Seq<u8>, flags: FrameFlag)
    requires
        is_frame_len(data.len() as int),
        f.is_data(id, data),
    ensures
        ({
            let g = Frame { flags, ..f };
            g.spec_is_fd() || data.len() <= 8 ==> g.payload_len() == Some(data.len() as int)
                && g.can_data@.subrange(0, data.len() as int) == data
        }),
{
    let g = Frame { flags, ..f };
    assert(g.can_data@.subrange(0, data.len() as int) =~= data);
}

} // verus!
