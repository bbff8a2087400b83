//! The bulk transport as a state machine over plain values: which frames
//! wait, which frame is half sent, which is half received, and what each
//! event makes of that.

use crate::control::{Command, MAX_INTF};
use crate::flags::Feature;
use crate::frame::Frame;
use crate::wire::zeros;
use vstd::prelude::*;

verus! {

/// Why a frame or a packet was not taken.
#[derive(Clone, Copy, Debug, PartialEq, Eq, Structural)]
pub enum Error {
    /// A bulk packet longer than the part of the record that it is for.
    PacketTooLong,
    /// A frame for an interface beyond the last.
    InvalidInterface,
    /// The device could not put the frame on the bus.
    Device,
}

/// What became of a frame that was offered for sending while no frame was
/// half sent, or that was put behind the frames that wait.
#[derive(Clone, Copy, Debug, PartialEq, Eq)]
pub enum Offer {
    /// No frame is half sent: write this frame's first packet now and
    /// report with `written` whether the endpoint took it.
    Write(Frame),
    /// The frame waits at the tail of the backlog.
    Queued,
    /// The backlog is full: the frame is lost.
    Dropped,
}

/// Where a frame went after the attempt to write its first packet.
#[derive(Clone, Copy, Debug, PartialEq, Eq, Structural)]
pub enum Stored {
    /// Its only packet is out: the frame is sent.
    Sent,
    /// Its first packet is out; it is now the half-sent frame.
    HalfSent,
    /// It waits at the tail of the backlog.
    Queued,
    /// The backlog is full: the frame is lost.
    Dropped,
}

/// What a bulk OUT packet made of the frame under assembly.
#[derive(Clone, Copy, Debug, PartialEq, Eq)]
pub enum Assembled {
    /// The packet was refused and no frame is under assembly.
    Refused(Error),
    /// The packet began a frame of an FD interface: the second packet is
    /// awaited.
    Partial,
    /// The frame is whole, stamped as a completed transmission.
    Complete(Frame),
}

/// What a bulk OUT packet led to.
#[derive(Clone, Copy, Debug, PartialEq, Eq)]
pub enum BulkOut {
    /// The packet was refused and no frame is under assembly.
    Refused(Error),
    /// The packet began a frame of an FD interface: the second packet is
    /// awaited.
    Partial,
    /// The device did not take the frame: it is dropped and not echoed.
    Failed(Frame, Error),
    /// The device took the frame, which was then offered for the echo.
    Echo(Frame, Offer),
}

/// What a request to send a frame to the host led to.
#[derive(Clone, Copy, Debug, PartialEq, Eq)]
pub enum Transmit {
    /// The arguments describe no frame.
    Rejected,
    /// The frame was made and offered.
    Offered(Frame, Offer),
}

/// A packet for the bulk IN endpoint.
#[derive(Clone, Copy, Debug, PartialEq, Eq)]
pub enum Packet {
    /// The first 64 bytes of a frame's record.
    First([u8; 64]),
    /// Bytes 64 to 75 of a frame's record.
    Second([u8; 12]),
}

impl Packet {
    /// The packet's bytes.
    pub open spec fn bytes(self) -> Seq<u8> {
        match self {
            Packet::First(bytes) => bytes@,
            Packet::Second(bytes) => bytes@,
        }
    }

    /// The packet's bytes.
    pub fn as_slice(&self) -> (r: &[u8])
        ensures
            r@ == self.bytes(),
    {
        match self {
            Packet::First(bytes) => bytes.as_slice(),
            Packet::Second(bytes) => bytes.as_slice(),
        }
    }
}

/// Number of frames that the backlog holds.
pub const CAPACITY: usize = 64;

/// The packets that a waiting frame still has to send: its first packet
/// and, if its FD flag is set, its second.
pub open spec fn packets(frame: Frame) -> Seq<Seq<u8>> {
    if frame.spec_is_fd() {
        seq![frame.first_half(), frame.second_half()]
    } else {
        seq![frame.first_half()]
    }
}

/// The packets of the frames of a backlog, frame after frame.
pub open spec fn backlog_packets(backlog: Seq<Frame>) -> Seq<Seq<u8>>
    decreases backlog.len(),
{
    if backlog.len() == 0 {
        Seq::empty()
    } else {
        backlog_packets(backlog.drop_last()) + packets(backlog.last())
    }
}

/// The record of a frame that was received whole: the bytes that came,
/// with the echo id set to zero.
pub open spec fn completed(record: Seq<u8>) -> Seq<u8> {
    zeros(4) + record.subrange(4, 80)
}

/// All that the transport keeps between two events.
pub struct State {
    /// For each interface, whether it was started in FD mode.
    pub fd: Seq<bool>,
    /// The frames that wait to be sent to the host, the oldest first.
    pub backlog: Seq<Frame>,
    /// The frame whose first packet is out and whose second is not.
    pub half_sent: Option<Frame>,
    /// The frame whose first packet has come and whose second has not.
    pub assembling: Option<Frame>,
}

impl State {
    /// Three interfaces, no more frames waiting than the backlog holds, a
    /// half-sent frame has a second packet, and a frame under assembly is
    /// for an interface that exists.
    pub open spec fn wf(self) -> bool {
        &&& self.fd.len() == MAX_INTF
        &&& self.backlog.len() <= CAPACITY
        &&& self.half_sent matches Some(frame) ==> frame.spec_is_fd()
        &&& self.assembling matches Some(partial) ==> partial.interface < MAX_INTF
    }

    /// The state of a new transport, and the state after a protocol reset.
    pub open spec fn initial() -> State {
        State {
            fd: seq![false, false, false],
            backlog: Seq::empty(),
            half_sent: None,
            assembling: None,
        }
    }

    /// Puts a frame at the tail of the backlog, or drops it where the
    /// backlog is full.
    pub open spec fn push(self, frame: Frame) -> (State, Stored) {
        if self.backlog.len() < CAPACITY {
            (State { backlog: self.backlog.push(frame), ..self }, Stored::Queued)
        } else {
            (self, Stored::Dropped)
        }
    }

    /// Pushes the frames one after the other.
    pub open spec fn push_all(self, frames: Seq<Frame>) -> State
        decreases frames.len(),
    {
        if frames.len() == 0 {
            self
        } else {
            self.push_all(frames.drop_last()).push(frames.last()).0
        }
    }

    /// Offers a frame for sending: where no frame is half sent its first
    /// packet is to be written at once, else it goes to the backlog.
    pub open spec fn offer(self, frame: Frame) -> (State, Offer) {
        if self.half_sent is None {
            (self, Offer::Write(frame))
        } else {
            match self.push(frame).1 {
                Stored::Dropped => (self, Offer::Dropped),
                _ => (self.push(frame).0, Offer::Queued),
            }
        }
    }

    /// Takes the report on the write of an offered frame's first packet.
    /// Written, a frame with the FD flag is the half-sent frame and one
    /// without is sent. Not written, or with another frame half sent, the
    /// frame goes to the backlog.
    pub open spec fn written(self, frame: Frame, ok: bool) -> (State, Stored) {
        if ok && self.half_sent is None {
            if frame.spec_is_fd() {
                (State { half_sent: Some(frame), ..self }, Stored::HalfSent)
            } else {
                (self, Stored::Sent)
            }
        } else {
            self.push(frame)
        }
    }

    /// The packet that a drain writes: the second packet of the half-sent
    /// frame, else the first packet of the oldest waiting frame.
    pub open spec fn next_packet(self) -> Option<Seq<u8>> {
        match self.half_sent {
            Some(frame) => Some(frame.second_half()),
            None => if self.backlog.len() > 0 {
                Some(self.backlog[0].first_half())
            } else {
                None
            },
        }
    }

    /// Takes the report on the write of `next_packet`. A written second
    /// packet ends the half-sent frame. A written first packet takes the
    /// oldest frame out of the backlog: with the FD flag it is half sent,
    /// without it is done.
    pub open spec fn sent(self, ok: bool) -> State {
        if !ok {
            self
        } else {
            match self.half_sent {
                Some(_) => State { half_sent: None, ..self },
                None => if self.backlog.len() > 0 {
                    State {
                        backlog: self.backlog.drop_first(),
                        half_sent: if self.backlog[0].spec_is_fd() {
                            Some(self.backlog[0])
                        } else {
                            None
                        },
                        ..self
                    }
                } else {
                    self
                },
            }
        }
    }

    /// All the packets that are still to be written, in the order in
    /// which drains write them.
    pub open spec fn pending(self) -> Seq<Seq<u8>> {
        match self.half_sent {
            Some(frame) => seq![frame.second_half()] + backlog_packets(self.backlog),
            None => backlog_packets(self.backlog),
        }
    }

    /// What the host sees of up to `n` drains into an endpoint that takes
    /// every packet: the packets written, one after the other.
    pub open spec fn drained(self, n: nat) -> Seq<Seq<u8>>
        decreases n,
    {
        if n == 0 {
            Seq::empty()
        } else {
            match self.next_packet() {
                Some(packet) => seq![packet] + self.sent(true).drained((n - 1) as nat),
                None => Seq::empty(),
            }
        }
    }

    /// The state with `interface` set to FD mode or not.
    pub open spec fn with_fd(self, interface: int, fd: bool) -> State {
        State { fd: self.fd.update(interface, fd), ..self }
    }

    /// What a control command makes of the state: a reset forgets the
    /// interface's FD mode, a start records it from the FD feature.
    pub open spec fn apply(self, command: Command) -> State {
        if !command.valid() {
            self
        } else {
            match command {
                Command::Reset { interface } => self.with_fd(interface as int, false),
                Command::Start { interface, flags } => self.with_fd(
                    interface as int,
                    flags.bits & Feature::FD != 0,
                ),
                _ => self,
            }
        }
    }

    /// Whether a bulk OUT packet takes the state to `next` with the
    /// outcome `r`.
    ///
    /// With no frame under assembly the packet begins a record, which is
    /// zero behind the packet's end. A packet of more than 64 bytes, or a
    /// record for an interface beyond the last, is refused. On an FD
    /// interface the frame is kept and awaits its second packet; on any
    /// other it is whole. With a frame under assembly the packet is laid
    /// over bytes 64 onward of its record, which is then whole; a packet
    /// of more than 12 bytes is refused and the frame given up. The frames
    /// that wait to be sent are not touched.
    pub open spec fn assembled(self, packet: Seq<u8>, next: State, r: Assembled) -> bool {
        &&& next.fd == self.fd
        &&& next.backlog == self.backlog
        &&& next.half_sent == self.half_sent
        &&& match self.assembling {
            None => if packet.len() > 64 {
                r == Assembled::Refused(Error::PacketTooLong) && next.assembling is None
            } else {
                let record = packet + zeros(80 - packet.len());
                if record[9] >= MAX_INTF {
                    r == Assembled::Refused(Error::InvalidInterface) && next.assembling is None
                } else if self.fd[record[9] as int] {
                    &&& r is Partial
                    &&& next.assembling matches Some(partial) && partial.wire() == record
                } else {
                    &&& r matches Assembled::Complete(frame) && frame.wire() == completed(record)
                    &&& next.assembling is None
                }
            },
            Some(partial) => {
                &&& next.assembling is None
                &&& if packet.len() > 12 {
                    r == Assembled::Refused(Error::PacketTooLong)
                } else {
                    r matches Assembled::Complete(frame) && frame.wire() == completed(
                        partial.wire().subrange(0, 64) + packet + partial.wire().subrange(
                            64 + packet.len() as int,
                            80,
                        ),
                    )
                }
            },
        }
    }
}

/// The packets of a backlog with one more frame at its tail are those of
/// the backlog, then those of the frame.
pub proof fn lemma_backlog_packets_push(backlog: Seq<Frame>, frame: Frame)
    ensures
        backlog_packets(backlog.push(frame)) == backlog_packets(backlog) + packets(frame),
{
    assert(backlog.push(frame).drop_last() =~= backlog);
}

/// The packets of a backlog start with those of its oldest frame.
pub proof fn lemma_backlog_packets_head(backlog: Seq<Frame>)
    requires
        backlog.len() > 0,
    ensures
        backlog_packets(backlog) == packets(backlog[0]) + backlog_packets(backlog.drop_first()),
    decreases backlog.len(),
{
    if backlog.len() == 1 {
        assert(backlog.drop_last() =~= Seq::<Frame>::empty());
        assert(backlog.drop_first() =~= Seq::<Frame>::empty());
        assert(backlog_packets(backlog) =~= packets(backlog[0]) + backlog_packets(
            backlog.drop_first(),
        ));
    } else {
        lemma_backlog_packets_head(backlog.drop_last());
        assert(backlog.drop_last().drop_first() =~= backlog.drop_first().drop_last());
        assert(backlog_packets(backlog) =~= packets(backlog[0]) + backlog_packets(
            backlog.drop_first(),
        ));
    }
}

/// Frames reach the host in the order in which they were put in line, each
/// frame's packets together: a drain writes the first of the pending
/// packets, a written packet leaves the pending packets from the front, and
/// a refused write changes nothing.
pub proof fn lemma_drain_in_order(s: State)
    requires
        s.wf(),
    ensures
        s.sent(false) == s,
        s.sent(true).wf(),
        s.pending().len() == 0 ==> s.next_packet() is None && s.sent(true) == s,
        s.pending().len() > 0 ==> s.next_packet() == Some(s.pending()[0]) && s.sent(
            true,
        ).pending() == s.pending().drop_first(),
{
    match s.half_sent {
        Some(frame) => {
            assert(s.sent(true).pending() =~= s.pending().drop_first());
        },
        None => {
            if s.backlog.len() > 0 {
                lemma_backlog_packets_head(s.backlog);
                assert(s.sent(true).pending() =~= s.pending().drop_first());
            }
        },
    }
}

/// Drains write the pending packets from the front, in their order and
/// each once: what the host sees of `n` drains is the first `n` pending
/// packets, or all of them where fewer are pending.
pub proof fn lemma_drained_is_pending(s: State, n: nat)
    requires
        s.wf(),
    ensures
        s.drained(n) == if n <= s.pending().len() {
            s.pending().subrange(0, n as int)
        } else {
            s.pending()
        },
    decreases n,
{
    lemma_drain_in_order(s);
    if n == 0 {
        assert(s.drained(n) =~= s.pending().subrange(0, 0));
    } else if s.pending().len() == 0 {
        assert(s.drained(n) =~= s.pending());
    } else {
        let next = s.sent(true);
        lemma_drained_is_pending(next, (n - 1) as nat);
        if n <= s.pending().len() {
            assert(s.drained(n) =~= s.pending().subrange(0, n as int));
        } else {
            assert(s.drained(n) =~= s.pending());
        }
    }
}

/// Three FD frames put in line in an idle transport while the endpoint is
/// busy, and then drained, reach the host whole and in their order: both
/// packets of the first, then both of the second, then both of the third,
/// and after that nothing.
pub proof fn lemma_three_fd_frames_drained(f1: Frame, f2: Frame, f3: Frame, n: nat)
    requires
        f1.spec_is_fd(),
        f2.spec_is_fd(),
        f3.spec_is_fd(),
        n >= 6,
    ensures
        State::initial().written(f1, false).0.written(f2, false).0.written(f3, false).0.drained(n)
            == seq![
            f1.first_half(),
            f1.second_half(),
            f2.first_half(),
            f2.second_half(),
            f3.first_half(),
            f3.second_half(),
        ],
{
    let s0 = State::initial();
    let s3 = s0.written(f1, false).0.written(f2, false).0.written(f3, false).0;
    lemma_three_frames_in_order(s0, f1, f2, f3);
    lemma_push_appends(s0, f1);
    lemma_push_appends(s0.written(f1, false).0, f2);
    lemma_push_appends(s0.written(f1, false).0.written(f2, false).0, f3);
    lemma_drained_is_pending(s3, n);
    assert(s0.pending() =~= Seq::<Seq<u8>>::empty());
    assert(s3.pending() =~= seq![
        f1.first_half(),
        f1.second_half(),
        f2.first_half(),
        f2.second_half(),
        f3.first_half(),
        f3.second_half(),
    ]);
}

/// A frame that goes to the backlog is sent after all that is pending: its
/// packets come behind the pending ones. A frame that finds the backlog
/// full changes nothing.
pub proof fn lemma_push_appends(s: State, frame: Frame)
    requires
        s.wf(),
    ensures
        s.push(frame).0.wf(),
        s.push(frame).1 == Stored::Queued ==> s.push(frame).0.pending() == s.pending() + packets(
            frame,
        ),
        s.push(frame).1 == Stored::Dropped ==> s.push(frame).0 == s,
        s.push(frame).1 == Stored::Queued || s.push(frame).1 == Stored::Dropped,
{
    lemma_backlog_packets_push(s.backlog, frame);
    if s.backlog.len() < CAPACITY {
        assert(s.push(frame).0.pending() =~= s.pending() + packets(frame));
    }
}

/// A frame whose first packet was written at once has only its second
/// packet left, if it has one: that packet is the next to be written,
/// before every packet of the frames that wait. A frame whose first packet
/// was not written goes to the backlog.
pub proof fn lemma_written_at_once(s: State, frame: Frame)
    requires
        s.wf(),
        s.half_sent is None,
    ensures
        s.offer(frame) == (s, Offer::Write(frame)),
        s.written(frame, true).1 == if frame.spec_is_fd() {
            Stored::HalfSent
        } else {
            Stored::Sent
        },
        s.written(frame, true).0.wf(),
        s.written(frame, true).0.pending() == if frame.spec_is_fd() {
            seq![frame.second_half()] + s.pending()
        } else {
            s.pending()
        },
        s.written(frame, false) == s.push(frame),
{
    if frame.spec_is_fd() {
        assert(s.written(frame, true).0.pending() =~= seq![frame.second_half()] + s.pending());
    }
}

/// While a frame is half sent, an offered frame goes to the backlog, or is
/// lost where the backlog is full; it is never offered for writing.
pub proof fn lemma_offer_behind_half_sent(s: State, frame: Frame)
    requires
        s.wf(),
        s.half_sent is Some,
    ensures
        s.offer(frame).0 == s.push(frame).0,
        s.offer(frame).1 == if s.backlog.len() < CAPACITY {
            Offer::Queued
        } else {
            Offer::Dropped
        },
        s.written(frame, true) == s.push(frame),
{
}

/// Three frames put in line while the endpoint is busy are pending in that
/// order, the packets of each together.
pub proof fn lemma_three_frames_in_order(s: State, f1: Frame, f2: Frame, f3: Frame)
    requires
        s.wf(),
        s.backlog.len() + 3 <= CAPACITY,
    ensures
        s.written(f1, false).0.written(f2, false).0.written(f3, false).0.pending() == s.pending()
            + packets(f1) + packets(f2) + packets(f3),
{
    let s1 = s.written(f1, false).0;
    let s2 = s1.written(f2, false).0;
    lemma_push_appends(s, f1);
    lemma_push_appends(s1, f2);
    lemma_push_appends(s2, f3);
}

/// Three frames offered to an idle transport, the first an FD frame that
/// is written at once, reach the host in that order: the second packet of the first frame is
/// pending, then the packets of the second frame, then those of the third.
pub proof fn lemma_three_frames_first_at_once(f1: Frame, f2: Frame, f3: Frame)
    requires
        f1.spec_is_fd(),
    ensures
        ({
            let s0 = State::initial();
            let s1 = s0.written(f1, true).0;
            let s2 = s1.offer(f2).0;
            let s3 = s2.offer(f3).0;
            &&& s0.offer(f1) == (s0, Offer::Write(f1))
            &&& s1.offer(f2).1 == Offer::Queued
            &&& s2.offer(f3).1 == Offer::Queued
            &&& s3.wf()
            &&& s3.pending() == seq![f1.second_half()] + packets(f2) + packets(f3)
        }),
{
    let s0 = State::initial();
    let s1 = s0.written(f1, true).0;
    let s2 = s1.offer(f2).0;
    lemma_written_at_once(s0, f1);
    lemma_push_appends(s1, f2);
    lemma_push_appends(s2, f3);
    assert(s0.pending() =~= Seq::<Seq<u8>>::empty());
    assert(s1.pending() =~= seq![f1.second_half()]);
}

/// The backlog never grows beyond its capacity: after any number of frames
/// were pushed it holds the oldest frames, as many as fit, and the others
/// are lost.
pub proof fn lemma_overflow_drops_newest(s: State, frames: Seq<Frame>)
    requires
        s.wf(),
    ensures
        s.push_all(frames).wf(),
        s.push_all(frames).fd == s.fd,
        s.push_all(frames).half_sent == s.half_sent,
        s.push_all(frames).assembling == s.assembling,
        s.backlog.len() + frames.len() <= CAPACITY ==> s.push_all(frames).backlog == s.backlog
            + frames,
        s.backlog.len() + frames.len() > CAPACITY ==> s.push_all(frames).backlog == (s.backlog
            + frames).subrange(0, CAPACITY as int),
    decreases frames.len(),
{
    if frames.len() == 0 {
        assert(s.backlog + frames =~= s.backlog);
    } else {
        lemma_overflow_drops_newest(s, frames.drop_last());
        let before = s.push_all(frames.drop_last());
        assert(s.backlog + frames =~= (s.backlog + frames.drop_last()).push(frames.last()));
        if s.backlog.len() + frames.len() <= CAPACITY {
        } else if s.backlog.len() + frames.len() == CAPACITY + 1 {
            assert(before.backlog =~= (s.backlog + frames).subrange(0, CAPACITY as int));
        } else {
            assert(before.backlog =~= (s.backlog + frames).subrange(0, CAPACITY as int));
        }
    }
}

/// A protocol reset leaves nothing behind: no interface in FD mode, no
/// frame waiting, half sent or half received, and nothing pending.
pub proof fn lemma_initial_is_clear()
    ensures
        State::initial().wf(),
        forall|i: int| 0 <= i < 3 ==> !State::initial().fd[i],
        State::initial().backlog.len() == 0,
        State::initial().half_sent is None,
        State::initial().assembling is None,
        State::initial().pending().len() == 0,
        State::initial().next_packet() is None,
{
}

/// A frame for an FD interface that comes in two packets, 64 bytes and then
/// 12, is given out once, after the second packet, and holds the bytes of
/// both; the first packet alone gives nothing out.
pub proof fn lemma_split_assembly(
    s: State,
    first: Seq<u8>,
    second: Seq<u8>,
    mid: State,
    end: State,
    r1: Assembled,
    r2: Assembled,
)
    requires
        s.wf(),
        s.assembling is None,
        first.len() == 64,
        second.len() == 12,
        first[9] < 3,
        s.fd[first[9] as int],
        s.assembled(first, mid, r1),
        mid.assembled(second, end, r2),
    ensures
        r1 is Partial,
        mid.assembling is Some,
        r2 matches Assembled::Complete(frame) && frame.wire() == completed(
            first + second + zeros(4),
        ),
        end == s,
{
    let record = first + zeros(16);
    assert(record[9] == first[9]);
    let partial = mid.assembling->Some_0;
    assert(partial.wire().subrange(0, 64) =~= first);
    assert(partial.wire().subrange(76, 80) =~= zeros(4));
}

/// A frame for an interface that is not in FD mode is whole with its first
/// packet: it is given out at once and no second packet is awaited.
pub proof fn lemma_classic_frame_at_once(s: State, packet: Seq<u8>, next: State, r: Assembled)
    requires
        s.wf(),
        s.assembling is None,
        packet.len() <= 64,
        (packet + zeros(80 - packet.len()))[9] < 3,
        !s.fd[(packet + zeros(80 - packet.len()))[9] as int],
        s.assembled(packet, next, r),
    ensures
        r matches Assembled::Complete(frame) && frame.wire() == completed(
            packet + zeros(80 - packet.len()),
        ),
        next == s,
{
}

/// After a protocol reset a first packet for any interface is a whole
/// frame: no interface is in FD mode any more.
pub proof fn lemma_reset_clears_fd(packet: Seq<u8>, next: State, r: Assembled)
    requires
        packet.len() <= 64,
        (packet + zeros(80 - packet.len()))[9] < 3,
        State::initial().assembled(packet, next, r),
    ensures
        r is Complete,
        next == State::initial(),
{
}

} // verus!
