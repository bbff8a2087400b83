//! Device side of the gs_usb CAN adapter protocol: the wire records, the
//! control-request dispatcher and the bulk transport state machine.
//!
//! The class never touches an endpoint. Each entry point takes what the
//! USB stack delivered, changes the class's state, calls the CAN device
//! where the protocol asks for it, and returns what is to be written or
//! answered; the caller performs the write and reports whether the
//! endpoint took it.

use crate::control::{Command, ControlOut, Query, Request};
use crate::flags::{Feature, FrameFlag};
use crate::control::MAX_INTF;
use crate::frame::{Frame, Id};
use crate::host::{
    DeviceBitTiming, DeviceBitTimingConst, DeviceBitTimingConstExtended, DeviceConfig,
    DeviceState,
};
use crate::queue::{queue_dequeue, queue_enqueue, queue_len, queue_new, queue_peek, queued};
use crate::transport::{
    completed, Assembled, BulkOut, Error, Offer, Packet, State, Stored, Transmit,
};
use crate::wire::{copy_into, lemma_le_bytes_zero};
use heapless::spsc::Queue;
use vstd::prelude::*;

pub mod control;
pub mod dlc;
pub mod flags;
pub mod frame;
pub mod host;
pub mod queue;
pub mod transport;
pub mod wire;

verus! {

/// Interface class: vendor defined.
pub const INTERFACE_CLASS: u8 = 0xFF;

/// The CAN controller behind the class.
pub trait Device {
    /// Returns the device configuration.
    ///
    /// Requested after reset by the host.
    fn config(&self) -> DeviceConfig;

    /// Returns the bit timing options.
    fn bit_timing(&self) -> DeviceBitTimingConst;

    /// Returns the extended bit timing options.
    fn bit_timing_ext(&self) -> DeviceBitTimingConstExtended;

    /// Called to configure the timing of the CAN interface.
    fn configure_bit_timing(&mut self, interface: u8, timing: DeviceBitTiming);

    /// Called to configure the data-phase timing of the CAN interface.
    fn configure_bit_timing_data(&mut self, interface: u8, timing: DeviceBitTiming);

    /// Called when the host requests an interface is reset. The class
    /// calls this for an interface that exists only.
    fn reset(&mut self, interface: u8)
        requires
            interface < MAX_INTF,
    ;

    /// Called when the host requests an interface is started. The class
    /// calls this for an interface that exists only.
    fn start(&mut self, interface: u8, features: Feature)
        requires
            interface < MAX_INTF,
    ;

    /// Returns the device state including TX and RX error counters.
    fn state(&self, interface: u8) -> DeviceState;

    /// Called when a frame is received from the host. An error means that
    /// the frame did not go to the bus. The class calls this with a whole
    /// frame, stamped with the echo id zero, and with the frame's own
    /// interface, which exists.
    fn receive(&mut self, interface: u8, frame: &Frame) -> (r: Result<(), Error>)
        requires
            interface == frame.interface,
            interface < MAX_INTF,
            frame.echo_id == 0,
    ;
}

/// The record with which the class answers a control transfer to the host.
#[derive(Clone, Copy, Debug, PartialEq, Eq, Structural)]
pub enum ControlIn {
    /// No answer: the transfer is left alone.
    Ignored,
    BitTimingConst(DeviceBitTimingConst),
    DeviceConfig(DeviceConfig),
    BitTimingConstExt(DeviceBitTimingConstExtended),
    State(DeviceState),
}

impl ControlIn {
    /// The bytes of the answer; none where there is no answer.
    pub open spec fn wire(self) -> Seq<u8> {
        match self {
            ControlIn::Ignored => Seq::empty(),
            ControlIn::BitTimingConst(record) => record.wire(),
            ControlIn::DeviceConfig(record) => record.wire(),
            ControlIn::BitTimingConstExt(record) => record.wire(),
            ControlIn::State(record) => record.wire(),
        }
    }

    /// Whether this is the kind of answer that the query asks for.
    pub open spec fn answers(self, query: Query) -> bool {
        match query {
            Query::Ignore => self is Ignored,
            Query::BitTimingConst => self is BitTimingConst,
            Query::DeviceConfig => self is DeviceConfig,
            Query::BitTimingConstExt => self is BitTimingConstExt,
            Query::State { interface } => self is State,
        }
    }

    /// Writes the answer's bytes to the start of `buf` and returns their
    /// number.
    pub fn write(&self, buf: &mut [u8; 72]) -> (n: usize)
        ensures
            n == self.wire().len(),
            n <= 72,
            final(buf)@ == self.wire() + old(buf)@.subrange(n as int, 72),
    {
        match self {
            ControlIn::Ignored => {
                assert(buf@ =~= self.wire() + old(buf)@.subrange(0, 72));
                0
            },
            ControlIn::BitTimingConst(record) => {
                let bytes = record.to_bytes();
                copy_into(buf, bytes.as_slice());
                40
            },
            ControlIn::DeviceConfig(record) => {
                let bytes = record.to_bytes();
                copy_into(buf, bytes.as_slice());
                12
            },
            ControlIn::BitTimingConstExt(record) => {
                let bytes = record.to_bytes();
                copy_into(buf, bytes.as_slice());
                72
            },
            ControlIn::State(record) => {
                let bytes = record.to_bytes();
                copy_into(buf, bytes.as_slice());
                12
            },
        }
    }
}

/// Geschwister Schneider USB device.
pub struct GsCan<D: Device> {
    pub device: D,
    interface_fd: [bool; 3],
    /// Frames waiting to be sent to the host
    out_queue: Queue<Frame, 65>,
    /// A frame half sent to the host
    out_frame: Option<Frame>,
    /// A frame half sent from the host
    in_frame: Option<Frame>,
}

impl<D: Device> View for GsCan<D> {
    type V = State;

    closed spec fn view(&self) -> State {
        State {
            fd: self.interface_fd@,
            backlog: queued(self.out_queue),
            half_sent: self.out_frame,
            assembling: self.in_frame,
        }
    }
}

impl<D: Device> GsCan<D> {
    /// The CAN device that the class drives.
    pub closed spec fn controller(&self) -> D {
        self.device
    }

    /// Creates a new class instance around the device: nothing waits and
    /// no interface is in FD mode.
    pub fn new(device: D) -> (r: Self)
        ensures
            r@ == State::initial(),
            r@.wf(),
            r.controller() == device,
    {
        let r = GsCan {
            device,
            interface_fd: [false;3],
            out_queue: queue_new(),
            out_frame: None,
            in_frame: None,
        };
        assert(r.interface_fd@ =~= seq![false, false, false]);
        r
    }

    /// Whether `interface` was started in FD mode. An interface beyond the
    /// last never was.
    pub fn is_fd(&self, interface: u8) -> (r: bool)
        ensures
            r == (interface < MAX_INTF && self@.fd[interface as int]),
    {
        interface < 3 && self.interface_fd[interface as usize]
    }

    /// Number of frames that wait in the backlog.
    pub fn queue_len(&self) -> (r: usize)
        ensures
            r == self@.backlog.len(),
    {
        queue_len(&self.out_queue)
    }

    /// Whether a frame is half sent.
    pub fn is_half_sent(&self) -> (r: bool)
        ensures
            r == self@.half_sent.is_some(),
    {
        self.out_frame.is_some()
    }

    /// Whether a frame from the host awaits its second packet.
    pub fn is_assembling(&self) -> (r: bool)
        ensures
            r == self@.assembling.is_some(),
    {
        self.in_frame.is_some()
    }

    /// Offers a frame for sending to the host. With no frame half sent the
    /// frame comes back in `Offer::Write`: its first packet is to be
    /// written now, and `written` takes the report. Otherwise the frame
    /// goes to the tail of the backlog, or is lost where the backlog is
    /// full.
    pub fn offer(&mut self, frame: Frame) -> (r: Offer)
        requires
            old(self)@.wf(),
        ensures
            (final(self)@, r) == old(self)@.offer(frame),
            final(self)@.wf(),
            final(self).controller() == old(self).controller(),
    {
        if self.out_frame.is_none() {
            Offer::Write(frame)
        } else {
            match queue_enqueue(&mut self.out_queue, frame) {
                Ok(_) => Offer::Queued,
                Err(_) => Offer::Dropped,
            }
        }
    }

    /// Takes the report on the write of an offered frame's first packet.
    /// Written, a frame with the FD flag is now the half-sent frame and a
    /// frame without it is sent. Not written, it goes to the tail of the
    /// backlog, or is lost where the backlog is full.
    pub fn written(&mut self, frame: Frame, ok: bool) -> (r: Stored)
        requires
            old(self)@.wf(),
        ensures
            (final(self)@, r) == old(self)@.written(frame, ok),
            final(self)@.wf(),
            final(self).controller() == old(self).controller(),
    {
        if ok && self.out_frame.is_none() {
            if frame.is_fd() {
                self.out_frame = Some(frame);
                Stored::HalfSent
            } else {
                Stored::Sent
            }
        } else {
            match queue_enqueue(&mut self.out_queue, frame) {
                Ok(_) => Stored::Queued,
                Err(_) => Stored::Dropped,
            }
        }
    }

    /// Send a CAN frame from the bus to the host: makes the frame that
    /// carries it and offers that frame. Arguments that describe no frame
    /// are rejected and change nothing.
    pub fn transmit(
        &mut self,
        interface: u16,
        id: Id,
        remote: bool,
        dlc: usize,
        data: &[u8],
        flags: FrameFlag,
    ) -> (r: Transmit)
        requires
            old(self)@.wf(),
        ensures
            final(self)@.wf(),
            final(self).controller() == old(self).controller(),
            r is Rejected <==> !Frame::bus_frame_ok(interface, id, remote, dlc, data@),
            r is Rejected ==> final(self)@ == old(self)@,
            r matches Transmit::Offered(frame, offer) ==> {
                &&& frame.is_from_bus(interface, id, remote, dlc, data@, flags)
                &&& (final(self)@, offer) == old(self)@.offer(frame)
            },
    {
        match Frame::from_bus(interface, id, remote, dlc, data, flags) {
            Some(frame) => {
                let offer = self.offer(frame);
                Transmit::Offered(frame, offer)
            },
            None => Transmit::Rejected,
        }
    }

    /// The packet to write to the bulk IN endpoint now, if there is one:
    /// the second packet of the half-sent frame, else the first packet of
    /// the oldest frame that waits. `sent` takes the report on the write.
    pub fn poll(&self) -> (r: Option<Packet>)
        ensures
            match r {
                Some(packet) => self@.next_packet() == Some(packet.bytes()),
                None => self@.next_packet() is None,
            },
    {
        match self.out_frame {
            Some(frame) => Some(Packet::Second(frame.second_packet())),
            None => match queue_peek(&self.out_queue) {
                Some(frame) => Some(Packet::First(frame.first_packet())),
                None => None,
            },
        }
    }

    /// Takes the report on the write of the packet that `poll` gave.
    pub fn sent(&mut self, ok: bool)
        requires
            old(self)@.wf(),
        ensures
            final(self)@ == old(self)@.sent(ok),
            final(self)@.wf(),
            final(self).controller() == old(self).controller(),
    {
        if !ok {
            return ;
        }
        if self.out_frame.is_some() {
            self.out_frame = None;
        } else {
            match queue_dequeue(&mut self.out_queue) {
                Some(frame) => {
                    if frame.is_fd() {
                        self.out_frame = Some(frame);
                    }
                },
                None => {},
            }
        }
    }

    /// Takes a packet from the bulk OUT endpoint into the frame under
    /// assembly.
    pub fn assemble(&mut self, packet: &[u8]) -> (r: Assembled)
        requires
            old(self)@.wf(),
        ensures
            old(self)@.assembled(packet@, final(self)@, r),
            r matches Assembled::Complete(frame) ==> frame.interface < MAX_INTF && frame.echo_id == 0,
            final(self)@.wf(),
            final(self).controller() == old(self).controller(),
    {
        match self.in_frame {
            None => {
                match Frame::from_first_packet(packet) {
                    None => Assembled::Refused(Error::PacketTooLong),
                    Some(frame) => {
                        proof {
                            assert(frame.wire()[9] == frame.interface);
                        }
                        if frame.interface >= 3 {
                            Assembled::Refused(Error::InvalidInterface)
                        } else if self.interface_fd[frame.interface as usize] {
                            self.in_frame = Some(frame);
                            Assembled::Partial
                        } else {
                            let mut whole = frame;
                            whole.echo_id = 0;
                            proof {
                                lemma_le_bytes_zero();
                                assert(whole.wire() =~= completed(frame.wire()));
                            }
                            Assembled::Complete(whole)
                        }
                    },
                }
            },
            Some(partial) => {
                self.in_frame = None;
                match partial.with_second_packet(packet) {
                    None => Assembled::Refused(Error::PacketTooLong),
                    Some(frame) => {
                        let mut whole = frame;
                        whole.echo_id = 0;
                        proof {
                            lemma_le_bytes_zero();
                            assert(whole.wire() =~= completed(frame.wire()));
                            assert(frame.wire()[9] == frame.interface);
                            assert(partial.wire()[9] == partial.interface);
                        }
                        Assembled::Complete(whole)
                    },
                }
            },
        }
    }

    /// Ends the delivery of a whole frame: a frame that the device took is
    /// offered for the echo, one that it did not take is dropped.
    pub fn delivered(&mut self, frame: Frame, result: Result<(), Error>) -> (r: BulkOut)
        requires
            old(self)@.wf(),
        ensures
            final(self)@.wf(),
            final(self).controller() == old(self).controller(),
            match result {
                Ok(_) => r == BulkOut::Echo(frame, old(self)@.offer(frame).1) && final(self)@
                    == old(self)@.offer(frame).0,
                Err(e) => r == BulkOut::Failed(frame, e) && final(self)@ == old(self)@,
            },
    {
        match result {
            Ok(_) => {
                let offer = self.offer(frame);
                BulkOut::Echo(frame, offer)
            },
            Err(e) => BulkOut::Failed(frame, e),
        }
    }

    /// Handles a packet from the bulk OUT endpoint: takes it into the
    /// frame under assembly and, once the frame is whole, hands the frame
    /// to the device and ends the delivery.
    pub fn endpoint_out(&mut self, packet: &[u8]) -> (r: BulkOut)
        requires
            old(self)@.wf(),
        ensures
            final(self)@.wf(),
            match r {
                BulkOut::Refused(e) => old(self)@.assembled(
                    packet@,
                    final(self)@,
                    Assembled::Refused(e),
                ) && final(self).controller() == old(self).controller(),
                BulkOut::Partial => old(self)@.assembled(packet@, final(self)@, Assembled::Partial)
                    && final(self).controller() == old(self).controller(),
                BulkOut::Failed(frame, e) => old(self)@.assembled(
                    packet@,
                    final(self)@,
                    Assembled::Complete(frame),
                ),
                BulkOut::Echo(frame, offer) => {
                    let whole = (State { assembling: None, ..old(self)@ });
                    &&& old(self)@.assembled(packet@, whole, Assembled::Complete(frame))
                    &&& (final(self)@, offer) == whole.offer(frame)
                },
            },
    {
        match self.assemble(packet) {
            Assembled::Refused(e) => BulkOut::Refused(e),
            Assembled::Partial => BulkOut::Partial,
            Assembled::Complete(frame) => {
                let ghost whole = self@;
                assert(whole == (State { assembling: None, ..old(self)@ }));
                let result = self.device.receive(frame.interface, &frame);
                assert(self@ == whole);
                self.delivered(frame, result)
            },
        }
    }

    /// Handles a control transfer to the host: asks the device for the
    /// record that the request names. A request that is not of vendor
    /// type, or that the class does not answer, gets no answer.
    pub fn control_in(&self, request: &Request) -> (r: ControlIn)
        ensures
            r.answers(request.query()),
    {
        match request.decode_in() {
            Query::Ignore => ControlIn::Ignored,
            Query::BitTimingConst => ControlIn::BitTimingConst(self.device.bit_timing()),
            Query::DeviceConfig => ControlIn::DeviceConfig(self.device.config()),
            Query::BitTimingConstExt => ControlIn::BitTimingConstExt(self.device.bit_timing_ext()),
            Query::State { interface } => ControlIn::State(self.device.state(interface)),
        }
    }

    /// Carries out what a control transfer from the host asks for, and
    /// says how the transfer ends. A reset or start of an interface beyond
    /// the last is refused like any other malformed request.
    pub fn execute(&mut self, command: Command) -> (r: ControlOut)
        requires
            old(self)@.wf(),
        ensures
            r == command.outcome(),
            final(self)@ == old(self)@.apply(command),
            final(self)@.wf(),
            !command.calls_device() ==> final(self).controller() == old(self).controller(),
    {
        match command {
            Command::Ignore => ControlOut::Ignored,
            Command::Reject => ControlOut::Rejected,
            Command::Accept => ControlOut::Accepted,
            Command::SetBitTiming { interface, timing } => {
                self.device.configure_bit_timing(interface, timing);
                ControlOut::Accepted
            },
            Command::SetBitTimingData { interface, timing } => {
                self.device.configure_bit_timing_data(interface, timing);
                ControlOut::Accepted
            },
            Command::Reset { interface } => {
                if interface >= 3 {
                    return ControlOut::Rejected;
                }
                self.interface_fd[interface as usize] = false;
                self.device.reset(interface);
                ControlOut::Accepted
            },
            Command::Start { interface, flags } => {
                if interface >= 3 {
                    return ControlOut::Rejected;
                }
                self.interface_fd[interface as usize] = flags.intersects(
                    Feature::from_bits_retain(Feature::FD),
                );
                self.device.start(interface, flags);
                ControlOut::Accepted
            },
        }
    }

    /// Handles a control transfer from the host. A transfer that is
    /// refused or left to another layer changes nothing and does not reach
    /// the device.
    pub fn control_out(&mut self, request: &Request, data: &[u8]) -> (r: ControlOut)
        requires
            old(self)@.wf(),
        ensures
            r == request.command(data@).outcome(),
            final(self)@ == old(self)@.apply(request.command(data@)),
            final(self)@.wf(),
            r != ControlOut::Accepted ==> final(self)@ == old(self)@ && final(self).controller()
                == old(self).controller(),
            !request.command(data@).calls_device() ==> final(self).controller() == old(self).controller(),
    {
        let command = request.decode_out(data);
        self.execute(command)
    }

    /// Protocol reset: no interface is in FD mode any more, and every
    /// frame that waited, was half sent or half received is gone.
    pub fn reset(&mut self)
        ensures
            final(self)@ == State::initial(),
            final(self)@.wf(),
            final(self).controller() == old(self).controller(),
    {
        self.interface_fd = [false;3];
        self.out_queue = queue_new();
        self.out_frame = None;
        self.in_frame = None;
        assert(self.interface_fd@ =~= seq![false, false, false]);
    }
}

} // verus!
