//! The vendor control requests and what each of them asks for.

use crate::flags::Feature;
use crate::host::{DeviceBitTiming, DeviceMode, HostConfig, LITTLE_ENDIAN_MARK};
use vstd::prelude::*;

verus! {

/// The host announces its byte order.
pub const REQ_HOST_FORMAT: u8 = 0;

/// The host sets the nominal bit timing of an interface.
pub const REQ_BIT_TIMING: u8 = 1;

/// The host resets or starts an interface.
pub const REQ_MODE: u8 = 2;

/// Bus error reporting; not handled by the class.
pub const REQ_BUS_ERROR: u8 = 3;

/// The host asks for the bit timing ranges.
pub const REQ_BIT_TIMING_CONST: u8 = 4;

/// The host asks for the device configuration.
pub const REQ_DEVICE_CONFIG: u8 = 5;

/// The host asks for the timestamp; not handled by the class.
pub const REQ_TIMESTAMP: u8 = 6;

/// The host switches identification; not handled by the class.
pub const REQ_IDENTIFY: u8 = 7;

/// The host asks for the user id; not handled by the class.
pub const REQ_GET_USER_ID: u8 = 8;

/// The host sets the user id; not handled by the class.
pub const REQ_SET_USER_ID: u8 = 9;

/// The host sets the data-phase bit timing of an interface.
pub const REQ_BIT_TIMING_DATA: u8 = 10;

/// The host asks for the nominal and data-phase bit timing ranges.
pub const REQ_BIT_TIMING_CONST_EXT: u8 = 11;

/// The host switches the termination; not handled by the class.
pub const REQ_SET_TERMINATION: u8 = 12;

/// The host asks for the termination; not handled by the class.
pub const REQ_GET_TERMINATION: u8 = 13;

/// The host asks for the bus state of an interface.
pub const REQ_GET_STATE: u8 = 14;

/// Maximum number of interfaces. Defined in the Linux driver.
pub const MAX_INTF: usize = 3;

/// The kind of a control request, as its setup packet gives it.
#[derive(Clone, Copy, Debug, PartialEq, Eq, Structural)]
pub enum RequestType {
    Standard,
    Class,
    Vendor,
    Reserved,
}

/// What the dispatcher reads of a control request's setup packet.
#[derive(Clone, Copy, Debug, PartialEq, Eq, Structural)]
pub struct Request {
    pub request_type: RequestType,
    pub request: u8,
    pub value: u16,
}

/// What a control transfer from the host asks the class to do.
#[derive(Clone, Copy, Debug, PartialEq, Eq, Structural)]
pub enum Command {
    /// Not a vendor request: it belongs to another layer.
    Ignore,
    /// Refuse the transfer and do nothing.
    Reject,
    /// Accept the transfer and do nothing.
    Accept,
    /// Hand the nominal bit timing to the device.
    SetBitTiming { interface: u8, timing: DeviceBitTiming },
    /// Hand the data-phase bit timing to the device.
    SetBitTimingData { interface: u8, timing: DeviceBitTiming },
    /// Reset the interface and forget its FD mode.
    Reset { interface: u8 },
    /// Record the interface's FD mode and start it with these features.
    Start { interface: u8, flags: Feature },
}

/// What a control transfer to the host asks the class for.
#[derive(Clone, Copy, Debug, PartialEq, Eq, Structural)]
pub enum Query {
    /// Not a vendor request, or one that the class does not answer.
    Ignore,
    BitTimingConst,
    DeviceConfig,
    BitTimingConstExt,
    State { interface: u8 },
}

/// How the class ends a control transfer from the host.
#[derive(Clone, Copy, Debug, PartialEq, Eq, Structural)]
pub enum ControlOut {
    /// The transfer was left to the other layers.
    Ignored,
    Accepted,
    Rejected,
}

/// The interface that a request's `value` names to the device: its low
/// byte.
pub open spec fn interface_of(value: u16) -> u8 {
    (value & 0xff) as u8
}

/// The interface that a request's `value` names to the device.
pub fn interface_number(value: u16) -> (r: u8)
    ensures
        r == interface_of(value),
{
    let low: u16 = value & 0xff;
    assert(value & 0xff < 256) by (bit_vector);
    low as u8
}

impl Command {
    /// Whether the interface of a reset or a start exists.
    pub open spec fn valid(self) -> bool {
        match self {
            Command::Reset { interface } => interface < MAX_INTF,
            Command::Start { interface, flags } => interface < MAX_INTF,
            _ => true,
        }
    }

    /// How a transfer that asked for this ends.
    pub open spec fn outcome(self) -> ControlOut {
        if !self.valid() {
            ControlOut::Rejected
        } else {
            match self {
                Command::Ignore => ControlOut::Ignored,
                Command::Reject => ControlOut::Rejected,
                _ => ControlOut::Accepted,
            }
        }
    }

    /// Whether carrying this out calls the device.
    pub open spec fn calls_device(self) -> bool {
        self.valid() && !(self is Ignore || self is Reject || self is Accept)
    }
}

impl Request {
    /// What a transfer from the host with this setup packet and the
    /// payload `data` asks for.
    ///
    /// A payload of another length than the record's, a byte order other
    /// than little endian, a mode that is neither reset nor start, a mode
    /// for an interface beyond the last, and a request that the class does
    /// not know are all refused.
    pub open spec fn command(self, data: Seq<u8>) -> Command {
        if self.request_type != RequestType::Vendor {
            Command::Ignore
        } else if self.request == REQ_HOST_FORMAT {
            match HostConfig::parse(data) {
                Some(config) => if config.byte_order == LITTLE_ENDIAN_MARK {
                    Command::Accept
                } else {
                    Command::Reject
                },
                None => Command::Reject,
            }
        } else if self.request == REQ_BIT_TIMING {
            match DeviceBitTiming::parse(data) {
                Some(timing) => Command::SetBitTiming {
                    interface: interface_of(self.value),
                    timing,
                },
                None => Command::Reject,
            }
        } else if self.request == REQ_MODE {
            match DeviceMode::parse(data) {
                Some(mode) => if self.value >= MAX_INTF {
                    Command::Reject
                } else if mode.mode == 0 {
                    Command::Reset { interface: self.value as u8 }
                } else if mode.mode == 1 {
                    Command::Start { interface: self.value as u8, flags: mode.flags }
                } else {
                    Command::Reject
                },
                None => Command::Reject,
            }
        } else if self.request == REQ_BIT_TIMING_DATA {
            match DeviceBitTiming::parse(data) {
                Some(timing) => Command::SetBitTimingData {
                    interface: interface_of(self.value),
                    timing,
                },
                None => Command::Reject,
            }
        } else {
            Command::Reject
        }
    }

    /// What a transfer to the host with this setup packet asks for.
    pub open spec fn query(self) -> Query {
        if self.request_type != RequestType::Vendor {
            Query::Ignore
        } else if self.request == REQ_BIT_TIMING_CONST {
            Query::BitTimingConst
        } else if self.request == REQ_DEVICE_CONFIG {
            Query::DeviceConfig
        } else if self.request == REQ_BIT_TIMING_CONST_EXT {
            Query::BitTimingConstExt
        } else if self.request == REQ_GET_STATE {
            Query::State { interface: interface_of(self.value) }
        } else {
            Query::Ignore
        }
    }

    /// Whether the request is of vendor type.
    pub fn is_vendor(&self) -> (r: bool)
        ensures
            r == (self.request_type == RequestType::Vendor),
    {
        match self.request_type {
            RequestType::Vendor => true,
            _ => false,
        }
    }

    /// Reads what a transfer from the host asks for.
    pub fn decode_out(&self, data: &[u8]) -> (c: Command)
        ensures
            c == self.command(data@),
    {
        if !self.is_vendor() {
            return Command::Ignore;
        }
        if self.request == REQ_HOST_FORMAT {
            match HostConfig::from_bytes(data) {
                Some(config) => {
                    if config.is_little_endian() {
                        Command::Accept
                    } else {
                        Command::Reject
                    }
                },
                None => Command::Reject,
            }
        } else if self.request == REQ_BIT_TIMING {
            match DeviceBitTiming::from_bytes(data) {
                Some(timing) => Command::SetBitTiming {
                    interface: interface_number(self.value),
                    timing,
                },
                None => Command::Reject,
            }
        } else if self.request == REQ_MODE {
            match DeviceMode::from_bytes(data) {
                Some(mode) => {
                    if self.value >= 3 {
                        Command::Reject
                    } else if mode.mode == 0 {
                        Command::Reset { interface: self.value as u8 }
                    } else if mode.mode == 1 {
                        Command::Start { interface: self.value as u8, flags: mode.flags }
                    } else {
                        Command::Reject
                    }
                },
                None => Command::Reject,
            }
        } else if self.request == REQ_BIT_TIMING_DATA {
            match DeviceBitTiming::from_bytes(data) {
                Some(timing) => Command::SetBitTimingData {
                    interface: interface_number(self.value),
                    timing,
                },
                None => Command::Reject,
            }
        } else {
            Command::Reject
        }
    }

    /// Reads what a transfer to the host asks for.
    pub fn decode_in(&self) -> (q: Query)
        ensures
            q == self.query(),
    {
        if !self.is_vendor() {
            Query::Ignore
        } else if self.request == REQ_BIT_TIMING_CONST {
            Query::BitTimingConst
        } else if self.request == REQ_DEVICE_CONFIG {
            Query::DeviceConfig
        } else if self.request == REQ_BIT_TIMING_CONST_EXT {
            Query::BitTimingConstExt
        } else if self.request == REQ_GET_STATE {
            Query::State { interface: interface_number(self.value) }
        } else {
            Query::Ignore
        }
    }
}

/// A payload that names any other byte order than little endian is
/// refused, and so is one that is not 4 bytes long.
pub proof fn lemma_host_format(request: Request, data: Seq<u8>)
    requires
        request.request_type == RequestType::Vendor,
        request.request == REQ_HOST_FORMAT,
    ensures
        request.command(data) == if data.len() == 4 && crate::wire::le_at(data, 0)
            == LITTLE_ENDIAN_MARK {
            Command::Accept
        } else {
            Command::Reject
        },
        request.command(data).outcome() != ControlOut::Ignored,
        !request.command(data).calls_device(),
{
}

/// A mode that is neither reset nor start is refused, whatever the
/// interface and the features, and the device is not called.
pub proof fn lemma_undefined_mode_rejected(request: Request, data: Seq<u8>)
    requires
        request.request_type == RequestType::Vendor,
        request.request == REQ_MODE,
        data.len() == 8,
        crate::wire::le_at(data, 0) > 1,
    ensures
        request.command(data) == Command::Reject,
        request.command(data).outcome() == ControlOut::Rejected,
        !request.command(data).calls_device(),
{
}

/// A request of any other type than vendor is left alone in both
/// directions; a vendor request that the class does not know is refused
/// from the host and gets no answer to the host.
pub proof fn lemma_unknown_requests(request: Request, data: Seq<u8>)
    ensures
        request.request_type != RequestType::Vendor ==> request.command(data) == Command::Ignore
            && request.query() == Query::Ignore,
        request.request_type == RequestType::Vendor && request.request != REQ_HOST_FORMAT
            && request.request != REQ_BIT_TIMING && request.request != REQ_MODE && request.request
            != REQ_BIT_TIMING_DATA ==> request.command(data) == Command::Reject,
        request.request_type == RequestType::Vendor && request.request != REQ_BIT_TIMING_CONST
            && request.request != REQ_DEVICE_CONFIG && request.request != REQ_BIT_TIMING_CONST_EXT
            && request.request != REQ_GET_STATE ==> request.query() == Query::Ignore,
{
}

} // verus!
