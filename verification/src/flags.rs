//! The bit-flag sets of the wire format.

use vstd::prelude::*;

verus! {

/// Features flags that can be advertised by the device.
#[derive(Clone, Copy, Debug, PartialEq, Eq, Structural)]
pub struct Feature {
    pub bits: u32,
}

/// The bits of a `Feature` that have a meaning: bits 0 to 13.
pub const FEATURE_MASK: u32 = 0x3fff;

impl Feature {
    pub const LISTEN_ONLY: u32 = 0x0001;

    pub const LOOP_BACK: u32 = 0x0002;

    pub const TRIPLE_SAMPLE: u32 = 0x0004;

    pub const ONE_SHOT: u32 = 0x0008;

    pub const HW_TIMESTAMP: u32 = 0x0010;

    pub const IDENTIFY: u32 = 0x0020;

    pub const USER_ID: u32 = 0x0040;

    pub const PAD_PKTS_TO_MAX_PKT_SIZE: u32 = 0x0080;

    pub const FD: u32 = 0x0100;

    pub const REQ_USB_QUIRK_LPC546XX: u32 = 0x0200;

    pub const BT_CONST_EXT: u32 = 0x0400;

    pub const TERMINATION: u32 = 0x0800;

    pub const BUS_ERROR_REPORTING: u32 = 0x1000;

    pub const GET_STATE: u32 = 0x2000;

    /// Whether the two sets share a flag.
    pub open spec fn spec_intersects(self, other: Feature) -> bool {
        self.bits & other.bits != 0
    }

    /// Whether every flag of `other` is in this set.
    pub open spec fn spec_contains(self, other: Feature) -> bool {
        self.bits & other.bits == other.bits
    }

    /// The set without any flag.
    pub fn empty() -> (r: Feature)
        ensures
            r.bits == 0,
    {
        Feature { bits: 0 }
    }

    /// The set of all the flags that have a meaning.
    pub fn all() -> (r: Feature)
        ensures
            r.bits == FEATURE_MASK,
    {
        Feature { bits: FEATURE_MASK }
    }

    /// The underlying bits.
    pub fn bits(&self) -> (r: u32)
        ensures
            r == self.bits,
    {
        self.bits
    }

    /// The set with exactly these bits, where each of them has a meaning.
    pub fn from_bits(bits: u32) -> (r: Option<Feature>)
        ensures
            r == if bits & !FEATURE_MASK == 0 {
                Some(Feature { bits })
            } else {
                None
            },
    {
        if bits & !FEATURE_MASK == 0 {
            Some(Feature { bits })
        } else {
            None
        }
    }

    /// The set of those of these bits that have a meaning.
    pub fn from_bits_truncate(bits: u32) -> (r: Feature)
        ensures
            r.bits == bits & FEATURE_MASK,
    {
        Feature { bits: bits & FEATURE_MASK }
    }

    /// The set with exactly these bits, with or without a meaning.
    pub fn from_bits_retain(bits: u32) -> (r: Feature)
        ensures
            r.bits == bits,
    {
        Feature { bits }
    }

    /// Whether no flag is set.
    pub fn is_empty(&self) -> (r: bool)
        ensures
            r == (self.bits == 0),
    {
        self.bits == 0
    }

    /// Whether the two sets share a flag.
    pub fn intersects(&self, other: Feature) -> (r: bool)
        ensures
            r == self.spec_intersects(other),
    {
        self.bits & other.bits != 0
    }

    /// Whether every flag of `other` is in this set.
    pub fn contains(&self, other: Feature) -> (r: bool)
        ensures
            r == self.spec_contains(other),
    {
        self.bits & other.bits == other.bits
    }

    /// The flags of either set.
    pub fn union(self, other: Feature) -> (r: Feature)
        ensures
            r.bits == self.bits | other.bits,
    {
        Feature { bits: self.bits | other.bits }
    }

    /// The flags of both sets.
    pub fn intersection(self, other: Feature) -> (r: Feature)
        ensures
            r.bits == self.bits & other.bits,
    {
        Feature { bits: self.bits & other.bits }
    }

    /// The flags of this set that are not in `other`.
    pub fn difference(self, other: Feature) -> (r: Feature)
        ensures
            r.bits == self.bits & !other.bits,
    {
        Feature { bits: self.bits & !other.bits }
    }
}

/// Frame flags.
#[derive(Clone, Copy, Debug, PartialEq, Eq, Structural)]
pub struct FrameFlag {
    pub bits: u8,
}

/// The bits of a `FrameFlag` that have a meaning: bits 0 to 3.
pub const FRAME_FLAG_MASK: u8 = 0x0f;

impl FrameFlag {
    /// Receive/transmit overflow.
    pub const OVERFLOW: u8 = 0x01;

    /// FD type frame.
    pub const FD: u8 = 0x02;

    /// FD bit rate switching in use.
    pub const BIT_RATE_SWITCH: u8 = 0x04;

    /// FD error state indicator.
    pub const ERROR_STATE_INDICATOR: u8 = 0x08;

    /// Whether the two sets share a flag.
    pub open spec fn spec_intersects(self, other: FrameFlag) -> bool {
        self.bits & other.bits != 0
    }

    /// Whether every flag of `other` is in this set.
    pub open spec fn spec_contains(self, other: FrameFlag) -> bool {
        self.bits & other.bits == other.bits
    }

    /// The set without any flag.
    pub fn empty() -> (r: FrameFlag)
        ensures
            r.bits == 0,
    {
        FrameFlag { bits: 0 }
    }

    /// The set of all the flags that have a meaning.
    pub fn all() -> (r: FrameFlag)
        ensures
            r.bits == FRAME_FLAG_MASK,
    {
        FrameFlag { bits: FRAME_FLAG_MASK }
    }

    /// The underlying bits.
    pub fn bits(&self) -> (r: u8)
        ensures
            r == self.bits,
    {
        self.bits
    }

    /// The set with exactly these bits, where each of them has a meaning.
    pub fn from_bits(bits: u8) -> (r: Option<FrameFlag>)
        ensures
            r == if bits & !FRAME_FLAG_MASK == 0 {
                Some(FrameFlag { bits })
            } else {
                None
            },
    {
        if bits & !FRAME_FLAG_MASK == 0 {
            Some(FrameFlag { bits })
        } else {
            None
        }
    }

    /// The set of those of these bits that have a meaning.
    pub fn from_bits_truncate(bits: u8) -> (r: FrameFlag)
        ensures
            r.bits == bits & FRAME_FLAG_MASK,
    {
        FrameFlag { bits: bits & FRAME_FLAG_MASK }
    }

    /// The set with exactly these bits, with or without a meaning.
    pub fn from_bits_retain(bits: u8) -> (r: FrameFlag)
        ensures
            r.bits == bits,
    {
        FrameFlag { bits }
    }

    /// Whether no flag is set.
    pub fn is_empty(&self) -> (r: bool)
        ensures
            r == (self.bits == 0),
    {
        self.bits == 0
    }

    /// Whether the two sets share a flag.
    pub fn intersects(&self, other: FrameFlag) -> (r: bool)
        ensures
            r == self.spec_intersects(other),
    {
        self.bits & other.bits != 0
    }

    /// Whether every flag of `other` is in this set.
    pub fn contains(&self, other: FrameFlag) -> (r: bool)
        ensures
            r == self.spec_contains(other),
    {
        self.bits & other.bits == other.bits
    }

    /// The flags of either set.
    pub fn union(self, other: FrameFlag) -> (r: FrameFlag)
        ensures
            r.bits == self.bits | other.bits,
    {
        FrameFlag { bits: self.bits | other.bits }
    }
}

/// Identifier flags.
#[derive(Clone, Copy, Debug, PartialEq, Eq, Structural)]
pub struct IdFlag {
    pub bits: u32,
}

/// The bits of an `IdFlag` that have a meaning: the top three.
pub const ID_FLAG_MASK: u32 = 0xe000_0000;

impl IdFlag {
    /// Extended frame.
    pub const EXTENDED: u32 = 0x8000_0000;

    /// Remote frame.
    pub const REMOTE: u32 = 0x4000_0000;

    /// Error frame.
    pub const ERROR: u32 = 0x2000_0000;

    /// Whether the two sets share a flag.
    pub open spec fn spec_intersects(self, other: IdFlag) -> bool {
        self.bits & other.bits != 0
    }

    /// The set without any flag.
    pub fn empty() -> (r: IdFlag)
        ensures
            r.bits == 0,
    {
        IdFlag { bits: 0 }
    }

    /// The set of all the flags that have a meaning.
    pub fn all() -> (r: IdFlag)
        ensures
            r.bits == ID_FLAG_MASK,
    {
        IdFlag { bits: ID_FLAG_MASK }
    }

    /// The underlying bits.
    pub fn bits(&self) -> (r: u32)
        ensures
            r == self.bits,
    {
        self.bits
    }

    /// The set of those of these bits that have a meaning.
    pub fn from_bits_truncate(bits: u32) -> (r: IdFlag)
        ensures
            r.bits == bits & ID_FLAG_MASK,
    {
        IdFlag { bits: bits & ID_FLAG_MASK }
    }

    /// Whether the two sets share a flag.
    pub fn intersects(&self, other: IdFlag) -> (r: bool)
        ensures
            r == self.spec_intersects(other),
    {
        self.bits & other.bits != 0
    }

    /// The flags of either set.
    pub fn union(self, other: IdFlag) -> (r: IdFlag)
        ensures
            r.bits == self.bits | other.bits,
    {
        IdFlag { bits: self.bits | other.bits }
    }
}

} // verus!
