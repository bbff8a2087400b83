//! The code that stands for a payload's length.

use vstd::prelude::*;

verus! {

/// The payload length that a data length code stands for, where the code
/// is one of the sixteen that exist.
pub open spec fn dlc_len(dlc: int) -> Option<int> {
    if 0 <= dlc <= 8 {
        Some(dlc)
    } else if dlc == 9 {
        Some(12)
    } else if dlc == 10 {
        Some(16)
    } else if dlc == 11 {
        Some(20)
    } else if dlc == 12 {
        Some(24)
    } else if dlc == 13 {
        Some(32)
    } else if dlc == 14 {
        Some(48)
    } else if dlc == 15 {
        Some(64)
    } else {
        None
    }
}

/// Whether a payload of `len` bytes has a data length code.
pub open spec fn is_frame_len(len: int) -> bool {
    0 <= len <= 8 || len == 12 || len == 16 || len == 20 || len == 24 || len == 32 || len == 48
        || len == 64
}

/// The data length code that stands for a payload length, where one does.
pub open spec fn len_dlc(len: int) -> Option<int> {
    if 0 <= len <= 8 {
        Some(len)
    } else if len == 12 {
        Some(9)
    } else if len == 16 {
        Some(10)
    } else if len == 20 {
        Some(11)
    } else if len == 24 {
        Some(12)
    } else if len == 32 {
        Some(13)
    } else if len == 48 {
        Some(14)
    } else if len == 64 {
        Some(15)
    } else {
        None
    }
}

/// Get the data length for a given DLC.
pub fn fd_dlc_to_len(dlc: usize) -> (len: Option<usize>)
    ensures
        dlc_len(dlc as int) == match len {
            Some(l) => Some(l as int),
            None => None,
        },
        len is Some <==> dlc <= 15,
{
    if dlc <= 8 {
        Some(dlc)
    } else if dlc == 9 {
        Some(12)
    } else if dlc == 10 {
        Some(16)
    } else if dlc == 11 {
        Some(20)
    } else if dlc == 12 {
        Some(24)
    } else if dlc == 13 {
        Some(32)
    } else if dlc == 14 {
        Some(48)
    } else if dlc == 15 {
        Some(64)
    } else {
        None
    }
}

/// Get the DLC for a given data length. A length that no code stands for
/// gives `None`.
pub fn fd_len_to_dlc(len: usize) -> (dlc: Option<u8>)
    ensures
        len_dlc(len as int) == match dlc {
            Some(d) => Some(d as int),
            None => None,
        },
        dlc is Some <==> is_frame_len(len as int),
{
    if len <= 8 {
        Some(len as u8)
    } else if len == 12 {
        Some(9)
    } else if len == 16 {
        Some(10)
    } else if len == 20 {
        Some(11)
    } else if len == 24 {
        Some(12)
    } else if len == 32 {
        Some(13)
    } else if len == 48 {
        Some(14)
    } else if len == 64 {
        Some(15)
    } else {
        None
    }
}

/// Decoding a data length code and encoding the length again gives the
/// code back, for each of the sixteen codes.
pub proof fn lemma_dlc_round_trip(dlc: int)
    requires
        0 <= dlc <= 15,
    ensures
        dlc_len(dlc) is Some,
        is_frame_len(dlc_len(dlc)->Some_0),
        len_dlc(dlc_len(dlc)->Some_0) == Some(dlc),
{
}

/// Encoding a payload length and decoding the code again gives the length
/// back, for each length that has a code.
pub proof fn lemma_len_round_trip(len: int)
    requires
        is_frame_len(len),
    ensures
        len_dlc(len) is Some,
        0 <= len_dlc(len)->Some_0 <= 15,
        dlc_len(len_dlc(len)->Some_0) == Some(len),
{
}

/// A length has a code exactly when it is one of the lengths of the table,
/// and no other number is a code.
pub proof fn lemma_codec_domains(n: int)
    ensures
        len_dlc(n) is Some <==> is_frame_len(n),
        dlc_len(n) is Some <==> 0 <= n <= 15,
{
}

} // verus!
