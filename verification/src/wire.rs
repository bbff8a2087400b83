//! Little-endian byte layout of the 32-bit fields of the wire records.

use vstd::prelude::*;

verus! {

/// The four bytes of `x`, least significant first.
pub open spec fn le_bytes(x: u32) -> Seq<u8> {
    seq![
        (x & 0xff) as u8,
        ((x >> 8) & 0xff) as u8,
        ((x >> 16) & 0xff) as u8,
        ((x >> 24) & 0xff) as u8,
    ]
}

/// The number whose bytes, least significant first, are `b0` to `b3`.
pub open spec fn le_value(b0: u8, b1: u8, b2: u8, b3: u8) -> u32 {
    (b0 as u32) | ((b1 as u32) << 8) | ((b2 as u32) << 16) | ((b3 as u32) << 24)
}

/// The number that stands in `s` at `at`, least significant byte first.
pub open spec fn le_at(s: Seq<u8>, at: int) -> u32 {
    le_value(s[at], s[at + 1], s[at + 2], s[at + 3])
}

/// `n` zero bytes.
pub open spec fn zeros(n: int) -> Seq<u8> {
    Seq::new(
        if n >= 0 {
            n as nat
        } else {
            0
        },
        |i: int| 0u8,
    )
}

/// The bytes of zero are zero.
pub proof fn lemma_le_bytes_zero()
    ensures
        le_bytes(0) == zeros(4),
{
    assert(0u32 & 0xff == 0 && (0u32 >> 8) & 0xff == 0 && (0u32 >> 16) & 0xff == 0 && (0u32 >> 24)
        & 0xff == 0) by (bit_vector);
    assert(le_bytes(0) =~= zeros(4));
}

/// Reading back the bytes of a number gives the number.
pub proof fn lemma_le_value_of_bytes(x: u32)
    ensures
        le_bytes(x).len() == 4,
        le_value(le_bytes(x)[0], le_bytes(x)[1], le_bytes(x)[2], le_bytes(x)[3]) == x,
{
    assert(((x & 0xff) as u8 as u32) | (((x >> 8) & 0xff) as u8 as u32) << 8 | (((x >> 16)
        & 0xff) as u8 as u32) << 16 | (((x >> 24) & 0xff) as u8 as u32) << 24 == x)
        by (bit_vector);
}

/// Writing out the number read from four bytes gives the four bytes.
pub proof fn lemma_le_bytes_of_value(b0: u8, b1: u8, b2: u8, b3: u8)
    ensures
        le_bytes(le_value(b0, b1, b2, b3)) == seq![b0, b1, b2, b3],
{
    let x = le_value(b0, b1, b2, b3);
    assert((x & 0xff) as u8 == b0 && ((x >> 8) & 0xff) as u8 == b1 && ((x >> 16) & 0xff) as u8
        == b2 && ((x >> 24) & 0xff) as u8 == b3) by (bit_vector)
        requires
            x == (b0 as u32) | ((b1 as u32) << 8) | ((b2 as u32) << 16) | ((b3 as u32) << 24),
    ;
    assert(le_bytes(x) =~= seq![b0, b1, b2, b3]);
}

/// Two numbers with the same bytes are the same number.
pub proof fn lemma_le_bytes_injective(x: u32, y: u32)
    requires
        le_bytes(x) == le_bytes(y),
    ensures
        x == y,
{
    lemma_le_value_of_bytes(x);
    lemma_le_value_of_bytes(y);
}

/// Writes `x` into `buf` at `at`, least significant byte first.
pub(crate) fn put_u32<const N: usize>(buf: &mut [u8; N], at: usize, x: u32)
    requires
        at + 4 <= N,
    ensures
        final(buf)@ == old(buf)@.subrange(0, at as int) + le_bytes(x) + old(buf)@.subrange(
            at + 4,
            N as int,
        ),
{
    let b0: u32 = x & 0xff;
    let b1: u32 = (x >> 8) & 0xff;
    let b2: u32 = (x >> 16) & 0xff;
    let b3: u32 = (x >> 24) & 0xff;
    assert(x & 0xff < 256 && (x >> 8) & 0xff < 256 && (x >> 16) & 0xff < 256 && (x >> 24) & 0xff
        < 256) by (bit_vector);
    buf[at] = b0 as u8;
    buf[at + 1] = b1 as u8;
    buf[at + 2] = b2 as u8;
    buf[at + 3] = b3 as u8;
    assert(buf@ =~= old(buf)@.subrange(0, at as int) + le_bytes(x) + old(buf)@.subrange(
        at + 4,
        N as int,
    ));
}

/// Reads the number that stands in `data` at `at`, least significant byte
/// first.
pub(crate) fn get_u32(data: &[u8], at: usize) -> (x: u32)
    requires
        at + 4 <= data@.len(),
    ensures
        x == le_at(data@, at as int),
        le_bytes(x) == data@.subrange(at as int, at + 4),
{
    let b0: u32 = data[at] as u32;
    let b1: u32 = data[at + 1] as u32;
    let b2: u32 = data[at + 2] as u32;
    let b3: u32 = data[at + 3] as u32;
    proof {
        lemma_le_bytes_of_value(data@[at as int], data@[at + 1], data@[at + 2], data@[at + 3]);
        assert(data@.subrange(at as int, at + 4) =~= seq![
            data@[at as int],
            data@[at + 1],
            data@[at + 2],
            data@[at + 3],
        ]);
    }
    b0 | (b1 << 8) | (b2 << 16) | (b3 << 24)
}

/// Copies `M` bytes of `src`, from `at` on.
pub(crate) fn take<const M: usize>(src: &[u8], at: usize) -> (out: [u8; M])
    requires
        at + M <= src@.len(),
    ensures
        out@ == src@.subrange(at as int, at + M),
{
    let n: usize = src.len();
    let mut out = [0u8;M];
    let mut i: usize = 0;
    while i < M
        invariant
            i <= M,
            at + M <= n,
            n == src@.len(),
            out@.subrange(0, i as int) == src@.subrange(at as int, at + i),
        decreases M - i,
    {
        out[i] = src[at + i];
        i += 1;
        assert(out@.subrange(0, i as int) =~= src@.subrange(at as int, at + i));
    }
    assert(out@.subrange(0, M as int) =~= out@);
    out
}

/// Copies `bytes` to the start of `buf`.
pub(crate) fn copy_into<const N: usize>(buf: &mut [u8; N], bytes: &[u8])
    requires
        bytes@.len() <= N,
    ensures
        final(buf)@ == bytes@ + old(buf)@.subrange(bytes@.len() as int, N as int),
{
    let n: usize = bytes.len();
    let mut i: usize = 0;
    while i < n
        invariant
            i <= n <= N,
            n == bytes@.len(),
            buf@ == bytes@.subrange(0, i as int) + old(buf)@.subrange(i as int, N as int),
        decreases n - i,
    {
        buf[i] = bytes[i];
        i += 1;
        assert(buf@ =~= bytes@.subrange(0, i as int) + old(buf)@.subrange(i as int, N as int));
    }
    assert(bytes@.subrange(0, n as int) =~= bytes@);
}

} // verus!
