//! Little-endian encoding of fixed-width integers and the four-byte padding
//! rule of the parcel format.
use byteorder::{ByteOrder, LittleEndian};
use vstd::prelude::*;

verus! {

/// The four little-endian bytes of `n`.
pub open spec fn le_bytes_u32(n: u32) -> Seq<u8> {
    seq![(n & 0xff) as u8, ((n >> 8) & 0xff) as u8, ((n >> 16) & 0xff) as u8, ((n >> 24) & 0xff) as u8]
}

/// The eight little-endian bytes of `n`.
pub open spec fn le_bytes_u64(n: u64) -> Seq<u8> {
    le_bytes_u32((n & 0xffff_ffff) as u32) + le_bytes_u32((n >> 32) as u32)
}

/// The two little-endian bytes of `n`.
pub open spec fn le_bytes_u16(n: u16) -> Seq<u8> {
    seq![(n & 0xff) as u8, ((n >> 8) & 0xff) as u8]
}

/// The value of the first four bytes of `b`, read little-endian.
pub open spec fn le_u32(b: Seq<u8>) -> u32 {
    (b[0] as u32) | ((b[1] as u32) << 8) | ((b[2] as u32) << 16) | ((b[3] as u32) << 24)
}

/// The value of the first eight bytes of `b`, read little-endian.
pub open spec fn le_u64(b: Seq<u8>) -> u64 {
    (le_u32(b) as u64) | ((le_u32(b.subrange(4, 8)) as u64) << 32)
}

/// The value of the first two bytes of `b`, read little-endian.
pub open spec fn le_u16(b: Seq<u8>) -> u16 {
    (b[0] as u16) | ((b[1] as u16) << 8)
}

/// `len` rounded up to the next multiple of four.
pub open spec fn padded(len: nat) -> nat {
    if len % 4 == 0 {
        len
    } else {
        (len + 4 - len % 4) as nat
    }
}

/// `n` zero bytes.
pub open spec fn zeros(n: nat) -> Seq<u8> {
    Seq::new(n, |i: int| 0u8)
}

/// Reading back the bytes of a `u32` gives the value that was written.
pub proof fn lemma_u32_round_trip(n: u32)
    ensures
        le_u32(le_bytes_u32(n)) == n,
{
    let b = le_bytes_u32(n);
    let (b0, b1, b2, b3) = (b[0], b[1], b[2], b[3]);
    assert((b0 as u32) | ((b1 as u32) << 8) | ((b2 as u32) << 16) | ((b3 as u32) << 24) == n) by (bit_vector)
        requires
            b0 == (n & 0xff) as u8,
            b1 == ((n >> 8) & 0xff) as u8,
            b2 == ((n >> 16) & 0xff) as u8,
            b3 == ((n >> 24) & 0xff) as u8,
    ;
}

/// Reading back the bytes of a `u64` gives the value that was written.
pub proof fn lemma_u64_round_trip(n: u64)
    ensures
        le_u64(le_bytes_u64(n)) == n,
{
    let lo = (n & 0xffff_ffff) as u32;
    let hi = (n >> 32) as u32;
    let b = le_bytes_u64(n);
    lemma_u32_round_trip(lo);
    lemma_u32_round_trip(hi);
    assert(b.subrange(0, 4) =~= le_bytes_u32(lo));
    assert(b.subrange(4, 8) =~= le_bytes_u32(hi));
    assert(le_u32(b) == le_u32(b.subrange(0, 4)));
    assert((lo as u64) | ((hi as u64) << 32) == n) by (bit_vector)
        requires
            lo == (n & 0xffff_ffff) as u32,
            hi == (n >> 32) as u32,
    ;
}

/// Reading back the bytes of a `u16` gives the value that was written.
pub proof fn lemma_u16_round_trip(n: u16)
    ensures
        le_u16(le_bytes_u16(n)) == n,
{
    let b = le_bytes_u16(n);
    let (b0, b1) = (b[0], b[1]);
    assert((b0 as u16) | ((b1 as u16) << 8) == n) by (bit_vector)
        requires
            b0 == (n & 0xff) as u8,
            b1 == ((n >> 8) & 0xff) as u8,
    ;
}

/// Relies on `byteorder::LittleEndian::write_u32`: the four bytes of `n`,
/// least significant first.
#[verifier::external_body]
pub(crate) fn u32_to_le(n: u32) -> (r: Vec<u8>)
    ensures
        r@ == le_bytes_u32(n),
{
    let mut b = vec![0u8; 4];
    LittleEndian::write_u32(&mut b, n);
    b
}

/// Relies on `byteorder::LittleEndian::write_u64`: the eight bytes of `n`,
/// least significant first.
#[verifier::external_body]
pub(crate) fn u64_to_le(n: u64) -> (r: Vec<u8>)
    ensures
        r@ == le_bytes_u64(n),
{
    let mut b = vec![0u8; 8];
    LittleEndian::write_u64(&mut b, n);
    b
}

/// Relies on `byteorder::LittleEndian::write_u16`: the two bytes of `n`,
/// least significant first.
#[verifier::external_body]
pub(crate) fn u16_to_le(n: u16) -> (r: Vec<u8>)
    ensures
        r@ == le_bytes_u16(n),
{
    let mut b = vec![0u8; 2];
    LittleEndian::write_u16(&mut b, n);
    b
}

/// Relies on `byteorder::LittleEndian::read_u32`: the value of the four bytes
/// of `buf` that start at `at`, least significant first.
#[verifier::external_body]
pub(crate) fn u32_from_le(buf: &[u8], at: usize) -> (r: u32)
    requires
        at + 4 <= buf@.len(),
    ensures
        r == le_u32(buf@.subrange(at as int, at + 4)),
{
    LittleEndian::read_u32(&buf[at..])
}

/// Relies on `byteorder::LittleEndian::read_u64`: the value of the eight bytes
/// of `buf` that start at `at`, least significant first.
#[verifier::external_body]
pub(crate) fn u64_from_le(buf: &[u8], at: usize) -> (r: u64)
    requires
        at + 8 <= buf@.len(),
    ensures
        r == le_u64(buf@.subrange(at as int, at + 8)),
{
    LittleEndian::read_u64(&buf[at..])
}

/// Relies on `byteorder::LittleEndian::read_u16`: the value of the two bytes
/// of `buf` that start at `at`, least significant first.
#[verifier::external_body]
pub(crate) fn u16_from_le(buf: &[u8], at: usize) -> (r: u16)
    requires
        at + 2 <= buf@.len(),
    ensures
        r == le_u16(buf@.subrange(at as int, at + 2)),
{
    LittleEndian::read_u16(&buf[at..])
}

/// `len` rounded up to the next multiple of four, or `None` where that does
/// not fit in `usize`.
pub fn pad_size(len: usize) -> (r: Option<usize>)
    ensures
        r matches Some(p) ==> p == padded(len as nat),
        r is None <==> padded(len as nat) > usize::MAX,
{
    let rem = len % 4;
    if rem == 0 {
        Some(len)
    } else if len > usize::MAX - (4 - rem) {
        None
    } else {
        Some(len + (4 - rem))
    }
}

} // verus!
