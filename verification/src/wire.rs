//! Integers on the wire: what a run of bytes means as an unsigned integer in
//! little-endian or big-endian order, the readers that compute it, and the
//! byte runs that encode a given integer.

use byteorder::ByteOrder;
use vstd::prelude::*;
use vstd::slice::slice_subrange;

verus! {

/// The little-endian value of the two bytes of `s` that start at `at`.
pub open spec fn u16_le_at(s: Seq<u8>, at: int) -> int {
    s[at] as int + 0x100 * (s[at + 1] as int)
}

/// The little-endian value of the four bytes of `s` that start at `at`.
pub open spec fn u32_le_at(s: Seq<u8>, at: int) -> int {
    u16_le_at(s, at) + 0x1_0000 * u16_le_at(s, at + 2)
}

/// The little-endian value of the eight bytes of `s` that start at `at`.
pub open spec fn u64_le_at(s: Seq<u8>, at: int) -> int {
    u32_le_at(s, at) + 0x1_0000_0000 * u32_le_at(s, at + 4)
}

/// The big-endian value of the four bytes of `s` that start at `at`.
pub open spec fn u32_be_at(s: Seq<u8>, at: int) -> int {
    0x100_0000 * (s[at] as int) + 0x1_0000 * (s[at + 1] as int) + 0x100 * (s[at + 2] as int)
        + s[at + 3] as int
}

/// The two bytes that encode `v` in little-endian order.
pub open spec fn u16_le_bytes(v: u16) -> Seq<u8> {
    seq![(v % 0x100) as u8, (v / 0x100) as u8]
}

/// The four bytes that encode `v` in little-endian order.
pub open spec fn u32_le_bytes(v: u32) -> Seq<u8> {
    u16_le_bytes((v % 0x1_0000) as u16) + u16_le_bytes((v / 0x1_0000) as u16)
}

/// The eight bytes that encode `v` in little-endian order.
pub open spec fn u64_le_bytes(v: u64) -> Seq<u8> {
    u32_le_bytes((v % 0x1_0000_0000) as u32) + u32_le_bytes((v / 0x1_0000_0000) as u32)
}

/// The four bytes that encode `v` in big-endian order.
pub open spec fn u32_be_bytes(v: u32) -> Seq<u8> {
    seq![
        (v / 0x100_0000) as u8,
        (v / 0x1_0000 % 0x100) as u8,
        (v / 0x100 % 0x100) as u8,
        (v % 0x100) as u8,
    ]
}

/// Reading back the little-endian encoding of a 16-bit integer, wherever it
/// lies in a longer run of bytes, gives the integer.
pub proof fn lemma_u16_le_round_trip(before: Seq<u8>, v: u16, after: Seq<u8>)
    ensures
        u16_le_bytes(v).len() == 2,
        u16_le_at(before + u16_le_bytes(v) + after, before.len() as int) == v,
{
    let s = before + u16_le_bytes(v) + after;
    let at = before.len() as int;
    assert(s[at] == u16_le_bytes(v)[0]);
    assert(s[at + 1] == u16_le_bytes(v)[1]);
}

/// Reading back the little-endian encoding of a 32-bit integer, wherever it
/// lies in a longer run of bytes, gives the integer.
pub proof fn lemma_u32_le_round_trip(before: Seq<u8>, v: u32, after: Seq<u8>)
    ensures
        u32_le_bytes(v).len() == 4,
        u32_le_at(before + u32_le_bytes(v) + after, before.len() as int) == v,
{
    let low = (v % 0x1_0000) as u16;
    let high = (v / 0x1_0000) as u16;
    let s = before + u32_le_bytes(v) + after;
    lemma_u16_le_round_trip(before, low, u16_le_bytes(high) + after);
    lemma_u16_le_round_trip(before + u16_le_bytes(low), high, after);
    assert(s =~= before + u16_le_bytes(low) + (u16_le_bytes(high) + after));
    assert(s =~= before + u16_le_bytes(low) + u16_le_bytes(high) + after);
}

/// Reading back the little-endian encoding of a 64-bit integer, wherever it
/// lies in a longer run of bytes, gives the integer.
pub proof fn lemma_u64_le_round_trip(before: Seq<u8>, v: u64, after: Seq<u8>)
    ensures
        u64_le_bytes(v).len() == 8,
        u64_le_at(before + u64_le_bytes(v) + after, before.len() as int) == v,
{
    let low = (v % 0x1_0000_0000) as u32;
    let high = (v / 0x1_0000_0000) as u32;
    let s = before + u64_le_bytes(v) + after;
    lemma_u32_le_round_trip(before, low, u32_le_bytes(high) + after);
    lemma_u32_le_round_trip(before + u32_le_bytes(low), high, after);
    assert(s =~= before + u32_le_bytes(low) + (u32_le_bytes(high) + after));
    assert(s =~= before + u32_le_bytes(low) + u32_le_bytes(high) + after);
}

/// Reading back the big-endian encoding of a 32-bit integer, wherever it lies
/// in a longer run of bytes, gives the integer.
pub proof fn lemma_u32_be_round_trip(before: Seq<u8>, v: u32, after: Seq<u8>)
    ensures
        u32_be_bytes(v).len() == 4,
        u32_be_at(before + u32_be_bytes(v) + after, before.len() as int) == v,
{
    let s = before + u32_be_bytes(v) + after;
    let at = before.len() as int;
    assert(s[at] == u32_be_bytes(v)[0]);
    assert(s[at + 1] == u32_be_bytes(v)[1]);
    assert(s[at + 2] == u32_be_bytes(v)[2]);
    assert(s[at + 3] == u32_be_bytes(v)[3]);
}

/// Where the two bytes of `s` at `at` are the little-endian encoding of
/// `v`, they read back as `v`.
pub proof fn lemma_u16_le_span(s: Seq<u8>, at: int, v: u16)
    requires
        0 <= at,
        at + 2 <= s.len(),
        s.subrange(at, at + 2) == u16_le_bytes(v),
    ensures
        u16_le_at(s, at) == v,
{
    let span = s.subrange(at, at + 2);
    assert(s[at] == span[0]);
    assert(s[at + 1] == span[1]);
}

/// Where the four bytes of `s` at `at` are the little-endian encoding of
/// `v`, they read back as `v`.
pub proof fn lemma_u32_le_span(s: Seq<u8>, at: int, v: u32)
    requires
        0 <= at,
        at + 4 <= s.len(),
        s.subrange(at, at + 4) == u32_le_bytes(v),
    ensures
        u32_le_at(s, at) == v,
{
    lemma_u32_le_round_trip(Seq::empty(), v, Seq::empty());
    let span = s.subrange(at, at + 4);
    assert(span =~= Seq::<u8>::empty() + u32_le_bytes(v) + Seq::<u8>::empty());
    assert(s[at] == span[0]);
    assert(s[at + 1] == span[1]);
    assert(s[at + 2] == span[2]);
    assert(s[at + 3] == span[3]);
}

/// Where the eight bytes of `s` at `at` are the little-endian encoding of
/// `v`, they read back as `v`.
pub proof fn lemma_u64_le_span(s: Seq<u8>, at: int, v: u64)
    requires
        0 <= at,
        at + 8 <= s.len(),
        s.subrange(at, at + 8) == u64_le_bytes(v),
    ensures
        u64_le_at(s, at) == v,
{
    lemma_u64_le_round_trip(Seq::empty(), v, Seq::empty());
    let span = s.subrange(at, at + 8);
    assert(span =~= Seq::<u8>::empty() + u64_le_bytes(v) + Seq::<u8>::empty());
    assert(s[at] == span[0]);
    assert(s[at + 1] == span[1]);
    assert(s[at + 2] == span[2]);
    assert(s[at + 3] == span[3]);
    assert(s[at + 4] == span[4]);
    assert(s[at + 5] == span[5]);
    assert(s[at + 6] == span[6]);
    assert(s[at + 7] == span[7]);
}

/// The four bytes of `s` at `at` are the big-endian encoding of the value
/// that they read as.
#[verifier::rlimit(20)]
pub proof fn lemma_u32_be_span(s: Seq<u8>, at: int)
    requires
        0 <= at,
        at + 4 <= s.len(),
    ensures
        0 <= u32_be_at(s, at) <= u32::MAX,
        u32_be_bytes(u32_be_at(s, at) as u32) == s.subrange(at, at + 4),
{
    assert(u32_be_bytes(u32_be_at(s, at) as u32) =~= s.subrange(at, at + 4));
}

/// Calls `byteorder::LittleEndian::read_u16`, which decodes the first two
/// bytes of `buf` as a little-endian integer and panics on a shorter slice.
#[verifier::external_body]
fn read_u16_le(buf: &[u8]) -> (v: u16)
    requires
        buf@.len() >= 2,
    ensures
        v as int == u16_le_at(buf@, 0),
{
    byteorder::LittleEndian::read_u16(buf)
}

/// Calls `byteorder::LittleEndian::read_u32`, which decodes the first four
/// bytes of `buf` as a little-endian integer and panics on a shorter slice.
#[verifier::external_body]
fn read_u32_le(buf: &[u8]) -> (v: u32)
    requires
        buf@.len() >= 4,
    ensures
        v as int == u32_le_at(buf@, 0),
{
    byteorder::LittleEndian::read_u32(buf)
}

/// Calls `byteorder::LittleEndian::read_u64`, which decodes the first eight
/// bytes of `buf` as a little-endian integer and panics on a shorter slice.
#[verifier::external_body]
fn read_u64_le(buf: &[u8]) -> (v: u64)
    requires
        buf@.len() >= 8,
    ensures
        v as int == u64_le_at(buf@, 0),
{
    byteorder::LittleEndian::read_u64(buf)
}

/// The little-endian 16-bit integer at offset `at` of `buf`.
pub(crate) fn u16_le(buf: &[u8], at: usize) -> (v: u16)
    requires
        at + 2 <= buf@.len(),
    ensures
        v as int == u16_le_at(buf@, at as int),
{
    read_u16_le(slice_subrange(buf, at, buf.len()))
}

/// The little-endian 32-bit integer at offset `at` of `buf`.
pub(crate) fn u32_le(buf: &[u8], at: usize) -> (v: u32)
    requires
        at + 4 <= buf@.len(),
    ensures
        v as int == u32_le_at(buf@, at as int),
{
    read_u32_le(slice_subrange(buf, at, buf.len()))
}

/// The little-endian 64-bit integer at offset `at` of `buf`.
pub(crate) fn u64_le(buf: &[u8], at: usize) -> (v: u64)
    requires
        at + 8 <= buf@.len(),
    ensures
        v as int == u64_le_at(buf@, at as int),
{
    read_u64_le(slice_subrange(buf, at, buf.len()))
}

/// The big-endian 32-bit integer at offset `at` of `buf`.
pub(crate) fn u32_be(buf: &[u8], at: usize) -> (v: u32)
    requires
        at + 4 <= buf@.len(),
    ensures
        v as int == u32_be_at(buf@, at as int),
{
    let b0: u32 = buf[at] as u32;
    let b1: u32 = buf[at + 1] as u32;
    let b2: u32 = buf[at + 2] as u32;
    let b3: u32 = buf[at + 3] as u32;
    0x100_0000 * b0 + 0x1_0000 * b1 + 0x100 * b2 + b3
}

} // verus!
