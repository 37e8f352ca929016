//! Little-endian integers read out of byte buffers.

use vstd::prelude::*;
use vstd::slice::slice_subrange;
use byteorder::{ByteOrder, LittleEndian};

verus! {

/// The unsigned value of `s` read as a little-endian number: byte `i` weighs `256^i`.
pub open spec fn le_value(s: Seq<u8>) -> nat
    decreases s.len(),
{
    if s.len() == 0 {
        0
    } else {
        s[0] as nat + 256 * le_value(s.drop_first())
    }
}

/// The `n` low bytes of `v`, least significant first.
pub open spec fn le_bytes(v: nat, n: nat) -> Seq<u8>
    decreases n,
{
    if n == 0 {
        Seq::empty()
    } else {
        seq![(v % 256) as u8].add(le_bytes(v / 256, (n - 1) as nat))
    }
}

/// A 16-bit two's-complement reading of `v`.
pub open spec fn signed16(v: nat) -> int {
    if v < 0x8000 { v as int } else { v - 0x1_0000 }
}

/// A 32-bit two's-complement reading of `v`.
pub open spec fn signed32(v: nat) -> int {
    if v < 0x8000_0000 { v as int } else { v - 0x1_0000_0000 }
}

/// The bytes `at .. at + n` of `b`, read as a little-endian number.
pub open spec fn le_at(b: Seq<u8>, at: int, n: int) -> nat {
    le_value(b.subrange(at, at + n))
}

/// Writing a number back out in as many bytes as it was read from gives those bytes.
pub proof fn lemma_le_bytes_of_value(s: Seq<u8>)
    ensures
        le_bytes(le_value(s), s.len()) == s,
    decreases s.len(),
{
    if s.len() > 0 {
        let rest = s.drop_first();
        lemma_le_bytes_of_value(rest);
        let v = le_value(s);
        let r = le_value(rest);
        assert(v == s[0] as nat + 256 * r);
        assert(v % 256 == s[0] as nat && v / 256 == r) by (nonlinear_arith)
            requires
                v == s[0] as nat + 256 * r,
                s[0] < 256,
        ;
        assert(le_bytes(v, s.len()) =~= s);
    } else {
        assert(le_bytes(le_value(s), s.len()) =~= s);
    }
}

/// Relies on byteorder's `LittleEndian::read_u16`: the first two bytes of `buf`,
/// least significant first; it panics on fewer than two.
#[verifier::external_body]
fn byteorder_read_u16(buf: &[u8]) -> (r: u16)
    requires
        buf@.len() >= 2,
    ensures
        r as nat == le_value(buf@.subrange(0, 2)),
{
    LittleEndian::read_u16(buf)
}

/// Relies on byteorder's `LittleEndian::read_u32`: the first four bytes of `buf`,
/// least significant first; it panics on fewer than four.
#[verifier::external_body]
fn byteorder_read_u32(buf: &[u8]) -> (r: u32)
    requires
        buf@.len() >= 4,
    ensures
        r as nat == le_value(buf@.subrange(0, 4)),
{
    LittleEndian::read_u32(buf)
}

/// Relies on byteorder's `LittleEndian::read_u64`: the first eight bytes of `buf`,
/// least significant first; it panics on fewer than eight.
#[verifier::external_body]
fn byteorder_read_u64(buf: &[u8]) -> (r: u64)
    requires
        buf@.len() >= 8,
    ensures
        r as nat == le_value(buf@.subrange(0, 8)),
{
    LittleEndian::read_u64(buf)
}

/// Relies on byteorder's `LittleEndian::read_i16`: `read_u16` of the same bytes
/// taken as two's complement; it panics on fewer than two bytes.
#[verifier::external_body]
fn byteorder_read_i16(buf: &[u8]) -> (r: i16)
    requires
        buf@.len() >= 2,
    ensures
        r as int == signed16(le_value(buf@.subrange(0, 2))),
{
    LittleEndian::read_i16(buf)
}

/// Relies on byteorder's `LittleEndian::read_i32`: `read_u32` of the same bytes
/// taken as two's complement; it panics on fewer than four bytes.
#[verifier::external_body]
fn byteorder_read_i32(buf: &[u8]) -> (r: i32)
    requires
        buf@.len() >= 4,
    ensures
        r as int == signed32(le_value(buf@.subrange(0, 4))),
{
    LittleEndian::read_i32(buf)
}

/// The little-endian `u16` at byte `at` of `b`.
pub fn u16_at(b: &[u8], at: usize) -> (r: u16)
    requires
        at + 2 <= b@.len(),
    ensures
        r as nat == le_at(b@, at as int, 2),
{
    // An exec length keeps `at + n` within usize.
    let _len: usize = b.len();
    let s = slice_subrange(b, at, at + 2);
    assert(s@.subrange(0, 2) =~= s@);
    byteorder_read_u16(s)
}

/// The little-endian `u32` at byte `at` of `b`.
pub fn u32_at(b: &[u8], at: usize) -> (r: u32)
    requires
        at + 4 <= b@.len(),
    ensures
        r as nat == le_at(b@, at as int, 4),
{
    // An exec length keeps `at + n` within usize.
    let _len: usize = b.len();
    let s = slice_subrange(b, at, at + 4);
    assert(s@.subrange(0, 4) =~= s@);
    byteorder_read_u32(s)
}

/// The little-endian `u64` at byte `at` of `b`.
pub fn u64_at(b: &[u8], at: usize) -> (r: u64)
    requires
        at + 8 <= b@.len(),
    ensures
        r as nat == le_at(b@, at as int, 8),
{
    // An exec length keeps `at + n` within usize.
    let _len: usize = b.len();
    let s = slice_subrange(b, at, at + 8);
    assert(s@.subrange(0, 8) =~= s@);
    byteorder_read_u64(s)
}

/// The little-endian two's-complement `i16` at byte `at` of `b`.
pub fn i16_at(b: &[u8], at: usize) -> (r: i16)
    requires
        at + 2 <= b@.len(),
    ensures
        r as int == signed16(le_at(b@, at as int, 2)),
{
    // An exec length keeps `at + n` within usize.
    let _len: usize = b.len();
    let s = slice_subrange(b, at, at + 2);
    assert(s@.subrange(0, 2) =~= s@);
    byteorder_read_i16(s)
}

/// The little-endian two's-complement `i32` at byte `at` of `b`.
pub fn i32_at(b: &[u8], at: usize) -> (r: i32)
    requires
        at + 4 <= b@.len(),
    ensures
        r as int == signed32(le_at(b@, at as int, 4)),
{
    // An exec length keeps `at + n` within usize.
    let _len: usize = b.len();
    let s = slice_subrange(b, at, at + 4);
    assert(s@.subrange(0, 4) =~= s@);
    byteorder_read_i32(s)
}

} // verus!
