//! Little-endian encoding of fixed-width slot values into the byte region of
//! a group's aggregation buffer, with the round-trip facts the buffer
//! accessors rest on.

use vstd::prelude::*;

verus! {

/// Little-endian bytes of a 16-bit value.
pub open spec fn enc2(v: u16) -> Seq<u8> {
    seq![(v & 0xff) as u8, ((v >> 8) & 0xff) as u8]
}

/// 16-bit value of two little-endian bytes.
pub open spec fn dec2(s: Seq<u8>) -> u16 {
    (s[0] as u16) | ((s[1] as u16) << 8)
}

/// Little-endian bytes of a 32-bit value.
pub open spec fn enc4(v: u32) -> Seq<u8> {
    seq![
        (v & 0xff) as u8,
        ((v >> 8) & 0xff) as u8,
        ((v >> 16) & 0xff) as u8,
        ((v >> 24) & 0xff) as u8,
    ]
}

/// 32-bit value of four little-endian bytes.
pub open spec fn dec4(s: Seq<u8>) -> u32 {
    (s[0] as u32) | ((s[1] as u32) << 8) | ((s[2] as u32) << 16) | ((s[3] as u32) << 24)
}

/// Little-endian bytes of a 64-bit value.
pub open spec fn enc8(v: u64) -> Seq<u8> {
    seq![
        (v & 0xff) as u8,
        ((v >> 8) & 0xff) as u8,
        ((v >> 16) & 0xff) as u8,
        ((v >> 24) & 0xff) as u8,
        ((v >> 32) & 0xff) as u8,
        ((v >> 40) & 0xff) as u8,
        ((v >> 48) & 0xff) as u8,
        ((v >> 56) & 0xff) as u8,
    ]
}

/// 64-bit value of eight little-endian bytes.
pub open spec fn dec8(s: Seq<u8>) -> u64 {
    (s[0] as u64) | ((s[1] as u64) << 8) | ((s[2] as u64) << 16) | ((s[3] as u64) << 24)
        | ((s[4] as u64) << 32) | ((s[5] as u64) << 40) | ((s[6] as u64) << 48)
        | ((s[7] as u64) << 56)
}

/// Little-endian bytes of a 128-bit value.
pub open spec fn enc16(v: u128) -> Seq<u8> {
    seq![
        (v & 0xff) as u8,
        ((v >> 8) & 0xff) as u8,
        ((v >> 16) & 0xff) as u8,
        ((v >> 24) & 0xff) as u8,
        ((v >> 32) & 0xff) as u8,
        ((v >> 40) & 0xff) as u8,
        ((v >> 48) & 0xff) as u8,
        ((v >> 56) & 0xff) as u8,
        ((v >> 64) & 0xff) as u8,
        ((v >> 72) & 0xff) as u8,
        ((v >> 80) & 0xff) as u8,
        ((v >> 88) & 0xff) as u8,
        ((v >> 96) & 0xff) as u8,
        ((v >> 104) & 0xff) as u8,
        ((v >> 112) & 0xff) as u8,
        ((v >> 120) & 0xff) as u8,
    ]
}

/// 128-bit value of sixteen little-endian bytes.
pub open spec fn dec16(s: Seq<u8>) -> u128 {
    (s[0] as u128) | ((s[1] as u128) << 8) | ((s[2] as u128) << 16) | ((s[3] as u128) << 24)
        | ((s[4] as u128) << 32) | ((s[5] as u128) << 40) | ((s[6] as u128) << 48)
        | ((s[7] as u128) << 56) | ((s[8] as u128) << 64) | ((s[9] as u128) << 72)
        | ((s[10] as u128) << 80) | ((s[11] as u128) << 88) | ((s[12] as u128) << 96)
        | ((s[13] as u128) << 104) | ((s[14] as u128) << 112) | ((s[15] as u128) << 120)
}

/// Slot bytes of a boolean: one byte, 1 for true.
pub open spec fn enc_bool(v: bool) -> Seq<u8> {
    seq![if v { 1u8 } else { 0u8 }]
}

/// Boolean of one slot byte.
pub open spec fn dec_bool(s: Seq<u8>) -> bool {
    s[0] != 0
}

/// Slot bytes of an unsigned 8-bit value.
pub open spec fn enc_u8(v: u8) -> Seq<u8> {
    seq![v]
}

/// Unsigned 8-bit value of one slot byte.
pub open spec fn dec_u8(s: Seq<u8>) -> u8 {
    s[0]
}

/// Slot bytes of a signed 8-bit value: its two's-complement byte.
pub open spec fn enc_i8(v: i8) -> Seq<u8> {
    seq![v as u8]
}

/// Signed 8-bit value of one slot byte.
pub open spec fn dec_i8(s: Seq<u8>) -> i8 {
    s[0] as i8
}

/// Slot bytes of an unsigned 16-bit value.
pub open spec fn enc_u16(v: u16) -> Seq<u8> {
    enc2(v)
}

/// Unsigned 16-bit value of its slot bytes.
pub open spec fn dec_u16(s: Seq<u8>) -> u16 {
    dec2(s)
}

/// Slot bytes of a signed 16-bit value: little-endian two's complement.
pub open spec fn enc_i16(v: i16) -> Seq<u8> {
    enc2(v as u16)
}

/// Signed 16-bit value of its slot bytes.
pub open spec fn dec_i16(s: Seq<u8>) -> i16 {
    dec2(s) as i16
}

/// Slot bytes of an unsigned 32-bit value.
pub open spec fn enc_u32(v: u32) -> Seq<u8> {
    enc4(v)
}

/// Unsigned 32-bit value of its slot bytes.
pub open spec fn dec_u32(s: Seq<u8>) -> u32 {
    dec4(s)
}

/// Slot bytes of a signed 32-bit value: little-endian two's complement.
pub open spec fn enc_i32(v: i32) -> Seq<u8> {
    enc4(v as u32)
}

/// Signed 32-bit value of its slot bytes.
pub open spec fn dec_i32(s: Seq<u8>) -> i32 {
    dec4(s) as i32
}

/// Slot bytes of an unsigned 64-bit value.
pub open spec fn enc_u64(v: u64) -> Seq<u8> {
    enc8(v)
}

/// Unsigned 64-bit value of its slot bytes.
pub open spec fn dec_u64(s: Seq<u8>) -> u64 {
    dec8(s)
}

/// Slot bytes of a signed 64-bit value: little-endian two's complement.
pub open spec fn enc_i64(v: i64) -> Seq<u8> {
    enc8(v as u64)
}

/// Signed 64-bit value of its slot bytes.
pub open spec fn dec_i64(s: Seq<u8>) -> i64 {
    dec8(s) as i64
}

/// Slot bytes of a signed 128-bit value: little-endian two's complement.
pub open spec fn enc_i128(v: i128) -> Seq<u8> {
    enc16(v as u128)
}

/// Signed 128-bit value of its slot bytes.
pub open spec fn dec_i128(s: Seq<u8>) -> i128 {
    dec16(s) as i128
}

/// Decoding the little-endian bytes of a 16-bit value gives it back.
pub proof fn lemma_dec2_enc2(v: u16)
    ensures
        dec2(enc2(v)) == v,
{
    assert((((v & 0xff) as u8) as u16) | (((((v >> 8) & 0xff) as u8) as u16) << 8) == v)
        by (bit_vector);
}

/// Decoding the little-endian bytes of a 32-bit value gives it back.
pub proof fn lemma_dec4_enc4(v: u32)
    ensures
        dec4(enc4(v)) == v,
{
    assert((((v & 0xff) as u8) as u32) | (((((v >> 8) & 0xff) as u8) as u32) << 8)
        | (((((v >> 16) & 0xff) as u8) as u32) << 16) | (((((v >> 24) & 0xff) as u8) as u32) << 24)
        == v) by (bit_vector);
}

/// Decoding the little-endian bytes of a 64-bit value gives it back.
pub proof fn lemma_dec8_enc8(v: u64)
    ensures
        dec8(enc8(v)) == v,
{
    assert((((v & 0xff) as u8) as u64) | (((((v >> 8) & 0xff) as u8) as u64) << 8)
        | (((((v >> 16) & 0xff) as u8) as u64) << 16) | (((((v >> 24) & 0xff) as u8) as u64) << 24)
        | (((((v >> 32) & 0xff) as u8) as u64) << 32) | (((((v >> 40) & 0xff) as u8) as u64) << 40)
        | (((((v >> 48) & 0xff) as u8) as u64) << 48) | (((((v >> 56) & 0xff) as u8) as u64) << 56)
        == v) by (bit_vector);
}

/// Decoding the little-endian bytes of a 128-bit value gives it back.
#[verifier::rlimit(60)]
pub proof fn lemma_dec16_enc16(v: u128)
    ensures
        dec16(enc16(v)) == v,
{
    assert((((v & 0xff) as u8) as u128) | (((((v >> 8) & 0xff) as u8) as u128) << 8)
        | (((((v >> 16) & 0xff) as u8) as u128) << 16)
        | (((((v >> 24) & 0xff) as u8) as u128) << 24)
        | (((((v >> 32) & 0xff) as u8) as u128) << 32)
        | (((((v >> 40) & 0xff) as u8) as u128) << 40)
        | (((((v >> 48) & 0xff) as u8) as u128) << 48)
        | (((((v >> 56) & 0xff) as u8) as u128) << 56)
        | (((((v >> 64) & 0xff) as u8) as u128) << 64)
        | (((((v >> 72) & 0xff) as u8) as u128) << 72)
        | (((((v >> 80) & 0xff) as u8) as u128) << 80)
        | (((((v >> 88) & 0xff) as u8) as u128) << 88)
        | (((((v >> 96) & 0xff) as u8) as u128) << 96)
        | (((((v >> 104) & 0xff) as u8) as u128) << 104)
        | (((((v >> 112) & 0xff) as u8) as u128) << 112)
        | (((((v >> 120) & 0xff) as u8) as u128) << 120) == v) by (bit_vector);
}

/// Casting a signed value to the unsigned type of the same width and back
/// gives it back, for each width the buffer stores.
pub proof fn lemma_signed_bits_round_trip(a: i8, b: i16, c: i32, d: i64, e: i128)
    ensures
        ((a as u8) as i8) == a,
        ((b as u16) as i16) == b,
        ((c as u32) as i32) == c,
        ((d as u64) as i64) == d,
        ((e as u128) as i128) == e,
{
    assert(((a as u8) as i8) == a) by (bit_vector);
    assert(((b as u16) as i16) == b) by (bit_vector);
    assert(((c as u32) as i32) == c) by (bit_vector);
    assert(((d as u64) as i64) == d) by (bit_vector);
    assert(((e as u128) as i128) == e) by (bit_vector);
}

/// A boolean slot read back gives the stored value.
pub proof fn lemma_bool_round_trip(v: bool)
    ensures
        dec_bool(enc_bool(v)) == v,
{
}

/// An unsigned 8-bit slot read back gives the stored value.
pub proof fn lemma_u8_round_trip(v: u8)
    ensures
        dec_u8(enc_u8(v)) == v,
{
}

/// A signed 8-bit slot read back gives the stored value.
pub proof fn lemma_i8_round_trip(v: i8)
    ensures
        dec_i8(enc_i8(v)) == v,
{
    lemma_signed_bits_round_trip(v, 0, 0, 0, 0);
}

/// An unsigned 16-bit slot read back gives the stored value.
pub proof fn lemma_u16_round_trip(v: u16)
    ensures
        dec_u16(enc_u16(v)) == v,
{
    lemma_dec2_enc2(v);
}

/// A signed 16-bit slot read back gives the stored value.
pub proof fn lemma_i16_round_trip(v: i16)
    ensures
        dec_i16(enc_i16(v)) == v,
{
    lemma_dec2_enc2(v as u16);
    lemma_signed_bits_round_trip(0, v, 0, 0, 0);
}

/// An unsigned 32-bit slot read back gives the stored value.
pub proof fn lemma_u32_round_trip(v: u32)
    ensures
        dec_u32(enc_u32(v)) == v,
{
    lemma_dec4_enc4(v);
}

/// A signed 32-bit slot read back gives the stored value.
pub proof fn lemma_i32_round_trip(v: i32)
    ensures
        dec_i32(enc_i32(v)) == v,
{
    lemma_dec4_enc4(v as u32);
    lemma_signed_bits_round_trip(0, 0, v, 0, 0);
}

/// An unsigned 64-bit slot read back gives the stored value.
pub proof fn lemma_u64_round_trip(v: u64)
    ensures
        dec_u64(enc_u64(v)) == v,
{
    lemma_dec8_enc8(v);
}

/// A signed 64-bit slot read back gives the stored value.
pub proof fn lemma_i64_round_trip(v: i64)
    ensures
        dec_i64(enc_i64(v)) == v,
{
    lemma_dec8_enc8(v as u64);
    lemma_signed_bits_round_trip(0, 0, 0, v, 0);
}

/// A signed 128-bit slot read back gives the stored value.
pub proof fn lemma_i128_round_trip(v: i128)
    ensures
        dec_i128(enc_i128(v)) == v,
{
    lemma_dec16_enc16(v as u128);
    lemma_signed_bits_round_trip(0, 0, 0, 0, v);
}

/// Writes the two little-endian bytes of `v` at `off`.
pub fn store2(bytes: &mut Vec<u8>, off: usize, v: u16)
    requires
        off + 2 <= old(bytes).len(),
    ensures
        final(bytes).len() == old(bytes).len(),
        final(bytes)@.subrange(off as int, off + 2) == enc2(v),
        forall|j: int| 0 <= j < final(bytes)@.len() && !(off <= j < off + 2) ==> final(bytes)@[j] == old(
            bytes,
        )@[j],
{
    bytes[off] = (v & 0xff) as u8;
    bytes[off + 1] = ((v >> 8) & 0xff) as u8;
    assert(bytes@.subrange(off as int, off + 2) =~= enc2(v));
}

/// Writes the four little-endian bytes of `v` at `off`.
pub fn store4(bytes: &mut Vec<u8>, off: usize, v: u32)
    requires
        off + 4 <= old(bytes).len(),
    ensures
        final(bytes).len() == old(bytes).len(),
        final(bytes)@.subrange(off as int, off + 4) == enc4(v),
        forall|j: int| 0 <= j < final(bytes)@.len() && !(off <= j < off + 4) ==> final(bytes)@[j] == old(
            bytes,
        )@[j],
{
    bytes[off] = (v & 0xff) as u8;
    bytes[off + 1] = ((v >> 8) & 0xff) as u8;
    bytes[off + 2] = ((v >> 16) & 0xff) as u8;
    bytes[off + 3] = ((v >> 24) & 0xff) as u8;
    assert(bytes@.subrange(off as int, off + 4) =~= enc4(v));
}

/// Writes the eight little-endian bytes of `v` at `off`.
pub fn store8(bytes: &mut Vec<u8>, off: usize, v: u64)
    requires
        off + 8 <= old(bytes).len(),
    ensures
        final(bytes).len() == old(bytes).len(),
        final(bytes)@.subrange(off as int, off + 8) == enc8(v),
        forall|j: int| 0 <= j < final(bytes)@.len() && !(off <= j < off + 8) ==> final(bytes)@[j] == old(
            bytes,
        )@[j],
{
    bytes[off] = (v & 0xff) as u8;
    bytes[off + 1] = ((v >> 8) & 0xff) as u8;
    bytes[off + 2] = ((v >> 16) & 0xff) as u8;
    bytes[off + 3] = ((v >> 24) & 0xff) as u8;
    bytes[off + 4] = ((v >> 32) & 0xff) as u8;
    bytes[off + 5] = ((v >> 40) & 0xff) as u8;
    bytes[off + 6] = ((v >> 48) & 0xff) as u8;
    bytes[off + 7] = ((v >> 56) & 0xff) as u8;
    assert(bytes@.subrange(off as int, off + 8) =~= enc8(v));
}

/// Writes the sixteen little-endian bytes of `v` at `off`.
pub fn store16(bytes: &mut Vec<u8>, off: usize, v: u128)
    requires
        off + 16 <= old(bytes).len(),
    ensures
        final(bytes).len() == old(bytes).len(),
        final(bytes)@.subrange(off as int, off + 16) == enc16(v),
        forall|j: int| 0 <= j < final(bytes)@.len() && !(off <= j < off + 16) ==> final(bytes)@[j] == old(
            bytes,
        )@[j],
{
    bytes[off] = (v & 0xff) as u8;
    bytes[off + 1] = ((v >> 8) & 0xff) as u8;
    bytes[off + 2] = ((v >> 16) & 0xff) as u8;
    bytes[off + 3] = ((v >> 24) & 0xff) as u8;
    bytes[off + 4] = ((v >> 32) & 0xff) as u8;
    bytes[off + 5] = ((v >> 40) & 0xff) as u8;
    bytes[off + 6] = ((v >> 48) & 0xff) as u8;
    bytes[off + 7] = ((v >> 56) & 0xff) as u8;
    bytes[off + 8] = ((v >> 64) & 0xff) as u8;
    bytes[off + 9] = ((v >> 72) & 0xff) as u8;
    bytes[off + 10] = ((v >> 80) & 0xff) as u8;
    bytes[off + 11] = ((v >> 88) & 0xff) as u8;
    bytes[off + 12] = ((v >> 96) & 0xff) as u8;
    bytes[off + 13] = ((v >> 104) & 0xff) as u8;
    bytes[off + 14] = ((v >> 112) & 0xff) as u8;
    bytes[off + 15] = ((v >> 120) & 0xff) as u8;
    assert(bytes@.subrange(off as int, off + 16) =~= enc16(v));
}

/// Reads the 16-bit value stored little-endian at `off`.
pub fn load2(bytes: &Vec<u8>, off: usize) -> (r: u16)
    requires
        off + 2 <= bytes.len(),
    ensures
        r == dec2(bytes@.subrange(off as int, off + 2)),
{
    let r: u16 = (bytes[off] as u16) | ((bytes[off + 1] as u16) << 8);
    proof {
        let s = bytes@.subrange(off as int, off + 2);
        assert(s[0] == bytes@[off as int] && s[1] == bytes@[off + 1]);
    }
    r
}

/// Reads the 32-bit value stored little-endian at `off`.
pub fn load4(bytes: &Vec<u8>, off: usize) -> (r: u32)
    requires
        off + 4 <= bytes.len(),
    ensures
        r == dec4(bytes@.subrange(off as int, off + 4)),
{
    let r: u32 = (bytes[off] as u32) | ((bytes[off + 1] as u32) << 8) | ((bytes[off + 2] as u32)
        << 16) | ((bytes[off + 3] as u32) << 24);
    proof {
        let s = bytes@.subrange(off as int, off + 4);
        assert(s[0] == bytes@[off as int] && s[1] == bytes@[off + 1] && s[2] == bytes@[off + 2]
            && s[3] == bytes@[off + 3]);
    }
    r
}

/// Reads the 64-bit value stored little-endian at `off`.
pub fn load8(bytes: &Vec<u8>, off: usize) -> (r: u64)
    requires
        off + 8 <= bytes.len(),
    ensures
        r == dec8(bytes@.subrange(off as int, off + 8)),
{
    let r: u64 = (bytes[off] as u64) | ((bytes[off + 1] as u64) << 8) | ((bytes[off + 2] as u64)
        << 16) | ((bytes[off + 3] as u64) << 24) | ((bytes[off + 4] as u64) << 32) | ((bytes[off
        + 5] as u64) << 40) | ((bytes[off + 6] as u64) << 48) | ((bytes[off + 7] as u64) << 56);
    proof {
        let s = bytes@.subrange(off as int, off + 8);
        assert(s[0] == bytes@[off as int] && s[1] == bytes@[off + 1] && s[2] == bytes@[off + 2]
            && s[3] == bytes@[off + 3] && s[4] == bytes@[off + 4] && s[5] == bytes@[off + 5] && s[6]
            == bytes@[off + 6] && s[7] == bytes@[off + 7]);
    }
    r
}

/// Reads the 128-bit value stored little-endian at `off`.
pub fn load16(bytes: &Vec<u8>, off: usize) -> (r: u128)
    requires
        off + 16 <= bytes.len(),
    ensures
        r == dec16(bytes@.subrange(off as int, off + 16)),
{
    let r: u128 = (bytes[off] as u128) | ((bytes[off + 1] as u128) << 8) | ((bytes[off
        + 2] as u128) << 16) | ((bytes[off + 3] as u128) << 24) | ((bytes[off + 4] as u128) << 32)
        | ((bytes[off + 5] as u128) << 40) | ((bytes[off + 6] as u128) << 48) | ((bytes[off
        + 7] as u128) << 56) | ((bytes[off + 8] as u128) << 64) | ((bytes[off + 9] as u128) << 72)
        | ((bytes[off + 10] as u128) << 80) | ((bytes[off + 11] as u128) << 88) | ((bytes[off
        + 12] as u128) << 96) | ((bytes[off + 13] as u128) << 104) | ((bytes[off + 14] as u128)
        << 112) | ((bytes[off + 15] as u128) << 120);
    proof {
        let s = bytes@.subrange(off as int, off + 16);
        assert(s[0] == bytes@[off as int] && s[1] == bytes@[off + 1] && s[2] == bytes@[off + 2]
            && s[3] == bytes@[off + 3] && s[4] == bytes@[off + 4] && s[5] == bytes@[off + 5] && s[6]
            == bytes@[off + 6] && s[7] == bytes@[off + 7] && s[8] == bytes@[off + 8] && s[9]
            == bytes@[off + 9] && s[10] == bytes@[off + 10] && s[11] == bytes@[off + 11] && s[12]
            == bytes@[off + 12] && s[13] == bytes@[off + 13] && s[14] == bytes@[off + 14] && s[15]
            == bytes@[off + 15]);
    }
    r
}

} // verus!
