//! Read-modify-write codec for the paired two-byte configuration fields.
//!
//! Two slots share one four-byte device register: the even slot occupies the
//! low two bytes and the odd slot the high two bytes, each little-endian.
//! The device only writes the full register atomically, so an update reads
//! the register, replaces the selected half and writes all four bytes back.

use vstd::prelude::*;

verus! {

/// A per-slot access-control bitfield, packed into sixteen bits.
#[derive(Clone, Copy, Debug, PartialEq, Eq, Structural)]
pub struct SlotConfig {
    pub bits: u16,
}

/// A per-slot key-usage bitfield, packed into sixteen bits.
#[derive(Clone, Copy, Debug, PartialEq, Eq, Structural)]
pub struct KeyConfig {
    pub bits: u16,
}

/// The sixteen-bit value stored little-endian in two bytes.
pub open spec fn spec_u16_le(b0: u8, b1: u8) -> u16 {
    (b0 + 256 * (b1 as u16)) as u16
}

pub open spec fn spec_lo_byte(v: u16) -> u8 {
    (v % 256) as u8
}

pub open spec fn spec_hi_byte(v: u16) -> u8 {
    (v / 256) as u8
}

/// The two-byte field of `slot` inside its four-byte register: the low half
/// for an even slot, the high half for an odd one.
pub open spec fn spec_selected_half(reg: Seq<u8>, slot: u8) -> u16
    recommends
        reg.len() >= 4,
{
    if slot % 2 == 0 {
        spec_u16_le(reg[0], reg[1])
    } else {
        spec_u16_le(reg[2], reg[3])
    }
}

/// The four bytes written back: the field of `slot` replaced by `v`, the
/// paired slot's half byte-for-byte unchanged.
pub open spec fn spec_merged_half(reg: Seq<u8>, slot: u8, v: u16) -> Seq<u8>
    recommends
        reg.len() >= 4,
{
    if slot % 2 == 0 {
        seq![spec_lo_byte(v), spec_hi_byte(v), reg[2], reg[3]]
    } else {
        seq![reg[0], reg[1], spec_lo_byte(v), spec_hi_byte(v)]
    }
}

/// Relies on `bytes::Buf::get_u16_le` on a two-byte slice: the value read
/// little-endian, low byte first.
#[verifier::external_body]
fn read_u16_le(b0: u8, b1: u8) -> (r: u16)
    ensures
        r == spec_u16_le(b0, b1),
{
    let mut buf: &[u8] = &[b0, b1];
    bytes::Buf::get_u16_le(&mut buf)
}

/// Relies on `bytes::BufMut::put_u16_le`: the value written little-endian,
/// low byte then high byte.
#[verifier::external_body]
fn write_u16_le(v: u16) -> (r: Vec<u8>)
    ensures
        r@.len() == 2,
        r@[0] == spec_lo_byte(v),
        r@[1] == spec_hi_byte(v),
{
    let mut buf = bytes::BytesMut::with_capacity(2);
    bytes::BufMut::put_u16_le(&mut buf, v);
    buf.to_vec()
}

/// Split the register read from the device and return the two-byte field
/// selected by the slot's parity.
pub fn select_config_half(reg: &Vec<u8>, slot: u8) -> (r: u16)
    requires
        reg@.len() >= 4,
    ensures
        r == spec_selected_half(reg@, slot),
{
    if slot % 2 == 0 {
        read_u16_le(reg[0], reg[1])
    } else {
        read_u16_le(reg[2], reg[3])
    }
}

/// Build the four bytes to write back: `v` in the half selected by the
/// slot's parity, the other half taken unchanged from `reg`.
pub fn merge_config_half(reg: &Vec<u8>, slot: u8, v: u16) -> (r: Vec<u8>)
    requires
        reg@.len() >= 4,
    ensures
        r@ == spec_merged_half(reg@, slot, v),
        r@.len() == 4,
{
    let pair = write_u16_le(v);
    let mut out: Vec<u8> = Vec::new();
    if slot % 2 == 0 {
        out.push(pair[0]);
        out.push(pair[1]);
        out.push(reg[2]);
        out.push(reg[3]);
    } else {
        out.push(reg[0]);
        out.push(reg[1]);
        out.push(pair[0]);
        out.push(pair[1]);
    }
    proof {
        assert(out@ =~= spec_merged_half(reg@, slot, v));
    }
    out
}

/// Writing a slot's field and reading it back through the shared register
/// returns the value that was written.
pub proof fn lemma_config_roundtrip(reg: Seq<u8>, slot: u8, v: u16)
    requires
        reg.len() >= 4,
    ensures
        spec_selected_half(spec_merged_half(reg, slot, v), slot) == v,
{
    assert(spec_u16_le(spec_lo_byte(v), spec_hi_byte(v)) == v) by {
        assert(v % 256 + 256 * (v / 256) == v) by (nonlinear_arith);
    }
}

/// Writing a slot's field leaves the paired slot's half of the shared
/// register byte-for-byte unchanged.
pub proof fn lemma_config_pair_unchanged(reg: Seq<u8>, slot: u8, v: u16)
    requires
        reg.len() >= 4,
    ensures
        slot % 2 == 0 ==> spec_merged_half(reg, slot, v)[2] == reg[2]
            && spec_merged_half(reg, slot, v)[3] == reg[3],
        slot % 2 == 1 ==> spec_merged_half(reg, slot, v)[0] == reg[0]
            && spec_merged_half(reg, slot, v)[1] == reg[1],
        spec_selected_half(spec_merged_half(reg, slot, v), (slot ^ 1)) == spec_selected_half(
            reg,
            (slot ^ 1),
        ),
{
    assert((slot ^ 1) % 2 != slot % 2) by (bit_vector);
}

} // verus!
