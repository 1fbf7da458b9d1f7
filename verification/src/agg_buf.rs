//! The per-group aggregation buffer: a flat byte region of fixed-width slots
//! with one validity bit each, plus a side table of dynamic slots for
//! variable-length accumulator state.

use vstd::prelude::*;

use crate::fixed_bytes::dec_bool;
use crate::fixed_bytes::dec_i128;
use crate::fixed_bytes::dec_i16;
use crate::fixed_bytes::dec_i32;
use crate::fixed_bytes::dec_i64;
use crate::fixed_bytes::dec_i8;
use crate::fixed_bytes::dec_u16;
use crate::fixed_bytes::dec_u32;
use crate::fixed_bytes::dec_u64;
use crate::fixed_bytes::dec_u8;
use crate::fixed_bytes::enc_bool;
use crate::fixed_bytes::enc_i128;
use crate::fixed_bytes::enc_i16;
use crate::fixed_bytes::enc_i32;
use crate::fixed_bytes::enc_i64;
use crate::fixed_bytes::enc_i8;
use crate::fixed_bytes::enc_u16;
use crate::fixed_bytes::enc_u32;
use crate::fixed_bytes::enc_u64;
use crate::fixed_bytes::enc_u8;
use crate::fixed_bytes::load16;
use crate::fixed_bytes::load2;
use crate::fixed_bytes::load4;
use crate::fixed_bytes::load8;
use crate::fixed_bytes::store16;
use crate::fixed_bytes::store2;
use crate::fixed_bytes::store4;
use crate::fixed_bytes::store8;

verus! {

/// The precomputed, opaque address of one accumulator's storage inside every
/// buffer of one layout: either a byte offset (plus the index of the slot's
/// validity bit) into the fixed region, or an index into the dynamic-slot
/// table. Addresses are built once per plan and never recomputed per row.
#[derive(Clone, Copy, Debug, PartialEq, Eq, Structural)]
pub enum Addr {
    Fixed { offset: usize, valid_idx: usize },
    Dyn { idx: usize },
}

/// The partial-aggregate state of one group: every fixed slot's raw bytes,
/// one validity bit per fixed slot, and the owned dynamic values.
///
/// A fixed slot's bytes are unspecified until the slot's validity bit is set;
/// readers must check validity first. A dynamic slot holds `None` until its
/// first valid update.
pub struct AggBuf {
    fixed: Vec<u8>,
    valids: Vec<bool>,
    dyns: Vec<Option<Vec<u8>>>,
}

impl AggBuf {
    /// The raw bytes of the fixed region.
    pub closed spec fn fixed_bytes(&self) -> Seq<u8> {
        self.fixed@
    }

    /// The validity bit of each fixed slot.
    pub closed spec fn valid_bits(&self) -> Seq<bool> {
        self.valids@
    }

    /// The contents of each dynamic slot.
    pub closed spec fn dyn_slots(&self) -> Seq<Option<Seq<u8>>> {
        Seq::new(
            self.dyns@.len(),
            |i: int|
                match self.dyns@[i] {
                    Some(v) => Some(v@),
                    None => None,
                },
        )
    }

    /// Creates the buffer for a newly seen group: a zeroed fixed region, every
    /// fixed slot invalid, every dynamic slot absent.
    pub fn new(fixed_len: usize, n_valid: usize, n_dyn: usize) -> (r: AggBuf)
        ensures
            r.fixed_bytes().len() == fixed_len,
            r.valid_bits().len() == n_valid,
            r.dyn_slots().len() == n_dyn,
            forall|i: int| 0 <= i < n_valid ==> !r.valid_bits()[i],
            forall|i: int| 0 <= i < n_dyn ==> r.dyn_slots()[i] is None,
    {
        let mut fixed: Vec<u8> = Vec::new();
        let mut k: usize = 0;
        while k < fixed_len
            invariant
                k <= fixed_len,
                fixed@.len() == k,
            decreases fixed_len - k,
        {
            fixed.push(0u8);
            k = k + 1;
        }
        let mut valids: Vec<bool> = Vec::new();
        k = 0;
        while k < n_valid
            invariant
                k <= n_valid,
                valids@.len() == k,
                forall|i: int| 0 <= i < k ==> !valids@[i],
            decreases n_valid - k,
        {
            valids.push(false);
            k = k + 1;
        }
        let mut dyns: Vec<Option<Vec<u8>>> = Vec::new();
        k = 0;
        while k < n_dyn
            invariant
                k <= n_dyn,
                dyns@.len() == k,
                forall|i: int| 0 <= i < k ==> dyns@[i] is None,
            decreases n_dyn - k,
        {
            dyns.push(None);
            k = k + 1;
        }
        let r = AggBuf { fixed, valids, dyns };
        assert(forall|i: int| 0 <= i < n_dyn ==> r.dyn_slots()[i] is None);
        r
    }

    /// The length in bytes of the fixed region.
    pub fn fixed_len(&self) -> (r: usize)
        ensures
            r == self.fixed_bytes().len(),
    {
        self.fixed.len()
    }

    /// The number of fixed slots (validity bits).
    pub fn n_valid(&self) -> (r: usize)
        ensures
            r == self.valid_bits().len(),
    {
        self.valids.len()
    }

    /// The number of dynamic slots.
    pub fn n_dyn(&self) -> (r: usize)
        ensures
            r == self.dyn_slots().len(),
    {
        self.dyns.len()
    }

    /// Reads a fixed slot's validity bit.
    pub fn is_fixed_valid(&self, valid_idx: usize) -> (r: bool)
        requires
            valid_idx < self.valid_bits().len(),
        ensures
            r == self.valid_bits()[valid_idx as int],
    {
        self.valids[valid_idx]
    }

    /// Sets a fixed slot's validity bit; everything else is untouched.
    pub fn set_fixed_valid(&mut self, valid_idx: usize, b: bool)
        requires
            valid_idx < old(self).valid_bits().len(),
        ensures
            final(self).valid_bits() == old(self).valid_bits().update(valid_idx as int, b),
            final(self).fixed_bytes() == old(self).fixed_bytes(),
            final(self).dyn_slots() == old(self).dyn_slots(),
    {
        self.valids[valid_idx] = b;
        assert(self.dyn_slots() =~= old(self).dyn_slots());
    }


    /// Writes a boolean into the fixed slot at `offset`. The slot's bytes become
    /// the value's encoding; no other byte, validity bit or dynamic slot moves.
    pub fn set_fixed_value_bool(&mut self, offset: usize, v: bool)
        requires
            offset + 1 <= old(self).fixed_bytes().len(),
        ensures
            final(self).fixed_bytes().len() == old(self).fixed_bytes().len(),
            final(self).fixed_bytes().subrange(offset as int, offset + 1) == enc_bool(v),
            forall|j: int|
                0 <= j < final(self).fixed_bytes().len() && !(offset <= j < offset + 1)
                    ==> final(self).fixed_bytes()[j] == old(self).fixed_bytes()[j],
            final(self).valid_bits() == old(self).valid_bits(),
            final(self).dyn_slots() == old(self).dyn_slots(),
    {
        self.fixed[offset] = if v { 1u8 } else { 0u8 };
        assert(self.fixed_bytes().subrange(offset as int, offset + 1) =~= enc_bool(v));
        assert(self.dyn_slots() =~= old(self).dyn_slots());
    }

    /// Reads the fixed slot at `offset` as a boolean. Meaningful only while the
    /// slot's validity bit is set and the slot was written with this type.
    pub fn fixed_value_bool(&self, offset: usize) -> (r: bool)
        requires
            offset + 1 <= self.fixed_bytes().len(),
        ensures
            r == dec_bool(self.fixed_bytes().subrange(offset as int, offset + 1)),
    {
        self.fixed[offset] != 0
    }

    /// Writes a signed 8-bit value into the fixed slot at `offset`. The slot's bytes become
    /// the value's encoding; no other byte, validity bit or dynamic slot moves.
    pub fn set_fixed_value_i8(&mut self, offset: usize, v: i8)
        requires
            offset + 1 <= old(self).fixed_bytes().len(),
        ensures
            final(self).fixed_bytes().len() == old(self).fixed_bytes().len(),
            final(self).fixed_bytes().subrange(offset as int, offset + 1) == enc_i8(v),
            forall|j: int|
                0 <= j < final(self).fixed_bytes().len() && !(offset <= j < offset + 1)
                    ==> final(self).fixed_bytes()[j] == old(self).fixed_bytes()[j],
            final(self).valid_bits() == old(self).valid_bits(),
            final(self).dyn_slots() == old(self).dyn_slots(),
    {
        self.fixed[offset] = v as u8;
        assert(self.fixed_bytes().subrange(offset as int, offset + 1) =~= enc_i8(v));
        assert(self.dyn_slots() =~= old(self).dyn_slots());
    }

    /// Reads the fixed slot at `offset` as a signed 8-bit value. Meaningful only while the
    /// slot's validity bit is set and the slot was written with this type.
    pub fn fixed_value_i8(&self, offset: usize) -> (r: i8)
        requires
            offset + 1 <= self.fixed_bytes().len(),
        ensures
            r == dec_i8(self.fixed_bytes().subrange(offset as int, offset + 1)),
    {
        self.fixed[offset] as i8
    }

    /// Writes an unsigned 8-bit value into the fixed slot at `offset`. The slot's bytes become
    /// the value's encoding; no other byte, validity bit or dynamic slot moves.
    pub fn set_fixed_value_u8(&mut self, offset: usize, v: u8)
        requires
            offset + 1 <= old(self).fixed_bytes().len(),
        ensures
            final(self).fixed_bytes().len() == old(self).fixed_bytes().len(),
            final(self).fixed_bytes().subrange(offset as int, offset + 1) == enc_u8(v),
            forall|j: int|
                0 <= j < final(self).fixed_bytes().len() && !(offset <= j < offset + 1)
                    ==> final(self).fixed_bytes()[j] == old(self).fixed_bytes()[j],
            final(self).valid_bits() == old(self).valid_bits(),
            final(self).dyn_slots() == old(self).dyn_slots(),
    {
        self.fixed[offset] = v;
        assert(self.fixed_bytes().subrange(offset as int, offset + 1) =~= enc_u8(v));
        assert(self.dyn_slots() =~= old(self).dyn_slots());
    }

    /// Reads the fixed slot at `offset` as an unsigned 8-bit value. Meaningful only while the
    /// slot's validity bit is set and the slot was written with this type.
    pub fn fixed_value_u8(&self, offset: usize) -> (r: u8)
        requires
            offset + 1 <= self.fixed_bytes().len(),
        ensures
            r == dec_u8(self.fixed_bytes().subrange(offset as int, offset + 1)),
    {
        self.fixed[offset]
    }

    /// Writes a signed 16-bit value into the fixed slot at `offset`. The slot's bytes become
    /// the value's encoding; no other byte, validity bit or dynamic slot moves.
    pub fn set_fixed_value_i16(&mut self, offset: usize, v: i16)
        requires
            offset + 2 <= old(self).fixed_bytes().len(),
        ensures
            final(self).fixed_bytes().len() == old(self).fixed_bytes().len(),
            final(self).fixed_bytes().subrange(offset as int, offset + 2) == enc_i16(v),
            forall|j: int|
                0 <= j < final(self).fixed_bytes().len() && !(offset <= j < offset + 2)
                    ==> final(self).fixed_bytes()[j] == old(self).fixed_bytes()[j],
            final(self).valid_bits() == old(self).valid_bits(),
            final(self).dyn_slots() == old(self).dyn_slots(),
    {
        store2(&mut self.fixed, offset, v as u16);
        assert(self.fixed_bytes().subrange(offset as int, offset + 2) =~= enc_i16(v));
        assert(self.dyn_slots() =~= old(self).dyn_slots());
    }

    /// Reads the fixed slot at `offset` as a signed 16-bit value. Meaningful only while the
    /// slot's validity bit is set and the slot was written with this type.
    pub fn fixed_value_i16(&self, offset: usize) -> (r: i16)
        requires
            offset + 2 <= self.fixed_bytes().len(),
        ensures
            r == dec_i16(self.fixed_bytes().subrange(offset as int, offset + 2)),
    {
        load2(&self.fixed, offset) as i16
    }

    /// Writes an unsigned 16-bit value into the fixed slot at `offset`. The slot's bytes become
    /// the value's encoding; no other byte, validity bit or dynamic slot moves.
    pub fn set_fixed_value_u16(&mut self, offset: usize, v: u16)
        requires
            offset + 2 <= old(self).fixed_bytes().len(),
        ensures
            final(self).fixed_bytes().len() == old(self).fixed_bytes().len(),
            final(self).fixed_bytes().subrange(offset as int, offset + 2) == enc_u16(v),
            forall|j: int|
                0 <= j < final(self).fixed_bytes().len() && !(offset <= j < offset + 2)
                    ==> final(self).fixed_bytes()[j] == old(self).fixed_bytes()[j],
            final(self).valid_bits() == old(self).valid_bits(),
            final(self).dyn_slots() == old(self).dyn_slots(),
    {
        store2(&mut self.fixed, offset, v);
        assert(self.fixed_bytes().subrange(offset as int, offset + 2) =~= enc_u16(v));
        assert(self.dyn_slots() =~= old(self).dyn_slots());
    }

    /// Reads the fixed slot at `offset` as an unsigned 16-bit value. Meaningful only while the
    /// slot's validity bit is set and the slot was written with this type.
    pub fn fixed_value_u16(&self, offset: usize) -> (r: u16)
        requires
            offset + 2 <= self.fixed_bytes().len(),
        ensures
            r == dec_u16(self.fixed_bytes().subrange(offset as int, offset + 2)),
    {
        load2(&self.fixed, offset)
    }

    /// Writes a signed 32-bit value into the fixed slot at `offset`. The slot's bytes become
    /// the value's encoding; no other byte, validity bit or dynamic slot moves.
    pub fn set_fixed_value_i32(&mut self, offset: usize, v: i32)
        requires
            offset + 4 <= old(self).fixed_bytes().len(),
        ensures
            final(self).fixed_bytes().len() == old(self).fixed_bytes().len(),
            final(self).fixed_bytes().subrange(offset as int, offset + 4) == enc_i32(v),
            forall|j: int|
                0 <= j < final(self).fixed_bytes().len() && !(offset <= j < offset + 4)
                    ==> final(self).fixed_bytes()[j] == old(self).fixed_bytes()[j],
            final(self).valid_bits() == old(self).valid_bits(),
            final(self).dyn_slots() == old(self).dyn_slots(),
    {
        store4(&mut self.fixed, offset, v as u32);
        assert(self.fixed_bytes().subrange(offset as int, offset + 4) =~= enc_i32(v));
        assert(self.dyn_slots() =~= old(self).dyn_slots());
    }

    /// Reads the fixed slot at `offset` as a signed 32-bit value. Meaningful only while the
    /// slot's validity bit is set and the slot was written with this type.
    pub fn fixed_value_i32(&self, offset: usize) -> (r: i32)
        requires
            offset + 4 <= self.fixed_bytes().len(),
        ensures
            r == dec_i32(self.fixed_bytes().subrange(offset as int, offset + 4)),
    {
        load4(&self.fixed, offset) as i32
    }

    /// Writes an unsigned 32-bit value into the fixed slot at `offset`. The slot's bytes become
    /// the value's encoding; no other byte, validity bit or dynamic slot moves.
    pub fn set_fixed_value_u32(&mut self, offset: usize, v: u32)
        requires
            offset + 4 <= old(self).fixed_bytes().len(),
        ensures
            final(self).fixed_bytes().len() == old(self).fixed_bytes().len(),
            final(self).fixed_bytes().subrange(offset as int, offset + 4) == enc_u32(v),
            forall|j: int|
                0 <= j < final(self).fixed_bytes().len() && !(offset <= j < offset + 4)
                    ==> final(self).fixed_bytes()[j] == old(self).fixed_bytes()[j],
            final(self).valid_bits() == old(self).valid_bits(),
            final(self).dyn_slots() == old(self).dyn_slots(),
    {
        store4(&mut self.fixed, offset, v);
        assert(self.fixed_bytes().subrange(offset as int, offset + 4) =~= enc_u32(v));
        assert(self.dyn_slots() =~= old(self).dyn_slots());
    }

    /// Reads the fixed slot at `offset` as an unsigned 32-bit value. Meaningful only while the
    /// slot's validity bit is set and the slot was written with this type.
    pub fn fixed_value_u32(&self, offset: usize) -> (r: u32)
        requires
            offset + 4 <= self.fixed_bytes().len(),
        ensures
            r == dec_u32(self.fixed_bytes().subrange(offset as int, offset + 4)),
    {
        load4(&self.fixed, offset)
    }

    /// Writes a signed 64-bit value into the fixed slot at `offset`. The slot's bytes become
    /// the value's encoding; no other byte, validity bit or dynamic slot moves.
    pub fn set_fixed_value_i64(&mut self, offset: usize, v: i64)
        requires
            offset + 8 <= old(self).fixed_bytes().len(),
        ensures
            final(self).fixed_bytes().len() == old(self).fixed_bytes().len(),
            final(self).fixed_bytes().subrange(offset as int, offset + 8) == enc_i64(v),
            forall|j: int|
                0 <= j < final(self).fixed_bytes().len() && !(offset <= j < offset + 8)
                    ==> final(self).fixed_bytes()[j] == old(self).fixed_bytes()[j],
            final(self).valid_bits() == old(self).valid_bits(),
            final(self).dyn_slots() == old(self).dyn_slots(),
    {
        store8(&mut self.fixed, offset, v as u64);
        assert(self.fixed_bytes().subrange(offset as int, offset + 8) =~= enc_i64(v));
        assert(self.dyn_slots() =~= old(self).dyn_slots());
    }

    /// Reads the fixed slot at `offset` as a signed 64-bit value. Meaningful only while the
    /// slot's validity bit is set and the slot was written with this type.
    pub fn fixed_value_i64(&self, offset: usize) -> (r: i64)
        requires
            offset + 8 <= self.fixed_bytes().len(),
        ensures
            r == dec_i64(self.fixed_bytes().subrange(offset as int, offset + 8)),
    {
        load8(&self.fixed, offset) as i64
    }

    /// Writes an unsigned 64-bit value into the fixed slot at `offset`. The slot's bytes become
    /// the value's encoding; no other byte, validity bit or dynamic slot moves.
    pub fn set_fixed_value_u64(&mut self, offset: usize, v: u64)
        requires
            offset + 8 <= old(self).fixed_bytes().len(),
        ensures
            final(self).fixed_bytes().len() == old(self).fixed_bytes().len(),
            final(self).fixed_bytes().subrange(offset as int, offset + 8) == enc_u64(v),
            forall|j: int|
                0 <= j < final(self).fixed_bytes().len() && !(offset <= j < offset + 8)
                    ==> final(self).fixed_bytes()[j] == old(self).fixed_bytes()[j],
            final(self).valid_bits() == old(self).valid_bits(),
            final(self).dyn_slots() == old(self).dyn_slots(),
    {
        store8(&mut self.fixed, offset, v);
        assert(self.fixed_bytes().subrange(offset as int, offset + 8) =~= enc_u64(v));
        assert(self.dyn_slots() =~= old(self).dyn_slots());
    }

    /// Reads the fixed slot at `offset` as an unsigned 64-bit value. Meaningful only while the
    /// slot's validity bit is set and the slot was written with this type.
    pub fn fixed_value_u64(&self, offset: usize) -> (r: u64)
        requires
            offset + 8 <= self.fixed_bytes().len(),
        ensures
            r == dec_u64(self.fixed_bytes().subrange(offset as int, offset + 8)),
    {
        load8(&self.fixed, offset)
    }

    /// Writes a signed 128-bit value into the fixed slot at `offset`. The slot's bytes become
    /// the value's encoding; no other byte, validity bit or dynamic slot moves.
    pub fn set_fixed_value_i128(&mut self, offset: usize, v: i128)
        requires
            offset + 16 <= old(self).fixed_bytes().len(),
        ensures
            final(self).fixed_bytes().len() == old(self).fixed_bytes().len(),
            final(self).fixed_bytes().subrange(offset as int, offset + 16) == enc_i128(v),
            forall|j: int|
                0 <= j < final(self).fixed_bytes().len() && !(offset <= j < offset + 16)
                    ==> final(self).fixed_bytes()[j] == old(self).fixed_bytes()[j],
            final(self).valid_bits() == old(self).valid_bits(),
            final(self).dyn_slots() == old(self).dyn_slots(),
    {
        store16(&mut self.fixed, offset, v as u128);
        assert(self.fixed_bytes().subrange(offset as int, offset + 16) =~= enc_i128(v));
        assert(self.dyn_slots() =~= old(self).dyn_slots());
    }

    /// Reads the fixed slot at `offset` as a signed 128-bit value. Meaningful only while the
    /// slot's validity bit is set and the slot was written with this type.
    pub fn fixed_value_i128(&self, offset: usize) -> (r: i128)
        requires
            offset + 16 <= self.fixed_bytes().len(),
        ensures
            r == dec_i128(self.fixed_bytes().subrange(offset as int, offset + 16)),
    {
        load16(&self.fixed, offset) as i128
    }

    /// Reads a dynamic slot without giving up ownership.
    pub fn dyn_value_ref(&self, idx: usize) -> (r: &Option<Vec<u8>>)
        requires
            idx < self.dyn_slots().len(),
        ensures
            match r {
                Some(v) => self.dyn_slots()[idx as int] == Some(v@),
                None => self.dyn_slots()[idx as int] is None,
            },
    {
        &self.dyns[idx]
    }

    /// Clones a dynamic slot's contents out of the buffer.
    pub fn dyn_value_clone(&self, idx: usize) -> (r: Option<Vec<u8>>)
        requires
            idx < self.dyn_slots().len(),
        ensures
            match r {
                Some(v) => self.dyn_slots()[idx as int] == Some(v@),
                None => self.dyn_slots()[idx as int] is None,
            },
    {
        match &self.dyns[idx] {
            Some(v) => Some(v.clone()),
            None => None,
        }
    }

    /// Replaces a dynamic slot's contents; everything else is untouched.
    pub fn set_dyn_value(&mut self, idx: usize, v: Vec<u8>)
        requires
            idx < old(self).dyn_slots().len(),
        ensures
            final(self).dyn_slots() == old(self).dyn_slots().update(idx as int, Some(v@)),
            final(self).fixed_bytes() == old(self).fixed_bytes(),
            final(self).valid_bits() == old(self).valid_bits(),
    {
        self.dyns[idx] = Some(v);
        assert(self.dyn_slots() =~= old(self).dyn_slots().update(idx as int, Some(v@)));
    }
}

} // verus!
