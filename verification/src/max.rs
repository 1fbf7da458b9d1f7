//! The MAX accumulator: the type-specialized update and merge strategies, the
//! resolver that picks a strategy once per plan, and the accumulator
//! descriptor itself. Every contract is stated over the slot a precomputed
//! address denotes and the single-step update function of the cell model.

use vstd::prelude::*;

use crate::agg_buf::Addr;
use crate::agg_buf::AggBuf;
use crate::column::Column;
use crate::column::kind_for;
use crate::column::lemma_column_cell_kind;
use crate::fixed_bytes::enc_bool;
use crate::fixed_bytes::enc_i128;
use crate::fixed_bytes::enc_i16;
use crate::fixed_bytes::enc_i32;
use crate::fixed_bytes::enc_i64;
use crate::fixed_bytes::enc_i8;
use crate::fixed_bytes::enc_u16;
use crate::fixed_bytes::enc_u32;
use crate::fixed_bytes::enc_u64;
use crate::fixed_bytes::enc_u8;
use crate::model::kind_of;
use crate::model::lemma_fold_max_permutation;
use crate::model::lemma_max_step_assoc;
use crate::lex::lemma_lex_irrefl;
use crate::fixed_bytes::dec_bool;
use crate::fixed_bytes::dec_i128;
use crate::fixed_bytes::dec_i16;
use crate::fixed_bytes::dec_i32;
use crate::fixed_bytes::dec_i64;
use crate::fixed_bytes::dec_i8;
use crate::fixed_bytes::dec_u16;
use crate::fixed_bytes::dec_u32;
use crate::fixed_bytes::dec_u64;
use crate::fixed_bytes::dec_u8;
use crate::fixed_bytes::lemma_bool_round_trip;
use crate::fixed_bytes::lemma_i128_round_trip;
use crate::fixed_bytes::lemma_i16_round_trip;
use crate::fixed_bytes::lemma_i32_round_trip;
use crate::fixed_bytes::lemma_i64_round_trip;
use crate::fixed_bytes::lemma_i8_round_trip;
use crate::fixed_bytes::lemma_u16_round_trip;
use crate::fixed_bytes::lemma_u32_round_trip;
use crate::fixed_bytes::lemma_u64_round_trip;
use crate::fixed_bytes::lemma_u8_round_trip;
use crate::lex::bytes_lt;
use crate::model::CellKind;
use crate::model::CellVal;
use crate::model::fold_max;
use crate::model::lemma_fold_max_all_none;
use crate::model::lemma_fold_max_snoc;
use crate::model::lemma_fold_max_split;
use crate::model::max_step;
use crate::model::opt_kind_ok;
use crate::value::AccumInitialValue;
use crate::value::AggError;
use crate::value::PhysType;
use crate::value::max_supported;
use crate::value::null_scalar_of;
use crate::value::spec_null_scalar_of;

verus! {

/// The byte width of a fixed slot of the given kind; text lives in dynamic
/// slots and has no fixed width.
pub open spec fn cell_width(k: CellKind) -> int {
    match k {
        CellKind::B => 1,
        CellKind::I8 => 1,
        CellKind::U8 => 1,
        CellKind::I16 => 2,
        CellKind::U16 => 2,
        CellKind::I32 => 4,
        CellKind::U32 => 4,
        CellKind::I64 => 8,
        CellKind::U64 => 8,
        CellKind::I128 => 16,
        CellKind::Text => 0,
    }
}

/// The cell a fixed slot's bytes hold when read with kind `k`.
pub open spec fn dec_cell(k: CellKind, s: Seq<u8>) -> CellVal {
    match k {
        CellKind::B => CellVal::B(dec_bool(s)),
        CellKind::I8 => CellVal::I8(dec_i8(s)),
        CellKind::I16 => CellVal::I16(dec_i16(s)),
        CellKind::I32 => CellVal::I32(dec_i32(s)),
        CellKind::I64 => CellVal::I64(dec_i64(s)),
        CellKind::U8 => CellVal::U8(dec_u8(s)),
        CellKind::U16 => CellVal::U16(dec_u16(s)),
        CellKind::U32 => CellVal::U32(dec_u32(s)),
        CellKind::U64 => CellVal::U64(dec_u64(s)),
        CellKind::I128 => CellVal::I128(dec_i128(s)),
        CellKind::Text => CellVal::Text(s),
    }
}

/// An address denotes a slot of kind `k` that lies inside the buffer.
pub open spec fn addr_ok(addr: Addr, k: CellKind, buf: AggBuf) -> bool {
    match addr {
        Addr::Fixed { offset, valid_idx } => k != CellKind::Text && offset + cell_width(k)
            <= buf.fixed_bytes().len() && valid_idx < buf.valid_bits().len(),
        Addr::Dyn { idx } => k == CellKind::Text && idx < buf.dyn_slots().len(),
    }
}

/// The value the addressed slot holds: `None` while the slot is invalid or
/// absent, otherwise the decoded fixed cell or the owned text.
pub open spec fn slot_cell(buf: AggBuf, addr: Addr, k: CellKind) -> Option<CellVal> {
    match addr {
        Addr::Fixed { offset, valid_idx } => if buf.valid_bits()[valid_idx as int] {
            Some(dec_cell(k, buf.fixed_bytes().subrange(offset as int, offset + cell_width(k))))
        } else {
            None
        },
        Addr::Dyn { idx } => match buf.dyn_slots()[idx as int] {
            Some(s) => Some(CellVal::Text(s)),
            None => None,
        },
    }
}

/// Two buffers hold exactly the same state.
pub open spec fn buf_eq(a: AggBuf, b: AggBuf) -> bool {
    &&& a.fixed_bytes() == b.fixed_bytes()
    &&& a.valid_bits() == b.valid_bits()
    &&& a.dyn_slots() == b.dyn_slots()
}

/// Nothing outside the addressed slot changed between `pre` and `post`.
pub open spec fn frame_except(pre: AggBuf, post: AggBuf, addr: Addr, k: CellKind) -> bool {
    match addr {
        Addr::Fixed { offset, valid_idx } => {
            &&& post.fixed_bytes().len() == pre.fixed_bytes().len()
            &&& forall|j: int|
                0 <= j < pre.fixed_bytes().len() && !(offset <= j < offset + cell_width(k))
                    ==> post.fixed_bytes()[j] == pre.fixed_bytes()[j]
            &&& post.valid_bits().len() == pre.valid_bits().len()
            &&& forall|j: int|
                0 <= j < pre.valid_bits().len() && j != valid_idx ==> post.valid_bits()[j]
                    == pre.valid_bits()[j]
            &&& post.dyn_slots() == pre.dyn_slots()
        },
        Addr::Dyn { idx } => {
            &&& post.fixed_bytes() == pre.fixed_bytes()
            &&& post.valid_bits() == pre.valid_bits()
            &&& post.dyn_slots().len() == pre.dyn_slots().len()
            &&& forall|j: int|
                0 <= j < pre.dyn_slots().len() && j != idx ==> post.dyn_slots()[j]
                    == pre.dyn_slots()[j]
        },
    }
}

/// The addressed slot took one update step with `c`, nothing else moved, and
/// an update that would not change the slot left the whole buffer untouched.
pub open spec fn slot_updated(
    pre: AggBuf,
    post: AggBuf,
    addr: Addr,
    k: CellKind,
    c: Option<CellVal>,
) -> bool {
    &&& slot_cell(post, addr, k) == max_step(slot_cell(pre, addr, k), c)
    &&& frame_except(pre, post, addr, k)
    &&& (max_step(slot_cell(pre, addr, k), c) == slot_cell(pre, addr, k) ==> buf_eq(pre, post))
}

/// The folded maximum of a whole column: the batch's own reduction, before it
/// meets the buffer.
pub open spec fn col_max(col: Column) -> Option<CellVal> {
    fold_max(None, col.cells())
}

/// Updates one fixed slot with one valid `bool` value: seeds an invalid slot,
/// otherwise keeps the larger value; a tie keeps the buffered value.
fn partial_update_prim_bool(buf: &mut AggBuf, offset: usize, valid_idx: usize, v: bool)
    requires
        offset + 1 <= old(buf).fixed_bytes().len(),
        valid_idx < old(buf).valid_bits().len(),
    ensures
        slot_updated(
            *old(buf),
            *final(buf),
            Addr::Fixed { offset, valid_idx },
            CellKind::B,
            Some(CellVal::B(v)),
        ),
{
    proof {
        lemma_bool_round_trip(v);
    }
    if buf.is_fixed_valid(valid_idx) {
        let w = buf.fixed_value_bool(offset);
        if !w && v {
            buf.set_fixed_value_bool(offset, v);
        }
    } else {
        buf.set_fixed_value_bool(offset, v);
        buf.set_fixed_valid(valid_idx, true);
    }
}

/// Updates one fixed slot with one valid `i8` value: seeds an invalid slot,
/// otherwise keeps the larger value; a tie keeps the buffered value.
fn partial_update_prim_i8(buf: &mut AggBuf, offset: usize, valid_idx: usize, v: i8)
    requires
        offset + 1 <= old(buf).fixed_bytes().len(),
        valid_idx < old(buf).valid_bits().len(),
    ensures
        slot_updated(
            *old(buf),
            *final(buf),
            Addr::Fixed { offset, valid_idx },
            CellKind::I8,
            Some(CellVal::I8(v)),
        ),
{
    proof {
        lemma_i8_round_trip(v);
    }
    if buf.is_fixed_valid(valid_idx) {
        let w = buf.fixed_value_i8(offset);
        if w < v {
            buf.set_fixed_value_i8(offset, v);
        }
    } else {
        buf.set_fixed_value_i8(offset, v);
        buf.set_fixed_valid(valid_idx, true);
    }
}

/// Updates one fixed slot with one valid `i16` value: seeds an invalid slot,
/// otherwise keeps the larger value; a tie keeps the buffered value.
fn partial_update_prim_i16(buf: &mut AggBuf, offset: usize, valid_idx: usize, v: i16)
    requires
        offset + 2 <= old(buf).fixed_bytes().len(),
        valid_idx < old(buf).valid_bits().len(),
    ensures
        slot_updated(
            *old(buf),
            *final(buf),
            Addr::Fixed { offset, valid_idx },
            CellKind::I16,
            Some(CellVal::I16(v)),
        ),
{
    proof {
        lemma_i16_round_trip(v);
    }
    if buf.is_fixed_valid(valid_idx) {
        let w = buf.fixed_value_i16(offset);
        if w < v {
            buf.set_fixed_value_i16(offset, v);
        }
    } else {
        buf.set_fixed_value_i16(offset, v);
        buf.set_fixed_valid(valid_idx, true);
    }
}

/// Updates one fixed slot with one valid `i32` value: seeds an invalid slot,
/// otherwise keeps the larger value; a tie keeps the buffered value.
fn partial_update_prim_i32(buf: &mut AggBuf, offset: usize, valid_idx: usize, v: i32)
    requires
        offset + 4 <= old(buf).fixed_bytes().len(),
        valid_idx < old(buf).valid_bits().len(),
    ensures
        slot_updated(
            *old(buf),
            *final(buf),
            Addr::Fixed { offset, valid_idx },
            CellKind::I32,
            Some(CellVal::I32(v)),
        ),
{
    proof {
        lemma_i32_round_trip(v);
    }
    if buf.is_fixed_valid(valid_idx) {
        let w = buf.fixed_value_i32(offset);
        if w < v {
            buf.set_fixed_value_i32(offset, v);
        }
    } else {
        buf.set_fixed_value_i32(offset, v);
        buf.set_fixed_valid(valid_idx, true);
    }
}

/// Updates one fixed slot with one valid `i64` value: seeds an invalid slot,
/// otherwise keeps the larger value; a tie keeps the buffered value.
fn partial_update_prim_i64(buf: &mut AggBuf, offset: usize, valid_idx: usize, v: i64)
    requires
        offset + 8 <= old(buf).fixed_bytes().len(),
        valid_idx < old(buf).valid_bits().len(),
    ensures
        slot_updated(
            *old(buf),
            *final(buf),
            Addr::Fixed { offset, valid_idx },
            CellKind::I64,
            Some(CellVal::I64(v)),
        ),
{
    proof {
        lemma_i64_round_trip(v);
    }
    if buf.is_fixed_valid(valid_idx) {
        let w = buf.fixed_value_i64(offset);
        if w < v {
            buf.set_fixed_value_i64(offset, v);
        }
    } else {
        buf.set_fixed_value_i64(offset, v);
        buf.set_fixed_valid(valid_idx, true);
    }
}

/// Updates one fixed slot with one valid `u8` value: seeds an invalid slot,
/// otherwise keeps the larger value; a tie keeps the buffered value.
fn partial_update_prim_u8(buf: &mut AggBuf, offset: usize, valid_idx: usize, v: u8)
    requires
        offset + 1 <= old(buf).fixed_bytes().len(),
        valid_idx < old(buf).valid_bits().len(),
    ensures
        slot_updated(
            *old(buf),
            *final(buf),
            Addr::Fixed { offset, valid_idx },
            CellKind::U8,
            Some(CellVal::U8(v)),
        ),
{
    proof {
        lemma_u8_round_trip(v);
    }
    if buf.is_fixed_valid(valid_idx) {
        let w = buf.fixed_value_u8(offset);
        if w < v {
            buf.set_fixed_value_u8(offset, v);
        }
    } else {
        buf.set_fixed_value_u8(offset, v);
        buf.set_fixed_valid(valid_idx, true);
    }
}

/// Updates one fixed slot with one valid `u16` value: seeds an invalid slot,
/// otherwise keeps the larger value; a tie keeps the buffered value.
fn partial_update_prim_u16(buf: &mut AggBuf, offset: usize, valid_idx: usize, v: u16)
    requires
        offset + 2 <= old(buf).fixed_bytes().len(),
        valid_idx < old(buf).valid_bits().len(),
    ensures
        slot_updated(
            *old(buf),
            *final(buf),
            Addr::Fixed { offset, valid_idx },
            CellKind::U16,
            Some(CellVal::U16(v)),
        ),
{
    proof {
        lemma_u16_round_trip(v);
    }
    if buf.is_fixed_valid(valid_idx) {
        let w = buf.fixed_value_u16(offset);
        if w < v {
            buf.set_fixed_value_u16(offset, v);
        }
    } else {
        buf.set_fixed_value_u16(offset, v);
        buf.set_fixed_valid(valid_idx, true);
    }
}

/// Updates one fixed slot with one valid `u32` value: seeds an invalid slot,
/// otherwise keeps the larger value; a tie keeps the buffered value.
fn partial_update_prim_u32(buf: &mut AggBuf, offset: usize, valid_idx: usize, v: u32)
    requires
        offset + 4 <= old(buf).fixed_bytes().len(),
        valid_idx < old(buf).valid_bits().len(),
    ensures
        slot_updated(
            *old(buf),
            *final(buf),
            Addr::Fixed { offset, valid_idx },
            CellKind::U32,
            Some(CellVal::U32(v)),
        ),
{
    proof {
        lemma_u32_round_trip(v);
    }
    if buf.is_fixed_valid(valid_idx) {
        let w = buf.fixed_value_u32(offset);
        if w < v {
            buf.set_fixed_value_u32(offset, v);
        }
    } else {
        buf.set_fixed_value_u32(offset, v);
        buf.set_fixed_valid(valid_idx, true);
    }
}

/// Updates one fixed slot with one valid `u64` value: seeds an invalid slot,
/// otherwise keeps the larger value; a tie keeps the buffered value.
fn partial_update_prim_u64(buf: &mut AggBuf, offset: usize, valid_idx: usize, v: u64)
    requires
        offset + 8 <= old(buf).fixed_bytes().len(),
        valid_idx < old(buf).valid_bits().len(),
    ensures
        slot_updated(
            *old(buf),
            *final(buf),
            Addr::Fixed { offset, valid_idx },
            CellKind::U64,
            Some(CellVal::U64(v)),
        ),
{
    proof {
        lemma_u64_round_trip(v);
    }
    if buf.is_fixed_valid(valid_idx) {
        let w = buf.fixed_value_u64(offset);
        if w < v {
            buf.set_fixed_value_u64(offset, v);
        }
    } else {
        buf.set_fixed_value_u64(offset, v);
        buf.set_fixed_valid(valid_idx, true);
    }
}

/// Updates one fixed slot with one valid `i128` value: seeds an invalid slot,
/// otherwise keeps the larger value; a tie keeps the buffered value.
fn partial_update_prim_i128(buf: &mut AggBuf, offset: usize, valid_idx: usize, v: i128)
    requires
        offset + 16 <= old(buf).fixed_bytes().len(),
        valid_idx < old(buf).valid_bits().len(),
    ensures
        slot_updated(
            *old(buf),
            *final(buf),
            Addr::Fixed { offset, valid_idx },
            CellKind::I128,
            Some(CellVal::I128(v)),
        ),
{
    proof {
        lemma_i128_round_trip(v);
    }
    if buf.is_fixed_valid(valid_idx) {
        let w = buf.fixed_value_i128(offset);
        if w < v {
            buf.set_fixed_value_i128(offset, v);
        }
    } else {
        buf.set_fixed_value_i128(offset, v);
        buf.set_fixed_valid(valid_idx, true);
    }
}

/// Updates one dynamic slot with one valid text value: seeds an absent slot,
/// and replaces the buffered bytes only when the candidate strictly exceeds
/// them, so no reallocation happens otherwise.
fn partial_update_text(buf: &mut AggBuf, idx: usize, v: &Vec<u8>)
    requires
        idx < old(buf).dyn_slots().len(),
    ensures
        slot_updated(
            *old(buf),
            *final(buf),
            Addr::Dyn { idx },
            CellKind::Text,
            Some(CellVal::Text(v@)),
        ),
{
    let replace = match buf.dyn_value_ref(idx) {
        Some(w) => bytes_lt(w, v),
        None => true,
    };
    if replace {
        let c = v.clone();
        proof {
            assert(c@ =~= v@);
            lemma_lex_irrefl(v@);
        }
        buf.set_dyn_value(idx, c);
    }
}

/// The update and merge strategy resolved once, at accumulator construction,
/// for one physical type: which fixed-width comparison the per-row and merge
/// paths run, the text path, or the no-op path of the null type. Resolving
/// this once collapses the per-row type switch into a one-time decision.
#[derive(Clone, Copy, Debug, PartialEq, Eq, Structural)]
pub enum MaxKernel {
    Noop,
    Bool,
    I8,
    I16,
    I32,
    I64,
    U8,
    U16,
    U32,
    U64,
    I128,
    Text,
}

/// The strategy the resolver picks for each supported physical type. The
/// unsupported binary type is never resolved; the value given here for it is
/// arbitrary.
pub open spec fn spec_kernel_of(dt: PhysType) -> MaxKernel {
    match dt {
        PhysType::Null => MaxKernel::Noop,
        PhysType::Boolean => MaxKernel::Bool,
        PhysType::Int8 => MaxKernel::I8,
        PhysType::Int16 => MaxKernel::I16,
        PhysType::Int32 => MaxKernel::I32,
        PhysType::Int64 => MaxKernel::I64,
        PhysType::UInt8 => MaxKernel::U8,
        PhysType::UInt16 => MaxKernel::U16,
        PhysType::UInt32 => MaxKernel::U32,
        PhysType::UInt64 => MaxKernel::U64,
        PhysType::Date32 => MaxKernel::I32,
        PhysType::Date64 => MaxKernel::I64,
        PhysType::Timestamp(_) => MaxKernel::I64,
        PhysType::Decimal128(_, _) => MaxKernel::I128,
        PhysType::Utf8 => MaxKernel::Text,
        PhysType::Binary => MaxKernel::Noop,
    }
}

/// Resolves, once per plan, the per-row and whole-batch update strategy for a column's
/// physical type; a type with no MAX implementation is refused here, before
/// any row is processed.
pub fn get_partial_updater(dt: &PhysType) -> (r: Result<MaxKernel, AggError>)
    ensures
        max_supported(*dt) ==> r == Ok::<MaxKernel, AggError>(spec_kernel_of(*dt)),
        !max_supported(*dt) ==> r == Err::<MaxKernel, AggError>(AggError::UnsupportedDataType),
{
    match dt {
        PhysType::Null => Ok(MaxKernel::Noop),
        PhysType::Boolean => Ok(MaxKernel::Bool),
        PhysType::Int8 => Ok(MaxKernel::I8),
        PhysType::Int16 => Ok(MaxKernel::I16),
        PhysType::Int32 => Ok(MaxKernel::I32),
        PhysType::Int64 => Ok(MaxKernel::I64),
        PhysType::UInt8 => Ok(MaxKernel::U8),
        PhysType::UInt16 => Ok(MaxKernel::U16),
        PhysType::UInt32 => Ok(MaxKernel::U32),
        PhysType::UInt64 => Ok(MaxKernel::U64),
        PhysType::Date32 => Ok(MaxKernel::I32),
        PhysType::Date64 => Ok(MaxKernel::I64),
        PhysType::Timestamp(_) => Ok(MaxKernel::I64),
        PhysType::Decimal128(_, _) => Ok(MaxKernel::I128),
        PhysType::Utf8 => Ok(MaxKernel::Text),
        PhysType::Binary => Err(AggError::UnsupportedDataType),
    }
}

/// Resolves, once per plan, the buffer-merge strategy for a column's
/// physical type; a type with no MAX implementation is refused here, before
/// any row is processed.
pub fn get_partial_buf_merger(dt: &PhysType) -> (r: Result<MaxKernel, AggError>)
    ensures
        max_supported(*dt) ==> r == Ok::<MaxKernel, AggError>(spec_kernel_of(*dt)),
        !max_supported(*dt) ==> r == Err::<MaxKernel, AggError>(AggError::UnsupportedDataType),
{
    match dt {
        PhysType::Null => Ok(MaxKernel::Noop),
        PhysType::Boolean => Ok(MaxKernel::Bool),
        PhysType::Int8 => Ok(MaxKernel::I8),
        PhysType::Int16 => Ok(MaxKernel::I16),
        PhysType::Int32 => Ok(MaxKernel::I32),
        PhysType::Int64 => Ok(MaxKernel::I64),
        PhysType::UInt8 => Ok(MaxKernel::U8),
        PhysType::UInt16 => Ok(MaxKernel::U16),
        PhysType::UInt32 => Ok(MaxKernel::U32),
        PhysType::UInt64 => Ok(MaxKernel::U64),
        PhysType::Date32 => Ok(MaxKernel::I32),
        PhysType::Date64 => Ok(MaxKernel::I64),
        PhysType::Timestamp(_) => Ok(MaxKernel::I64),
        PhysType::Decimal128(_, _) => Ok(MaxKernel::I128),
        PhysType::Utf8 => Ok(MaxKernel::Text),
        PhysType::Binary => Err(AggError::UnsupportedDataType),
    }
}

/// The MAX accumulator descriptor: immutable, created once per aggregate
/// expression, holding the accumulator's output type, its seed value and the
/// two strategies resolved for that type. All mutable state lives in the
/// group buffers the caller supplies.
pub struct AggMax {
    data_type: PhysType,
    accums_initial: Vec<AccumInitialValue>,
    partial_updater: MaxKernel,
    partial_buf_merger: MaxKernel,
}

impl AggMax {
    /// The accumulator's output type.
    pub closed spec fn spec_data_type(&self) -> PhysType {
        self.data_type
    }

    /// A well-formed descriptor: its type is supported, both strategies are
    /// the ones resolved for that type, and the seed is the typed null.
    pub closed spec fn wf(&self) -> bool {
        &&& max_supported(self.data_type)
        &&& self.partial_updater == spec_kernel_of(self.data_type)
        &&& self.partial_buf_merger == spec_kernel_of(self.data_type)
        &&& self.accums_initial@ == seq![
            AccumInitialValue::Scalar(spec_null_scalar_of(self.data_type)),
        ]
    }

    /// Builds a MAX accumulator for one column type: resolves both strategies
    /// once and fixes the typed-null seed value. Fails, with the one error
    /// this core knows, exactly on the types that have no MAX implementation.
    pub fn try_new(data_type: PhysType) -> (r: Result<AggMax, AggError>)
        ensures
            max_supported(data_type) <==> r is Ok,
            r matches Ok(m) ==> m.wf() && m.spec_data_type() == data_type,
            !max_supported(data_type) ==> r == Err::<AggMax, AggError>(
                AggError::UnsupportedDataType,
            ),
    {
        let partial_updater = match get_partial_updater(&data_type) {
            Ok(k) => k,
            Err(e) => {
                return Err(e);
            },
        };
        let partial_buf_merger = match get_partial_buf_merger(&data_type) {
            Ok(k) => k,
            Err(e) => {
                return Err(e);
            },
        };
        let accums_initial = vec![AccumInitialValue::Scalar(null_scalar_of(&data_type))];
        proof {
            assert(accums_initial@ =~= seq![
                AccumInitialValue::Scalar(spec_null_scalar_of(data_type)),
            ]);
        }
        Ok(
            AggMax {
                data_type,
                accums_initial,
                partial_updater,
                partial_buf_merger,
            },
        )
    }

    /// The accumulator's output type.
    pub fn data_type(&self) -> (r: &PhysType)
        ensures
            *r == self.spec_data_type(),
    {
        &self.data_type
    }

    /// A MAX over a column with no valid value is null, so the output is
    /// always nullable.
    pub fn nullable(&self) -> (r: bool)
        ensures
            r,
    {
        true
    }

    /// The seed state of this accumulator's one slot: the typed null.
    pub fn accums_initial(&self) -> (r: &Vec<AccumInitialValue>)
        ensures
            self.wf() ==> r@ == seq![
                AccumInitialValue::Scalar(spec_null_scalar_of(self.spec_data_type())),
            ],
    {
        &self.accums_initial
    }

    /// Reads one element of one column and folds it into the addressed slot:
    /// a null element leaves the buffer untouched, a value seeds an invalid
    /// slot and otherwise keeps the larger of slot and value.
    pub fn partial_update(
        &self,
        agg_buf: &mut AggBuf,
        agg_buf_addrs: &Vec<Addr>,
        values: &Vec<Column>,
        row_idx: usize,
    ) -> (r: Result<(), AggError>)
        requires
            self.wf(),
            agg_buf_addrs@.len() >= 1,
            values@.len() >= 1,
            values@[0].spec_phys_type() == self.spec_data_type(),
            row_idx < values@[0].spec_len(),
            self.spec_data_type() != PhysType::Null ==> addr_ok(
                agg_buf_addrs@[0],
                kind_for(self.spec_data_type()),
                *old(agg_buf),
            ),
        ensures
            r is Ok,
            slot_updated(
                *old(agg_buf),
                *final(agg_buf),
                agg_buf_addrs@[0],
                kind_for(self.spec_data_type()),
                values@[0].cell(row_idx as int),
            ),
    {
        let addr = agg_buf_addrs[0];
        let col = &values[0];
        match self.partial_updater {
            MaxKernel::Noop => Ok(()),
            MaxKernel::Text => {
                if let Addr::Dyn { idx } = addr {
                    match col.get_text(row_idx) {
                        Some(v) => partial_update_text(agg_buf, idx, v),
                        None => (),
                    }
                    Ok(())
                } else {
                    proof {
                        assert(false);
                    }
                    Ok(())
                }
            },
            MaxKernel::Bool => {
                if let Addr::Fixed { offset, valid_idx } = addr {
                    match col.get_bool(row_idx) {
                        Some(v) => partial_update_prim_bool(agg_buf, offset, valid_idx, v),
                        None => (),
                    }
                    Ok(())
                } else {
                    proof {
                        assert(false);
                    }
                    Ok(())
                }
            },
            MaxKernel::I8 => {
                if let Addr::Fixed { offset, valid_idx } = addr {
                    match col.get_i8(row_idx) {
                        Some(v) => partial_update_prim_i8(agg_buf, offset, valid_idx, v),
                        None => (),
                    }
                    Ok(())
                } else {
                    proof {
                        assert(false);
                    }
                    Ok(())
                }
            },
            MaxKernel::I16 => {
                if let Addr::Fixed { offset, valid_idx } = addr {
                    match col.get_i16(row_idx) {
                        Some(v) => partial_update_prim_i16(agg_buf, offset, valid_idx, v),
                        None => (),
                    }
                    Ok(())
                } else {
                    proof {
                        assert(false);
                    }
                    Ok(())
                }
            },
            MaxKernel::I32 => {
                if let Addr::Fixed { offset, valid_idx } = addr {
                    match col.get_i32(row_idx) {
                        Some(v) => partial_update_prim_i32(agg_buf, offset, valid_idx, v),
                        None => (),
                    }
                    Ok(())
                } else {
                    proof {
                        assert(false);
                    }
                    Ok(())
                }
            },
            MaxKernel::I64 => {
                if let Addr::Fixed { offset, valid_idx } = addr {
                    match col.get_i64(row_idx) {
                        Some(v) => partial_update_prim_i64(agg_buf, offset, valid_idx, v),
                        None => (),
                    }
                    Ok(())
                } else {
                    proof {
                        assert(false);
                    }
                    Ok(())
                }
            },
            MaxKernel::U8 => {
                if let Addr::Fixed { offset, valid_idx } = addr {
                    match col.get_u8(row_idx) {
                        Some(v) => partial_update_prim_u8(agg_buf, offset, valid_idx, v),
                        None => (),
                    }
                    Ok(())
                } else {
                    proof {
                        assert(false);
                    }
                    Ok(())
                }
            },
            MaxKernel::U16 => {
                if let Addr::Fixed { offset, valid_idx } = addr {
                    match col.get_u16(row_idx) {
                        Some(v) => partial_update_prim_u16(agg_buf, offset, valid_idx, v),
                        None => (),
                    }
                    Ok(())
                } else {
                    proof {
                        assert(false);
                    }
                    Ok(())
                }
            },
            MaxKernel::U32 => {
                if let Addr::Fixed { offset, valid_idx } = addr {
                    match col.get_u32(row_idx) {
                        Some(v) => partial_update_prim_u32(agg_buf, offset, valid_idx, v),
                        None => (),
                    }
                    Ok(())
                } else {
                    proof {
                        assert(false);
                    }
                    Ok(())
                }
            },
            MaxKernel::U64 => {
                if let Addr::Fixed { offset, valid_idx } = addr {
                    match col.get_u64(row_idx) {
                        Some(v) => partial_update_prim_u64(agg_buf, offset, valid_idx, v),
                        None => (),
                    }
                    Ok(())
                } else {
                    proof {
                        assert(false);
                    }
                    Ok(())
                }
            },
            MaxKernel::I128 => {
                if let Addr::Fixed { offset, valid_idx } = addr {
                    match col.get_i128(row_idx) {
                        Some(v) => partial_update_prim_i128(agg_buf, offset, valid_idx, v),
                        None => (),
                    }
                    Ok(())
                } else {
                    proof {
                        assert(false);
                    }
                    Ok(())
                }
            },
        }
    }

    /// The whole-batch fast path: reduces the batch to its own maximum first
    /// and then touches the buffer at most once, with the same result as one
    /// `partial_update` per row.
    pub fn partial_update_all(
        &self,
        agg_buf: &mut AggBuf,
        agg_buf_addrs: &Vec<Addr>,
        values: &Vec<Column>,
    ) -> (r: Result<(), AggError>)
        requires
            self.wf(),
            agg_buf_addrs@.len() >= 1,
            values@.len() >= 1,
            values@[0].spec_phys_type() == self.spec_data_type(),
            self.spec_data_type() != PhysType::Null ==> addr_ok(
                agg_buf_addrs@[0],
                kind_for(self.spec_data_type()),
                *old(agg_buf),
            ),
        ensures
            r is Ok,
            slot_updated(
                *old(agg_buf),
                *final(agg_buf),
                agg_buf_addrs@[0],
                kind_for(self.spec_data_type()),
                col_max(values@[0]),
            ),
    {
        let addr = agg_buf_addrs[0];
        let col = &values[0];
        match self.partial_updater {
            MaxKernel::Noop => {
                proof {
                    assert(forall|i: int|
                        0 <= i < col.cells().len() ==> col.cells()[i] is None);
                    lemma_fold_max_all_none(None, col.cells());
                }
                Ok(())
            },
            MaxKernel::Text => {
                if let Addr::Dyn { idx } = addr {
                    let n = col.len();
                    let mut m: Option<&Vec<u8>> = None;
                    let mut i: usize = 0;
                    proof {
                        assert(col.cells().take(0) =~= Seq::<Option<CellVal>>::empty());
                    }
                    while i < n
                        invariant
                            i <= n,
                            n as int == col.spec_len(),
                            kind_for(col.spec_phys_type()) == CellKind::Text,
                            match m {
                                Some(x) => fold_max(None, col.cells().take(i as int)) == Some(
                                    CellVal::Text(x@),
                                ),
                                None => fold_max(None, col.cells().take(i as int)) is None,
                            },
                        decreases n - i,
                    {
                        proof {
                            assert(col.cells()[i as int] == col.cell(i as int));
                            assert(col.cells().take(i + 1) =~= col.cells().take(
                                i as int,
                            ).push(col.cells()[i as int]));
                            lemma_fold_max_snoc(
                                None,
                                col.cells().take(i as int),
                                col.cells()[i as int],
                            );
                        }
                        match col.get_text(i) {
                            Some(v) => {
                                m = match m {
                                    Some(x) => if bytes_lt(x, v) {
                                        Some(v)
                                    } else {
                                        Some(x)
                                    },
                                    None => Some(v),
                                };
                            },
                            None => (),
                        }
                        i = i + 1;
                    }
                    proof {
                        assert(col.cells().take(n as int) =~= col.cells());
                    }
                    match m {
                        Some(v) => partial_update_text(agg_buf, idx, v),
                        None => (),
                    }
                    Ok(())
                } else {
                    proof {
                        assert(false);
                    }
                    Ok(())
                }
            },
            MaxKernel::Bool => {
                if let Addr::Fixed { offset, valid_idx } = addr {
                    let n = col.len();
                    let mut m: Option<bool> = None;
                    let mut i: usize = 0;
                    proof {
                        assert(col.cells().take(0) =~= Seq::<Option<CellVal>>::empty());
                    }
                    while i < n
                        invariant
                            i <= n,
                            n as int == col.spec_len(),
                            kind_for(col.spec_phys_type()) == CellKind::B,
                            col.spec_phys_type() != PhysType::Null,
                            match m {
                                Some(x) => fold_max(None, col.cells().take(i as int)) == Some(
                                    CellVal::B(x),
                                ),
                                None => fold_max(None, col.cells().take(i as int)) is None,
                            },
                        decreases n - i,
                    {
                        proof {
                            assert(col.cells()[i as int] == col.cell(i as int));
                            assert(col.cells().take(i + 1) =~= col.cells().take(
                                i as int,
                            ).push(col.cells()[i as int]));
                            lemma_fold_max_snoc(
                                None,
                                col.cells().take(i as int),
                                col.cells()[i as int],
                            );
                        }
                        match col.get_bool(i) {
                            Some(v) => {
                                m = match m {
                                    Some(x) => if !x && v {
                                        Some(v)
                                    } else {
                                        Some(x)
                                    },
                                    None => Some(v),
                                };
                            },
                            None => (),
                        }
                        i = i + 1;
                    }
                    proof {
                        assert(col.cells().take(n as int) =~= col.cells());
                    }
                    match m {
                        Some(v) => partial_update_prim_bool(agg_buf, offset, valid_idx, v),
                        None => (),
                    }
                    Ok(())
                } else {
                    proof {
                        assert(false);
                    }
                    Ok(())
                }
            },
            MaxKernel::I8 => {
                if let Addr::Fixed { offset, valid_idx } = addr {
                    let n = col.len();
                    let mut m: Option<i8> = None;
                    let mut i: usize = 0;
                    proof {
                        assert(col.cells().take(0) =~= Seq::<Option<CellVal>>::empty());
                    }
                    while i < n
                        invariant
                            i <= n,
                            n as int == col.spec_len(),
                            kind_for(col.spec_phys_type()) == CellKind::I8,
                            col.spec_phys_type() != PhysType::Null,
                            match m {
                                Some(x) => fold_max(None, col.cells().take(i as int)) == Some(
                                    CellVal::I8(x),
                                ),
                                None => fold_max(None, col.cells().take(i as int)) is None,
                            },
                        decreases n - i,
                    {
                        proof {
                            assert(col.cells()[i as int] == col.cell(i as int));
                            assert(col.cells().take(i + 1) =~= col.cells().take(
                                i as int,
                            ).push(col.cells()[i as int]));
                            lemma_fold_max_snoc(
                                None,
                                col.cells().take(i as int),
                                col.cells()[i as int],
                            );
                        }
                        match col.get_i8(i) {
                            Some(v) => {
                                m = match m {
                                    Some(x) => if x < v {
                                        Some(v)
                                    } else {
                                        Some(x)
                                    },
                                    None => Some(v),
                                };
                            },
                            None => (),
                        }
                        i = i + 1;
                    }
                    proof {
                        assert(col.cells().take(n as int) =~= col.cells());
                    }
                    match m {
                        Some(v) => partial_update_prim_i8(agg_buf, offset, valid_idx, v),
                        None => (),
                    }
                    Ok(())
                } else {
                    proof {
                        assert(false);
                    }
                    Ok(())
                }
            },
            MaxKernel::I16 => {
                if let Addr::Fixed { offset, valid_idx } = addr {
                    let n = col.len();
                    let mut m: Option<i16> = None;
                    let mut i: usize = 0;
                    proof {
                        assert(col.cells().take(0) =~= Seq::<Option<CellVal>>::empty());
                    }
                    while i < n
                        invariant
                            i <= n,
                            n as int == col.spec_len(),
                            kind_for(col.spec_phys_type()) == CellKind::I16,
                            col.spec_phys_type() != PhysType::Null,
                            match m {
                                Some(x) => fold_max(None, col.cells().take(i as int)) == Some(
                                    CellVal::I16(x),
                                ),
                                None => fold_max(None, col.cells().take(i as int)) is None,
                            },
                        decreases n - i,
                    {
                        proof {
                            assert(col.cells()[i as int] == col.cell(i as int));
                            assert(col.cells().take(i + 1) =~= col.cells().take(
                                i as int,
                            ).push(col.cells()[i as int]));
                            lemma_fold_max_snoc(
                                None,
                                col.cells().take(i as int),
                                col.cells()[i as int],
                            );
                        }
                        match col.get_i16(i) {
                            Some(v) => {
                                m = match m {
                                    Some(x) => if x < v {
                                        Some(v)
                                    } else {
                                        Some(x)
                                    },
                                    None => Some(v),
                                };
                            },
                            None => (),
                        }
                        i = i + 1;
                    }
                    proof {
                        assert(col.cells().take(n as int) =~= col.cells());
                    }
                    match m {
                        Some(v) => partial_update_prim_i16(agg_buf, offset, valid_idx, v),
                        None => (),
                    }
                    Ok(())
                } else {
                    proof {
                        assert(false);
                    }
                    Ok(())
                }
            },
            MaxKernel::I32 => {
                if let Addr::Fixed { offset, valid_idx } = addr {
                    let n = col.len();
                    let mut m: Option<i32> = None;
                    let mut i: usize = 0;
                    proof {
                        assert(col.cells().take(0) =~= Seq::<Option<CellVal>>::empty());
                    }
                    while i < n
                        invariant
                            i <= n,
                            n as int == col.spec_len(),
                            kind_for(col.spec_phys_type()) == CellKind::I32,
                            col.spec_phys_type() != PhysType::Null,
                            match m {
                                Some(x) => fold_max(None, col.cells().take(i as int)) == Some(
                                    CellVal::I32(x),
                                ),
                                None => fold_max(None, col.cells().take(i as int)) is None,
                            },
                        decreases n - i,
                    {
                        proof {
                            assert(col.cells()[i as int] == col.cell(i as int));
                            assert(col.cells().take(i + 1) =~= col.cells().take(
                                i as int,
                            ).push(col.cells()[i as int]));
                            lemma_fold_max_snoc(
                                None,
                                col.cells().take(i as int),
                                col.cells()[i as int],
                            );
                        }
                        match col.get_i32(i) {
                            Some(v) => {
                                m = match m {
                                    Some(x) => if x < v {
                                        Some(v)
                                    } else {
                                        Some(x)
                                    },
                                    None => Some(v),
                                };
                            },
                            None => (),
                        }
                        i = i + 1;
                    }
                    proof {
                        assert(col.cells().take(n as int) =~= col.cells());
                    }
                    match m {
                        Some(v) => partial_update_prim_i32(agg_buf, offset, valid_idx, v),
                        None => (),
                    }
                    Ok(())
                } else {
                    proof {
                        assert(false);
                    }
                    Ok(())
                }
            },
            MaxKernel::I64 => {
                if let Addr::Fixed { offset, valid_idx } = addr {
                    let n = col.len();
                    let mut m: Option<i64> = None;
                    let mut i: usize = 0;
                    proof {
                        assert(col.cells().take(0) =~= Seq::<Option<CellVal>>::empty());
                    }
                    while i < n
                        invariant
                            i <= n,
                            n as int == col.spec_len(),
                            kind_for(col.spec_phys_type()) == CellKind::I64,
                            col.spec_phys_type() != PhysType::Null,
                            match m {
                                Some(x) => fold_max(None, col.cells().take(i as int)) == Some(
                                    CellVal::I64(x),
                                ),
                                None => fold_max(None, col.cells().take(i as int)) is None,
                            },
                        decreases n - i,
                    {
                        proof {
                            assert(col.cells()[i as int] == col.cell(i as int));
                            assert(col.cells().take(i + 1) =~= col.cells().take(
                                i as int,
                            ).push(col.cells()[i as int]));
                            lemma_fold_max_snoc(
                                None,
                                col.cells().take(i as int),
                                col.cells()[i as int],
                            );
                        }
                        match col.get_i64(i) {
                            Some(v) => {
                                m = match m {
                                    Some(x) => if x < v {
                                        Some(v)
                                    } else {
                                        Some(x)
                                    },
                                    None => Some(v),
                                };
                            },
                            None => (),
                        }
                        i = i + 1;
                    }
                    proof {
                        assert(col.cells().take(n as int) =~= col.cells());
                    }
                    match m {
                        Some(v) => partial_update_prim_i64(agg_buf, offset, valid_idx, v),
                        None => (),
                    }
                    Ok(())
                } else {
                    proof {
                        assert(false);
                    }
                    Ok(())
                }
            },
            MaxKernel::U8 => {
                if let Addr::Fixed { offset, valid_idx } = addr {
                    let n = col.len();
                    let mut m: Option<u8> = None;
                    let mut i: usize = 0;
                    proof {
                        assert(col.cells().take(0) =~= Seq::<Option<CellVal>>::empty());
                    }
                    while i < n
                        invariant
                            i <= n,
                            n as int == col.spec_len(),
                            kind_for(col.spec_phys_type()) == CellKind::U8,
                            col.spec_phys_type() != PhysType::Null,
                            match m {
                                Some(x) => fold_max(None, col.cells().take(i as int)) == Some(
                                    CellVal::U8(x),
                                ),
                                None => fold_max(None, col.cells().take(i as int)) is None,
                            },
                        decreases n - i,
                    {
                        proof {
                            assert(col.cells()[i as int] == col.cell(i as int));
                            assert(col.cells().take(i + 1) =~= col.cells().take(
                                i as int,
                            ).push(col.cells()[i as int]));
                            lemma_fold_max_snoc(
                                None,
                                col.cells().take(i as int),
                                col.cells()[i as int],
                            );
                        }
                        match col.get_u8(i) {
                            Some(v) => {
                                m = match m {
                                    Some(x) => if x < v {
                                        Some(v)
                                    } else {
                                        Some(x)
                                    },
                                    None => Some(v),
                                };
                            },
                            None => (),
                        }
                        i = i + 1;
                    }
                    proof {
                        assert(col.cells().take(n as int) =~= col.cells());
                    }
                    match m {
                        Some(v) => partial_update_prim_u8(agg_buf, offset, valid_idx, v),
                        None => (),
                    }
                    Ok(())
                } else {
                    proof {
                        assert(false);
                    }
                    Ok(())
                }
            },
            MaxKernel::U16 => {
                if let Addr::Fixed { offset, valid_idx } = addr {
                    let n = col.len();
                    let mut m: Option<u16> = None;
                    let mut i: usize = 0;
                    proof {
                        assert(col.cells().take(0) =~= Seq::<Option<CellVal>>::empty());
                    }
                    while i < n
                        invariant
                            i <= n,
                            n as int == col.spec_len(),
                            kind_for(col.spec_phys_type()) == CellKind::U16,
                            col.spec_phys_type() != PhysType::Null,
                            match m {
                                Some(x) => fold_max(None, col.cells().take(i as int)) == Some(
                                    CellVal::U16(x),
                                ),
                                None => fold_max(None, col.cells().take(i as int)) is None,
                            },
                        decreases n - i,
                    {
                        proof {
                            assert(col.cells()[i as int] == col.cell(i as int));
                            assert(col.cells().take(i + 1) =~= col.cells().take(
                                i as int,
                            ).push(col.cells()[i as int]));
                            lemma_fold_max_snoc(
                                None,
                                col.cells().take(i as int),
                                col.cells()[i as int],
                            );
                        }
                        match col.get_u16(i) {
                            Some(v) => {
                                m = match m {
                                    Some(x) => if x < v {
                                        Some(v)
                                    } else {
                                        Some(x)
                                    },
                                    None => Some(v),
                                };
                            },
                            None => (),
                        }
                        i = i + 1;
                    }
                    proof {
                        assert(col.cells().take(n as int) =~= col.cells());
                    }
                    match m {
                        Some(v) => partial_update_prim_u16(agg_buf, offset, valid_idx, v),
                        None => (),
                    }
                    Ok(())
                } else {
                    proof {
                        assert(false);
                    }
                    Ok(())
                }
            },
            MaxKernel::U32 => {
                if let Addr::Fixed { offset, valid_idx } = addr {
                    let n = col.len();
                    let mut m: Option<u32> = None;
                    let mut i: usize = 0;
                    proof {
                        assert(col.cells().take(0) =~= Seq::<Option<CellVal>>::empty());
                    }
                    while i < n
                        invariant
                            i <= n,
                            n as int == col.spec_len(),
                            kind_for(col.spec_phys_type()) == CellKind::U32,
                            col.spec_phys_type() != PhysType::Null,
                            match m {
                                Some(x) => fold_max(None, col.cells().take(i as int)) == Some(
                                    CellVal::U32(x),
                                ),
                                None => fold_max(None, col.cells().take(i as int)) is None,
                            },
                        decreases n - i,
                    {
                        proof {
                            assert(col.cells()[i as int] == col.cell(i as int));
                            assert(col.cells().take(i + 1) =~= col.cells().take(
                                i as int,
                            ).push(col.cells()[i as int]));
                            lemma_fold_max_snoc(
                                None,
                                col.cells().take(i as int),
                                col.cells()[i as int],
                            );
                        }
                        match col.get_u32(i) {
                            Some(v) => {
                                m = match m {
                                    Some(x) => if x < v {
                                        Some(v)
                                    } else {
                                        Some(x)
                                    },
                                    None => Some(v),
                                };
                            },
                            None => (),
                        }
                        i = i + 1;
                    }
                    proof {
                        assert(col.cells().take(n as int) =~= col.cells());
                    }
                    match m {
                        Some(v) => partial_update_prim_u32(agg_buf, offset, valid_idx, v),
                        None => (),
                    }
                    Ok(())
                } else {
                    proof {
                        assert(false);
                    }
                    Ok(())
                }
            },
            MaxKernel::U64 => {
                if let Addr::Fixed { offset, valid_idx } = addr {
                    let n = col.len();
                    let mut m: Option<u64> = None;
                    let mut i: usize = 0;
                    proof {
                        assert(col.cells().take(0) =~= Seq::<Option<CellVal>>::empty());
                    }
                    while i < n
                        invariant
                            i <= n,
                            n as int == col.spec_len(),
                            kind_for(col.spec_phys_type()) == CellKind::U64,
                            col.spec_phys_type() != PhysType::Null,
                            match m {
                                Some(x) => fold_max(None, col.cells().take(i as int)) == Some(
                                    CellVal::U64(x),
                                ),
                                None => fold_max(None, col.cells().take(i as int)) is None,
                            },
                        decreases n - i,
                    {
                        proof {
                            assert(col.cells()[i as int] == col.cell(i as int));
                            assert(col.cells().take(i + 1) =~= col.cells().take(
                                i as int,
                            ).push(col.cells()[i as int]));
                            lemma_fold_max_snoc(
                                None,
                                col.cells().take(i as int),
                                col.cells()[i as int],
                            );
                        }
                        match col.get_u64(i) {
                            Some(v) => {
                                m = match m {
                                    Some(x) => if x < v {
                                        Some(v)
                                    } else {
                                        Some(x)
                                    },
                                    None => Some(v),
                                };
                            },
                            None => (),
                        }
                        i = i + 1;
                    }
                    proof {
                        assert(col.cells().take(n as int) =~= col.cells());
                    }
                    match m {
                        Some(v) => partial_update_prim_u64(agg_buf, offset, valid_idx, v),
                        None => (),
                    }
                    Ok(())
                } else {
                    proof {
                        assert(false);
                    }
                    Ok(())
                }
            },
            MaxKernel::I128 => {
                if let Addr::Fixed { offset, valid_idx } = addr {
                    let n = col.len();
                    let mut m: Option<i128> = None;
                    let mut i: usize = 0;
                    proof {
                        assert(col.cells().take(0) =~= Seq::<Option<CellVal>>::empty());
                    }
                    while i < n
                        invariant
                            i <= n,
                            n as int == col.spec_len(),
                            kind_for(col.spec_phys_type()) == CellKind::I128,
                            col.spec_phys_type() != PhysType::Null,
                            match m {
                                Some(x) => fold_max(None, col.cells().take(i as int)) == Some(
                                    CellVal::I128(x),
                                ),
                                None => fold_max(None, col.cells().take(i as int)) is None,
                            },
                        decreases n - i,
                    {
                        proof {
                            assert(col.cells()[i as int] == col.cell(i as int));
                            assert(col.cells().take(i + 1) =~= col.cells().take(
                                i as int,
                            ).push(col.cells()[i as int]));
                            lemma_fold_max_snoc(
                                None,
                                col.cells().take(i as int),
                                col.cells()[i as int],
                            );
                        }
                        match col.get_i128(i) {
                            Some(v) => {
                                m = match m {
                                    Some(x) => if x < v {
                                        Some(v)
                                    } else {
                                        Some(x)
                                    },
                                    None => Some(v),
                                };
                            },
                            None => (),
                        }
                        i = i + 1;
                    }
                    proof {
                        assert(col.cells().take(n as int) =~= col.cells());
                    }
                    match m {
                        Some(v) => partial_update_prim_i128(agg_buf, offset, valid_idx, v),
                        None => (),
                    }
                    Ok(())
                } else {
                    proof {
                        assert(false);
                    }
                    Ok(())
                }
            },
        }
    }

    /// Folds the addressed slot of a second partial-aggregate buffer for the
    /// same group into the first: an invalid or absent slot is a no-op,
    /// otherwise the merge behaves exactly as a single update with the second
    /// buffer's value. The second buffer is only read.
    pub fn partial_merge(
        &self,
        agg_buf1: &mut AggBuf,
        agg_buf2: &mut AggBuf,
        agg_buf_addrs: &Vec<Addr>,
    ) -> (r: Result<(), AggError>)
        requires
            self.wf(),
            agg_buf_addrs@.len() >= 1,
            self.spec_data_type() != PhysType::Null ==> addr_ok(
                agg_buf_addrs@[0],
                kind_for(self.spec_data_type()),
                *old(agg_buf1),
            ) && addr_ok(agg_buf_addrs@[0], kind_for(self.spec_data_type()), *old(agg_buf2)),
        ensures
            r is Ok,
            buf_eq(*old(agg_buf2), *final(agg_buf2)),
            self.spec_data_type() == PhysType::Null ==> buf_eq(*old(agg_buf1), *final(agg_buf1)),
            self.spec_data_type() != PhysType::Null ==> slot_updated(
                *old(agg_buf1),
                *final(agg_buf1),
                agg_buf_addrs@[0],
                kind_for(self.spec_data_type()),
                slot_cell(*old(agg_buf2), agg_buf_addrs@[0], kind_for(self.spec_data_type())),
            ),
    {
        let addr = agg_buf_addrs[0];
        match self.partial_buf_merger {
            MaxKernel::Noop => Ok(()),
            MaxKernel::Text => {
                if let Addr::Dyn { idx } = addr {
                    match agg_buf2.dyn_value_ref(idx) {
                        Some(v) => partial_update_text(agg_buf1, idx, v),
                        None => (),
                    }
                    Ok(())
                } else {
                    proof {
                        assert(false);
                    }
                    Ok(())
                }
            },
            MaxKernel::Bool => {
                if let Addr::Fixed { offset, valid_idx } = addr {
                    if agg_buf2.is_fixed_valid(valid_idx) {
                        let v = agg_buf2.fixed_value_bool(offset);
                        partial_update_prim_bool(agg_buf1, offset, valid_idx, v);
                    }
                    Ok(())
                } else {
                    proof {
                        assert(false);
                    }
                    Ok(())
                }
            },
            MaxKernel::I8 => {
                if let Addr::Fixed { offset, valid_idx } = addr {
                    if agg_buf2.is_fixed_valid(valid_idx) {
                        let v = agg_buf2.fixed_value_i8(offset);
                        partial_update_prim_i8(agg_buf1, offset, valid_idx, v);
                    }
                    Ok(())
                } else {
                    proof {
                        assert(false);
                    }
                    Ok(())
                }
            },
            MaxKernel::I16 => {
                if let Addr::Fixed { offset, valid_idx } = addr {
                    if agg_buf2.is_fixed_valid(valid_idx) {
                        let v = agg_buf2.fixed_value_i16(offset);
                        partial_update_prim_i16(agg_buf1, offset, valid_idx, v);
                    }
                    Ok(())
                } else {
                    proof {
                        assert(false);
                    }
                    Ok(())
                }
            },
            MaxKernel::I32 => {
                if let Addr::Fixed { offset, valid_idx } = addr {
                    if agg_buf2.is_fixed_valid(valid_idx) {
                        let v = agg_buf2.fixed_value_i32(offset);
                        partial_update_prim_i32(agg_buf1, offset, valid_idx, v);
                    }
                    Ok(())
                } else {
                    proof {
                        assert(false);
                    }
                    Ok(())
                }
            },
            MaxKernel::I64 => {
                if let Addr::Fixed { offset, valid_idx } = addr {
                    if agg_buf2.is_fixed_valid(valid_idx) {
                        let v = agg_buf2.fixed_value_i64(offset);
                        partial_update_prim_i64(agg_buf1, offset, valid_idx, v);
                    }
                    Ok(())
                } else {
                    proof {
                        assert(false);
                    }
                    Ok(())
                }
            },
            MaxKernel::U8 => {
                if let Addr::Fixed { offset, valid_idx } = addr {
                    if agg_buf2.is_fixed_valid(valid_idx) {
                        let v = agg_buf2.fixed_value_u8(offset);
                        partial_update_prim_u8(agg_buf1, offset, valid_idx, v);
                    }
                    Ok(())
                } else {
                    proof {
                        assert(false);
                    }
                    Ok(())
                }
            },
            MaxKernel::U16 => {
                if let Addr::Fixed { offset, valid_idx } = addr {
                    if agg_buf2.is_fixed_valid(valid_idx) {
                        let v = agg_buf2.fixed_value_u16(offset);
                        partial_update_prim_u16(agg_buf1, offset, valid_idx, v);
                    }
                    Ok(())
                } else {
                    proof {
                        assert(false);
                    }
                    Ok(())
                }
            },
            MaxKernel::U32 => {
                if let Addr::Fixed { offset, valid_idx } = addr {
                    if agg_buf2.is_fixed_valid(valid_idx) {
                        let v = agg_buf2.fixed_value_u32(offset);
                        partial_update_prim_u32(agg_buf1, offset, valid_idx, v);
                    }
                    Ok(())
                } else {
                    proof {
                        assert(false);
                    }
                    Ok(())
                }
            },
            MaxKernel::U64 => {
                if let Addr::Fixed { offset, valid_idx } = addr {
                    if agg_buf2.is_fixed_valid(valid_idx) {
                        let v = agg_buf2.fixed_value_u64(offset);
                        partial_update_prim_u64(agg_buf1, offset, valid_idx, v);
                    }
                    Ok(())
                } else {
                    proof {
                        assert(false);
                    }
                    Ok(())
                }
            },
            MaxKernel::I128 => {
                if let Addr::Fixed { offset, valid_idx } = addr {
                    if agg_buf2.is_fixed_valid(valid_idx) {
                        let v = agg_buf2.fixed_value_i128(offset);
                        partial_update_prim_i128(agg_buf1, offset, valid_idx, v);
                    }
                    Ok(())
                } else {
                    proof {
                        assert(false);
                    }
                    Ok(())
                }
            },
        }
    }
}

/// The slot bytes a fixed cell is stored as, and text's own bytes.
pub open spec fn enc_cell(c: CellVal) -> Seq<u8> {
    match c {
        CellVal::B(v) => enc_bool(v),
        CellVal::I8(v) => enc_i8(v),
        CellVal::I16(v) => enc_i16(v),
        CellVal::I32(v) => enc_i32(v),
        CellVal::I64(v) => enc_i64(v),
        CellVal::U8(v) => enc_u8(v),
        CellVal::U16(v) => enc_u16(v),
        CellVal::U32(v) => enc_u32(v),
        CellVal::U64(v) => enc_u64(v),
        CellVal::I128(v) => enc_i128(v),
        CellVal::Text(s) => s,
    }
}

/// Round trip: storing any cell's encoding and reading it back with the
/// cell's own kind gives the cell unchanged, for every supported kind.
pub proof fn lemma_cell_round_trip(c: CellVal)
    ensures
        dec_cell(kind_of(c), enc_cell(c)) == c,
{
    match c {
        CellVal::B(v) => lemma_bool_round_trip(v),
        CellVal::I8(v) => lemma_i8_round_trip(v),
        CellVal::I16(v) => lemma_i16_round_trip(v),
        CellVal::I32(v) => lemma_i32_round_trip(v),
        CellVal::I64(v) => lemma_i64_round_trip(v),
        CellVal::U8(v) => lemma_u8_round_trip(v),
        CellVal::U16(v) => lemma_u16_round_trip(v),
        CellVal::U32(v) => lemma_u32_round_trip(v),
        CellVal::U64(v) => lemma_u64_round_trip(v),
        CellVal::I128(v) => lemma_i128_round_trip(v),
        CellVal::Text(_) => (),
    }
}

/// Merging with a buffer whose addressed slot is invalid is a no-op: the
/// target buffer is left exactly as it was.
pub proof fn lemma_merge_invalid_is_noop(pre: AggBuf, post: AggBuf, addr: Addr, k: CellKind)
    requires
        slot_updated(pre, post, addr, k, None),
    ensures
        buf_eq(pre, post),
{
}

/// A batch with no valid element never changes the buffer: a previously
/// invalid slot stays invalid, so final materialization of such a group
/// emits null.
pub proof fn lemma_all_null_batch_is_noop(
    pre: AggBuf,
    post: AggBuf,
    addr: Addr,
    k: CellKind,
    col: Column,
)
    requires
        forall|i: int| 0 <= i < col.spec_len() ==> #[trigger] col.cell(i) is None,
        slot_updated(pre, post, addr, k, col_max(col)),
    ensures
        buf_eq(pre, post),
{
    assert(forall|i: int| 0 <= i < col.cells().len() ==> #[trigger] col.cells()[i] is None);
    lemma_fold_max_all_none(None, col.cells());
}

/// The whole-batch fast path agrees with the per-row path, in any order:
/// one update with a batch's own folded maximum leaves the slot exactly
/// where one `partial_update` per row would, for any arrangement of the
/// batch's cells.
pub proof fn lemma_update_all_matches_per_row(
    slot: Option<CellVal>,
    col: Column,
    rows: Seq<Option<CellVal>>,
)
    requires
        opt_kind_ok(slot, kind_for(col.spec_phys_type())),
        rows.to_multiset() == col.cells().to_multiset(),
    ensures
        max_step(slot, col_max(col)) == fold_max(slot, rows),
{
    let k = kind_for(col.spec_phys_type());
    assert forall|i: int| 0 <= i < col.cells().len() implies opt_kind_ok(
        #[trigger] col.cells()[i],
        k,
    ) by {
        lemma_column_cell_kind(&col, i);
    }
    assert forall|i: int| 0 <= i < rows.len() implies opt_kind_ok(#[trigger] rows[i], k) by {
        rows.to_multiset_ensures();
        col.cells().to_multiset_ensures();
        assert(rows.contains(rows[i]));
        assert(rows.to_multiset().count(rows[i]) > 0);
        assert(col.cells().contains(rows[i]));
        let j = choose|j: int| 0 <= j < col.cells().len() && col.cells()[j] == rows[i];
        lemma_column_cell_kind(&col, j);
    }
    lemma_fold_max_permutation(slot, rows, col.cells(), k);
    lemma_fold_max_split(slot, col.cells(), k);
}

/// The value an addressed slot holds always has the slot's kind.
pub proof fn lemma_slot_cell_kind(buf: AggBuf, addr: Addr, k: CellKind)
    requires
        addr_ok(addr, k, buf),
    ensures
        opt_kind_ok(slot_cell(buf, addr, k), k),
{
}

/// Merge associativity over the contracts of `partial_merge`: merging `B`
/// and then `C` into `A` leaves `A`'s slot where merging `C` into `B` first
/// and then merging the combined partial into `A` would.
pub proof fn lemma_merge_chain_assoc(
    a0: AggBuf,
    a1: AggBuf,
    a2: AggBuf,
    b0: AggBuf,
    b1: AggBuf,
    c: AggBuf,
    a1_alt: AggBuf,
    addr: Addr,
    k: CellKind,
)
    requires
        addr_ok(addr, k, a0),
        addr_ok(addr, k, b0),
        addr_ok(addr, k, c),
        slot_updated(a0, a1, addr, k, slot_cell(b0, addr, k)),
        slot_updated(a1, a2, addr, k, slot_cell(c, addr, k)),
        slot_updated(b0, b1, addr, k, slot_cell(c, addr, k)),
        slot_updated(a0, a1_alt, addr, k, slot_cell(b1, addr, k)),
    ensures
        slot_cell(a2, addr, k) == slot_cell(a1_alt, addr, k),
{
    lemma_slot_cell_kind(a0, addr, k);
    lemma_slot_cell_kind(b0, addr, k);
    lemma_slot_cell_kind(c, addr, k);
    lemma_max_step_assoc(
        slot_cell(a0, addr, k),
        slot_cell(b0, addr, k),
        slot_cell(c, addr, k),
        k,
    );
}

} // verus!
