//! The address layout, built once when a plan's accumulator set is known:
//! each accumulator slot gets exactly one address, fixed-width slots are laid
//! out contiguously, dynamic slots get consecutive table indices, and no two
//! addresses overlap. The layout is shared read-only by every buffer of the
//! plan and never re-derived at execution time.

use vstd::prelude::*;

use crate::agg_buf::Addr;
use crate::max::cell_width;
use crate::column::kind_for;
use crate::model::CellKind;
use crate::value::PhysType;
use crate::value::max_supported;

verus! {

/// One address per accumulator, plus the sizes a fresh buffer of this layout
/// must be created with.
pub struct Layout {
    pub addrs: Vec<Addr>,
    pub fixed_len: usize,
    pub n_valid: usize,
    pub n_dyn: usize,
}

/// An address denotes a slot of kind `k` inside a buffer of the given sizes.
pub open spec fn addr_in_range(
    a: Addr,
    k: CellKind,
    fixed_len: int,
    n_valid: int,
    n_dyn: int,
) -> bool {
    match a {
        Addr::Fixed { offset, valid_idx } => k != CellKind::Text && offset + cell_width(k)
            <= fixed_len && valid_idx < n_valid,
        Addr::Dyn { idx } => k == CellKind::Text && idx < n_dyn,
    }
}

/// Two addressed slots share no storage: distinct validity bits and
/// non-overlapping byte ranges for fixed slots, distinct table indices for
/// dynamic slots.
pub open spec fn addr_disjoint(a: Addr, ka: CellKind, b: Addr, kb: CellKind) -> bool {
    match (a, b) {
        (
            Addr::Fixed { offset: o1, valid_idx: v1 },
            Addr::Fixed { offset: o2, valid_idx: v2 },
        ) => v1 != v2 && (o1 + cell_width(ka) <= o2 || o2 + cell_width(kb) <= o1),
        (Addr::Dyn { idx: i1 }, Addr::Dyn { idx: i2 }) => i1 != i2,
        _ => true,
    }
}

/// The number of bytes the fixed slots of the first `i` accumulators occupy.
pub open spec fn fixed_bytes_before(types: Seq<PhysType>, i: int) -> int
    decreases i,
{
    if i <= 0 {
        0
    } else {
        fixed_bytes_before(types, i - 1) + if kind_for(types[i - 1]) == CellKind::Text {
            0int
        } else {
            cell_width(kind_for(types[i - 1]))
        }
    }
}

/// How many of the first `i` accumulators have a fixed slot.
pub open spec fn fixed_slots_before(types: Seq<PhysType>, i: int) -> int
    decreases i,
{
    if i <= 0 {
        0
    } else {
        fixed_slots_before(types, i - 1) + if kind_for(types[i - 1]) == CellKind::Text {
            0int
        } else {
            1int
        }
    }
}

/// How many of the first `i` accumulators have a dynamic slot.
pub open spec fn dyn_slots_before(types: Seq<PhysType>, i: int) -> int
    decreases i,
{
    if i <= 0 {
        0
    } else {
        dyn_slots_before(types, i - 1) + if kind_for(types[i - 1]) == CellKind::Text {
            1int
        } else {
            0int
        }
    }
}

/// The exact address the layout gives accumulator `i`: its fixed slot starts
/// where the fixed slots before it end, its validity bit and dynamic index
/// are the counts of such slots before it.
pub open spec fn spec_addr_of(types: Seq<PhysType>, i: int) -> Addr {
    if kind_for(types[i]) == CellKind::Text {
        Addr::Dyn { idx: dyn_slots_before(types, i) as usize }
    } else {
        Addr::Fixed {
            offset: fixed_bytes_before(types, i) as usize,
            valid_idx: fixed_slots_before(types, i) as usize,
        }
    }
}

/// The fixed-slot width of a supported physical type, or `None` for text,
/// whose state lives in a dynamic slot.
pub fn slot_width(dt: &PhysType) -> (r: Option<usize>)
    requires
        max_supported(*dt),
    ensures
        match r {
            Some(w) => kind_for(*dt) != CellKind::Text && 1 <= w <= 16 && w as int == cell_width(
                kind_for(*dt),
            ),
            None => kind_for(*dt) == CellKind::Text,
        },
{
    match dt {
        PhysType::Null => Some(1),
        PhysType::Boolean => Some(1),
        PhysType::Int8 => Some(1),
        PhysType::Int16 => Some(2),
        PhysType::Int32 => Some(4),
        PhysType::Int64 => Some(8),
        PhysType::UInt8 => Some(1),
        PhysType::UInt16 => Some(2),
        PhysType::UInt32 => Some(4),
        PhysType::UInt64 => Some(8),
        PhysType::Date32 => Some(4),
        PhysType::Date64 => Some(8),
        PhysType::Timestamp(_) => Some(8),
        PhysType::Decimal128(_, _) => Some(16),
        PhysType::Utf8 => None,
        PhysType::Binary => {
            proof {
                assert(false);
            }
            None
        },
    }
}

/// Assigns one address to each accumulator slot, in order: fixed slots pack
/// contiguously from offset zero with one validity bit each, dynamic slots
/// take consecutive table indices. No two addresses overlap, and every
/// address lies inside a buffer created with the returned sizes.
pub fn build_layout(types: &Vec<PhysType>) -> (r: Layout)
    requires
        forall|i: int| 0 <= i < types@.len() ==> max_supported(#[trigger] types@[i]),
        16 * types@.len() <= usize::MAX,
    ensures
        r.addrs@.len() == types@.len(),
        r.fixed_len as int == fixed_bytes_before(types@, types@.len() as int),
        r.n_valid as int == fixed_slots_before(types@, types@.len() as int),
        r.n_dyn as int == dyn_slots_before(types@, types@.len() as int),
        forall|i: int| 0 <= i < types@.len() ==> #[trigger] r.addrs@[i] == spec_addr_of(types@, i),
        forall|i: int|
            0 <= i < types@.len() ==> addr_in_range(
                #[trigger] r.addrs@[i],
                kind_for(types@[i]),
                r.fixed_len as int,
                r.n_valid as int,
                r.n_dyn as int,
            ),
        forall|i: int, j: int|
            0 <= i < types@.len() && 0 <= j < types@.len() && i != j ==> addr_disjoint(
                #[trigger] r.addrs@[i],
                kind_for(types@[i]),
                #[trigger] r.addrs@[j],
                kind_for(types@[j]),
            ),
{
    let n = types.len();
    let mut addrs: Vec<Addr> = Vec::new();
    let mut fixed_len: usize = 0;
    let mut n_valid: usize = 0;
    let mut n_dyn: usize = 0;
    let mut i: usize = 0;
    while i < n
        invariant
            i <= n,
            n == types@.len(),
            16 * n <= usize::MAX,
            forall|j: int| 0 <= j < n ==> max_supported(#[trigger] types@[j]),
            addrs@.len() == i,
            fixed_len <= 16 * i,
            n_valid <= i,
            n_dyn <= i,
            fixed_len as int == fixed_bytes_before(types@, i as int),
            n_valid as int == fixed_slots_before(types@, i as int),
            n_dyn as int == dyn_slots_before(types@, i as int),
            forall|j: int| 0 <= j < i ==> #[trigger] addrs@[j] == spec_addr_of(types@, j),
            forall|j: int|
                0 <= j < i ==> addr_in_range(
                    #[trigger] addrs@[j],
                    kind_for(types@[j]),
                    fixed_len as int,
                    n_valid as int,
                    n_dyn as int,
                ),
            forall|j1: int, j2: int|
                0 <= j1 < i && 0 <= j2 < i && j1 != j2 ==> addr_disjoint(
                    #[trigger] addrs@[j1],
                    kind_for(types@[j1]),
                    #[trigger] addrs@[j2],
                    kind_for(types@[j2]),
                ),
        decreases n - i,
    {
        let dt = &types[i];
        match slot_width(dt) {
            Some(w) => {
                addrs.push(Addr::Fixed { offset: fixed_len, valid_idx: n_valid });
                fixed_len = fixed_len + w;
                n_valid = n_valid + 1;
            },
            None => {
                addrs.push(Addr::Dyn { idx: n_dyn });
                n_dyn = n_dyn + 1;
            },
        }
        i = i + 1;
    }
    Layout { addrs, fixed_len, n_valid, n_dyn }
}

} // verus!
