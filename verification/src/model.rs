//! The mathematical model of accumulator cells: the value one slot holds, the
//! ordering the MAX accumulator uses, and the single-step and folded update
//! functions every contract in this crate is stated over. The proof functions
//! here are the general laws of that update: merging and updating commute,
//! associate, and ignore absent values.

use vstd::prelude::*;

use crate::lex::lex_lt;
use crate::lex::lemma_lex_irrefl;
use crate::lex::lemma_lex_total;
use crate::lex::lemma_lex_trans;

verus! {

/// The value one accumulator cell can hold, at the granularity the buffer
/// stores it: dates are their day numbers, timestamps their tick counts,
/// decimals their 128-bit unscaled integer, text its bytes.
pub enum CellVal {
    B(bool),
    I8(i8),
    I16(i16),
    I32(i32),
    I64(i64),
    U8(u8),
    U16(u16),
    U32(u32),
    U64(u64),
    I128(i128),
    Text(Seq<u8>),
}

/// The storage kind of a cell: which native width a fixed slot has, or text
/// for a dynamic slot.
#[derive(Clone, Copy, Debug, PartialEq, Eq, Structural)]
pub enum CellKind {
    B,
    I8,
    I16,
    I32,
    I64,
    U8,
    U16,
    U32,
    U64,
    I128,
    Text,
}

/// The kind of a cell value.
pub open spec fn kind_of(c: CellVal) -> CellKind {
    match c {
        CellVal::B(_) => CellKind::B,
        CellVal::I8(_) => CellKind::I8,
        CellVal::I16(_) => CellKind::I16,
        CellVal::I32(_) => CellKind::I32,
        CellVal::I64(_) => CellKind::I64,
        CellVal::U8(_) => CellKind::U8,
        CellVal::U16(_) => CellKind::U16,
        CellVal::U32(_) => CellKind::U32,
        CellVal::U64(_) => CellKind::U64,
        CellVal::I128(_) => CellKind::I128,
        CellVal::Text(_) => CellKind::Text,
    }
}

/// An absent value, or a value of kind `k`.
pub open spec fn opt_kind_ok(c: Option<CellVal>, k: CellKind) -> bool {
    match c {
        None => true,
        Some(v) => kind_of(v) == k,
    }
}

/// The strict order of two cells of the same kind: native ordering for the
/// numeric, boolean and temporal kinds, byte-wise order for text. Cells of
/// different kinds are never ordered.
pub open spec fn cell_lt(a: CellVal, b: CellVal) -> bool {
    match (a, b) {
        (CellVal::B(x), CellVal::B(y)) => !x && y,
        (CellVal::I8(x), CellVal::I8(y)) => x < y,
        (CellVal::I16(x), CellVal::I16(y)) => x < y,
        (CellVal::I32(x), CellVal::I32(y)) => x < y,
        (CellVal::I64(x), CellVal::I64(y)) => x < y,
        (CellVal::U8(x), CellVal::U8(y)) => x < y,
        (CellVal::U16(x), CellVal::U16(y)) => x < y,
        (CellVal::U32(x), CellVal::U32(y)) => x < y,
        (CellVal::U64(x), CellVal::U64(y)) => x < y,
        (CellVal::I128(x), CellVal::I128(y)) => x < y,
        (CellVal::Text(x), CellVal::Text(y)) => lex_lt(x, y),
        _ => false,
    }
}

/// The larger of a buffered cell `w` and a candidate `v`; on a tie the
/// buffered cell is kept.
pub open spec fn max_cell(w: CellVal, v: CellVal) -> CellVal {
    if cell_lt(w, v) {
        v
    } else {
        w
    }
}

/// One update of a slot's state by one observed value: an absent value leaves
/// the slot alone, a present value seeds an empty slot and otherwise keeps the
/// larger of the two.
pub open spec fn max_step(slot: Option<CellVal>, c: Option<CellVal>) -> Option<CellVal> {
    match c {
        None => slot,
        Some(v) => match slot {
            None => Some(v),
            Some(w) => Some(max_cell(w, v)),
        },
    }
}

/// A slot's state after one update per cell, in order.
pub open spec fn fold_max(slot: Option<CellVal>, cells: Seq<Option<CellVal>>) -> Option<CellVal>
    decreases cells.len(),
{
    if cells.len() == 0 {
        slot
    } else {
        fold_max(max_step(slot, cells[0]), cells.drop_first())
    }
}

/// Taking the larger of two same-kind cells does not depend on which is
/// buffered and which is the candidate.
pub proof fn lemma_max_cell_comm(a: CellVal, b: CellVal)
    requires
        kind_of(a) == kind_of(b),
    ensures
        max_cell(a, b) == max_cell(b, a),
{
    if let (CellVal::Text(x), CellVal::Text(y)) = (a, b) {
        lemma_lex_total(x, y);
        lemma_lex_irrefl(x);
        if lex_lt(x, y) && lex_lt(y, x) {
            lemma_lex_trans(x, y, x);
        }
    }
}

/// Taking the larger of same-kind cells is associative.
pub proof fn lemma_max_cell_assoc(a: CellVal, b: CellVal, c: CellVal)
    requires
        kind_of(a) == kind_of(b),
        kind_of(b) == kind_of(c),
    ensures
        max_cell(max_cell(a, b), c) == max_cell(a, max_cell(b, c)),
{
    if let (CellVal::Text(x), CellVal::Text(y), CellVal::Text(z)) = (a, b, c) {
        lemma_lex_total(x, y);
        lemma_lex_total(y, z);
        lemma_lex_total(x, z);
        lemma_lex_irrefl(x);
        lemma_lex_irrefl(y);
        lemma_lex_irrefl(z);
        if lex_lt(x, y) && lex_lt(y, z) {
            lemma_lex_trans(x, y, z);
        }
        if lex_lt(z, y) && lex_lt(y, x) {
            lemma_lex_trans(z, y, x);
        }
        if lex_lt(x, z) && lex_lt(z, y) {
            lemma_lex_trans(x, z, y);
        }
        if lex_lt(y, x) && lex_lt(x, z) {
            lemma_lex_trans(y, x, z);
        }
    }
}

/// The kind of an updated slot is the kind of what went in.
pub proof fn lemma_max_step_kind(slot: Option<CellVal>, c: Option<CellVal>, k: CellKind)
    requires
        opt_kind_ok(slot, k),
        opt_kind_ok(c, k),
    ensures
        opt_kind_ok(max_step(slot, c), k),
{
}

/// Updating a slot with two values of its kind gives the same state in either
/// order: single-row updates commute.
pub proof fn lemma_max_step_exchange(
    slot: Option<CellVal>,
    b: Option<CellVal>,
    c: Option<CellVal>,
    k: CellKind,
)
    requires
        opt_kind_ok(slot, k),
        opt_kind_ok(b, k),
        opt_kind_ok(c, k),
    ensures
        max_step(max_step(slot, b), c) == max_step(max_step(slot, c), b),
{
    if let (Some(x), Some(y)) = (b, c) {
        lemma_max_cell_comm(x, y);
        if let Some(s) = slot {
            lemma_max_cell_assoc(s, x, y);
            lemma_max_cell_assoc(s, y, x);
        }
    }
}

/// Merging a partial state into a slot associates: merging with `b` and then
/// with `c` equals merging with the single update of `b` by `c`.
pub proof fn lemma_max_step_assoc(
    slot: Option<CellVal>,
    b: Option<CellVal>,
    c: Option<CellVal>,
    k: CellKind,
)
    requires
        opt_kind_ok(slot, k),
        opt_kind_ok(b, k),
        opt_kind_ok(c, k),
    ensures
        max_step(max_step(slot, b), c) == max_step(slot, max_step(b, c)),
{
    if let (Some(s), Some(x), Some(y)) = (slot, b, c) {
        lemma_max_cell_assoc(s, x, y);
    }
}

/// Updating with a sequence of absent values leaves a slot as it was.
pub proof fn lemma_fold_max_all_none(slot: Option<CellVal>, cells: Seq<Option<CellVal>>)
    requires
        forall|i: int| 0 <= i < cells.len() ==> cells[i] is None,
    ensures
        fold_max(slot, cells) == slot,
    decreases cells.len(),
{
    if cells.len() > 0 {
        assert(cells[0] is None);
        lemma_fold_max_all_none(slot, cells.drop_first());
    }
}

/// A fold keeps the kind of its inputs.
pub proof fn lemma_fold_max_kind(slot: Option<CellVal>, cells: Seq<Option<CellVal>>, k: CellKind)
    requires
        opt_kind_ok(slot, k),
        forall|i: int| 0 <= i < cells.len() ==> opt_kind_ok(#[trigger] cells[i], k),
    ensures
        opt_kind_ok(fold_max(slot, cells), k),
    decreases cells.len(),
{
    if cells.len() > 0 {
        lemma_max_step_kind(slot, cells[0], k);
        lemma_fold_max_kind(max_step(slot, cells[0]), cells.drop_first(), k);
    }
}

/// Appending one more update to a fold is one more step.
pub proof fn lemma_fold_max_snoc(
    slot: Option<CellVal>,
    cells: Seq<Option<CellVal>>,
    c: Option<CellVal>,
)
    ensures
        fold_max(slot, cells.push(c)) == max_step(fold_max(slot, cells), c),
    decreases cells.len(),
{
    let p = cells.push(c);
    if cells.len() == 0 {
        assert(p[0] == c);
        assert(p.drop_first() =~= Seq::<Option<CellVal>>::empty());
        assert(fold_max(slot, p) == fold_max(max_step(slot, c), p.drop_first()));
        assert(fold_max(max_step(slot, c), p.drop_first()) == max_step(slot, c));
    } else {
        assert(p[0] == cells[0]);
        assert(p.drop_first() =~= cells.drop_first().push(c));
        lemma_fold_max_snoc(max_step(slot, cells[0]), cells.drop_first(), c);
        assert(fold_max(slot, p) == fold_max(max_step(slot, cells[0]), p.drop_first()));
    }
}

/// Updating a slot row by row equals updating it once with the rows' own
/// folded maximum: the whole-batch fast path and the per-row path agree.
pub proof fn lemma_fold_max_split(slot: Option<CellVal>, cells: Seq<Option<CellVal>>, k: CellKind)
    requires
        opt_kind_ok(slot, k),
        forall|i: int| 0 <= i < cells.len() ==> opt_kind_ok(#[trigger] cells[i], k),
    ensures
        fold_max(slot, cells) == max_step(slot, fold_max(None, cells)),
    decreases cells.len(),
{
    if cells.len() > 0 {
        let c0 = cells[0];
        let rest = cells.drop_first();
        assert(forall|i: int| 0 <= i < rest.len() ==> opt_kind_ok(#[trigger] rest[i], k));
        lemma_max_step_kind(slot, c0, k);
        lemma_fold_max_split(max_step(slot, c0), rest, k);
        lemma_fold_max_split(c0, rest, k);
        assert(max_step(None, c0) == c0);
        lemma_fold_max_kind(None, rest, k);
        lemma_max_step_assoc(slot, c0, fold_max(None, rest), k);
    }
}

/// Folding a sequence with element `j` pulled out to the front gives the
/// same state.
proof fn lemma_fold_max_pull(
    slot: Option<CellVal>,
    cells: Seq<Option<CellVal>>,
    j: int,
    k: CellKind,
)
    requires
        opt_kind_ok(slot, k),
        forall|i: int| 0 <= i < cells.len() ==> opt_kind_ok(#[trigger] cells[i], k),
        0 <= j < cells.len(),
    ensures
        fold_max(slot, cells) == fold_max(max_step(slot, cells[j]), cells.remove(j)),
    decreases cells.len(),
{
    if j == 0 {
        assert(cells.remove(0) =~= cells.drop_first());
    } else {
        let c0 = cells[0];
        let rest = cells.drop_first();
        assert(forall|i: int| 0 <= i < rest.len() ==> opt_kind_ok(#[trigger] rest[i], k));
        lemma_max_step_kind(slot, c0, k);
        lemma_fold_max_pull(max_step(slot, c0), rest, j - 1, k);
        lemma_max_step_exchange(slot, c0, cells[j], k);
        assert(rest[j - 1] == cells[j]);
        assert(cells.remove(j)[0] == cells[0]);
        assert(cells.remove(j).drop_first() =~= rest.remove(j - 1));
    }
}

/// Folding the same multiset of updates, in whatever order, gives the same
/// slot state: a batch of rows may be applied in any order.
pub proof fn lemma_fold_max_permutation(
    slot: Option<CellVal>,
    c1: Seq<Option<CellVal>>,
    c2: Seq<Option<CellVal>>,
    k: CellKind,
)
    requires
        opt_kind_ok(slot, k),
        forall|i: int| 0 <= i < c1.len() ==> opt_kind_ok(#[trigger] c1[i], k),
        forall|i: int| 0 <= i < c2.len() ==> opt_kind_ok(#[trigger] c2[i], k),
        c1.to_multiset() == c2.to_multiset(),
    ensures
        fold_max(slot, c1) == fold_max(slot, c2),
    decreases c1.len(),
{
    c1.to_multiset_ensures();
    c2.to_multiset_ensures();
    if c1.len() == 0 {
        assert(c2.len() == 0);
    } else {
        let x = c1[0];
        assert(c1.contains(x));
        assert(c2.to_multiset().count(x) > 0);
        assert(c2.contains(x));
        let j = choose|j: int| 0 <= j < c2.len() && c2[j] == x;
        lemma_fold_max_pull(slot, c2, j, k);
        let rest1 = c1.drop_first();
        let rest2 = c2.remove(j);
        assert(c1.remove(0) =~= rest1);
        assert(rest1.to_multiset() =~= c1.to_multiset().remove(x));
        assert(rest2.to_multiset() =~= c2.to_multiset().remove(x));
        assert(forall|i: int| 0 <= i < rest1.len() ==> opt_kind_ok(#[trigger] rest1[i], k));
        assert(forall|i: int| 0 <= i < rest2.len() ==> opt_kind_ok(#[trigger] rest2[i], k));
        lemma_max_step_kind(slot, x, k);
        lemma_fold_max_permutation(max_step(slot, x), rest1, rest2, k);
    }
}

} // verus!
