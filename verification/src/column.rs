//! The crate's own immutable column batch: one physical type's values with a
//! per-element validity indicator, read through typed accessors. The
//! surrounding engine converts its columnar arrays into this form at the
//! boundary; the aggregation core never mutates a batch.

use vstd::prelude::*;

use crate::model::CellKind;
use crate::model::CellVal;
use crate::model::opt_kind_ok;
use crate::value::PhysType;
use crate::value::TimeUnit;

verus! {

/// An immutable column of one physical type. Each element is either a value
/// or the typed null. The `Null` variant is the all-null column of the null
/// type, which carries only its length.
#[derive(Clone, Debug, PartialEq, Eq)]
#[allow(inconsistent_fields)]
pub enum Column {
    Null { len: usize },
    Boolean { values: Vec<Option<bool>> },
    Int8 { values: Vec<Option<i8>> },
    Int16 { values: Vec<Option<i16>> },
    Int32 { values: Vec<Option<i32>> },
    Int64 { values: Vec<Option<i64>> },
    UInt8 { values: Vec<Option<u8>> },
    UInt16 { values: Vec<Option<u16>> },
    UInt32 { values: Vec<Option<u32>> },
    UInt64 { values: Vec<Option<u64>> },
    Date32 { values: Vec<Option<i32>> },
    Date64 { values: Vec<Option<i64>> },
    Timestamp { unit: TimeUnit, values: Vec<Option<i64>> },
    Decimal128 { values: Vec<Option<i128>>, precision: u8, scale: i8 },
    Utf8 { values: Vec<Option<Vec<u8>>> },
}

impl Column {
    /// The number of elements in the column.
    pub open spec fn spec_len(&self) -> int {
        match self {
            Column::Null { len } => *len as int,
            Column::Boolean { values } => values@.len() as int,
            Column::Int8 { values } => values@.len() as int,
            Column::Int16 { values } => values@.len() as int,
            Column::Int32 { values } => values@.len() as int,
            Column::Int64 { values } => values@.len() as int,
            Column::UInt8 { values } => values@.len() as int,
            Column::UInt16 { values } => values@.len() as int,
            Column::UInt32 { values } => values@.len() as int,
            Column::UInt64 { values } => values@.len() as int,
            Column::Date32 { values } => values@.len() as int,
            Column::Date64 { values } => values@.len() as int,
            Column::Timestamp { values, .. } => values@.len() as int,
            Column::Decimal128 { values, .. } => values@.len() as int,
            Column::Utf8 { values } => values@.len() as int,
        }
    }

    /// The column's physical type.
    pub open spec fn spec_phys_type(&self) -> PhysType {
        match self {
            Column::Null { .. } => PhysType::Null,
            Column::Boolean { .. } => PhysType::Boolean,
            Column::Int8 { .. } => PhysType::Int8,
            Column::Int16 { .. } => PhysType::Int16,
            Column::Int32 { .. } => PhysType::Int32,
            Column::Int64 { .. } => PhysType::Int64,
            Column::UInt8 { .. } => PhysType::UInt8,
            Column::UInt16 { .. } => PhysType::UInt16,
            Column::UInt32 { .. } => PhysType::UInt32,
            Column::UInt64 { .. } => PhysType::UInt64,
            Column::Date32 { .. } => PhysType::Date32,
            Column::Date64 { .. } => PhysType::Date64,
            Column::Timestamp { unit, .. } => PhysType::Timestamp(*unit),
            Column::Decimal128 { precision, scale, .. } => PhysType::Decimal128(*precision, *scale),
            Column::Utf8 { .. } => PhysType::Utf8,
        }
    }

    /// The logical value of element `i`: `None` where the element is null,
    /// otherwise the cell the accumulator compares.
    pub open spec fn cell(&self, i: int) -> Option<CellVal> {
        match self {
            Column::Null { .. } => None,
            Column::Boolean { values } => match values@[i] {
                Some(v) => Some(CellVal::B(v)),
                None => None,
            },
            Column::Int8 { values } => match values@[i] {
                Some(v) => Some(CellVal::I8(v)),
                None => None,
            },
            Column::Int16 { values } => match values@[i] {
                Some(v) => Some(CellVal::I16(v)),
                None => None,
            },
            Column::Int32 { values } => match values@[i] {
                Some(v) => Some(CellVal::I32(v)),
                None => None,
            },
            Column::Int64 { values } => match values@[i] {
                Some(v) => Some(CellVal::I64(v)),
                None => None,
            },
            Column::UInt8 { values } => match values@[i] {
                Some(v) => Some(CellVal::U8(v)),
                None => None,
            },
            Column::UInt16 { values } => match values@[i] {
                Some(v) => Some(CellVal::U16(v)),
                None => None,
            },
            Column::UInt32 { values } => match values@[i] {
                Some(v) => Some(CellVal::U32(v)),
                None => None,
            },
            Column::UInt64 { values } => match values@[i] {
                Some(v) => Some(CellVal::U64(v)),
                None => None,
            },
            Column::Date32 { values } => match values@[i] {
                Some(v) => Some(CellVal::I32(v)),
                None => None,
            },
            Column::Date64 { values } => match values@[i] {
                Some(v) => Some(CellVal::I64(v)),
                None => None,
            },
            Column::Timestamp { values, .. } => match values@[i] {
                Some(v) => Some(CellVal::I64(v)),
                None => None,
            },
            Column::Decimal128 { values, .. } => match values@[i] {
                Some(v) => Some(CellVal::I128(v)),
                None => None,
            },
            Column::Utf8 { values } => match values@[i] {
                Some(v) => Some(CellVal::Text(v@)),
                None => None,
            },
        }
    }

    /// All of the column's cells, in element order.
    pub open spec fn cells(&self) -> Seq<Option<CellVal>> {
        Seq::new(self.spec_len() as nat, |i: int| self.cell(i))
    }

    /// The number of elements in the column.
    pub fn len(&self) -> (r: usize)
        ensures
            r as int == self.spec_len(),
    {
        match self {
            Column::Null { len } => *len,
            Column::Boolean { values } => values.len(),
            Column::Int8 { values } => values.len(),
            Column::Int16 { values } => values.len(),
            Column::Int32 { values } => values.len(),
            Column::Int64 { values } => values.len(),
            Column::UInt8 { values } => values.len(),
            Column::UInt16 { values } => values.len(),
            Column::UInt32 { values } => values.len(),
            Column::UInt64 { values } => values.len(),
            Column::Date32 { values } => values.len(),
            Column::Date64 { values } => values.len(),
            Column::Timestamp { values, .. } => values.len(),
            Column::Decimal128 { values, .. } => values.len(),
            Column::Utf8 { values } => values.len(),
        }
    }

    /// The column's physical type.
    pub fn data_type(&self) -> (r: PhysType)
        ensures
            r == self.spec_phys_type(),
    {
        match self {
            Column::Null { .. } => PhysType::Null,
            Column::Boolean { .. } => PhysType::Boolean,
            Column::Int8 { .. } => PhysType::Int8,
            Column::Int16 { .. } => PhysType::Int16,
            Column::Int32 { .. } => PhysType::Int32,
            Column::Int64 { .. } => PhysType::Int64,
            Column::UInt8 { .. } => PhysType::UInt8,
            Column::UInt16 { .. } => PhysType::UInt16,
            Column::UInt32 { .. } => PhysType::UInt32,
            Column::UInt64 { .. } => PhysType::UInt64,
            Column::Date32 { .. } => PhysType::Date32,
            Column::Date64 { .. } => PhysType::Date64,
            Column::Timestamp { unit, .. } => PhysType::Timestamp(*unit),
            Column::Decimal128 { precision, scale, .. } => PhysType::Decimal128(*precision, *scale),
            Column::Utf8 { .. } => PhysType::Utf8,
        }
    }

    /// Element `i` of a column whose cells have kind `B`: the value, or
    /// `None` where the element is null.
    pub fn get_bool(&self, i: usize) -> (r: Option<bool>)
        requires
            kind_for(self.spec_phys_type()) == CellKind::B,
            self.spec_phys_type() != PhysType::Null,
            i < self.spec_len(),
        ensures
            match r {
                Some(v) => self.cell(i as int) == Some(CellVal::B(v)),
                None => self.cell(i as int) is None,
            },
    {
        match self {
            Column::Boolean { values } => values[i],
            _ => {
                proof {
                    assert(false);
                }
                None
            },
        }
    }

    /// Element `i` of a column whose cells have kind `I8`: the value, or
    /// `None` where the element is null.
    pub fn get_i8(&self, i: usize) -> (r: Option<i8>)
        requires
            kind_for(self.spec_phys_type()) == CellKind::I8,
            self.spec_phys_type() != PhysType::Null,
            i < self.spec_len(),
        ensures
            match r {
                Some(v) => self.cell(i as int) == Some(CellVal::I8(v)),
                None => self.cell(i as int) is None,
            },
    {
        match self {
            Column::Int8 { values } => values[i],
            _ => {
                proof {
                    assert(false);
                }
                None
            },
        }
    }

    /// Element `i` of a column whose cells have kind `I16`: the value, or
    /// `None` where the element is null.
    pub fn get_i16(&self, i: usize) -> (r: Option<i16>)
        requires
            kind_for(self.spec_phys_type()) == CellKind::I16,
            self.spec_phys_type() != PhysType::Null,
            i < self.spec_len(),
        ensures
            match r {
                Some(v) => self.cell(i as int) == Some(CellVal::I16(v)),
                None => self.cell(i as int) is None,
            },
    {
        match self {
            Column::Int16 { values } => values[i],
            _ => {
                proof {
                    assert(false);
                }
                None
            },
        }
    }

    /// Element `i` of a column whose cells have kind `I32`: the value, or
    /// `None` where the element is null.
    pub fn get_i32(&self, i: usize) -> (r: Option<i32>)
        requires
            kind_for(self.spec_phys_type()) == CellKind::I32,
            self.spec_phys_type() != PhysType::Null,
            i < self.spec_len(),
        ensures
            match r {
                Some(v) => self.cell(i as int) == Some(CellVal::I32(v)),
                None => self.cell(i as int) is None,
            },
    {
        match self {
            Column::Int32 { values } => values[i],
            Column::Date32 { values } => values[i],
            _ => {
                proof {
                    assert(false);
                }
                None
            },
        }
    }

    /// Element `i` of a column whose cells have kind `I64`: the value, or
    /// `None` where the element is null.
    pub fn get_i64(&self, i: usize) -> (r: Option<i64>)
        requires
            kind_for(self.spec_phys_type()) == CellKind::I64,
            self.spec_phys_type() != PhysType::Null,
            i < self.spec_len(),
        ensures
            match r {
                Some(v) => self.cell(i as int) == Some(CellVal::I64(v)),
                None => self.cell(i as int) is None,
            },
    {
        match self {
            Column::Int64 { values } => values[i],
            Column::Date64 { values } => values[i],
            Column::Timestamp { values, .. } => values[i],
            _ => {
                proof {
                    assert(false);
                }
                None
            },
        }
    }

    /// Element `i` of a column whose cells have kind `U8`: the value, or
    /// `None` where the element is null.
    pub fn get_u8(&self, i: usize) -> (r: Option<u8>)
        requires
            kind_for(self.spec_phys_type()) == CellKind::U8,
            self.spec_phys_type() != PhysType::Null,
            i < self.spec_len(),
        ensures
            match r {
                Some(v) => self.cell(i as int) == Some(CellVal::U8(v)),
                None => self.cell(i as int) is None,
            },
    {
        match self {
            Column::UInt8 { values } => values[i],
            _ => {
                proof {
                    assert(false);
                }
                None
            },
        }
    }

    /// Element `i` of a column whose cells have kind `U16`: the value, or
    /// `None` where the element is null.
    pub fn get_u16(&self, i: usize) -> (r: Option<u16>)
        requires
            kind_for(self.spec_phys_type()) == CellKind::U16,
            self.spec_phys_type() != PhysType::Null,
            i < self.spec_len(),
        ensures
            match r {
                Some(v) => self.cell(i as int) == Some(CellVal::U16(v)),
                None => self.cell(i as int) is None,
            },
    {
        match self {
            Column::UInt16 { values } => values[i],
            _ => {
                proof {
                    assert(false);
                }
                None
            },
        }
    }

    /// Element `i` of a column whose cells have kind `U32`: the value, or
    /// `None` where the element is null.
    pub fn get_u32(&self, i: usize) -> (r: Option<u32>)
        requires
            kind_for(self.spec_phys_type()) == CellKind::U32,
            self.spec_phys_type() != PhysType::Null,
            i < self.spec_len(),
        ensures
            match r {
                Some(v) => self.cell(i as int) == Some(CellVal::U32(v)),
                None => self.cell(i as int) is None,
            },
    {
        match self {
            Column::UInt32 { values } => values[i],
            _ => {
                proof {
                    assert(false);
                }
                None
            },
        }
    }

    /// Element `i` of a column whose cells have kind `U64`: the value, or
    /// `None` where the element is null.
    pub fn get_u64(&self, i: usize) -> (r: Option<u64>)
        requires
            kind_for(self.spec_phys_type()) == CellKind::U64,
            self.spec_phys_type() != PhysType::Null,
            i < self.spec_len(),
        ensures
            match r {
                Some(v) => self.cell(i as int) == Some(CellVal::U64(v)),
                None => self.cell(i as int) is None,
            },
    {
        match self {
            Column::UInt64 { values } => values[i],
            _ => {
                proof {
                    assert(false);
                }
                None
            },
        }
    }

    /// Element `i` of a column whose cells have kind `I128`: the value, or
    /// `None` where the element is null.
    pub fn get_i128(&self, i: usize) -> (r: Option<i128>)
        requires
            kind_for(self.spec_phys_type()) == CellKind::I128,
            self.spec_phys_type() != PhysType::Null,
            i < self.spec_len(),
        ensures
            match r {
                Some(v) => self.cell(i as int) == Some(CellVal::I128(v)),
                None => self.cell(i as int) is None,
            },
    {
        match self {
            Column::Decimal128 { values, .. } => values[i],
            _ => {
                proof {
                    assert(false);
                }
                None
            },
        }
    }

    /// Element `i` of a text column: a borrow of the bytes, or `None` where
    /// the element is null.
    pub fn get_text(&self, i: usize) -> (r: Option<&Vec<u8>>)
        requires
            kind_for(self.spec_phys_type()) == CellKind::Text,
            i < self.spec_len(),
        ensures
            match r {
                Some(v) => self.cell(i as int) == Some(CellVal::Text(v@)),
                None => self.cell(i as int) is None,
            },
    {
        match self {
            Column::Utf8 { values } => match &values[i] {
                Some(v) => Some(v),
                None => None,
            },
            _ => {
                proof {
                    assert(false);
                }
                None
            },
        }
    }
}

/// The storage kind a physical type's cells have. The unsupported binary
/// type is never resolved to a strategy; the kind given here for it is
/// arbitrary.
pub open spec fn kind_for(dt: PhysType) -> CellKind {
    match dt {
        PhysType::Null => CellKind::B,
        PhysType::Boolean => CellKind::B,
        PhysType::Int8 => CellKind::I8,
        PhysType::Int16 => CellKind::I16,
        PhysType::Int32 => CellKind::I32,
        PhysType::Int64 => CellKind::I64,
        PhysType::UInt8 => CellKind::U8,
        PhysType::UInt16 => CellKind::U16,
        PhysType::UInt32 => CellKind::U32,
        PhysType::UInt64 => CellKind::U64,
        PhysType::Date32 => CellKind::I32,
        PhysType::Date64 => CellKind::I64,
        PhysType::Timestamp(_) => CellKind::I64,
        PhysType::Decimal128(_, _) => CellKind::I128,
        PhysType::Utf8 => CellKind::Text,
        PhysType::Binary => CellKind::B,
    }
}

/// Every cell of a column has the storage kind of the column's type.
pub proof fn lemma_column_cell_kind(col: &Column, i: int)
    requires
        0 <= i < col.spec_len(),
    ensures
        opt_kind_ok(col.cell(i), kind_for(col.spec_phys_type())),
{
}

} // verus!
