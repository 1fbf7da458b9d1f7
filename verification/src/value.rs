//! Physical column types, typed scalars, accumulator seed values, and the
//! single error kind this core can raise.

use vstd::prelude::*;

verus! {

/// Resolution of a timestamp column.
#[derive(Clone, Copy, Debug, PartialEq, Eq, Structural)]
pub enum TimeUnit {
    Second,
    Millisecond,
    Microsecond,
    Nanosecond,
}

/// The physical type of a column as the execution engine sees it.
///
/// The decimal variant carries precision and scale; timestamps carry their
/// resolution. Floating-point columns are not represented here: their
/// comparison cannot be stated in this core, so their aggregation path lives
/// with the surrounding engine. `Binary` is carried so that asking for an
/// aggregate over a type with no MAX implementation fails with the explicit
/// unsupported-type error rather than being silently absent.
#[derive(Clone, Copy, Debug, PartialEq, Eq, Structural)]
pub enum PhysType {
    Null,
    Boolean,
    Int8,
    Int16,
    Int32,
    Int64,
    UInt8,
    UInt16,
    UInt32,
    UInt64,
    Date32,
    Date64,
    Timestamp(TimeUnit),
    Decimal128(u8, i8),
    Utf8,
    Binary,
}

/// A single typed value: the tagged union of (physical type, optional value).
///
/// Dates are held as day numbers (32- or 64-bit), timestamps as a count of
/// their unit since the epoch, decimals as the 128-bit unscaled integer with
/// precision and scale, and text as its bytes (text ordering in this core is
/// byte-wise). `None` in a variant is the typed null.
#[derive(Clone, Debug, PartialEq, Eq)]
pub enum ScalarVal {
    Null,
    Boolean(Option<bool>),
    Int8(Option<i8>),
    Int16(Option<i16>),
    Int32(Option<i32>),
    Int64(Option<i64>),
    UInt8(Option<u8>),
    UInt16(Option<u16>),
    UInt32(Option<u32>),
    UInt64(Option<u64>),
    Date32(Option<i32>),
    Date64(Option<i64>),
    Timestamp(TimeUnit, Option<i64>),
    Decimal128(Option<i128>, u8, i8),
    Utf8(Option<Vec<u8>>),
}

/// The seed state of one accumulator slot in a freshly created group buffer:
/// a typed scalar, null for every type this core supports (a fixed slot starts
/// invalid, a dynamic slot starts absent).
#[derive(Clone, Debug, PartialEq, Eq)]
pub enum AccumInitialValue {
    Scalar(ScalarVal),
}

/// The one failure this core surfaces: the requested operation has no
/// implementation for the given physical type. It is raised at accumulator or
/// extractor construction time, never while rows are being processed.
#[derive(Clone, Copy, Debug, PartialEq, Eq, Structural)]
pub enum AggError {
    UnsupportedDataType,
}

/// The physical types the MAX accumulator is implemented for.
pub open spec fn max_supported(dt: PhysType) -> bool {
    match dt {
        PhysType::Binary => false,
        _ => true,
    }
}

/// The typed null scalar of a supported physical type, used to seed a fresh
/// accumulator slot.
pub open spec fn spec_null_scalar_of(dt: PhysType) -> ScalarVal {
    match dt {
        PhysType::Null => ScalarVal::Null,
        PhysType::Boolean => ScalarVal::Boolean(None),
        PhysType::Int8 => ScalarVal::Int8(None),
        PhysType::Int16 => ScalarVal::Int16(None),
        PhysType::Int32 => ScalarVal::Int32(None),
        PhysType::Int64 => ScalarVal::Int64(None),
        PhysType::UInt8 => ScalarVal::UInt8(None),
        PhysType::UInt16 => ScalarVal::UInt16(None),
        PhysType::UInt32 => ScalarVal::UInt32(None),
        PhysType::UInt64 => ScalarVal::UInt64(None),
        PhysType::Date32 => ScalarVal::Date32(None),
        PhysType::Date64 => ScalarVal::Date64(None),
        PhysType::Timestamp(unit) => ScalarVal::Timestamp(unit, None),
        PhysType::Decimal128(p, s) => ScalarVal::Decimal128(None, p, s),
        PhysType::Utf8 => ScalarVal::Utf8(None),
        PhysType::Binary => ScalarVal::Null,
    }
}

/// Builds the typed null scalar of a supported physical type.
pub fn null_scalar_of(dt: &PhysType) -> (r: ScalarVal)
    requires
        max_supported(*dt),
    ensures
        r == spec_null_scalar_of(*dt),
{
    match dt {
        PhysType::Null => ScalarVal::Null,
        PhysType::Boolean => ScalarVal::Boolean(None),
        PhysType::Int8 => ScalarVal::Int8(None),
        PhysType::Int16 => ScalarVal::Int16(None),
        PhysType::Int32 => ScalarVal::Int32(None),
        PhysType::Int64 => ScalarVal::Int64(None),
        PhysType::UInt8 => ScalarVal::UInt8(None),
        PhysType::UInt16 => ScalarVal::UInt16(None),
        PhysType::UInt32 => ScalarVal::UInt32(None),
        PhysType::UInt64 => ScalarVal::UInt64(None),
        PhysType::Date32 => ScalarVal::Date32(None),
        PhysType::Date64 => ScalarVal::Date64(None),
        PhysType::Timestamp(unit) => ScalarVal::Timestamp(*unit, None),
        PhysType::Decimal128(p, s) => ScalarVal::Decimal128(None, *p, *s),
        PhysType::Utf8 => ScalarVal::Utf8(None),
        PhysType::Binary => {
            proof {
                assert(false);
            }
            ScalarVal::Null
        },
    }
}

} // verus!
