//! Unscaled-value extraction of fixed-point decimals: a pure transform from a
//! decimal scalar or column to the 64-bit truncation of its 128-bit unscaled
//! integer, preserving null positions exactly.

use vstd::prelude::*;

use crate::column::Column;
use crate::value::AggError;
use crate::value::ScalarVal;

verus! {

/// A single value or a whole column: the two shapes a columnar argument
/// takes.
#[derive(Clone, Debug, PartialEq, Eq)]
pub enum ColumnarVal {
    Scalar(ScalarVal),
    Array(Column),
}

/// The scalar rule: a present decimal yields its unscaled 128-bit integer
/// truncated to 64 bits; a null decimal, or any other scalar, yields the null
/// 64-bit integer.
pub open spec fn spec_unscaled_scalar(s: ScalarVal) -> ScalarVal {
    match s {
        ScalarVal::Decimal128(Some(v), _, _) => ScalarVal::Int64(Some(v as i64)),
        _ => ScalarVal::Int64(None),
    }
}

/// The element rule of the column path: truncate a present unscaled integer,
/// keep a null null.
pub open spec fn spec_unscaled_elem(v: Option<i128>) -> Option<i64> {
    match v {
        Some(x) => Some(x as i64),
        None => None,
    }
}

/// The column path applies exactly the scalar rule to every element: reading
/// element `i` of a decimal column as a decimal scalar and extracting it
/// gives the column path's value for that element, nulls included.
pub proof fn lemma_unscaled_elementwise(v: Option<i128>, precision: u8, scale: i8)
    ensures
        spec_unscaled_scalar(ScalarVal::Decimal128(v, precision, scale)) == ScalarVal::Int64(
            spec_unscaled_elem(v),
        ),
{
}

/// Extracts the unscaled integer of a decimal argument, scalar or column.
///
/// A scalar argument follows the scalar rule. A decimal column yields a
/// 64-bit integer column of the same length whose every element follows the
/// element rule, so null positions are preserved exactly. A column of any
/// other physical type is refused, at dispatch, with the one typed error
/// this core knows.
pub fn spark_unscaled_value(args: &Vec<ColumnarVal>) -> (r: Result<ColumnarVal, AggError>)
    requires
        args@.len() >= 1,
    ensures
        match args@[0] {
            ColumnarVal::Scalar(s) => r == Ok::<ColumnarVal, AggError>(
                ColumnarVal::Scalar(spec_unscaled_scalar(s)),
            ),
            ColumnarVal::Array(col) => match col {
                Column::Decimal128 { values, .. } => match r {
                    Ok(ColumnarVal::Array(Column::Int64 { values: out })) => out@.len()
                        == values@.len() && forall|j: int|
                        0 <= j < values@.len() ==> out@[j] == spec_unscaled_elem(values@[j]),
                    _ => false,
                },
                _ => r == Err::<ColumnarVal, AggError>(AggError::UnsupportedDataType),
            },
        },
{
    match &args[0] {
        ColumnarVal::Scalar(scalar) => match scalar {
            ScalarVal::Decimal128(Some(v), _, _) => Ok(
                ColumnarVal::Scalar(ScalarVal::Int64(Some(*v as i64))),
            ),
            _ => Ok(ColumnarVal::Scalar(ScalarVal::Int64(None))),
        },
        ColumnarVal::Array(array) => match array {
            Column::Decimal128 { values, .. } => {
                let n = values.len();
                let mut out: Vec<Option<i64>> = Vec::new();
                let mut i: usize = 0;
                while i < n
                    invariant
                        i <= n,
                        n == values@.len(),
                        out@.len() == i,
                        forall|j: int| 0 <= j < i ==> out@[j] == spec_unscaled_elem(values@[j]),
                    decreases n - i,
                {
                    match values[i] {
                        Some(v) => out.push(Some(v as i64)),
                        None => out.push(None),
                    }
                    i = i + 1;
                }
                Ok(ColumnarVal::Array(Column::Int64 { values: out }))
            },
            _ => Err(AggError::UnsupportedDataType),
        },
    }
}

} // verus!
