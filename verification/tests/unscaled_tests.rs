use blaze_agg::column::Column;
use blaze_agg::unscaled::spark_unscaled_value;
use blaze_agg::unscaled::ColumnarVal;
use blaze_agg::value::AggError;
use blaze_agg::value::ScalarVal;

#[test]
fn test_unscaled_value_array() {
    let result = spark_unscaled_value(&vec![ColumnarVal::Array(Column::Decimal128 {
        values: vec![
            Some(1234567890987654321),
            Some(9876543210),
            Some(135792468109),
            None,
            Some(67898),
        ],
        precision: 10,
        scale: 8,
    })])
    .unwrap();
    let expected = ColumnarVal::Array(Column::Int64 {
        values: vec![
            Some(1234567890987654321),
            Some(9876543210),
            Some(135792468109),
            None,
            Some(67898),
        ],
    });
    assert_eq!(result, expected);
}

#[test]
fn test_unscaled_value_scalar() {
    let result = spark_unscaled_value(&vec![ColumnarVal::Scalar(ScalarVal::Decimal128(
        Some(123),
        3,
        2,
    ))])
    .unwrap();
    let expected = ColumnarVal::Scalar(ScalarVal::Int64(Some(123)));
    assert_eq!(result, expected);
}

#[test]
fn unscaled_null_scalar_gives_null() {
    let result =
        spark_unscaled_value(&vec![ColumnarVal::Scalar(ScalarVal::Decimal128(None, 10, 2))])
            .unwrap();
    assert_eq!(result, ColumnarVal::Scalar(ScalarVal::Int64(None)));
}

#[test]
fn unscaled_non_decimal_scalar_gives_null() {
    let result =
        spark_unscaled_value(&vec![ColumnarVal::Scalar(ScalarVal::Int32(Some(5)))]).unwrap();
    assert_eq!(result, ColumnarVal::Scalar(ScalarVal::Int64(None)));
}

#[test]
fn unscaled_truncates_to_sixty_four_bits() {
    // 2^64 + 7 truncates to 7 in the 64-bit reinterpretation.
    let big: i128 = 18446744073709551623;
    let result = spark_unscaled_value(&vec![ColumnarVal::Scalar(ScalarVal::Decimal128(
        Some(big),
        38,
        0,
    ))])
    .unwrap();
    assert_eq!(result, ColumnarVal::Scalar(ScalarVal::Int64(Some(7))));
}

#[test]
fn unscaled_empty_array_gives_empty_array() {
    let result = spark_unscaled_value(&vec![ColumnarVal::Array(Column::Decimal128 {
        values: vec![],
        precision: 10,
        scale: 0,
    })])
    .unwrap();
    assert_eq!(result, ColumnarVal::Array(Column::Int64 { values: vec![] }));
}

#[test]
fn unscaled_non_decimal_array_is_refused_at_dispatch() {
    let result = spark_unscaled_value(&vec![ColumnarVal::Array(Column::Int32 {
        values: vec![Some(1), None],
    })]);
    assert_eq!(result, Err(AggError::UnsupportedDataType));
}
