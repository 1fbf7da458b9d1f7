use blaze_agg::agg_buf::Addr;
use blaze_agg::agg_buf::AggBuf;
use blaze_agg::max::get_partial_buf_merger;
use blaze_agg::max::get_partial_updater;
use blaze_agg::max::AggMax;
use blaze_agg::max::MaxKernel;
use blaze_agg::value::AccumInitialValue;
use blaze_agg::value::AggError;
use blaze_agg::value::PhysType;
use blaze_agg::value::ScalarVal;
use blaze_agg::value::TimeUnit;
use blaze_agg::column::Column;

fn one_fixed_addr() -> Vec<Addr> {
    vec![Addr::Fixed { offset: 0, valid_idx: 0 }]
}

#[test]
fn try_new_rejects_unsupported_types_and_accepts_the_rest() {
    assert_eq!(
        AggMax::try_new(PhysType::Binary).err(),
        Some(AggError::UnsupportedDataType)
    );
    assert!(AggMax::try_new(PhysType::Null).is_ok());
    assert!(AggMax::try_new(PhysType::Boolean).is_ok());
    assert!(AggMax::try_new(PhysType::Int8).is_ok());
    assert!(AggMax::try_new(PhysType::UInt64).is_ok());
    assert!(AggMax::try_new(PhysType::Date32).is_ok());
    assert!(AggMax::try_new(PhysType::Timestamp(TimeUnit::Nanosecond)).is_ok());
    assert!(AggMax::try_new(PhysType::Decimal128(10, 2)).is_ok());
    assert!(AggMax::try_new(PhysType::Utf8).is_ok());
}

#[test]
fn resolvers_pick_one_strategy_per_type() {
    assert_eq!(get_partial_updater(&PhysType::Int64), Ok(MaxKernel::I64));
    assert_eq!(get_partial_updater(&PhysType::Date64), Ok(MaxKernel::I64));
    assert_eq!(
        get_partial_updater(&PhysType::Timestamp(TimeUnit::Second)),
        Ok(MaxKernel::I64)
    );
    assert_eq!(get_partial_updater(&PhysType::Utf8), Ok(MaxKernel::Text));
    assert_eq!(get_partial_updater(&PhysType::Null), Ok(MaxKernel::Noop));
    assert_eq!(
        get_partial_updater(&PhysType::Binary),
        Err(AggError::UnsupportedDataType)
    );
    assert_eq!(get_partial_buf_merger(&PhysType::Boolean), Ok(MaxKernel::Bool));
    assert_eq!(
        get_partial_buf_merger(&PhysType::Decimal128(38, 10)),
        Ok(MaxKernel::I128)
    );
    assert_eq!(
        get_partial_buf_merger(&PhysType::Binary),
        Err(AggError::UnsupportedDataType)
    );
}

#[test]
fn descriptor_reports_type_seed_and_nullability() {
    let agg = AggMax::try_new(PhysType::Decimal128(10, 2)).unwrap();
    assert_eq!(*agg.data_type(), PhysType::Decimal128(10, 2));
    assert!(agg.nullable());
    assert_eq!(
        agg.accums_initial().clone(),
        vec![AccumInitialValue::Scalar(ScalarVal::Decimal128(None, 10, 2))]
    );
}

#[test]
fn max_i64_per_row_updates() {
    let agg = AggMax::try_new(PhysType::Int64).unwrap();
    let mut buf = AggBuf::new(8, 1, 0);
    let addrs = one_fixed_addr();
    let values = vec![Column::Int64 {
        values: vec![Some(3), None, Some(7), Some(5)],
    }];
    assert!(!buf.is_fixed_valid(0));
    for i in 0..4 {
        agg.partial_update(&mut buf, &addrs, &values, i).unwrap();
    }
    assert!(buf.is_fixed_valid(0));
    assert_eq!(buf.fixed_value_i64(0), 7);
}

#[test]
fn batch_update_matches_per_row_updates() {
    let agg = AggMax::try_new(PhysType::Int64).unwrap();
    let addrs = one_fixed_addr();
    let values = vec![Column::Int64 {
        values: vec![Some(-4), Some(11), None, Some(11), Some(2)],
    }];

    let mut whole = AggBuf::new(8, 1, 0);
    agg.partial_update_all(&mut whole, &addrs, &values).unwrap();

    let mut per_row = AggBuf::new(8, 1, 0);
    // Apply the rows in a different order than the batch holds them.
    for i in [4, 2, 0, 3, 1] {
        agg.partial_update(&mut per_row, &addrs, &values, i).unwrap();
    }

    assert_eq!(whole.is_fixed_valid(0), per_row.is_fixed_valid(0));
    assert_eq!(whole.fixed_value_i64(0), per_row.fixed_value_i64(0));
    assert_eq!(whole.fixed_value_i64(0), 11);
}

#[test]
fn all_null_batch_leaves_slot_invalid() {
    let agg = AggMax::try_new(PhysType::Int32).unwrap();
    let mut buf = AggBuf::new(4, 1, 0);
    let addrs = one_fixed_addr();
    let values = vec![Column::Int32 { values: vec![None, None, None] }];
    agg.partial_update_all(&mut buf, &addrs, &values).unwrap();
    assert!(!buf.is_fixed_valid(0));
}

#[test]
fn merge_with_invalid_slot_is_noop() {
    let agg = AggMax::try_new(PhysType::UInt16).unwrap();
    let addrs = one_fixed_addr();
    let mut a = AggBuf::new(2, 1, 0);
    let values = vec![Column::UInt16 { values: vec![Some(40000)] }];
    agg.partial_update(&mut a, &addrs, &values, 0).unwrap();
    let mut invalid = AggBuf::new(2, 1, 0);
    agg.partial_merge(&mut a, &mut invalid, &addrs).unwrap();
    assert!(a.is_fixed_valid(0));
    assert_eq!(a.fixed_value_u16(0), 40000);
    assert!(!invalid.is_fixed_valid(0));
}

#[test]
fn merge_is_associative_across_three_partials() {
    let addrs = one_fixed_addr();
    let agg = AggMax::try_new(PhysType::Int32).unwrap();
    let col_a = vec![Column::Int32 { values: vec![Some(5)] }];
    let col_b = vec![Column::Int32 { values: vec![Some(9)] }];
    let col_c = vec![Column::Int32 { values: vec![Some(7)] }];

    // (A merged B) merged C
    let mut a1 = AggBuf::new(4, 1, 0);
    let mut b1 = AggBuf::new(4, 1, 0);
    let mut c1 = AggBuf::new(4, 1, 0);
    agg.partial_update(&mut a1, &addrs, &col_a, 0).unwrap();
    agg.partial_update(&mut b1, &addrs, &col_b, 0).unwrap();
    agg.partial_update(&mut c1, &addrs, &col_c, 0).unwrap();
    agg.partial_merge(&mut a1, &mut b1, &addrs).unwrap();
    agg.partial_merge(&mut a1, &mut c1, &addrs).unwrap();

    // A merged (B merged C)
    let mut a2 = AggBuf::new(4, 1, 0);
    let mut b2 = AggBuf::new(4, 1, 0);
    let mut c2 = AggBuf::new(4, 1, 0);
    agg.partial_update(&mut a2, &addrs, &col_a, 0).unwrap();
    agg.partial_update(&mut b2, &addrs, &col_b, 0).unwrap();
    agg.partial_update(&mut c2, &addrs, &col_c, 0).unwrap();
    agg.partial_merge(&mut b2, &mut c2, &addrs).unwrap();
    agg.partial_merge(&mut a2, &mut b2, &addrs).unwrap();

    assert_eq!(a1.is_fixed_valid(0), a2.is_fixed_valid(0));
    assert_eq!(a1.fixed_value_i32(0), a2.fixed_value_i32(0));
    assert_eq!(a1.fixed_value_i32(0), 9);
}

#[test]
fn max_text_no_replacement_on_smaller_candidate() {
    let agg = AggMax::try_new(PhysType::Utf8).unwrap();
    let addrs = vec![Addr::Dyn { idx: 0 }];
    let mut buf = AggBuf::new(0, 0, 1);
    let col_b = vec![Column::Utf8 { values: vec![Some(b"b".to_vec())] }];
    let col_a = vec![Column::Utf8 { values: vec![Some(b"a".to_vec())] }];
    agg.partial_update(&mut buf, &addrs, &col_b, 0).unwrap();
    agg.partial_update(&mut buf, &addrs, &col_a, 0).unwrap();
    assert_eq!(buf.dyn_value_clone(0), Some(b"b".to_vec()));
}

#[test]
fn max_text_first_update_seeds_slot() {
    let agg = AggMax::try_new(PhysType::Utf8).unwrap();
    let addrs = vec![Addr::Dyn { idx: 0 }];
    let mut buf = AggBuf::new(0, 0, 1);
    assert_eq!(buf.dyn_value_clone(0), None);
    let col_a = vec![Column::Utf8 { values: vec![Some(b"a".to_vec())] }];
    agg.partial_update(&mut buf, &addrs, &col_a, 0).unwrap();
    assert_eq!(buf.dyn_value_clone(0), Some(b"a".to_vec()));
}

#[test]
fn max_text_batch_ignores_nulls_and_keeps_largest() {
    let agg = AggMax::try_new(PhysType::Utf8).unwrap();
    let addrs = vec![Addr::Dyn { idx: 0 }];
    let mut buf = AggBuf::new(0, 0, 1);
    let col = vec![Column::Utf8 {
        values: vec![
            Some(b"pear".to_vec()),
            None,
            Some(b"apple".to_vec()),
            Some(b"peach".to_vec()),
        ],
    }];
    agg.partial_update_all(&mut buf, &addrs, &col).unwrap();
    assert_eq!(buf.dyn_value_clone(0), Some(b"pear".to_vec()));
}

#[test]
fn max_text_all_null_batch_leaves_slot_absent() {
    let agg = AggMax::try_new(PhysType::Utf8).unwrap();
    let addrs = vec![Addr::Dyn { idx: 0 }];
    let mut buf = AggBuf::new(0, 0, 1);
    let col = vec![Column::Utf8 { values: vec![None, None] }];
    agg.partial_update_all(&mut buf, &addrs, &col).unwrap();
    assert_eq!(buf.dyn_value_clone(0), None);
}

#[test]
fn max_boolean_true_wins() {
    let agg = AggMax::try_new(PhysType::Boolean).unwrap();
    let addrs = one_fixed_addr();
    let mut buf = AggBuf::new(1, 1, 0);
    let col = vec![Column::Boolean { values: vec![Some(false), Some(true), None] }];
    agg.partial_update_all(&mut buf, &addrs, &col).unwrap();
    assert!(buf.is_fixed_valid(0));
    assert!(buf.fixed_value_bool(0));
}

#[test]
fn max_decimal_batch_update() {
    let agg = AggMax::try_new(PhysType::Decimal128(20, 4)).unwrap();
    let addrs = one_fixed_addr();
    let mut buf = AggBuf::new(16, 1, 0);
    let col = vec![Column::Decimal128 {
        values: vec![Some(-170141183460469231731687303715884105728), Some(12), None],
        precision: 20,
        scale: 4,
    }];
    agg.partial_update_all(&mut buf, &addrs, &col).unwrap();
    assert_eq!(buf.fixed_value_i128(0), 12);
}

#[test]
fn max_timestamp_merge_keeps_later_tick() {
    let agg = AggMax::try_new(PhysType::Timestamp(TimeUnit::Microsecond)).unwrap();
    let addrs = one_fixed_addr();
    let mut a = AggBuf::new(8, 1, 0);
    let mut b = AggBuf::new(8, 1, 0);
    let col_a = vec![Column::Timestamp {
        unit: TimeUnit::Microsecond,
        values: vec![Some(1700000000000000)],
    }];
    let col_b = vec![Column::Timestamp {
        unit: TimeUnit::Microsecond,
        values: vec![Some(1700000000000001)],
    }];
    agg.partial_update(&mut a, &addrs, &col_a, 0).unwrap();
    agg.partial_update(&mut b, &addrs, &col_b, 0).unwrap();
    agg.partial_merge(&mut a, &mut b, &addrs).unwrap();
    assert_eq!(a.fixed_value_i64(0), 1700000000000001);
}

#[test]
fn null_type_updates_are_noops() {
    let agg = AggMax::try_new(PhysType::Null).unwrap();
    let addrs = one_fixed_addr();
    let mut buf = AggBuf::new(1, 1, 0);
    let col = vec![Column::Null { len: 3 }];
    agg.partial_update(&mut buf, &addrs, &col, 1).unwrap();
    agg.partial_update_all(&mut buf, &addrs, &col).unwrap();
    assert!(!buf.is_fixed_valid(0));
}

#[test]
fn equal_value_does_not_replace_buffered_value() {
    let agg = AggMax::try_new(PhysType::Int8).unwrap();
    let addrs = one_fixed_addr();
    let mut buf = AggBuf::new(1, 1, 0);
    let col = vec![Column::Int8 { values: vec![Some(42), Some(42)] }];
    agg.partial_update(&mut buf, &addrs, &col, 0).unwrap();
    agg.partial_update(&mut buf, &addrs, &col, 1).unwrap();
    assert_eq!(buf.fixed_value_i8(0), 42);
}
