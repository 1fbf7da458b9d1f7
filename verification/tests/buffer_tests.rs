use blaze_agg::agg_buf::Addr;
use blaze_agg::agg_buf::AggBuf;
use blaze_agg::layout::build_layout;
use blaze_agg::value::PhysType;
use blaze_agg::value::TimeUnit;

#[test]
fn fresh_buffer_starts_invalid_and_absent() {
    let buf = AggBuf::new(29, 3, 2);
    for i in 0..3 {
        assert!(!buf.is_fixed_valid(i));
    }
    for i in 0..2 {
        assert_eq!(buf.dyn_value_clone(i), None);
    }
}

#[test]
fn fixed_round_trip_every_supported_width() {
    let mut buf = AggBuf::new(64, 10, 0);

    buf.set_fixed_value_bool(0, true);
    assert!(buf.fixed_value_bool(0));
    buf.set_fixed_value_bool(0, false);
    assert!(!buf.fixed_value_bool(0));

    buf.set_fixed_value_i8(1, -128);
    assert_eq!(buf.fixed_value_i8(1), -128);
    buf.set_fixed_value_u8(2, 255);
    assert_eq!(buf.fixed_value_u8(2), 255);

    buf.set_fixed_value_i16(3, -32768);
    assert_eq!(buf.fixed_value_i16(3), -32768);
    buf.set_fixed_value_u16(5, 65535);
    assert_eq!(buf.fixed_value_u16(5), 65535);

    buf.set_fixed_value_i32(7, -2000000000);
    assert_eq!(buf.fixed_value_i32(7), -2000000000);
    buf.set_fixed_value_u32(11, 4000000000);
    assert_eq!(buf.fixed_value_u32(11), 4000000000);

    buf.set_fixed_value_i64(15, -9000000000000000000);
    assert_eq!(buf.fixed_value_i64(15), -9000000000000000000);
    buf.set_fixed_value_u64(23, 18000000000000000000);
    assert_eq!(buf.fixed_value_u64(23), 18000000000000000000);

    buf.set_fixed_value_i128(31, -170141183460469231731687303715884105728);
    assert_eq!(
        buf.fixed_value_i128(31),
        -170141183460469231731687303715884105728
    );
}

#[test]
fn validity_bit_toggles_exactly_as_set() {
    let mut buf = AggBuf::new(8, 2, 0);
    assert!(!buf.is_fixed_valid(0));
    assert!(!buf.is_fixed_valid(1));
    buf.set_fixed_valid(0, true);
    assert!(buf.is_fixed_valid(0));
    assert!(!buf.is_fixed_valid(1));
    buf.set_fixed_valid(0, false);
    assert!(!buf.is_fixed_valid(0));
}

#[test]
fn neighbouring_slots_do_not_disturb_each_other() {
    let mut buf = AggBuf::new(12, 2, 0);
    buf.set_fixed_value_i32(0, -7);
    buf.set_fixed_value_i64(4, 123456789012345);
    assert_eq!(buf.fixed_value_i32(0), -7);
    assert_eq!(buf.fixed_value_i64(4), 123456789012345);
    buf.set_fixed_value_i32(0, 99);
    assert_eq!(buf.fixed_value_i64(4), 123456789012345);
}

#[test]
fn dyn_slots_hold_owned_values() {
    let mut buf = AggBuf::new(0, 0, 2);
    buf.set_dyn_value(0, b"hello".to_vec());
    assert_eq!(buf.dyn_value_clone(0), Some(b"hello".to_vec()));
    assert_eq!(buf.dyn_value_clone(1), None);
}

#[test]
fn layout_packs_fixed_slots_and_indexes_dyn_slots() {
    let types = vec![
        PhysType::Int64,
        PhysType::Utf8,
        PhysType::Boolean,
        PhysType::Decimal128(10, 2),
        PhysType::Utf8,
        PhysType::Timestamp(TimeUnit::Second),
    ];
    let layout = build_layout(&types);
    assert_eq!(layout.fixed_len, 8 + 1 + 16 + 8);
    assert_eq!(layout.n_valid, 4);
    assert_eq!(layout.n_dyn, 2);
    assert_eq!(
        layout.addrs,
        vec![
            Addr::Fixed { offset: 0, valid_idx: 0 },
            Addr::Dyn { idx: 0 },
            Addr::Fixed { offset: 8, valid_idx: 1 },
            Addr::Fixed { offset: 9, valid_idx: 2 },
            Addr::Dyn { idx: 1 },
            Addr::Fixed { offset: 25, valid_idx: 3 },
        ]
    );
    // A buffer created with the layout's sizes accepts every address.
    let buf = AggBuf::new(layout.fixed_len, layout.n_valid, layout.n_dyn);
    assert!(!buf.is_fixed_valid(3));
    assert_eq!(buf.dyn_value_clone(1), None);
}
