use micrortu_sdk::{DPI, IEBuf, M_DP_NA_1, SmallIE};

fn double_point(state: u8) -> SmallIE {
    let mut ie = SmallIE::default_for_typecode(3).unwrap();
    if let SmallIE::TI3(ref mut rec) = ie {
        rec.value.set_dpi(DPI::try_from_u8(state).unwrap());
    }
    ie
}

#[test]
fn double_point_to_bool() {
    assert_eq!(double_point(1).try_to_bool().ok(), Some(false));
    assert_eq!(double_point(2).try_to_bool().ok(), Some(true));
    assert!(double_point(0).try_to_bool().is_err());
    assert!(double_point(3).try_to_bool().is_err());
}

#[test]
fn single_point_and_command_to_bool() {
    let mut sp = SmallIE::default_for_typecode(1).unwrap();
    assert_eq!(sp.try_to_bool().ok(), Some(false));
    if let SmallIE::TI1(ref mut rec) = sp {
        rec.value.set_spi(true);
    }
    assert_eq!(sp.try_to_bool().ok(), Some(true));

    let mut sc = SmallIE::default_for_typecode(45).unwrap();
    if let SmallIE::TI45(ref mut rec) = sc {
        rec.value.set_scs(true);
    }
    assert_eq!(sc.try_to_bool().ok(), Some(true));

    assert!(SmallIE::default_for_typecode(13).unwrap().try_to_bool().is_err());
    assert!(SmallIE::default_for_typecode(136).unwrap().try_to_bool().is_err());
}

#[test]
fn union_to_u32() {
    assert_eq!(double_point(2).try_to_u32().ok(), Some(2));

    let mut scaled = SmallIE::default_for_typecode(11).unwrap();
    if let SmallIE::TI11(ref mut rec) = scaled {
        rec.value = 1234;
    }
    assert_eq!(scaled.try_to_u32().ok(), Some(1234));
    if let SmallIE::TI11(ref mut rec) = scaled {
        rec.value = -1;
    }
    assert!(scaled.try_to_u32().is_err());

    let mut wide = SmallIE::default_for_typecode(138).unwrap();
    if let SmallIE::TI138(ref mut rec) = wide {
        rec.value = 0x1_0000_0000;
    }
    assert!(wide.try_to_u32().is_err());
    if let SmallIE::TI138(ref mut rec) = wide {
        rec.value = 0xffff_ffff;
    }
    assert_eq!(wide.try_to_u32().ok(), Some(0xffff_ffff));

    // Short floats never convert to an integer.
    assert!(SmallIE::default_for_typecode(13).unwrap().try_to_u32().is_err());
    assert!(SmallIE::default_for_typecode(50).unwrap().try_to_u32().is_err());
    assert!(SmallIE::default_for_typecode(112).unwrap().try_to_u32().is_err());
}

#[test]
fn update_same_kind_copies() {
    let mut dst = SmallIE::default_for_typecode(11).unwrap();
    let mut src = SmallIE::default_for_typecode(11).unwrap();
    if let SmallIE::TI11(ref mut rec) = src {
        rec.value = -7;
        rec.qds.raw.0 = 0x10;
    }
    dst.try_update_from(src).unwrap();
    assert_eq!(dst, src);
}

#[test]
fn update_single_from_double_carries_quality() {
    // Double point: on, with the invalid flag set.
    let mut src = double_point(2);
    if let SmallIE::TI3(ref mut rec) = src {
        rec.value.raw.0 |= 0x80;
    }
    let mut dst = SmallIE::default_for_typecode(1).unwrap();
    dst.try_update_from(src).unwrap();
    if let SmallIE::TI1(rec) = dst {
        assert!(rec.value.spi());
        // Quality byte carried verbatim but for the derived state bit:
        // invalid flag kept, point state on.
        assert_eq!(rec.value.raw.0, 0x83);
    } else {
        panic!("expected the single point variant");
    }
}

#[test]
fn update_double_from_single_carries_quality() {
    let mut src = SmallIE::default_for_typecode(1).unwrap();
    if let SmallIE::TI1(ref mut rec) = src {
        rec.value.set_spi(true);
        rec.value.raw.0 |= 0x40;
    }
    let mut dst = double_point(3);
    dst.try_update_from(src).unwrap();
    if let SmallIE::TI3(rec) = dst {
        assert_eq!(rec.value.dpi(), DPI::On);
        assert_eq!(rec.value.raw.0, 0x42);
    } else {
        panic!("expected the double point variant");
    }
}

#[test]
fn update_incompatible_kinds_fails() {
    let mut dst = SmallIE::default_for_typecode(11).unwrap();
    let src = SmallIE::default_for_typecode(13).unwrap();
    assert!(dst.try_update_from(src).is_err());
    assert_eq!(dst, SmallIE::default_for_typecode(11).unwrap());
}

#[test]
fn update_from_int_range_checked() {
    let mut scaled = SmallIE::default_for_typecode(11).unwrap();
    scaled.try_update_from_int(-32768).unwrap();
    if let SmallIE::TI11(rec) = scaled {
        assert_eq!(rec.value, -32768);
    }
    assert!(scaled.try_update_from_int(32768).is_err());
    assert!(scaled.try_update_from_int(-32769).is_err());

    let mut dp = SmallIE::default_for_typecode(3).unwrap();
    dp.try_update_from_int(2).unwrap();
    assert_eq!(dp.try_to_bool().ok(), Some(true));
    assert!(dp.try_update_from_int(4).is_err());
    assert!(dp.try_update_from_int(-1).is_err());

    let mut sp = SmallIE::default_for_typecode(1).unwrap();
    sp.try_update_from_int(5).unwrap();
    assert_eq!(sp.try_to_bool().ok(), Some(true));
    sp.try_update_from_int(0).unwrap();
    assert_eq!(sp.try_to_bool().ok(), Some(false));

    let mut unsigned = SmallIE::default_for_typecode(136).unwrap();
    assert!(unsigned.try_update_from_int(-1).is_err());
    unsigned.try_update_from_int(0xffff_ffff).unwrap();
    assert_eq!(unsigned.try_to_u32().ok(), Some(0xffff_ffff));

    // The float payloads are updated at the floating point boundary,
    // not through the integer path.
    let mut float_ie = SmallIE::default_for_typecode(13).unwrap();
    assert!(float_ie.try_update_from_int(1).is_err());
}

#[test]
fn record_level_updates() {
    let mut rec = M_DP_NA_1::try_from_u8(1).unwrap();
    assert_eq!(rec.value.dpi(), DPI::Off);
    assert_eq!(rec.to_u32(), 1);
    assert!(M_DP_NA_1::try_from_u8(4).is_err());

    let single = SmallIE::default_for_typecode(1).unwrap();
    rec.try_update_from(single).unwrap();
    assert_eq!(rec.value.dpi(), DPI::Off);

    let mut scaled_rec = match SmallIE::default_for_typecode(11).unwrap() {
        SmallIE::TI11(r) => r,
        _ => panic!("expected the scaled variant"),
    };
    assert!(scaled_rec.try_update_from(SmallIE::default_for_typecode(13).unwrap()).is_err());
    scaled_rec.try_update_from(SmallIE::default_for_typecode(11).unwrap()).unwrap();
}

#[test]
fn round_trip_preserves_payload() {
    let mut ie = SmallIE::default_for_typecode(139).unwrap();
    if let SmallIE::TI139(ref mut rec) = ie {
        rec.value = -123456789012345;
        rec.qds.raw.0 = 0x50;
    }
    let buf = IEBuf::from_ie(ie);
    assert_eq!(SmallIE::try_from_buf(buf).unwrap(), ie);
}
