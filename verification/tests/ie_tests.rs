use micrortu_sdk::{IEBuf, SmallIE};

fn catalog_codes() -> Vec<u8> {
    vec![1, 3, 11, 13, 45, 49, 50, 112, 136, 137, 138, 139, 200, 201, 202, 203]
}

fn all_default_ies() -> Vec<SmallIE> {
    catalog_codes()
        .into_iter()
        .map(|code| SmallIE::default_for_typecode(code).unwrap())
        .collect()
}

#[test]
fn test_default() {
    for ie in all_default_ies() {
        let mut ie_buf: IEBuf = IEBuf::from_ie(ie);
        let ref_ie: SmallIE = ie_buf.try_to_ie().unwrap();
        assert_eq!(ie, ref_ie);
        ie_buf.store_ie(ie);
        let stored_ie: SmallIE = ie_buf.try_to_ie().unwrap();
        assert_eq!(ie, stored_ie);
        let owned_ie: SmallIE = SmallIE::try_from_buf(ie_buf).unwrap();
        assert_eq!(ie, owned_ie);
    }
}

fn test_bad_iebuf_by_typecode(code: u8) {
    let mut ie_buf = IEBuf([1; 10]);
    ie_buf.0[0] = code;
    let ref_ie: Result<SmallIE, _> = ie_buf.try_to_ie();
    assert!(ref_ie.is_err());
    let owned_ie: Result<SmallIE, _> = SmallIE::try_from_buf(ie_buf);
    assert!(owned_ie.is_err());
    assert!(!ie_buf.is_valid());
}

#[test]
fn test_bad_iebuf() {
    let typecodes: Vec<_> = all_default_ies().iter().map(|ie| ie.typecode()).collect();
    for code in 0..=255 {
        if typecodes.iter().all(|&tc| tc != code) {
            test_bad_iebuf_by_typecode(code);
        }
    }
}

#[test]
fn test_typecodes() {
    for ie in all_default_ies() {
        let first_byte = IEBuf::from_ie(ie).0[0];
        assert_eq!(ie.typecode(), first_byte);
    }
}

#[test]
fn test_defaults() {
    let defaults: Vec<(u8, SmallIE)> =
        all_default_ies().into_iter().map(|ie| (ie.typecode(), ie)).collect();

    for &(code, ie) in &defaults {
        assert_eq!(Some(ie), SmallIE::default_for_typecode(code));
    }

    for code in 0..=255 {
        if !defaults.iter().any(|&(c, _)| c == code) {
            assert_eq!(None, SmallIE::default_for_typecode(code));
        }
    }
}

#[test]
fn change_type() {
    let ie_t1 = SmallIE::default_for_typecode(1).unwrap();
    let mut ie_buf: IEBuf = IEBuf::from_ie(ie_t1);
    ie_buf.0[0] = 3;
    assert_eq!(
        Some(SmallIE::default_for_typecode(3).unwrap()),
        SmallIE::try_from_buf(ie_buf).ok()
    );
    assert_eq!(
        Some(SmallIE::default_for_typecode(3).unwrap()),
        ie_buf.try_to_ie().ok()
    );
}

#[test]
fn sizes_and_alignment() {
    assert_eq!(SmallIE::size_for_typecode(1), 1);
    assert_eq!(SmallIE::size_for_typecode(3), 1);
    assert_eq!(SmallIE::size_for_typecode(11), 3);
    assert_eq!(SmallIE::size_for_typecode(13), 5);
    assert_eq!(SmallIE::size_for_typecode(45), 1);
    assert_eq!(SmallIE::size_for_typecode(49), 3);
    assert_eq!(SmallIE::size_for_typecode(50), 5);
    assert_eq!(SmallIE::size_for_typecode(112), 5);
    assert_eq!(SmallIE::size_for_typecode(136), 5);
    assert_eq!(SmallIE::size_for_typecode(137), 5);
    assert_eq!(SmallIE::size_for_typecode(138), 9);
    assert_eq!(SmallIE::size_for_typecode(139), 9);
    assert_eq!(SmallIE::size_for_typecode(200), 5);
    assert_eq!(SmallIE::size_for_typecode(202), 9);
    assert_eq!(SmallIE::size_for_typecode(0), 0);
    assert_eq!(SmallIE::size_for_typecode(255), 0);
    for code in catalog_codes() {
        assert_eq!(SmallIE::align_for_typecode(code), 1);
    }
    assert_eq!(SmallIE::align_for_typecode(7), 0);
}

#[test]
fn encoding_is_little_endian() {
    // A scaled value of -2 is 0xfffe in two's complement: low byte first,
    // then the quality byte, after the type code byte 11.
    let mut ie = SmallIE::default_for_typecode(11).unwrap();
    if let SmallIE::TI11(ref mut rec) = ie {
        rec.value = -2;
        rec.qds.raw.0 = 0x80;
    } else {
        panic!("expected the scaled measured value variant");
    }
    let buf = IEBuf::from_ie(ie);
    assert_eq!(buf.0, [11, 0xfe, 0xff, 0x80, 0, 0, 0, 0, 0, 0]);

    // A 64-bit unsigned value keeps all eight bytes, low byte first.
    let mut wide = SmallIE::default_for_typecode(138).unwrap();
    if let SmallIE::TI138(ref mut rec) = wide {
        rec.value = 0x0102030405060708;
    } else {
        panic!("expected the 64-bit unsigned variant");
    }
    let buf = IEBuf::from_ie(wide);
    assert_eq!(buf.0, [138, 8, 7, 6, 5, 4, 3, 2, 1, 0]);

    // The float payload is its IEEE-754 bit pattern, little-endian.
    let mut float_ie = SmallIE::default_for_typecode(13).unwrap();
    if let SmallIE::TI13(ref mut rec) = float_ie {
        rec.value = 1.5f32.to_bits();
    } else {
        panic!("expected the short float variant");
    }
    let buf = IEBuf::from_ie(float_ie);
    assert_eq!(&buf.0[..6], &[13, 0x00, 0x00, 0xc0, 0x3f, 0x00]);
}

#[test]
fn terminator_is_all_zero_and_invalid() {
    let t = IEBuf::terminator();
    assert_eq!(t.0, [0; 10]);
    assert!(!t.is_valid());
    assert!(t.try_to_ie().is_err());
}

#[test]
fn copy_to_slice_copies_payload_only() {
    let mut ie = SmallIE::default_for_typecode(11).unwrap();
    if let SmallIE::TI11(ref mut rec) = ie {
        rec.value = 0x0102;
        rec.qds.raw.0 = 0x40;
    }
    assert_eq!(ie.current_size(), 3);
    let mut buf = vec![9u8; 5];
    ie.copy_to_slice(&mut buf).unwrap();
    assert_eq!(buf, vec![0x02, 0x01, 0x40, 9, 9]);

    let mut small = vec![0u8; 2];
    assert!(ie.copy_to_slice(&mut small).is_err());
    assert_eq!(small, vec![0, 0]);
}

#[test]
fn quality_byte_access_on_union() {
    let mut ie = SmallIE::default_for_typecode(13).unwrap();
    assert_eq!(ie.try_get_qds().map(|q| q.0), Some(0));
    assert!(ie.try_set_qds(micrortu_sdk::RawQualityDescriptor(0x80)));
    assert_eq!(ie.try_get_qds().map(|q| q.0), Some(0x80));

    let mut cmd = SmallIE::default_for_typecode(45).unwrap();
    assert!(cmd.try_get_qds().is_none());
    assert!(!cmd.try_set_qds(micrortu_sdk::RawQualityDescriptor(0x80)));
    assert_eq!(cmd, SmallIE::default_for_typecode(45).unwrap());
}
