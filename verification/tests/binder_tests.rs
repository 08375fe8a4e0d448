use micrortu_sdk::{
    parse_port, BindingDefinition, Direction, DirtyFlags, IEBuf, ParseError, ParsedBindings,
    Shared, SmallIE, REQUIRED,
};

fn def(typ: u8, direction: Direction, min: u8, max: Option<u8>, required: bool) -> BindingDefinition {
    BindingDefinition {
        name_offset: 0,
        flags: if required { REQUIRED } else { 0 },
        typ,
        min_size: min,
        max_size: max,
        direction,
        name_len: 0,
    }
}

/// A buffer holding a header table followed by the given payload bytes.
fn buffer(header: &[u8], payload: &[u8]) -> Vec<u8> {
    let mut v = header.to_vec();
    v.extend_from_slice(payload);
    v
}

#[test]
fn binder_bounds() {
    // One field of single-point elements (1 byte each), min 2, max 4.
    let defs = [def(1, Direction::new_in(), 2, Some(4), true)];

    let one = buffer(&[0, 1], &[0; 1]);
    assert_eq!(
        ParsedBindings::parse_fallible(&defs, &one).unwrap_err(),
        ParseError::NotEnoughData
    );

    let five = buffer(&[0, 5], &[0; 5]);
    assert_eq!(
        ParsedBindings::parse_fallible(&defs, &five).unwrap_err(),
        ParseError::TooMuchData
    );

    for n in 2..=4u8 {
        let ok = buffer(&[0, n], &vec![0; n as usize]);
        let parsed = ParsedBindings::parse_fallible(&defs, &ok).unwrap();
        assert_eq!(parsed.fields.len(), 1);
        assert!(parsed.fields[0].present);
        assert_eq!(parsed.fields[0].count, n as usize);
    }

    // An optional field with min 1 and no supplied elements parses as an
    // absent view, not an error.
    let optional = [def(1, Direction::new_in(), 1, Some(4), false)];
    let empty = buffer(&[0, 0], &[]);
    let parsed = ParsedBindings::parse_fallible(&optional, &empty).unwrap();
    assert_eq!(parsed.fields.len(), 1);
    assert!(!parsed.fields[0].present);
    assert_eq!(parsed.fields[0].count, 0);
}

#[test]
fn binder_header_errors() {
    let defs = [
        def(1, Direction::new_in(), 1, Some(1), true),
        def(1, Direction::new_in(), 1, Some(1), true),
    ];
    // Too short to hold the two header entries.
    assert_eq!(
        ParsedBindings::parse_fallible(&defs, &[0, 1, 0]).unwrap_err(),
        ParseError::BadHeader
    );
    // Header claims more payload than the buffer holds.
    let overrun = buffer(&[0, 200, 0, 1], &[0; 3]);
    assert_eq!(
        ParsedBindings::parse_fallible(&defs, &overrun).unwrap_err(),
        ParseError::BadHeader
    );
}

#[test]
fn binder_invalid_data() {
    // A definition whose type code is outside the catalog.
    let unknown = [def(7, Direction::new_in(), 1, Some(1), true)];
    let source = buffer(&[0, 1], &[0; 1]);
    assert_eq!(
        ParsedBindings::parse_fallible(&unknown, &source).unwrap_err(),
        ParseError::InvalidData
    );

    // A payload length that is not a whole number of elements (the short
    // float elements are 5 bytes).
    let floats = [def(13, Direction::new_in(), 1, None, true)];
    let ragged = buffer(&[0, 7], &[0; 7]);
    assert_eq!(
        ParsedBindings::parse_fallible(&floats, &ragged).unwrap_err(),
        ParseError::InvalidData
    );
}

#[test]
fn binder_singular_cardinality() {
    let defs = [def(1, Direction::new_in(), 1, Some(1), true)];
    let two = buffer(&[0, 2], &[0; 2]);
    assert_eq!(
        ParsedBindings::parse_fallible(&defs, &two).unwrap_err(),
        ParseError::MultiplePointsForSingular
    );
}

#[test]
fn binder_pad_bytes_are_skipped() {
    // Three pad bytes before a single-point element of value 1.
    let defs = [def(1, Direction::new_in(), 1, Some(1), true)];
    let source = buffer(&[3, 1], &[9, 9, 9, 1]);
    let parsed = ParsedBindings::parse_fallible(&defs, &source).unwrap();
    assert_eq!(parsed.fields[0].offset, 5);
    let ie = parsed.read_ie(&source, 0, 0);
    assert_eq!(ie.try_to_bool().ok(), Some(true));
}

#[test]
fn dirty_propagation() {
    // One writable field of three single-point elements, then another
    // writable field of two: five dirty bits in all.
    let defs = [
        def(1, Direction::new_out(), 3, Some(3), true),
        def(1, Direction::new_out(), 2, Some(2), true),
    ];
    let mut source = buffer(&[0, 3, 0, 2], &[0; 5]);
    let parsed = ParsedBindings::parse_fallible(&defs, &source).unwrap();
    assert_eq!(parsed.dirty_len, 5);
    assert_eq!(parsed.fields[0].dirty_offset, 0);
    assert_eq!(parsed.fields[1].dirty_offset, 3);

    let mut dirty = DirtyFlags::new_for(parsed.dirty_len);
    let on = {
        let mut ie = SmallIE::default_for_typecode(1).unwrap();
        ie.try_update_from_int(1).unwrap();
        ie
    };
    parsed.write_ie(&mut source, &mut dirty, 0, 1, on);

    // Exactly bit 1 of the first field's slice is set; every other bit,
    // including the second field's slice, is unchanged.
    assert!(!dirty.get(0));
    assert!(dirty.get(1));
    assert!(!dirty.get(2));
    assert!(!dirty.get(3));
    assert!(!dirty.get(4));

    // Only the written element's byte changed.
    assert_eq!(&source[4..9], &[0, 1, 0, 0, 0]);
}

#[test]
fn end_to_end_floating_fields() {
    // Two short-float fields: `a` readable, `b` writable, both singular.
    // The header-declared byte counts, not a terminator search, determine
    // the field boundaries.
    let defs = [
        def(13, Direction::new_in(), 1, Some(1), true),
        def(13, Direction::new_out(), 1, Some(1), true),
    ];
    let mut payload = Vec::new();
    payload.extend_from_slice(&1.5f32.to_bits().to_le_bytes());
    payload.push(0); // quality of `a`
    payload.extend_from_slice(&[0; 5]); // zeroed `b`
    let mut source = buffer(&[0, 5, 0, 5], &payload);

    let parsed = ParsedBindings::parse_fallible(&defs, &source).unwrap();
    assert_eq!(parsed.fields.len(), 2);
    assert_eq!(parsed.dirty_len, 1);

    // Reading `a` yields the stored float bits.
    let a = parsed.read_ie(&source, 0, 0);
    match a {
        SmallIE::TI13(rec) => assert_eq!(f32::from_bits(rec.value), 1.5),
        _ => panic!("expected the short float variant"),
    }

    // Writing `b` updates its bytes in place and sets its dirty bit.
    let mut dirty = DirtyFlags::new_for(parsed.dirty_len);
    let mut b = SmallIE::default_for_typecode(13).unwrap();
    if let SmallIE::TI13(ref mut rec) = b {
        rec.value = 2.5f32.to_bits();
    }
    parsed.write_ie(&mut source, &mut dirty, 1, 0, b);
    assert!(dirty.get(0));
    assert_eq!(&source[9..13], &2.5f32.to_bits().to_le_bytes());
    // `a`'s bytes are untouched.
    assert_eq!(&source[4..8], &1.5f32.to_bits().to_le_bytes());
}

#[test]
fn terminator_scan() {
    let valid = IEBuf::from_ie(SmallIE::default_for_typecode(1).unwrap());
    let term = IEBuf::terminator();

    assert_eq!(parse_port(&[valid, valid, term], false, 1, None), Ok(2));
    assert_eq!(parse_port(&[term], true, 1, None), Ok(0));
    assert_eq!(
        parse_port(&[term], false, 1, None),
        Err(ParseError::NotEnoughData)
    );
    assert_eq!(
        parse_port(&[valid, valid, term], false, 3, None),
        Err(ParseError::NotEnoughData)
    );
    assert_eq!(
        parse_port(&[valid, valid, term], false, 1, Some(1)),
        Err(ParseError::TooMuchData)
    );
    // No terminator before the end of the list.
    assert_eq!(
        parse_port(&[valid, valid], false, 1, None),
        Err(ParseError::NotTerminated)
    );
    // An empty list needs no terminator.
    assert_eq!(parse_port(&[], true, 1, None), Ok(0));
}

#[test]
fn assert_shared_default_zeroed() {
    let a = Shared::new();
    let b = Shared::default();
    assert_eq!(a.latched_params, b.latched_params);
    assert_eq!(a.latched_ports, b.latched_ports);
    assert_eq!(a.latched_params, vec![0u8; 512]);
    assert_eq!(a.latched_ports, vec![0u8; 512]);
}
