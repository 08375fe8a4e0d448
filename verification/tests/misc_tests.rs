use std::str::FromStr;

use micrortu_sdk::metadata::{Direction as MetaDirection, IEType, Port};
use micrortu_sdk::{
    BindingDefinition, Direction, C_DC_NA_1, C_SC_NA_1, CA, DCS, DPI, IOA, KPA, M_SP_NA_1,
    RawQualifierOfCommand, DCO, QOI, REQUIRED,
};

#[test]
fn addresses_parse_from_text() {
    assert_eq!(CA::from_str("1.2").unwrap(), CA(1, 2));
    assert_eq!(CA::from_str("255.255").unwrap(), CA(255, 255));
    assert!(CA::from_str("1.2.3").is_err());
    assert!(CA::from_str("300.1").is_err());
    assert!(CA::from_str("1.").is_err());
    assert!(CA::from_str(".1").is_err());
    assert!(CA::from_str("").is_err());
    assert!(CA::from_str("1,2").is_err());

    assert_eq!(IOA::from_str("1.2.3").unwrap(), IOA(1, 2, 3));
    assert!(IOA::from_str("1.2").is_err());
}

#[test]
fn address_arithmetic() {
    let a = IOA(1, 2, 3);
    assert_eq!(a.as_unstructured(), 0x010203);
    assert_eq!(IOA::from_unstructured(0x010203), a);
    assert_eq!(IOA(0, 0, 255).inc(), IOA(0, 1, 0));
    assert_eq!(IOA(0, 0, 1).inc(), IOA(0, 0, 2));

    assert!(CA(255, 255).is_broadcast());
    assert!(!CA(255, 0).is_broadcast());
    assert!(CA(7, 7).matches(CA(255, 255)));
    assert!(CA(7, 7).matches(CA(7, 7)));
    assert!(!CA(7, 7).matches(CA(7, 8)));
}

#[test]
fn binding_names_resolve() {
    let table = b"flowtemp";
    let def = BindingDefinition {
        name_offset: 4,
        name_len: 4,
        flags: REQUIRED,
        typ: 13,
        min_size: 1,
        max_size: Some(1),
        direction: Direction::new_in(),
    };
    assert_eq!(def.name(table).as_deref(), Some("temp"));

    let native = def.into_native(table).unwrap();
    assert_eq!(native.name, "temp");
    assert_eq!(native.typ, 13);

    // Out of bounds.
    let short = BindingDefinition { name_offset: 7, name_len: 4, ..def };
    assert!(short.name(table).is_none());
    assert!(short.into_native(table).is_none());

    // Bytes that are not UTF-8.
    let bad = BindingDefinition { name_offset: 0, name_len: 2, ..def };
    assert!(bad.name(&[0xff, 0xfe]).is_none());
}

#[test]
fn metadata_ports_from_bindings() {
    let def = BindingDefinition {
        name_offset: 0,
        name_len: 4,
        flags: REQUIRED,
        typ: 13,
        min_size: 1,
        max_size: Some(4),
        direction: Direction::new_in_out(),
    };
    let native = def.into_native(b"temp").unwrap();
    let port = Port::try_from_native(native).unwrap();
    assert_eq!(port.name, "temp");
    assert_eq!(port.typ, IEType::TI13);
    assert!(matches!(port.direction, MetaDirection::InOut));
    assert!(port.required);
    assert_eq!(port.min, 1);
    assert_eq!(port.max, Some(4));

    // A type code the metadata set does not name.
    let unknown = BindingDefinition { typ: 11, ..def };
    assert!(Port::try_from_native(unknown.into_native(b"temp").unwrap()).is_err());

    assert_eq!(IEType::try_from_u8(139).unwrap(), IEType::TI139);
    assert_eq!(IEType::TI139.to_u8(), 139);
    assert!(IEType::try_from_u8(200).is_err());
}

#[test]
fn double_command_states() {
    let mut cmd = C_DC_NA_1 { dco: DCO { raw: RawQualifierOfCommand(0) } };
    cmd.dco.set_dcs(DCS::On);
    assert_eq!(cmd.try_to_bool().unwrap(), true);
    cmd.dco.set_dcs(DCS::Off);
    assert_eq!(cmd.try_to_bool().unwrap(), false);
    cmd.dco.set_dcs(DCS::NotPermitted1);
    assert!(cmd.try_to_bool().is_err());
    cmd.dco.set_dcs(DCS::NotPermitted2);
    assert!(cmd.try_to_bool().is_err());
}

#[test]
fn plus_signs_and_blanks_are_rejected() {
    assert!(CA::from_str("+1.2").is_err());
    assert!(CA::from_str("1. 2").is_err());
    assert!(CA::from_str("01.2").is_ok());
}

#[test]
fn boolean_constructors() {
    assert_eq!(DPI::from(true), DPI::On);
    assert_eq!(DPI::from(false), DPI::Off);

    let on = C_SC_NA_1::from(true);
    assert!(on.to_bool());
    assert_eq!(on.value.0, 1);
    let off = C_SC_NA_1::from(false);
    assert!(!off.to_bool());
    assert_eq!(off.value.0, 0);

    let sp = M_SP_NA_1::from(true);
    assert!(sp.value.spi());
    assert_eq!(sp.value.raw.0, 1);
}

#[test]
fn enumeration_wire_values() {
    assert_eq!(QOI::try_from_u8(20), Some(QOI::StationInterrogation));
    assert_eq!(QOI::try_from_u8(36), Some(QOI::Group16));
    assert_eq!(QOI::try_from_u8(19), None);
    assert_eq!(QOI::try_from_u8(37), None);
    assert_eq!(QOI::Group3.to_u8(), 23);

    assert_eq!(KPA::try_from_u8(1), Some(KPA::ThresholdValue));
    assert_eq!(KPA::try_from_u8(5), None);
    assert_eq!(KPA::HighLimitForTx.to_u8(), 4);

    assert_eq!(DPI::try_from_u8(3), Some(DPI::Indeterminate2));
    assert_eq!(DPI::try_from_u8(4), None);
    assert_eq!(DCS::try_from_u8(2), Some(DCS::On));
    assert_eq!(DCS::try_from_u8(4), None);
}

#[test]
fn unwrap_helper() {
    assert_eq!(micrortu_sdk::wasm_unwrap(Some(7u32)), 7);
    micrortu_sdk::init_logger();
}
