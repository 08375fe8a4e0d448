use std::cmp::Ordering;

use micrortu_sdk::{
    QualifierOfCommand, QualityDescriptor, RawQualifierOfCommand, RawQualityDescriptor, DCO,
    QDS, QOS, QPM, QU, SCO, SIQ,
};

#[test]
fn quality_ordering_ignores_value_bits() {
    // Same quality nibble, different value-carrying low bits: equal.
    let a = RawQualityDescriptor(0x31);
    let b = RawQualityDescriptor(0x30);
    assert_eq!(a.partial_cmp(&b), Some(Ordering::Equal));
    assert_ne!(a, b);

    // A byte with strictly more quality flags sorts as lesser (worse).
    let worse = RawQualityDescriptor(0xc0);
    let better = RawQualityDescriptor(0x40);
    assert_eq!(worse.partial_cmp(&better), Some(Ordering::Less));
    assert_eq!(better.partial_cmp(&worse), Some(Ordering::Greater));
    assert!(worse < better);
}

#[test]
fn qoc_ordering_ignores_command_state() {
    let a = RawQualifierOfCommand(0x81);
    let b = RawQualifierOfCommand(0x80);
    assert_eq!(a.partial_cmp(&b), Some(Ordering::Equal));
    let more = RawQualifierOfCommand(0xc0);
    assert_eq!(more.partial_cmp(&RawQualifierOfCommand(0x80)), Some(Ordering::Less));
}

#[test]
fn quality_flags_and_badness() {
    let mut q = QDS { raw: RawQualityDescriptor(0) };
    assert!(q.is_good());
    q.set_bl(true);
    assert!(q.bl());
    assert!(q.is_bad());
    assert_eq!(q.raw.0, 0x10);
    q.set_bl(false);
    q.set_sb(true);
    assert_eq!(q.raw.0, 0x20);
    q.set_sb(false);
    q.set_nt(true);
    assert_eq!(q.raw.0, 0x40);
    q.set_nt(false);
    q.set_iv(true);
    assert_eq!(q.raw.0, 0x80);
}

#[test]
fn overflow_bit_is_a_capability() {
    // The measured-value quality descriptor has the overflow bit.
    let mut q = QDS { raw: RawQualityDescriptor(0) };
    q.set_ov(true);
    assert!(q.ov());
    assert!(q.is_bad());
    assert_eq!(q.raw.0, 0x01);

    // The single-point quality byte has none: bit 0 is the point state,
    // setting the overflow flag is ignored and reading it gives false.
    let mut s = SIQ { raw: RawQualityDescriptor(0) };
    s.set_ov(true);
    assert!(!s.ov());
    assert_eq!(s.raw.0, 0x00);
    s.set_spi(true);
    assert!(!s.ov());
    assert!(s.is_good());
}

#[test]
fn quality_copy_respects_capabilities() {
    let mut src = QDS { raw: RawQualityDescriptor(0) };
    src.set_ov(true);
    src.set_iv(true);
    // Copying into a holder without the overflow bit drops that flag but
    // carries the others.
    let mut dst = SIQ { raw: RawQualityDescriptor(0x01) };
    micrortu_sdk::qds::update_quality_from(&mut dst, &src);
    assert!(dst.iv());
    assert!(!dst.ov());
    // The point state in bit 0 is untouched.
    assert!(dst.spi());
}

#[test]
fn mutable_quality_views() {
    let mut sp = micrortu_sdk::M_SP_NA_1::from(false);
    sp.get_qds_mut().set_iv(true);
    assert!(sp.get_qds().iv());
    assert!(sp.value.raw.0 == 0x80);

    let mut dp = micrortu_sdk::M_DP_NA_1::try_from_u8(1).unwrap();
    dp.get_qds_mut().set_nt(true);
    assert!(dp.get_qds().nt());
    assert_eq!(dp.value.raw.0, 0x41);
}

#[test]
fn command_qualifier_fields() {
    let mut sco = SCO(0);
    sco.set_se(true);
    sco.set_qu(2);
    sco.set_scs(true);
    assert_eq!(sco.0, 0x89);
    assert!(sco.se());
    assert_eq!(sco.qu(), 2);
    assert!(sco.scs());

    let mut qos = QOS(0);
    qos.set_qu(0x7f);
    assert_eq!(qos.0, 0x7f);
    assert!(!qos.se());
    qos.set_se(true);
    assert_eq!(qos.qu(), 0x7f);
    assert_eq!(qos.0, 0xff);
}

#[test]
fn qoc_reserved_values_round_trip() {
    let mut dco = DCO { raw: RawQualifierOfCommand(0) };
    dco.set_qu(QU::Reserved(17));
    assert_eq!(dco.qu(), QU::Reserved(17));
    dco.set_qu(QU::LongPulse);
    assert_eq!(dco.qu(), QU::LongPulse);
    assert!(!dco.se());
    dco.set_se(true);
    assert!(dco.se());
    assert_eq!(dco.qu(), QU::LongPulse);
}

#[test]
fn parameter_qualifier_fields() {
    let mut qpm = QPM(0);
    qpm.set_pop(true);
    qpm.set_lpc(true);
    qpm.set_kpa(2);
    assert_eq!(qpm.0, 0xc2);
    assert!(qpm.pop());
    assert!(qpm.lpc());
    assert_eq!(qpm.kpa(), 2);
}
