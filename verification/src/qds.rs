//! Status quality descriptors: a bit-packed byte with named flags
//! (overflow, blocked, substituted, not-topical, invalid), shared by the
//! measurement-style information elements.
//!
//! The overflow bit is a per-type capability: holders without it report
//! `ov() == false` and ignore `set_ov`. Ordering between two quality bytes
//! compares only the quality nibble (bits 4..=7), descending, so that worse
//! quality sorts first; the value-carrying low bits are ignored.

use vstd::prelude::*;

use crate::bitops::{bit_get, bit_set, bits_get, bits_set, get_bit, get_bits, set_bit, set_bits};
use core::cmp::Ordering;
use vstd::std_specs::cmp::PartialOrdSpec;

verus! {

/// The raw packed quality byte.
#[derive(Debug, Clone, Copy, Eq)]
pub struct RawQualityDescriptor(pub u8);

/// True when any quality flag of `raw` is set: overflow (bit 0, only where
/// the holder has it), blocked (bit 4), substituted (bit 5), not-topical
/// (bit 6) or invalid (bit 7).
pub open spec fn quality_is_bad(raw: u8, has_ov: bool) -> bool {
    ||| (has_ov && bit_get(raw, 0))
    ||| bit_get(raw, 4)
    ||| bit_get(raw, 5)
    ||| bit_get(raw, 6)
    ||| bit_get(raw, 7)
}

/// The quality nibble of a quality byte: bits 4..=7.
pub open spec fn quality_nibble(b: u8) -> u8 {
    b & 0xf0
}

/// The deliberate partial order on quality bytes: only the quality nibble
/// is compared, and the comparison is reversed, so a byte with more quality
/// flags set is smaller (worse).
pub open spec fn quality_order(a: u8, b: u8) -> Ordering {
    if quality_nibble(a) == quality_nibble(b) {
        Ordering::Equal
    } else if quality_nibble(a) < quality_nibble(b) {
        Ordering::Greater
    } else {
        Ordering::Less
    }
}

impl PartialEq for RawQualityDescriptor {
    fn eq(&self, other: &Self) -> (r: bool) {
        self.0 == other.0
    }
}

impl vstd::std_specs::cmp::PartialEqSpecImpl for RawQualityDescriptor {
    open spec fn obeys_eq_spec() -> bool {
        true
    }

    open spec fn eq_spec(&self, other: &Self) -> bool {
        self.0 == other.0
    }
}

impl PartialOrd for RawQualityDescriptor {
    fn partial_cmp(&self, other: &Self) -> (r: Option<Ordering>) {
        let a: u8 = self.0 & 0xf0;
        let b: u8 = other.0 & 0xf0;
        if a == b {
            Some(Ordering::Equal)
        } else if a < b {
            Some(Ordering::Greater)
        } else {
            Some(Ordering::Less)
        }
    }
}

impl vstd::std_specs::cmp::PartialOrdSpecImpl for RawQualityDescriptor {
    open spec fn obeys_partial_cmp_spec() -> bool {
        true
    }

    open spec fn partial_cmp_spec(&self, other: &Self) -> Option<Ordering> {
        Some(quality_order(self.0, other.0))
    }
}

impl Default for RawQualityDescriptor {
    fn default() -> (r: Self)
        ensures
            r.0 == 0,
    {
        RawQualityDescriptor(0)
    }
}

impl RawQualityDescriptor {
    /// Reads bit `k` of the raw byte.
    pub fn bit(&self, k: u8) -> (r: bool)
        requires
            k < 8,
        ensures
            r == bit_get(self.0, k),
    {
        get_bit(self.0, k)
    }

    /// Sets bit `k` of the raw byte to `v`.
    pub fn set_bit(&mut self, k: u8, v: bool)
        requires
            k < 8,
        ensures
            final(self).0 == bit_set(old(self).0, k, v),
    {
        self.0 = set_bit(self.0, k, v);
    }

    /// Reads the bit range `high..=low` of the raw byte, shifted down.
    pub fn bit_range(&self, high: u8, low: u8) -> (r: u8)
        requires
            low <= high < 8,
        ensures
            r == bits_get(self.0, low, (high - low + 1) as u8),
    {
        get_bits(self.0, low, high - low + 1)
    }

    /// Replaces the bit range `high..=low` of the raw byte with the low bits
    /// of `value`, leaving all other bits unchanged.
    pub fn set_bit_range(&mut self, high: u8, low: u8, value: u8)
        requires
            low <= high < 8,
        ensures
            final(self).0 == bits_set(old(self).0, low, (high - low + 1) as u8, value),
    {
        self.0 = set_bits(self.0, low, high - low + 1, value);
    }
}

impl From<u8> for RawQualityDescriptor {
    fn from(value: u8) -> (r: Self) {
        RawQualityDescriptor(value)
    }
}

impl vstd::std_specs::convert::FromSpecImpl<u8> for RawQualityDescriptor {
    open spec fn obeys_from_spec() -> bool {
        true
    }

    open spec fn from_spec(value: u8) -> Self {
        RawQualityDescriptor(value)
    }
}

/// Access to the packed quality byte of a type that carries one, together
/// with the per-type capability flag that says whether the overflow bit
/// exists for that type.
pub trait QualityDescriptorHolder: Sized {
    /// The packed quality byte, as seen by specifications.
    spec fn spec_raw(&self) -> u8;

    /// Whether this type has the overflow bit.
    spec fn spec_has_ov() -> bool;

    /// Returns the packed quality byte.
    fn qds_raw(&self) -> (r: RawQualityDescriptor)
        ensures
            r.0 == self.spec_raw(),
    ;

    /// Replaces the packed quality byte.
    fn set_qds_raw(&mut self, q: RawQualityDescriptor)
        ensures
            final(self).spec_raw() == q.0,
    ;

    /// Returns the per-type overflow capability.
    fn has_ov(&self) -> (r: bool)
        ensures
            r == Self::spec_has_ov(),
    ;
}

/// Named accessors for the individual quality flags, derived from the
/// holder's packed byte. Types without the overflow bit report
/// `ov() == false` and silently ignore `set_ov`.
pub trait QualityDescriptor: QualityDescriptorHolder {
    /// The overflow flag, or `false` where the type has no overflow bit.
    fn ov(&self) -> (r: bool)
        ensures
            r == (Self::spec_has_ov() && bit_get(self.spec_raw(), 0)),
    ;

    /// Sets the overflow flag where the type has one; otherwise no effect.
    fn set_ov(&mut self, v: bool)
        ensures
            final(self).spec_raw() == if Self::spec_has_ov() {
                bit_set(old(self).spec_raw(), 0, v)
            } else {
                old(self).spec_raw()
            },
    ;

    /// The blocked flag (bit 4).
    fn bl(&self) -> (r: bool)
        ensures
            r == bit_get(self.spec_raw(), 4),
    ;

    /// Sets the blocked flag (bit 4).
    fn set_bl(&mut self, v: bool)
        ensures
            final(self).spec_raw() == bit_set(old(self).spec_raw(), 4, v),
    ;

    /// The substituted flag (bit 5).
    fn sb(&self) -> (r: bool)
        ensures
            r == bit_get(self.spec_raw(), 5),
    ;

    /// Sets the substituted flag (bit 5).
    fn set_sb(&mut self, v: bool)
        ensures
            final(self).spec_raw() == bit_set(old(self).spec_raw(), 5, v),
    ;

    /// The not-topical flag (bit 6).
    fn nt(&self) -> (r: bool)
        ensures
            r == bit_get(self.spec_raw(), 6),
    ;

    /// Sets the not-topical flag (bit 6).
    fn set_nt(&mut self, v: bool)
        ensures
            final(self).spec_raw() == bit_set(old(self).spec_raw(), 6, v),
    ;

    /// The invalid flag (bit 7).
    fn iv(&self) -> (r: bool)
        ensures
            r == bit_get(self.spec_raw(), 7),
    ;

    /// Sets the invalid flag (bit 7).
    fn set_iv(&mut self, v: bool)
        ensures
            final(self).spec_raw() == bit_set(old(self).spec_raw(), 7, v),
    ;

    /// True when any quality flag is set.
    fn is_bad(&self) -> (r: bool)
        ensures
            r == quality_is_bad(self.spec_raw(), Self::spec_has_ov()),
    ;

    /// True when no quality flag is set.
    fn is_good(&self) -> (r: bool)
        ensures
            r == !quality_is_bad(self.spec_raw(), Self::spec_has_ov()),
    ;
}

impl<T: QualityDescriptorHolder> QualityDescriptor for T {
    fn ov(&self) -> (r: bool) {
        if self.has_ov() {
            self.qds_raw().bit(0)
        } else {
            false
        }
    }

    fn set_ov(&mut self, v: bool) {
        if self.has_ov() {
            let mut raw = self.qds_raw();
            raw.set_bit(0, v);
            self.set_qds_raw(raw);
        }
    }

    fn bl(&self) -> (r: bool) {
        self.qds_raw().bit(4)
    }

    fn set_bl(&mut self, v: bool) {
        let mut raw = self.qds_raw();
        raw.set_bit(4, v);
        self.set_qds_raw(raw);
    }

    fn sb(&self) -> (r: bool) {
        self.qds_raw().bit(5)
    }

    fn set_sb(&mut self, v: bool) {
        let mut raw = self.qds_raw();
        raw.set_bit(5, v);
        self.set_qds_raw(raw);
    }

    fn nt(&self) -> (r: bool) {
        self.qds_raw().bit(6)
    }

    fn set_nt(&mut self, v: bool) {
        let mut raw = self.qds_raw();
        raw.set_bit(6, v);
        self.set_qds_raw(raw);
    }

    fn iv(&self) -> (r: bool) {
        self.qds_raw().bit(7)
    }

    fn set_iv(&mut self, v: bool) {
        let mut raw = self.qds_raw();
        raw.set_bit(7, v);
        self.set_qds_raw(raw);
    }

    fn is_bad(&self) -> (r: bool) {
        self.ov() || self.bl() || self.sb() || self.nt() || self.iv()
    }

    fn is_good(&self) -> (r: bool) {
        !self.is_bad()
    }
}

impl QualityDescriptorHolder for RawQualityDescriptor {
    open spec fn spec_raw(&self) -> u8 {
        self.0
    }

    open spec fn spec_has_ov() -> bool {
        false
    }

    fn qds_raw(&self) -> (r: RawQualityDescriptor) {
        *self
    }

    fn set_qds_raw(&mut self, q: RawQualityDescriptor) {
        *self = q;
    }

    fn has_ov(&self) -> (r: bool) {
        false
    }
}

/// The quality byte that results from copying the five named flags of
/// `src` onto `dst`: bits 4..=7 are taken from `src`, the overflow bit is
/// taken from `src` only where the destination type has one (a source
/// without it hands over `false`), and all other bits of `dst` stay.
pub open spec fn quality_copied(dst: u8, dst_has_ov: bool, src: u8, src_has_ov: bool) -> u8 {
    let b0 = if dst_has_ov {
        bit_set(dst, 0, src_has_ov && bit_get(src, 0))
    } else {
        dst
    };
    bit_set(
        bit_set(bit_set(bit_set(b0, 4, bit_get(src, 4)), 5, bit_get(src, 5)), 6, bit_get(src, 6)),
        7,
        bit_get(src, 7),
    )
}

/// Copies the five named quality flags from `src` to `dst`, one by one, so
/// that the overflow capability of each side is respected.
pub fn update_quality_from<D: QualityDescriptor, S: QualityDescriptor>(dst: &mut D, src: &S)
    ensures
        final(dst).spec_raw() == quality_copied(
            old(dst).spec_raw(),
            D::spec_has_ov(),
            src.spec_raw(),
            S::spec_has_ov(),
        ),
{
    let ov = src.ov();
    let bl = src.bl();
    let sb = src.sb();
    let nt = src.nt();
    let iv = src.iv();
    dst.set_ov(ov);
    dst.set_bl(bl);
    dst.set_sb(sb);
    dst.set_nt(nt);
    dst.set_iv(iv);
}

/// Quality bytes whose quality nibbles agree compare as equal, whatever
/// their value-carrying low bits hold.
pub proof fn lemma_quality_order_ignores_value_bits(a: RawQualityDescriptor, b: RawQualityDescriptor)
    requires
        a.0 & 0xf0 == b.0 & 0xf0,
    ensures
        a.partial_cmp_spec(&b) == Some(Ordering::Equal),
{
}

/// Of two quality bytes where the first carries every quality flag of the
/// second and at least one more, the first sorts as lesser (worse).
pub proof fn lemma_quality_order_more_flags_sorts_lesser(
    a: RawQualityDescriptor,
    b: RawQualityDescriptor,
)
    requires
        (a.0 & 0xf0) | (b.0 & 0xf0) == a.0 & 0xf0,
        a.0 & 0xf0 != b.0 & 0xf0,
    ensures
        a.partial_cmp_spec(&b) == Some(Ordering::Less),
{
    let x = a.0;
    let y = b.0;
    assert((y & 0xf0) < (x & 0xf0)) by (bit_vector)
        requires
            (x & 0xf0) | (y & 0xf0) == x & 0xf0,
            x & 0xf0 != y & 0xf0,
    ;
}

} // verus!
