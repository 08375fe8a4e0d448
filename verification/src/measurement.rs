//! The measurement-side information elements of the catalog: single-point
//! and double-point status, scaled and short-floating measured values, and
//! the wide integer measured values, each a fixed-layout record of a scalar
//! payload followed by a packed quality byte.
//!
//! Short floating point payloads are carried as their IEEE-754 bit
//! patterns (`u32`), so the records stay plain data; interpreting the bits
//! as a number is left to the caller at the boundary.

#![allow(non_camel_case_types)]

use vstd::prelude::*;

use crate::bitops::{bit_get, bit_set, bits_get, bits_set, get_bit, set_bit};
use crate::qds::{QualityDescriptorHolder, RawQualityDescriptor};

verus! {

/// Single-point information quality byte: the point state in bit 0 and the
/// quality flags above it. No overflow bit.
#[derive(Debug, Clone, Copy, PartialEq, Eq)]
pub struct SIQ {
    pub raw: RawQualityDescriptor,
}

/// Double-point information quality byte: the point state in bits 0..=1
/// and the quality flags above it. No overflow bit.
#[derive(Debug, Clone, Copy, PartialEq, Eq)]
pub struct DIQ {
    pub raw: RawQualityDescriptor,
}

/// Quality descriptor byte of the measured-value elements, with the
/// overflow bit in bit 0.
#[derive(Debug, Clone, Copy, PartialEq, Eq)]
pub struct QDS {
    pub raw: RawQualityDescriptor,
}

/// Double-point state: a 2-bit enumeration where both all-zeros and
/// all-ones are indeterminate.
#[derive(Debug, Clone, Copy, PartialEq, Eq)]
pub enum DPI {
    Indeterminate1,
    Off,
    On,
    Indeterminate2,
}

/// TI1, `M_SP_NA_1`, single-point information without time tag.
#[derive(Debug, Clone, Copy, PartialEq, Eq)]
pub struct M_SP_NA_1 {
    pub value: SIQ,
}

/// TI3, `M_DP_NA_1`, double-point information without time tag.
#[derive(Debug, Clone, Copy, PartialEq, Eq)]
pub struct M_DP_NA_1 {
    pub value: DIQ,
}

/// TI11, `M_ME_NB_1`, measured value, scaled value.
#[derive(Debug, Clone, Copy, PartialEq, Eq)]
pub struct M_ME_NB_1 {
    pub value: i16,
    pub qds: QDS,
}

/// TI13, `M_ME_NE_1`, measured value, short floating point number, carried
/// as its IEEE-754 bit pattern.
#[derive(Debug, Clone, Copy, PartialEq, Eq)]
pub struct M_ME_NE_1 {
    pub value: u32,
    pub qds: QDS,
}

/// TI136, measured value, 32-bit unsigned integer.
#[derive(Debug, Clone, Copy, PartialEq, Eq)]
pub struct TI136 {
    pub value: u32,
    pub qds: QDS,
}

/// TI137, measured value, 32-bit signed integer.
#[derive(Debug, Clone, Copy, PartialEq, Eq)]
pub struct TI137 {
    pub value: i32,
    pub qds: QDS,
}

/// TI138, measured value, 64-bit unsigned integer.
#[derive(Debug, Clone, Copy, PartialEq, Eq)]
pub struct TI138 {
    pub value: u64,
    pub qds: QDS,
}

/// TI139, measured value, 64-bit signed integer.
#[derive(Debug, Clone, Copy, PartialEq, Eq)]
pub struct TI139 {
    pub value: i64,
    pub qds: QDS,
}

/// The 2-bit field value of a double-point state.
pub open spec fn dpi_bits(d: DPI) -> u8 {
    match d {
        DPI::Indeterminate1 => 0,
        DPI::Off => 1,
        DPI::On => 2,
        DPI::Indeterminate2 => 3,
    }
}

/// The double-point state named by a 2-bit field value.
pub open spec fn dpi_of_bits(v: u8) -> DPI
    recommends
        v < 4,
{
    if v == 0 {
        DPI::Indeterminate1
    } else if v == 1 {
        DPI::Off
    } else if v == 2 {
        DPI::On
    } else {
        DPI::Indeterminate2
    }
}

impl DPI {
    /// The 2-bit field value of this state.
    pub fn to_u8(self) -> (r: u8)
        ensures
            r == dpi_bits(self),
    {
        match self {
            DPI::Indeterminate1 => 0,
            DPI::Off => 1,
            DPI::On => 2,
            DPI::Indeterminate2 => 3,
        }
    }

    /// The state named by a 2-bit field value; `None` above 3.
    pub fn try_from_u8(v: u8) -> (r: Option<DPI>)
        ensures
            r == if v < 4 {
                Some(dpi_of_bits(v))
            } else {
                None::<DPI>
            },
    {
        match v {
            0 => Some(DPI::Indeterminate1),
            1 => Some(DPI::Off),
            2 => Some(DPI::On),
            3 => Some(DPI::Indeterminate2),
            _ => None,
        }
    }
}

/// For field values below 4, reading the named state and taking its field
/// value again is the identity.
pub proof fn lemma_dpi_bits_round_trip(v: u8)
    requires
        v < 4,
    ensures
        dpi_bits(dpi_of_bits(v)) == v,
{
}

/// The 2-bit double-point state field is always below 4.
pub proof fn lemma_dpi_field_bound(b: u8)
    ensures
        bits_get(b, 0, 2) < 4,
{
    crate::bitops::lemma_bits_get_bound(b, 0, 2);
    assert(crate::bitops::low_mask(2) == 3) by (bit_vector);
}

impl From<bool> for DPI {
    fn from(value: bool) -> (r: Self) {
        if value {
            DPI::On
        } else {
            DPI::Off
        }
    }
}

impl vstd::std_specs::convert::FromSpecImpl<bool> for DPI {
    open spec fn obeys_from_spec() -> bool {
        true
    }

    open spec fn from_spec(value: bool) -> Self {
        if value {
            DPI::On
        } else {
            DPI::Off
        }
    }
}

impl SIQ {
    /// The single-point state (bit 0).
    pub fn spi(&self) -> (r: bool)
        ensures
            r == bit_get(self.raw.0, 0),
    {
        get_bit(self.raw.0, 0)
    }

    /// Sets the single-point state (bit 0).
    pub fn set_spi(&mut self, value: bool)
        ensures
            final(self).raw.0 == bit_set(old(self).raw.0, 0, value),
    {
        self.raw.0 = set_bit(self.raw.0, 0, value);
    }
}

impl DIQ {
    /// The double-point state (bits 0..=1).
    pub fn dpi(&self) -> (r: DPI)
        ensures
            r == dpi_of_bits(bits_get(self.raw.0, 0, 2)),
    {
        let b: u8 = self.raw.0;
        let bits = crate::bitops::get_bits(b, 0, 2);
        assert(bits < 4) by (bit_vector)
            requires
                bits == bits_get(b, 0, 2),
        ;
        match bits {
            0 => DPI::Indeterminate1,
            1 => DPI::Off,
            2 => DPI::On,
            _ => DPI::Indeterminate2,
        }
    }

    /// Sets the double-point state (bits 0..=1).
    pub fn set_dpi(&mut self, value: DPI)
        ensures
            final(self).raw.0 == bits_set(old(self).raw.0, 0, 2, dpi_bits(value)),
    {
        let bits = value.to_u8();
        self.raw.0 = crate::bitops::set_bits(self.raw.0, 0, 2, bits);
    }
}

impl Default for SIQ {
    fn default() -> (r: Self)
        ensures
            r.raw.0 == 0,
    {
        SIQ { raw: RawQualityDescriptor(0) }
    }
}

impl Default for DIQ {
    fn default() -> (r: Self)
        ensures
            r.raw.0 == 0,
    {
        DIQ { raw: RawQualityDescriptor(0) }
    }
}

impl Default for QDS {
    fn default() -> (r: Self)
        ensures
            r.raw.0 == 0,
    {
        QDS { raw: RawQualityDescriptor(0) }
    }
}

impl QualityDescriptorHolder for SIQ {
    open spec fn spec_raw(&self) -> u8 {
        self.raw.0
    }

    open spec fn spec_has_ov() -> bool {
        false
    }

    fn qds_raw(&self) -> (r: RawQualityDescriptor) {
        self.raw
    }

    fn set_qds_raw(&mut self, q: RawQualityDescriptor) {
        self.raw = q;
    }

    fn has_ov(&self) -> (r: bool) {
        false
    }
}

impl QualityDescriptorHolder for DIQ {
    open spec fn spec_raw(&self) -> u8 {
        self.raw.0
    }

    open spec fn spec_has_ov() -> bool {
        false
    }

    fn qds_raw(&self) -> (r: RawQualityDescriptor) {
        self.raw
    }

    fn set_qds_raw(&mut self, q: RawQualityDescriptor) {
        self.raw = q;
    }

    fn has_ov(&self) -> (r: bool) {
        false
    }
}

impl QualityDescriptorHolder for QDS {
    open spec fn spec_raw(&self) -> u8 {
        self.raw.0
    }

    open spec fn spec_has_ov() -> bool {
        true
    }

    fn qds_raw(&self) -> (r: RawQualityDescriptor) {
        self.raw
    }

    fn set_qds_raw(&mut self, q: RawQualityDescriptor) {
        self.raw = q;
    }

    fn has_ov(&self) -> (r: bool) {
        true
    }
}

impl M_SP_NA_1 {
    /// The quality view of this element: its single-point quality byte.
    pub fn get_qds(&self) -> (r: &SIQ)
        ensures
            r == &self.value,
    {
        &self.value
    }

    /// Replaces the single-point quality byte.
    pub fn set_qds(&mut self, q: SIQ)
        ensures
            final(self).value == q,
    {
        self.value = q;
    }

    /// The mutable quality view of this element: what the caller writes
    /// through it is what the element holds afterwards.
    pub fn get_qds_mut(&mut self) -> (r: &mut SIQ)
        ensures
            *r == old(self).value,
            final(self).value == *final(r),
    {
        &mut self.value
    }
}

impl M_DP_NA_1 {
    /// The quality view of this element: its double-point quality byte.
    pub fn get_qds(&self) -> (r: &DIQ)
        ensures
            r == &self.value,
    {
        &self.value
    }

    /// Replaces the double-point quality byte.
    pub fn set_qds(&mut self, q: DIQ)
        ensures
            final(self).value == q,
    {
        self.value = q;
    }

    /// The mutable quality view of this element: what the caller writes
    /// through it is what the element holds afterwards.
    pub fn get_qds_mut(&mut self) -> (r: &mut DIQ)
        ensures
            *r == old(self).value,
            final(self).value == *final(r),
    {
        &mut self.value
    }
}

impl Default for M_SP_NA_1 {
    fn default() -> (r: Self)
        ensures
            r.value.raw.0 == 0,
    {
        M_SP_NA_1 { value: SIQ { raw: RawQualityDescriptor(0) } }
    }
}

impl Default for M_DP_NA_1 {
    fn default() -> (r: Self)
        ensures
            r.value.raw.0 == 0,
    {
        M_DP_NA_1 { value: DIQ { raw: RawQualityDescriptor(0) } }
    }
}

impl From<bool> for M_SP_NA_1 {
    fn from(value: bool) -> (r: Self) {
        let mut siq = SIQ { raw: RawQualityDescriptor(0) };
        siq.set_spi(value);
        proof {
            crate::bitops::lemma_bit_set_effect();
            assert(bit_set(0u8, 0, true) == 1u8) by (bit_vector);
            assert(bit_set(0u8, 0, false) == 0u8) by (bit_vector);
        }
        M_SP_NA_1 { value: siq }
    }
}

impl vstd::std_specs::convert::FromSpecImpl<bool> for M_SP_NA_1 {
    open spec fn obeys_from_spec() -> bool {
        true
    }

    open spec fn from_spec(value: bool) -> Self {
        M_SP_NA_1 {
            value: SIQ {
                raw: RawQualityDescriptor(
                    if value {
                        1
                    } else {
                        0
                    },
                ),
            },
        }
    }
}

} // verus!
