//! The parameter information element: a measured-value parameter with a
//! qualifier-of-parameter byte, whose kind-of-parameter field names what
//! the parameter adjusts.

#![allow(non_camel_case_types)]

use vstd::prelude::*;

use crate::bitops::{bit_get, bit_set, bits_get, bits_set, get_bit, get_bits, set_bit, set_bits};

verus! {

/// TI112, `P_ME_NC_1`, parameter of measured values, short floating point
/// number, carried as its IEEE-754 bit pattern.
#[derive(Debug, Clone, Copy, PartialEq, Eq)]
pub struct P_ME_NC_1 {
    pub value: u32,
    pub qpm: QPM,
}

/// Qualifier-of-parameter byte: point-of-parameter-change in bit 7,
/// local-parameter-change in bit 6, kind-of-parameter in bits 0..=5.
#[derive(Debug, Clone, Copy, PartialEq, Eq)]
pub struct QPM(pub u8);

/// Kind of parameter, the named values of the kind-of-parameter field.
#[derive(Debug, Clone, Copy, PartialEq, Eq)]
pub enum KPA {
    Unused,
    ThresholdValue,
    SmoothingFactor,
    LowLimitForTx,
    HighLimitForTx,
}

/// The field value of a named kind of parameter.
pub open spec fn kpa_bits(k: KPA) -> u8 {
    match k {
        KPA::Unused => 0,
        KPA::ThresholdValue => 1,
        KPA::SmoothingFactor => 2,
        KPA::LowLimitForTx => 3,
        KPA::HighLimitForTx => 4,
    }
}

impl KPA {
    /// The field value of this kind of parameter.
    pub fn to_u8(self) -> (r: u8)
        ensures
            r == kpa_bits(self),
    {
        match self {
            KPA::Unused => 0,
            KPA::ThresholdValue => 1,
            KPA::SmoothingFactor => 2,
            KPA::LowLimitForTx => 3,
            KPA::HighLimitForTx => 4,
        }
    }

    /// The named kind of a field value; `None` for the reserved values.
    pub fn try_from_u8(v: u8) -> (r: Option<KPA>)
        ensures
            r == if v < 5 {
                Some(
                    if v == 0 {
                        KPA::Unused
                    } else if v == 1 {
                        KPA::ThresholdValue
                    } else if v == 2 {
                        KPA::SmoothingFactor
                    } else if v == 3 {
                        KPA::LowLimitForTx
                    } else {
                        KPA::HighLimitForTx
                    },
                )
            } else {
                None::<KPA>
            },
    {
        match v {
            0 => Some(KPA::Unused),
            1 => Some(KPA::ThresholdValue),
            2 => Some(KPA::SmoothingFactor),
            3 => Some(KPA::LowLimitForTx),
            4 => Some(KPA::HighLimitForTx),
            _ => None,
        }
    }
}

impl QPM {
    /// The point-of-parameter-change flag (bit 7).
    pub fn pop(&self) -> (r: bool)
        ensures
            r == bit_get(self.0, 7),
    {
        get_bit(self.0, 7)
    }

    /// Sets the point-of-parameter-change flag (bit 7).
    pub fn set_pop(&mut self, value: bool)
        ensures
            final(self).0 == bit_set(old(self).0, 7, value),
    {
        self.0 = set_bit(self.0, 7, value);
    }

    /// The local-parameter-change flag (bit 6).
    pub fn lpc(&self) -> (r: bool)
        ensures
            r == bit_get(self.0, 6),
    {
        get_bit(self.0, 6)
    }

    /// Sets the local-parameter-change flag (bit 6).
    pub fn set_lpc(&mut self, value: bool)
        ensures
            final(self).0 == bit_set(old(self).0, 6, value),
    {
        self.0 = set_bit(self.0, 6, value);
    }

    /// The kind-of-parameter field (bits 0..=5).
    pub fn kpa(&self) -> (r: u8)
        ensures
            r == bits_get(self.0, 0, 6),
    {
        get_bits(self.0, 0, 6)
    }

    /// Sets the kind-of-parameter field (bits 0..=5).
    pub fn set_kpa(&mut self, value: u8)
        ensures
            final(self).0 == bits_set(old(self).0, 0, 6, value),
    {
        self.0 = set_bits(self.0, 0, 6, value);
    }
}

impl Default for QPM {
    fn default() -> (r: Self)
        ensures
            r.0 == 0,
    {
        QPM(0)
    }
}

} // verus!
