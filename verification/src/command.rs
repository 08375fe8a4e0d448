//! The command-side information elements of the catalog: single and double
//! commands and the set-point commands, each a fixed-layout record of a
//! scalar payload followed by a packed command qualifier byte.
//!
//! Short floating point payloads are carried as their IEEE-754 bit
//! patterns (`u32`), as in the measurement records.

#![allow(non_camel_case_types)]

use vstd::prelude::*;

use crate::bitops::{bit_get, bit_set, bits_get, bits_set, get_bit, get_bits, set_bit, set_bits};
use crate::qoc::{QualifierOfCommandHolder, RawQualifierOfCommand};

verus! {

/// The error returned when a double-point or double-command state that is
/// not a plain off/on is read as a boolean.
#[derive(Debug)]
pub struct InvalidState;

/// Single command byte: select/execute in bit 7, qualifier in bits 2..=6,
/// command state in bit 0.
#[derive(Debug, Clone, Copy, PartialEq, Eq)]
pub struct SCO(pub u8);

/// Double command state: a 2-bit enumeration where both all-zeros and
/// all-ones are not permitted.
#[derive(Debug, Clone, Copy, PartialEq, Eq)]
pub enum DCS {
    NotPermitted1,
    Off,
    On,
    NotPermitted2,
}

/// Double command byte: the command state in bits 0..=1 and the qualifier
/// above it.
#[derive(Debug, Clone, Copy, PartialEq, Eq)]
pub struct DCO {
    pub raw: RawQualifierOfCommand,
}

/// Qualifier-of-set-point-command byte: select/execute in bit 7, qualifier
/// value in bits 0..=6.
#[derive(Debug, Clone, Copy, PartialEq, Eq)]
pub struct QOS(pub u8);

/// TI45, `C_SC_NA_1`, single command.
#[derive(Debug, Clone, Copy, PartialEq, Eq)]
pub struct C_SC_NA_1 {
    pub value: SCO,
}

/// TI46, `C_DC_NA_1`, double command.
#[derive(Debug, Clone, Copy, PartialEq, Eq)]
pub struct C_DC_NA_1 {
    pub dco: DCO,
}

/// TI48, `C_SE_NA_1`, set-point command, normalized value.
#[derive(Debug, Clone, Copy, PartialEq, Eq)]
pub struct C_SE_NA_1 {
    pub dco: DCO,
}

/// TI49, `C_SE_NB_1`, set-point command, scaled value.
#[derive(Debug, Clone, Copy, PartialEq, Eq)]
pub struct C_SE_NB_1 {
    pub value: i16,
    pub qos: QOS,
}

/// TI50, `C_SE_NC_1`, set-point command, short floating point number,
/// carried as its IEEE-754 bit pattern.
#[derive(Debug, Clone, Copy, PartialEq, Eq)]
pub struct C_SE_NC_1 {
    pub value: u32,
    pub qos: QOS,
}

/// TI200, set-point command, 32-bit unsigned integer.
#[derive(Debug, Clone, Copy, PartialEq, Eq)]
pub struct TI200 {
    pub value: u32,
    pub qos: QOS,
}

/// TI201, set-point command, 32-bit signed integer.
#[derive(Debug, Clone, Copy, PartialEq, Eq)]
pub struct TI201 {
    pub value: i32,
    pub qos: QOS,
}

/// TI202, set-point command, 64-bit unsigned integer.
#[derive(Debug, Clone, Copy, PartialEq, Eq)]
pub struct TI202 {
    pub value: u64,
    pub qos: QOS,
}

/// TI203, set-point command, 64-bit signed integer.
#[derive(Debug, Clone, Copy, PartialEq, Eq)]
pub struct TI203 {
    pub value: i64,
    pub qos: QOS,
}

/// The 2-bit field value of a double command state.
pub open spec fn dcs_bits(d: DCS) -> u8 {
    match d {
        DCS::NotPermitted1 => 0,
        DCS::Off => 1,
        DCS::On => 2,
        DCS::NotPermitted2 => 3,
    }
}

/// The double command state named by a 2-bit field value.
pub open spec fn dcs_of_bits(v: u8) -> DCS
    recommends
        v < 4,
{
    if v == 0 {
        DCS::NotPermitted1
    } else if v == 1 {
        DCS::Off
    } else if v == 2 {
        DCS::On
    } else {
        DCS::NotPermitted2
    }
}

impl DCS {
    /// The 2-bit field value of this state.
    pub fn to_u8(self) -> (r: u8)
        ensures
            r == dcs_bits(self),
    {
        match self {
            DCS::NotPermitted1 => 0,
            DCS::Off => 1,
            DCS::On => 2,
            DCS::NotPermitted2 => 3,
        }
    }

    /// The state named by a 2-bit field value; `None` above 3.
    pub fn try_from_u8(v: u8) -> (r: Option<DCS>)
        ensures
            r == if v < 4 {
                Some(dcs_of_bits(v))
            } else {
                None::<DCS>
            },
    {
        match v {
            0 => Some(DCS::NotPermitted1),
            1 => Some(DCS::Off),
            2 => Some(DCS::On),
            3 => Some(DCS::NotPermitted2),
            _ => None,
        }
    }
}

impl SCO {
    /// The select/execute flag (bit 7).
    pub fn se(&self) -> (r: bool)
        ensures
            r == bit_get(self.0, 7),
    {
        get_bit(self.0, 7)
    }

    /// Sets the select/execute flag (bit 7).
    pub fn set_se(&mut self, value: bool)
        ensures
            final(self).0 == bit_set(old(self).0, 7, value),
    {
        self.0 = set_bit(self.0, 7, value);
    }

    /// The qualifier-of-command field (bits 2..=6), as its raw value.
    pub fn qu(&self) -> (r: u8)
        ensures
            r == bits_get(self.0, 2, 5),
    {
        get_bits(self.0, 2, 5)
    }

    /// Sets the qualifier-of-command field (bits 2..=6).
    pub fn set_qu(&mut self, value: u8)
        ensures
            final(self).0 == bits_set(old(self).0, 2, 5, value),
    {
        self.0 = set_bits(self.0, 2, 5, value);
    }

    /// The single command state (bit 0).
    pub fn scs(&self) -> (r: bool)
        ensures
            r == bit_get(self.0, 0),
    {
        get_bit(self.0, 0)
    }

    /// Sets the single command state (bit 0).
    pub fn set_scs(&mut self, value: bool)
        ensures
            final(self).0 == bit_set(old(self).0, 0, value),
    {
        self.0 = set_bit(self.0, 0, value);
    }
}

impl QOS {
    /// The select/execute flag (bit 7).
    pub fn se(&self) -> (r: bool)
        ensures
            r == bit_get(self.0, 7),
    {
        get_bit(self.0, 7)
    }

    /// Sets the select/execute flag (bit 7).
    pub fn set_se(&mut self, value: bool)
        ensures
            final(self).0 == bit_set(old(self).0, 7, value),
    {
        self.0 = set_bit(self.0, 7, value);
    }

    /// The qualifier-of-set-point field (bits 0..=6).
    pub fn qu(&self) -> (r: u8)
        ensures
            r == bits_get(self.0, 0, 7),
    {
        get_bits(self.0, 0, 7)
    }

    /// Sets the qualifier-of-set-point field (bits 0..=6).
    pub fn set_qu(&mut self, value: u8)
        ensures
            final(self).0 == bits_set(old(self).0, 0, 7, value),
    {
        self.0 = set_bits(self.0, 0, 7, value);
    }
}

impl DCO {
    /// The double command state (bits 0..=1).
    pub fn dcs(&self) -> (r: DCS)
        ensures
            r == dcs_of_bits(bits_get(self.raw.0, 0, 2)),
    {
        let b: u8 = self.raw.0;
        let bits = get_bits(b, 0, 2);
        assert(bits < 4) by (bit_vector)
            requires
                bits == bits_get(b, 0, 2),
        ;
        match bits {
            0 => DCS::NotPermitted1,
            1 => DCS::Off,
            2 => DCS::On,
            _ => DCS::NotPermitted2,
        }
    }

    /// Sets the double command state (bits 0..=1).
    pub fn set_dcs(&mut self, value: DCS)
        ensures
            final(self).raw.0 == bits_set(old(self).raw.0, 0, 2, dcs_bits(value)),
    {
        let bits = value.to_u8();
        self.raw.0 = set_bits(self.raw.0, 0, 2, bits);
    }
}

impl QualifierOfCommandHolder for DCO {
    open spec fn spec_raw(&self) -> u8 {
        self.raw.0
    }

    fn qoc_raw(&self) -> (r: RawQualifierOfCommand) {
        self.raw
    }

    fn set_qoc_raw(&mut self, q: RawQualifierOfCommand) {
        self.raw = q;
    }
}

impl Default for SCO {
    fn default() -> (r: Self)
        ensures
            r.0 == 0,
    {
        SCO(0)
    }
}

impl Default for QOS {
    fn default() -> (r: Self)
        ensures
            r.0 == 0,
    {
        QOS(0)
    }
}

impl Default for DCO {
    fn default() -> (r: Self)
        ensures
            r.raw.0 == 0,
    {
        DCO { raw: RawQualifierOfCommand(0) }
    }
}

impl Default for C_SC_NA_1 {
    fn default() -> (r: Self)
        ensures
            r.value.0 == 0,
    {
        C_SC_NA_1 { value: SCO(0) }
    }
}

impl C_SC_NA_1 {
    /// The command state carried by this single command.
    pub fn to_bool(&self) -> (r: bool)
        ensures
            r == bit_get(self.value.0, 0),
    {
        self.value.scs()
    }
}

impl From<bool> for C_SC_NA_1 {
    fn from(value: bool) -> (r: Self) {
        let mut sco = SCO(0);
        sco.set_scs(value);
        proof {
            assert(bit_set(0u8, 0, true) == 1u8) by (bit_vector);
            assert(bit_set(0u8, 0, false) == 0u8) by (bit_vector);
        }
        C_SC_NA_1 { value: sco }
    }
}

impl vstd::std_specs::convert::FromSpecImpl<bool> for C_SC_NA_1 {
    open spec fn obeys_from_spec() -> bool {
        true
    }

    open spec fn from_spec(value: bool) -> Self {
        C_SC_NA_1 {
            value: SCO(
                if value {
                    1
                } else {
                    0
                },
            ),
        }
    }
}

impl C_DC_NA_1 {
    /// Reads the double command state as a boolean: `Ok(false)` for off,
    /// `Ok(true)` for on, and `InvalidState` for both not-permitted
    /// encodings.
    pub fn try_to_bool(&self) -> (r: Result<bool, InvalidState>)
        ensures
            r matches Ok(b) ==> (dcs_of_bits(bits_get(self.dco.raw.0, 0, 2)) == if b {
                DCS::On
            } else {
                DCS::Off
            }),
            r is Err <==> (dcs_of_bits(bits_get(self.dco.raw.0, 0, 2)) == DCS::NotPermitted1
                || dcs_of_bits(bits_get(self.dco.raw.0, 0, 2)) == DCS::NotPermitted2),
    {
        match self.dco.dcs() {
            DCS::Off => Ok(false),
            DCS::On => Ok(true),
            DCS::NotPermitted1 => Err(InvalidState),
            DCS::NotPermitted2 => Err(InvalidState),
        }
    }
}

} // verus!
