//! Command qualifiers: a bit-packed byte with a select/execute flag
//! (bit 7) and a qualifier-of-command enumeration (bits 2..=6), where the
//! values outside the named ones are carried verbatim as a reserved raw
//! value instead of being clamped.
//!
//! Ordering between two qualifier bytes compares only bits 2..=7,
//! descending; the command-state low bits are ignored.

use vstd::prelude::*;

use crate::bitops::{bit_get, bit_set, bits_get, bits_set};
use core::cmp::Ordering;

verus! {

/// The raw packed command qualifier byte.
#[derive(Debug, Clone, Copy, Eq)]
pub struct RawQualifierOfCommand(pub u8);

/// The qualifier-of-command enumeration carried in bits 2..=6: the named
/// pulse kinds, or the raw 5-bit value where the protocol reserves it.
#[derive(Debug, Clone, Copy, PartialEq, Eq)]
pub enum QU {
    Default,
    ShortPulse,
    LongPulse,
    PersistentOutput,
    Reserved(u8),
}

/// The qualifier named by a 5-bit field value.
pub open spec fn qu_of_bits(v: u8) -> QU {
    if v == 0 {
        QU::Default
    } else if v == 1 {
        QU::ShortPulse
    } else if v == 2 {
        QU::LongPulse
    } else if v == 3 {
        QU::PersistentOutput
    } else {
        QU::Reserved(v)
    }
}

/// The 5-bit field value of a qualifier.
pub open spec fn qu_bits(q: QU) -> u8 {
    match q {
        QU::Default => 0,
        QU::ShortPulse => 1,
        QU::LongPulse => 2,
        QU::PersistentOutput => 3,
        QU::Reserved(v) => v,
    }
}

/// The compared part of a command qualifier byte: bits 2..=7.
pub open spec fn qoc_compared(b: u8) -> u8 {
    b & 0xfc
}

/// The partial order on command qualifier bytes: only bits 2..=7 are
/// compared, and the comparison is reversed.
pub open spec fn qoc_order(a: u8, b: u8) -> Ordering {
    if qoc_compared(a) == qoc_compared(b) {
        Ordering::Equal
    } else if qoc_compared(a) < qoc_compared(b) {
        Ordering::Greater
    } else {
        Ordering::Less
    }
}

impl PartialEq for RawQualifierOfCommand {
    fn eq(&self, other: &Self) -> (r: bool) {
        self.0 == other.0
    }
}

impl vstd::std_specs::cmp::PartialEqSpecImpl for RawQualifierOfCommand {
    open spec fn obeys_eq_spec() -> bool {
        true
    }

    open spec fn eq_spec(&self, other: &Self) -> bool {
        self.0 == other.0
    }
}

impl PartialOrd for RawQualifierOfCommand {
    fn partial_cmp(&self, other: &Self) -> (r: Option<Ordering>) {
        let a: u8 = self.0 & 0xfc;
        let b: u8 = other.0 & 0xfc;
        if a == b {
            Some(Ordering::Equal)
        } else if a < b {
            Some(Ordering::Greater)
        } else {
            Some(Ordering::Less)
        }
    }
}

impl vstd::std_specs::cmp::PartialOrdSpecImpl for RawQualifierOfCommand {
    open spec fn obeys_partial_cmp_spec() -> bool {
        true
    }

    open spec fn partial_cmp_spec(&self, other: &Self) -> Option<Ordering> {
        Some(qoc_order(self.0, other.0))
    }
}

impl Default for RawQualifierOfCommand {
    fn default() -> (r: Self)
        ensures
            r.0 == 0,
    {
        RawQualifierOfCommand(0)
    }
}

impl RawQualifierOfCommand {
    /// Reads the bit range `high..=low` of the raw byte, shifted down.
    pub fn bit_range(&self, high: u8, low: u8) -> (r: u8)
        requires
            low <= high < 8,
        ensures
            r == bits_get(self.0, low, (high - low + 1) as u8),
    {
        crate::bitops::get_bits(self.0, low, high - low + 1)
    }

    /// Replaces the bit range `high..=low` of the raw byte with the low bits
    /// of `value`, leaving all other bits unchanged.
    pub fn set_bit_range(&mut self, high: u8, low: u8, value: u8)
        requires
            low <= high < 8,
        ensures
            final(self).0 == bits_set(old(self).0, low, (high - low + 1) as u8, value),
    {
        self.0 = crate::bitops::set_bits(self.0, low, high - low + 1, value);
    }
}

/// Access to the packed command qualifier byte of a type that carries one.
pub trait QualifierOfCommandHolder: Sized {
    /// The packed qualifier byte, as seen by specifications.
    spec fn spec_raw(&self) -> u8;

    /// Returns the packed qualifier byte.
    fn qoc_raw(&self) -> (r: RawQualifierOfCommand)
        ensures
            r.0 == self.spec_raw(),
    ;

    /// Replaces the packed qualifier byte.
    fn set_qoc_raw(&mut self, q: RawQualifierOfCommand)
        ensures
            final(self).spec_raw() == q.0,
    ;
}

/// Named accessors for the select/execute flag and the qualifier-of-command
/// field, derived from the holder's packed byte.
pub trait QualifierOfCommand: QualifierOfCommandHolder {
    /// The select/execute flag (bit 7).
    fn se(&self) -> (r: bool)
        ensures
            r == bit_get(self.spec_raw(), 7),
    ;

    /// Sets the select/execute flag (bit 7).
    fn set_se(&mut self, v: bool)
        ensures
            final(self).spec_raw() == bit_set(old(self).spec_raw(), 7, v),
    ;

    /// The qualifier-of-command field (bits 2..=6).
    fn qu(&self) -> (r: QU)
        ensures
            r == qu_of_bits(bits_get(self.spec_raw(), 2, 5)),
    ;

    /// Sets the qualifier-of-command field (bits 2..=6) to the low bits of
    /// the given qualifier's value.
    fn set_qu(&mut self, value: QU)
        ensures
            final(self).spec_raw() == bits_set(old(self).spec_raw(), 2, 5, qu_bits(value)),
    ;
}

impl<T: QualifierOfCommandHolder> QualifierOfCommand for T {
    fn se(&self) -> (r: bool) {
        self.qoc_raw().0 >> 7 & 1 == 1
    }

    fn set_se(&mut self, v: bool) {
        let mut raw = self.qoc_raw();
        raw.0 = crate::bitops::set_bit(raw.0, 7, v);
        self.set_qoc_raw(raw);
    }

    fn qu(&self) -> (r: QU) {
        let bits = self.qoc_raw().bit_range(6, 2);
        match bits {
            0 => QU::Default,
            1 => QU::ShortPulse,
            2 => QU::LongPulse,
            3 => QU::PersistentOutput,
            v => QU::Reserved(v),
        }
    }

    fn set_qu(&mut self, value: QU) {
        let bits: u8 = match value {
            QU::Default => 0,
            QU::ShortPulse => 1,
            QU::LongPulse => 2,
            QU::PersistentOutput => 3,
            QU::Reserved(v) => v,
        };
        let mut raw = self.qoc_raw();
        raw.set_bit_range(6, 2, bits);
        self.set_qoc_raw(raw);
    }
}

impl QualifierOfCommandHolder for RawQualifierOfCommand {
    open spec fn spec_raw(&self) -> u8 {
        self.0
    }

    fn qoc_raw(&self) -> (r: RawQualifierOfCommand) {
        *self
    }

    fn set_qoc_raw(&mut self, q: RawQualifierOfCommand) {
        *self = q;
    }
}

} // verus!
