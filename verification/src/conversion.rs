//! The protocol's conversion rules: reading union values as booleans and
//! integers, updating a union value in place from another union value or
//! from an integer, and the compatibility table behind them.
//!
//! Cross-kind updates are allowed only for the protocol-defined pair of
//! single-point and double-point status: the quality byte is carried over
//! verbatim and the boolean payload is derived (`on` means true). Narrowing
//! an integer into a fixed-width payload fails on overflow instead of
//! wrapping. The three short-floating-point kinds hold opaque IEEE-754 bit
//! patterns, so updates into them from numbers are made by the caller at
//! the floating point boundary, not here.

#![allow(non_camel_case_types)]

use vstd::prelude::*;

use crate::bitops::{bit_get, bit_set, bits_get, bits_set};
use crate::command::{C_SC_NA_1, C_SE_NB_1, C_SE_NC_1, TI200, TI201, TI202, TI203};
use crate::measurement::{
    dpi_of_bits, DIQ, DPI, M_DP_NA_1, M_ME_NB_1, M_ME_NE_1, M_SP_NA_1, SIQ, TI136, TI137, TI138,
    TI139,
};
use crate::parameter::P_ME_NC_1;
use crate::qds::RawQualityDescriptor;
use crate::small_ie::SmallIE;

verus! {

/// The error returned by every fallible conversion between information
/// element kinds and primitive values.
#[derive(Debug, Copy, Clone)]
pub struct IEConversionError;

/// The boolean reading of a union value: the point or command state for
/// the boolean-like kinds, where a double point must be plainly off or
/// on; `None` for every other kind and for indeterminate double points.
pub open spec fn spec_to_bool(ie: SmallIE) -> Option<bool> {
    match ie {
        SmallIE::TI1(v) => Some(bit_get(v.value.raw.0, 0)),
        SmallIE::TI45(v) => Some(bit_get(v.value.0, 0)),
        SmallIE::TI3(v) => {
            let d = dpi_of_bits(bits_get(v.value.raw.0, 0, 2));
            if d == DPI::Off {
                Some(false)
            } else if d == DPI::On {
                Some(true)
            } else {
                None
            }
        },
        _ => None,
    }
}

/// The unsigned 32-bit reading of a union value: booleans as 0 or 1, the
/// double point as its raw ordinal, integer payloads when they fit;
/// `None` where the value does not fit or the payload is a short float.
pub open spec fn spec_to_u32(ie: SmallIE) -> Option<u32> {
    match ie {
        SmallIE::TI1(v) => Some(
            if bit_get(v.value.raw.0, 0) {
                1u32
            } else {
                0u32
            },
        ),
        SmallIE::TI3(v) => Some(bits_get(v.value.raw.0, 0, 2) as u32),
        SmallIE::TI45(v) => Some(
            if bit_get(v.value.0, 0) {
                1u32
            } else {
                0u32
            },
        ),
        SmallIE::TI11(v) => if v.value >= 0 {
            Some(v.value as u32)
        } else {
            None
        },
        SmallIE::TI49(v) => if v.value >= 0 {
            Some(v.value as u32)
        } else {
            None
        },
        SmallIE::TI136(v) => Some(v.value),
        SmallIE::TI200(v) => Some(v.value),
        SmallIE::TI137(v) => if v.value >= 0 {
            Some(v.value as u32)
        } else {
            None
        },
        SmallIE::TI201(v) => if v.value >= 0 {
            Some(v.value as u32)
        } else {
            None
        },
        SmallIE::TI138(v) => if v.value <= u32::MAX as u64 {
            Some(v.value as u32)
        } else {
            None
        },
        SmallIE::TI202(v) => if v.value <= u32::MAX as u64 {
            Some(v.value as u32)
        } else {
            None
        },
        SmallIE::TI139(v) => if 0 <= v.value <= u32::MAX as i64 {
            Some(v.value as u32)
        } else {
            None
        },
        SmallIE::TI203(v) => if 0 <= v.value <= u32::MAX as i64 {
            Some(v.value as u32)
        } else {
            None
        },
        SmallIE::TI13(_) => None,
        SmallIE::TI50(_) => None,
        SmallIE::TI112(_) => None,
    }
}

/// The single-point record derived from a double-point record: the
/// quality byte is carried over verbatim and the point state becomes
/// whether the double point was plainly on.
pub open spec fn spec_single_of_double(s: M_DP_NA_1) -> M_SP_NA_1 {
    M_SP_NA_1 {
        value: SIQ {
            raw: RawQualityDescriptor(
                bit_set(s.value.raw.0, 0, dpi_of_bits(bits_get(s.value.raw.0, 0, 2)) == DPI::On),
            ),
        },
    }
}

/// The double-point record derived from a single-point record: the
/// quality byte is carried over verbatim and the state becomes on or off
/// after the point state.
pub open spec fn spec_double_of_single(s: M_SP_NA_1) -> M_DP_NA_1 {
    M_DP_NA_1 {
        value: DIQ {
            raw: RawQualityDescriptor(
                bits_set(
                    s.value.raw.0,
                    0,
                    2,
                    if bit_get(s.value.raw.0, 0) {
                        2
                    } else {
                        1
                    },
                ),
            ),
        },
    }
}

/// The result of updating `dst` in place from `src`: the source value for
/// same-kind pairs, the derived record for the single-point and
/// double-point pair, and `None` for every other cross-kind pair.
pub open spec fn spec_update_from(dst: SmallIE, src: SmallIE) -> Option<SmallIE> {
    match (dst, src) {
        (SmallIE::TI1(_), SmallIE::TI1(s)) => Some(SmallIE::TI1(s)),
        (SmallIE::TI1(_), SmallIE::TI3(s)) => Some(SmallIE::TI1(spec_single_of_double(s))),
        (SmallIE::TI3(_), SmallIE::TI1(s)) => Some(SmallIE::TI3(spec_double_of_single(s))),
        (SmallIE::TI3(_), SmallIE::TI3(s)) => Some(SmallIE::TI3(s)),
        (SmallIE::TI11(_), SmallIE::TI11(s)) => Some(SmallIE::TI11(s)),
        (SmallIE::TI13(_), SmallIE::TI13(s)) => Some(SmallIE::TI13(s)),
        (SmallIE::TI45(_), SmallIE::TI45(s)) => Some(SmallIE::TI45(s)),
        (SmallIE::TI49(_), SmallIE::TI49(s)) => Some(SmallIE::TI49(s)),
        (SmallIE::TI50(_), SmallIE::TI50(s)) => Some(SmallIE::TI50(s)),
        (SmallIE::TI112(_), SmallIE::TI112(s)) => Some(SmallIE::TI112(s)),
        (SmallIE::TI136(_), SmallIE::TI136(s)) => Some(SmallIE::TI136(s)),
        (SmallIE::TI137(_), SmallIE::TI137(s)) => Some(SmallIE::TI137(s)),
        (SmallIE::TI138(_), SmallIE::TI138(s)) => Some(SmallIE::TI138(s)),
        (SmallIE::TI139(_), SmallIE::TI139(s)) => Some(SmallIE::TI139(s)),
        (SmallIE::TI200(_), SmallIE::TI200(s)) => Some(SmallIE::TI200(s)),
        (SmallIE::TI201(_), SmallIE::TI201(s)) => Some(SmallIE::TI201(s)),
        (SmallIE::TI202(_), SmallIE::TI202(s)) => Some(SmallIE::TI202(s)),
        (SmallIE::TI203(_), SmallIE::TI203(s)) => Some(SmallIE::TI203(s)),
        _ => None,
    }
}

/// The result of updating the payload of `dst` in place from the integer
/// `v`: boolean-like payloads take whether `v` is nonzero, the double
/// point takes `v` as its 2-bit state when `v` is one of 0..=3, and the
/// fixed-width integer payloads take `v` exactly when it fits, failing on
/// overflow instead of wrapping. The quality and qualifier bytes stay.
/// The three short-floating-point kinds are `None`: their bit patterns
/// are set at the floating point boundary outside this module.
pub open spec fn spec_update_from_int(dst: SmallIE, v: i64) -> Option<SmallIE> {
    match dst {
        SmallIE::TI1(d) => Some(
            SmallIE::TI1(
                M_SP_NA_1 { value: SIQ { raw: RawQualityDescriptor(bit_set(d.value.raw.0, 0, v != 0)) } },
            ),
        ),
        SmallIE::TI3(d) => if 0 <= v < 4 {
            Some(
                SmallIE::TI3(
                    M_DP_NA_1 {
                        value: DIQ {
                            raw: RawQualityDescriptor(bits_set(d.value.raw.0, 0, 2, v as u8)),
                        },
                    },
                ),
            )
        } else {
            None
        },
        SmallIE::TI45(d) => Some(
            SmallIE::TI45(
                C_SC_NA_1 { value: crate::command::SCO(bit_set(d.value.0, 0, v != 0)) },
            ),
        ),
        SmallIE::TI11(d) => if i16::MIN <= v <= i16::MAX {
            Some(SmallIE::TI11(M_ME_NB_1 { value: v as i16, ..d }))
        } else {
            None
        },
        SmallIE::TI49(d) => if i16::MIN <= v <= i16::MAX {
            Some(SmallIE::TI49(C_SE_NB_1 { value: v as i16, ..d }))
        } else {
            None
        },
        SmallIE::TI136(d) => if 0 <= v <= u32::MAX {
            Some(SmallIE::TI136(TI136 { value: v as u32, ..d }))
        } else {
            None
        },
        SmallIE::TI200(d) => if 0 <= v <= u32::MAX {
            Some(SmallIE::TI200(TI200 { value: v as u32, ..d }))
        } else {
            None
        },
        SmallIE::TI137(d) => if i32::MIN <= v <= i32::MAX {
            Some(SmallIE::TI137(TI137 { value: v as i32, ..d }))
        } else {
            None
        },
        SmallIE::TI201(d) => if i32::MIN <= v <= i32::MAX {
            Some(SmallIE::TI201(TI201 { value: v as i32, ..d }))
        } else {
            None
        },
        SmallIE::TI138(d) => if v >= 0 {
            Some(SmallIE::TI138(TI138 { value: v as u64, ..d }))
        } else {
            None
        },
        SmallIE::TI202(d) => if v >= 0 {
            Some(SmallIE::TI202(TI202 { value: v as u64, ..d }))
        } else {
            None
        },
        SmallIE::TI139(d) => Some(SmallIE::TI139(TI139 { value: v, ..d })),
        SmallIE::TI203(d) => Some(SmallIE::TI203(TI203 { value: v, ..d })),
        SmallIE::TI13(_) => None,
        SmallIE::TI50(_) => None,
        SmallIE::TI112(_) => None,
    }
}

impl SmallIE {
    /// Reads this value as a boolean: succeeds exactly for the
    /// boolean-like kinds, and for a double point exactly when its state
    /// is plainly off or on.
    pub fn try_to_bool(&self) -> (r: Result<bool, IEConversionError>)
        ensures
            r matches Ok(b) ==> spec_to_bool(*self) == Some(b),
            r is Err <==> spec_to_bool(*self) is None,
    {
        match self {
            SmallIE::TI1(ie) => Ok(ie.value.spi()),
            SmallIE::TI45(ie) => Ok(ie.value.scs()),
            SmallIE::TI3(ie) => match ie.value.dpi() {
                DPI::Off => Ok(false),
                DPI::On => Ok(true),
                _ => Err(IEConversionError),
            },
            _ => Err(IEConversionError),
        }
    }

    /// Reads this value as an unsigned 32-bit integer: booleans as 0 or
    /// 1, the double point as its raw ordinal, integer payloads exactly
    /// when they fit; fails instead of truncating, and always fails for
    /// the short-floating-point kinds.
    pub fn try_to_u32(&self) -> (r: Result<u32, IEConversionError>)
        ensures
            r matches Ok(v) ==> spec_to_u32(*self) == Some(v),
            r is Err <==> spec_to_u32(*self) is None,
    {
        match self {
            SmallIE::TI1(ie) => Ok(
                if ie.value.spi() {
                    1
                } else {
                    0
                },
            ),
            SmallIE::TI3(ie) => {
                proof {
                    crate::measurement::lemma_dpi_field_bound(ie.value.raw.0);
                    crate::measurement::lemma_dpi_bits_round_trip(
                        bits_get(ie.value.raw.0, 0, 2),
                    );
                }
                Ok(ie.value.dpi().to_u8() as u32)
            },
            SmallIE::TI45(ie) => Ok(
                if ie.value.scs() {
                    1
                } else {
                    0
                },
            ),
            SmallIE::TI11(ie) => if ie.value >= 0 {
                Ok(ie.value as u32)
            } else {
                Err(IEConversionError)
            },
            SmallIE::TI49(ie) => if ie.value >= 0 {
                Ok(ie.value as u32)
            } else {
                Err(IEConversionError)
            },
            SmallIE::TI136(ie) => Ok(ie.value),
            SmallIE::TI200(ie) => Ok(ie.value),
            SmallIE::TI137(ie) => if ie.value >= 0 {
                Ok(ie.value as u32)
            } else {
                Err(IEConversionError)
            },
            SmallIE::TI201(ie) => if ie.value >= 0 {
                Ok(ie.value as u32)
            } else {
                Err(IEConversionError)
            },
            SmallIE::TI138(ie) => if ie.value <= 0xffffffffu64 {
                Ok(ie.value as u32)
            } else {
                Err(IEConversionError)
            },
            SmallIE::TI202(ie) => if ie.value <= 0xffffffffu64 {
                Ok(ie.value as u32)
            } else {
                Err(IEConversionError)
            },
            SmallIE::TI139(ie) => if 0 <= ie.value && ie.value <= 0xffffffffi64 {
                Ok(ie.value as u32)
            } else {
                Err(IEConversionError)
            },
            SmallIE::TI203(ie) => if 0 <= ie.value && ie.value <= 0xffffffffi64 {
                Ok(ie.value as u32)
            } else {
                Err(IEConversionError)
            },
            SmallIE::TI13(_) => Err(IEConversionError),
            SmallIE::TI50(_) => Err(IEConversionError),
            SmallIE::TI112(_) => Err(IEConversionError),
        }
    }

    /// Updates this value in place from another union value: same-kind
    /// pairs copy the source, the single-point and double-point pair
    /// derives the payload and carries the quality byte verbatim, and
    /// every other cross-kind pair fails leaving this value unchanged.
    pub fn try_update_from(&mut self, value: SmallIE) -> (r: Result<(), IEConversionError>)
        ensures
            r is Ok <==> spec_update_from(*old(self), value) is Some,
            *final(self) == match spec_update_from(*old(self), value) {
                Some(v) => v,
                None => *old(self),
            },
    {
        let dst = *self;
        match (dst, value) {
            (SmallIE::TI1(_), SmallIE::TI1(s)) => {
                *self = SmallIE::TI1(s);
                Ok(())
            },
            (SmallIE::TI1(_), SmallIE::TI3(s)) => {
                let mut siq = SIQ { raw: s.value.raw };
                let on = s.value.dpi().to_u8() == 2;
                siq.set_spi(on);
                *self = SmallIE::TI1(M_SP_NA_1 { value: siq });
                Ok(())
            },
            (SmallIE::TI3(_), SmallIE::TI1(s)) => {
                let mut diq = DIQ { raw: s.value.raw };
                let state: DPI = if s.value.spi() {
                    DPI::On
                } else {
                    DPI::Off
                };
                diq.set_dpi(state);
                *self = SmallIE::TI3(M_DP_NA_1 { value: diq });
                Ok(())
            },
            (SmallIE::TI3(_), SmallIE::TI3(s)) => {
                *self = SmallIE::TI3(s);
                Ok(())
            },
            (SmallIE::TI11(_), SmallIE::TI11(s)) => {
                *self = SmallIE::TI11(s);
                Ok(())
            },
            (SmallIE::TI13(_), SmallIE::TI13(s)) => {
                *self = SmallIE::TI13(s);
                Ok(())
            },
            (SmallIE::TI45(_), SmallIE::TI45(s)) => {
                *self = SmallIE::TI45(s);
                Ok(())
            },
            (SmallIE::TI49(_), SmallIE::TI49(s)) => {
                *self = SmallIE::TI49(s);
                Ok(())
            },
            (SmallIE::TI50(_), SmallIE::TI50(s)) => {
                *self = SmallIE::TI50(s);
                Ok(())
            },
            (SmallIE::TI112(_), SmallIE::TI112(s)) => {
                *self = SmallIE::TI112(s);
                Ok(())
            },
            (SmallIE::TI136(_), SmallIE::TI136(s)) => {
                *self = SmallIE::TI136(s);
                Ok(())
            },
            (SmallIE::TI137(_), SmallIE::TI137(s)) => {
                *self = SmallIE::TI137(s);
                Ok(())
            },
            (SmallIE::TI138(_), SmallIE::TI138(s)) => {
                *self = SmallIE::TI138(s);
                Ok(())
            },
            (SmallIE::TI139(_), SmallIE::TI139(s)) => {
                *self = SmallIE::TI139(s);
                Ok(())
            },
            (SmallIE::TI200(_), SmallIE::TI200(s)) => {
                *self = SmallIE::TI200(s);
                Ok(())
            },
            (SmallIE::TI201(_), SmallIE::TI201(s)) => {
                *self = SmallIE::TI201(s);
                Ok(())
            },
            (SmallIE::TI202(_), SmallIE::TI202(s)) => {
                *self = SmallIE::TI202(s);
                Ok(())
            },
            (SmallIE::TI203(_), SmallIE::TI203(s)) => {
                *self = SmallIE::TI203(s);
                Ok(())
            },
            _ => Err(IEConversionError),
        }
    }

    /// Updates the payload of this value in place from an integer:
    /// boolean-like payloads take whether the integer is nonzero, the
    /// double point takes it as its 2-bit state when it is one of 0..=3,
    /// and fixed-width integer payloads take it exactly when it fits,
    /// failing on overflow instead of wrapping. The quality and qualifier
    /// bytes stay. Fails for the short-floating-point kinds, whose bit
    /// patterns are set at the floating point boundary outside the
    /// verified core; on any failure this value is unchanged.
    pub fn try_update_from_int(&mut self, v: i64) -> (r: Result<(), IEConversionError>)
        ensures
            r is Ok <==> spec_update_from_int(*old(self), v) is Some,
            *final(self) == match spec_update_from_int(*old(self), v) {
                Some(u) => u,
                None => *old(self),
            },
    {
        let dst = *self;
        match dst {
            SmallIE::TI1(d) => {
                let mut siq = d.value;
                siq.set_spi(v != 0);
                *self = SmallIE::TI1(M_SP_NA_1 { value: siq });
                Ok(())
            },
            SmallIE::TI3(d) => {
                if 0 <= v && v < 4 {
                    let mut diq = d.value;
                    match DPI::try_from_u8(v as u8) {
                        Some(state) => {
                            diq.set_dpi(state);
                            *self = SmallIE::TI3(M_DP_NA_1 { value: diq });
                            Ok(())
                        },
                        None => Err(IEConversionError),
                    }
                } else {
                    Err(IEConversionError)
                }
            },
            SmallIE::TI45(d) => {
                let mut sco = d.value;
                sco.set_scs(v != 0);
                *self = SmallIE::TI45(C_SC_NA_1 { value: sco });
                Ok(())
            },
            SmallIE::TI11(d) => {
                if -0x8000 <= v && v <= 0x7fff {
                    *self = SmallIE::TI11(M_ME_NB_1 { value: v as i16, ..d });
                    Ok(())
                } else {
                    Err(IEConversionError)
                }
            },
            SmallIE::TI49(d) => {
                if -0x8000 <= v && v <= 0x7fff {
                    *self = SmallIE::TI49(C_SE_NB_1 { value: v as i16, ..d });
                    Ok(())
                } else {
                    Err(IEConversionError)
                }
            },
            SmallIE::TI136(d) => {
                if 0 <= v && v <= 0xffffffff {
                    *self = SmallIE::TI136(TI136 { value: v as u32, ..d });
                    Ok(())
                } else {
                    Err(IEConversionError)
                }
            },
            SmallIE::TI200(d) => {
                if 0 <= v && v <= 0xffffffff {
                    *self = SmallIE::TI200(TI200 { value: v as u32, ..d });
                    Ok(())
                } else {
                    Err(IEConversionError)
                }
            },
            SmallIE::TI137(d) => {
                if -0x80000000 <= v && v <= 0x7fffffff {
                    *self = SmallIE::TI137(TI137 { value: v as i32, ..d });
                    Ok(())
                } else {
                    Err(IEConversionError)
                }
            },
            SmallIE::TI201(d) => {
                if -0x80000000 <= v && v <= 0x7fffffff {
                    *self = SmallIE::TI201(TI201 { value: v as i32, ..d });
                    Ok(())
                } else {
                    Err(IEConversionError)
                }
            },
            SmallIE::TI138(d) => {
                if v >= 0 {
                    *self = SmallIE::TI138(TI138 { value: v as u64, ..d });
                    Ok(())
                } else {
                    Err(IEConversionError)
                }
            },
            SmallIE::TI202(d) => {
                if v >= 0 {
                    *self = SmallIE::TI202(TI202 { value: v as u64, ..d });
                    Ok(())
                } else {
                    Err(IEConversionError)
                }
            },
            SmallIE::TI139(d) => {
                *self = SmallIE::TI139(TI139 { value: v, ..d });
                Ok(())
            },
            SmallIE::TI203(d) => {
                *self = SmallIE::TI203(TI203 { value: v, ..d });
                Ok(())
            },
            SmallIE::TI13(_) => Err(IEConversionError),
            SmallIE::TI50(_) => Err(IEConversionError),
            SmallIE::TI112(_) => Err(IEConversionError),
        }
    }
}

/// The double-point boolean rule: reading a double point as a boolean
/// succeeds exactly for the plain off and on states, giving false and
/// true, and fails for both indeterminate encodings.
pub proof fn lemma_double_point_bool(v: M_DP_NA_1)
    ensures
        spec_to_bool(SmallIE::TI3(v)) == {
            let d = dpi_of_bits(bits_get(v.value.raw.0, 0, 2));
            if d == DPI::Off {
                Some(false)
            } else if d == DPI::On {
                Some(true)
            } else {
                None::<bool>
            }
        },
        (dpi_of_bits(bits_get(v.value.raw.0, 0, 2)) == DPI::Indeterminate1 || dpi_of_bits(
            bits_get(v.value.raw.0, 0, 2),
        ) == DPI::Indeterminate2) <==> spec_to_bool(SmallIE::TI3(v)) is None,
{
}

impl M_SP_NA_1 {
    /// Updates this record from a union value: a single point copies, a
    /// double point derives the state and carries the quality byte; every
    /// other kind fails leaving the record unchanged.
    pub fn try_update_from(&mut self, value: SmallIE) -> (r: Result<(), IEConversionError>)
        ensures
            r is Ok <==> (value is TI1 || value is TI3),
            *final(self) == match value {
                SmallIE::TI1(s) => s,
                SmallIE::TI3(s) => spec_single_of_double(s),
                _ => *old(self),
            },
    {
        match value {
            SmallIE::TI1(s) => {
                *self = s;
                Ok(())
            },
            SmallIE::TI3(s) => {
                let mut siq = SIQ { raw: s.value.raw };
                let on = s.value.dpi().to_u8() == 2;
                siq.set_spi(on);
                *self = M_SP_NA_1 { value: siq };
                Ok(())
            },
            _ => Err(IEConversionError),
        }
    }
}

impl M_DP_NA_1 {
    /// Updates this record from a union value: a double point copies, a
    /// single point derives the state and carries the quality byte; every
    /// other kind fails leaving the record unchanged.
    pub fn try_update_from(&mut self, value: SmallIE) -> (r: Result<(), IEConversionError>)
        ensures
            r is Ok <==> (value is TI1 || value is TI3),
            *final(self) == match value {
                SmallIE::TI3(s) => s,
                SmallIE::TI1(s) => spec_double_of_single(s),
                _ => *old(self),
            },
    {
        match value {
            SmallIE::TI3(s) => {
                *self = s;
                Ok(())
            },
            SmallIE::TI1(s) => {
                let mut diq = DIQ { raw: s.value.raw };
                let state: DPI = if s.value.spi() {
                    DPI::On
                } else {
                    DPI::Off
                };
                diq.set_dpi(state);
                *self = M_DP_NA_1 { value: diq };
                Ok(())
            },
            _ => Err(IEConversionError),
        }
    }

    /// The double point with the given 2-bit state on an otherwise zero
    /// quality byte; fails for values above 3.
    pub fn try_from_u8(value: u8) -> (r: Result<Self, IEConversionError>)
        ensures
            r is Ok <==> value < 4,
            r matches Ok(m) ==> m.value.raw.0 == value,
    {
        match DPI::try_from_u8(value) {
            Some(state) => {
                let mut diq = DIQ { raw: RawQualityDescriptor(0) };
                diq.set_dpi(state);
                proof {
                    let v = value;
                    assert(bits_set(0u8, 0, 2, v) == v) by (bit_vector)
                        requires
                            v < 4,
                    ;
                }
                Ok(M_DP_NA_1 { value: diq })
            },
            None => Err(IEConversionError),
        }
    }

    /// The raw ordinal of this record's double-point state.
    pub fn to_u32(&self) -> (r: u32)
        ensures
            r == bits_get(self.value.raw.0, 0, 2) as u32,
    {
        proof {
            crate::measurement::lemma_dpi_field_bound(self.value.raw.0);
            crate::measurement::lemma_dpi_bits_round_trip(bits_get(self.value.raw.0, 0, 2));
        }
        self.value.dpi().to_u8() as u32
    }
}

impl M_ME_NB_1 {
    /// Updates this record from a union value of the same kind; any other
    /// kind fails leaving the record unchanged.
    pub fn try_update_from(&mut self, value: SmallIE) -> (r: Result<(), IEConversionError>)
        ensures
            r is Ok <==> value is TI11,
            *final(self) == match value {
                SmallIE::TI11(s) => s,
                _ => *old(self),
            },
    {
        match value {
            SmallIE::TI11(s) => {
                *self = s;
                Ok(())
            },
            _ => Err(IEConversionError),
        }
    }
}

impl M_ME_NE_1 {
    /// Updates this record from a union value of the same kind; any other
    /// kind fails leaving the record unchanged.
    pub fn try_update_from(&mut self, value: SmallIE) -> (r: Result<(), IEConversionError>)
        ensures
            r is Ok <==> value is TI13,
            *final(self) == match value {
                SmallIE::TI13(s) => s,
                _ => *old(self),
            },
    {
        match value {
            SmallIE::TI13(s) => {
                *self = s;
                Ok(())
            },
            _ => Err(IEConversionError),
        }
    }
}

impl C_SC_NA_1 {
    /// Updates this record from a union value of the same kind; any other
    /// kind fails leaving the record unchanged.
    pub fn try_update_from(&mut self, value: SmallIE) -> (r: Result<(), IEConversionError>)
        ensures
            r is Ok <==> value is TI45,
            *final(self) == match value {
                SmallIE::TI45(s) => s,
                _ => *old(self),
            },
    {
        match value {
            SmallIE::TI45(s) => {
                *self = s;
                Ok(())
            },
            _ => Err(IEConversionError),
        }
    }
}

impl C_SE_NB_1 {
    /// Updates this record from a union value of the same kind; any other
    /// kind fails leaving the record unchanged.
    pub fn try_update_from(&mut self, value: SmallIE) -> (r: Result<(), IEConversionError>)
        ensures
            r is Ok <==> value is TI49,
            *final(self) == match value {
                SmallIE::TI49(s) => s,
                _ => *old(self),
            },
    {
        match value {
            SmallIE::TI49(s) => {
                *self = s;
                Ok(())
            },
            _ => Err(IEConversionError),
        }
    }
}

impl C_SE_NC_1 {
    /// Updates this record from a union value of the same kind; any other
    /// kind fails leaving the record unchanged.
    pub fn try_update_from(&mut self, value: SmallIE) -> (r: Result<(), IEConversionError>)
        ensures
            r is Ok <==> value is TI50,
            *final(self) == match value {
                SmallIE::TI50(s) => s,
                _ => *old(self),
            },
    {
        match value {
            SmallIE::TI50(s) => {
                *self = s;
                Ok(())
            },
            _ => Err(IEConversionError),
        }
    }
}

impl P_ME_NC_1 {
    /// Updates this record from a union value of the same kind; any other
    /// kind fails leaving the record unchanged.
    pub fn try_update_from(&mut self, value: SmallIE) -> (r: Result<(), IEConversionError>)
        ensures
            r is Ok <==> value is TI112,
            *final(self) == match value {
                SmallIE::TI112(s) => s,
                _ => *old(self),
            },
    {
        match value {
            SmallIE::TI112(s) => {
                *self = s;
                Ok(())
            },
            _ => Err(IEConversionError),
        }
    }
}

impl TI136 {
    /// Updates this record from a union value of the same kind; any other
    /// kind fails leaving the record unchanged.
    pub fn try_update_from(&mut self, value: SmallIE) -> (r: Result<(), IEConversionError>)
        ensures
            r is Ok <==> value is TI136,
            *final(self) == match value {
                SmallIE::TI136(s) => s,
                _ => *old(self),
            },
    {
        match value {
            SmallIE::TI136(s) => {
                *self = s;
                Ok(())
            },
            _ => Err(IEConversionError),
        }
    }
}

impl TI137 {
    /// Updates this record from a union value of the same kind; any other
    /// kind fails leaving the record unchanged.
    pub fn try_update_from(&mut self, value: SmallIE) -> (r: Result<(), IEConversionError>)
        ensures
            r is Ok <==> value is TI137,
            *final(self) == match value {
                SmallIE::TI137(s) => s,
                _ => *old(self),
            },
    {
        match value {
            SmallIE::TI137(s) => {
                *self = s;
                Ok(())
            },
            _ => Err(IEConversionError),
        }
    }
}

impl TI138 {
    /// Updates this record from a union value of the same kind; any other
    /// kind fails leaving the record unchanged.
    pub fn try_update_from(&mut self, value: SmallIE) -> (r: Result<(), IEConversionError>)
        ensures
            r is Ok <==> value is TI138,
            *final(self) == match value {
                SmallIE::TI138(s) => s,
                _ => *old(self),
            },
    {
        match value {
            SmallIE::TI138(s) => {
                *self = s;
                Ok(())
            },
            _ => Err(IEConversionError),
        }
    }
}

impl TI139 {
    /// Updates this record from a union value of the same kind; any other
    /// kind fails leaving the record unchanged.
    pub fn try_update_from(&mut self, value: SmallIE) -> (r: Result<(), IEConversionError>)
        ensures
            r is Ok <==> value is TI139,
            *final(self) == match value {
                SmallIE::TI139(s) => s,
                _ => *old(self),
            },
    {
        match value {
            SmallIE::TI139(s) => {
                *self = s;
                Ok(())
            },
            _ => Err(IEConversionError),
        }
    }
}

impl TI200 {
    /// Updates this record from a union value of the same kind; any other
    /// kind fails leaving the record unchanged.
    pub fn try_update_from(&mut self, value: SmallIE) -> (r: Result<(), IEConversionError>)
        ensures
            r is Ok <==> value is TI200,
            *final(self) == match value {
                SmallIE::TI200(s) => s,
                _ => *old(self),
            },
    {
        match value {
            SmallIE::TI200(s) => {
                *self = s;
                Ok(())
            },
            _ => Err(IEConversionError),
        }
    }
}

impl TI201 {
    /// Updates this record from a union value of the same kind; any other
    /// kind fails leaving the record unchanged.
    pub fn try_update_from(&mut self, value: SmallIE) -> (r: Result<(), IEConversionError>)
        ensures
            r is Ok <==> value is TI201,
            *final(self) == match value {
                SmallIE::TI201(s) => s,
                _ => *old(self),
            },
    {
        match value {
            SmallIE::TI201(s) => {
                *self = s;
                Ok(())
            },
            _ => Err(IEConversionError),
        }
    }
}

impl TI202 {
    /// Updates this record from a union value of the same kind; any other
    /// kind fails leaving the record unchanged.
    pub fn try_update_from(&mut self, value: SmallIE) -> (r: Result<(), IEConversionError>)
        ensures
            r is Ok <==> value is TI202,
            *final(self) == match value {
                SmallIE::TI202(s) => s,
                _ => *old(self),
            },
    {
        match value {
            SmallIE::TI202(s) => {
                *self = s;
                Ok(())
            },
            _ => Err(IEConversionError),
        }
    }
}

impl TI203 {
    /// Updates this record from a union value of the same kind; any other
    /// kind fails leaving the record unchanged.
    pub fn try_update_from(&mut self, value: SmallIE) -> (r: Result<(), IEConversionError>)
        ensures
            r is Ok <==> value is TI203,
            *final(self) == match value {
                SmallIE::TI203(s) => s,
                _ => *old(self),
            },
    {
        match value {
            SmallIE::TI203(s) => {
                *self = s;
                Ok(())
            },
            _ => Err(IEConversionError),
        }
    }
}

} // verus!
