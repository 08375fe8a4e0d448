//! The tagged information-element union: a closed, type-code-discriminated
//! union over the catalog records, with default-by-type-code construction,
//! byte-exact payload encoding and decoding, and quality-byte access.
//!
//! Every operation is specified against [`payload`], the little-endian
//! wire encoding of the active record's fields, and [`decode_payload`],
//! its inverse.

#![allow(non_camel_case_types)]

use vstd::prelude::*;

use crate::command::{C_SC_NA_1, C_SE_NB_1, C_SE_NC_1, QOS, SCO, TI200, TI201, TI202, TI203};
use crate::measurement::{
    DIQ, M_DP_NA_1, M_ME_NB_1, M_ME_NE_1, M_SP_NA_1, QDS, SIQ, TI136, TI137, TI138, TI139,
};
use crate::parameter::{P_ME_NC_1, QPM};
use crate::qds::RawQualityDescriptor;
use crate::wire::{
    i16_from_bits, i16_to_bits, i32_from_bits, i32_to_bits, i64_from_bits, i64_to_bits,
    i16_of_u16, i32_of_u32, i64_of_u64, push_u16_le, push_u32_le, push_u64_le, read_u16_le,
    read_u32_le, read_u64_le, u16_from_le, u16_le, u16_of_i16, u32_from_le, u32_le, u32_of_i32,
    u64_from_le, u64_le, u64_of_i64,
};

verus! {

/// TI1 is the single-point information record.
pub type TI1 = M_SP_NA_1;

/// TI3 is the double-point information record.
pub type TI3 = M_DP_NA_1;

/// TI11 is the scaled measured value record.
pub type TI11 = M_ME_NB_1;

/// TI13 is the short floating point measured value record.
pub type TI13 = M_ME_NE_1;

/// TI45 is the single command record.
pub type TI45 = C_SC_NA_1;

/// TI49 is the scaled set-point command record.
pub type TI49 = C_SE_NB_1;

/// TI50 is the short floating point set-point command record.
pub type TI50 = C_SE_NC_1;

/// TI112 is the measured-value parameter record.
pub type TI112 = P_ME_NC_1;

/// The error returned when a destination buffer is shorter than the bytes
/// to be copied into it.
#[derive(Debug, Clone, Copy, PartialEq, Eq)]
pub struct BufferTooSmall;

/// The closed union over the catalog: exactly one record is active, and
/// its kind is the union's type code.
#[derive(Debug, Clone, Copy, PartialEq)]
pub enum SmallIE {
    TI1(M_SP_NA_1),
    TI3(M_DP_NA_1),
    TI11(M_ME_NB_1),
    TI13(M_ME_NE_1),
    TI45(C_SC_NA_1),
    TI49(C_SE_NB_1),
    TI50(C_SE_NC_1),
    TI112(P_ME_NC_1),
    TI136(TI136),
    TI137(TI137),
    TI138(TI138),
    TI139(TI139),
    TI200(TI200),
    TI201(TI201),
    TI202(TI202),
    TI203(TI203),
}

/// True when `code` is one of the declared catalog type codes.
pub open spec fn is_catalog_code(code: u8) -> bool {
    ||| code == 1
    ||| code == 3
    ||| code == 11
    ||| code == 13
    ||| code == 45
    ||| code == 49
    ||| code == 50
    ||| code == 112
    ||| code == 136
    ||| code == 137
    ||| code == 138
    ||| code == 139
    ||| code == 200
    ||| code == 201
    ||| code == 202
    ||| code == 203
}

/// The type code of the active record.
pub open spec fn spec_typecode(ie: SmallIE) -> u8 {
    match ie {
        SmallIE::TI1(_) => 1,
        SmallIE::TI3(_) => 3,
        SmallIE::TI11(_) => 11,
        SmallIE::TI13(_) => 13,
        SmallIE::TI45(_) => 45,
        SmallIE::TI49(_) => 49,
        SmallIE::TI50(_) => 50,
        SmallIE::TI112(_) => 112,
        SmallIE::TI136(_) => 136,
        SmallIE::TI137(_) => 137,
        SmallIE::TI138(_) => 138,
        SmallIE::TI139(_) => 139,
        SmallIE::TI200(_) => 200,
        SmallIE::TI201(_) => 201,
        SmallIE::TI202(_) => 202,
        SmallIE::TI203(_) => 203,
    }
}

/// The payload size in bytes of a catalog member, and 0 for a code outside
/// the catalog.
pub open spec fn spec_size_for_typecode(code: u8) -> usize {
    if code == 1 || code == 3 || code == 45 {
        1
    } else if code == 11 || code == 49 {
        3
    } else if code == 13 || code == 50 || code == 112 || code == 136 || code == 137 || code == 200
        || code == 201 {
        5
    } else if code == 138 || code == 139 || code == 202 || code == 203 {
        9
    } else {
        0
    }
}

/// The zeroed instance of the catalog member with the given type code.
pub open spec fn spec_default_ie(code: u8) -> SmallIE
    recommends
        is_catalog_code(code),
{
    if code == 1 {
        SmallIE::TI1(M_SP_NA_1 { value: SIQ { raw: RawQualityDescriptor(0) } })
    } else if code == 3 {
        SmallIE::TI3(M_DP_NA_1 { value: DIQ { raw: RawQualityDescriptor(0) } })
    } else if code == 11 {
        SmallIE::TI11(M_ME_NB_1 { value: 0, qds: QDS { raw: RawQualityDescriptor(0) } })
    } else if code == 13 {
        SmallIE::TI13(M_ME_NE_1 { value: 0, qds: QDS { raw: RawQualityDescriptor(0) } })
    } else if code == 45 {
        SmallIE::TI45(C_SC_NA_1 { value: SCO(0) })
    } else if code == 49 {
        SmallIE::TI49(C_SE_NB_1 { value: 0, qos: QOS(0) })
    } else if code == 50 {
        SmallIE::TI50(C_SE_NC_1 { value: 0, qos: QOS(0) })
    } else if code == 112 {
        SmallIE::TI112(P_ME_NC_1 { value: 0, qpm: QPM(0) })
    } else if code == 136 {
        SmallIE::TI136(TI136 { value: 0, qds: QDS { raw: RawQualityDescriptor(0) } })
    } else if code == 137 {
        SmallIE::TI137(TI137 { value: 0, qds: QDS { raw: RawQualityDescriptor(0) } })
    } else if code == 138 {
        SmallIE::TI138(TI138 { value: 0, qds: QDS { raw: RawQualityDescriptor(0) } })
    } else if code == 139 {
        SmallIE::TI139(TI139 { value: 0, qds: QDS { raw: RawQualityDescriptor(0) } })
    } else if code == 200 {
        SmallIE::TI200(TI200 { value: 0, qos: QOS(0) })
    } else if code == 201 {
        SmallIE::TI201(TI201 { value: 0, qos: QOS(0) })
    } else if code == 202 {
        SmallIE::TI202(TI202 { value: 0, qos: QOS(0) })
    } else {
        SmallIE::TI203(TI203 { value: 0, qos: QOS(0) })
    }
}

/// The little-endian wire encoding of the active record's fields, without
/// the type code byte.
pub open spec fn payload(ie: SmallIE) -> Seq<u8> {
    match ie {
        SmallIE::TI1(v) => seq![v.value.raw.0],
        SmallIE::TI3(v) => seq![v.value.raw.0],
        SmallIE::TI11(v) => u16_le(u16_of_i16(v.value)) + seq![v.qds.raw.0],
        SmallIE::TI13(v) => u32_le(v.value) + seq![v.qds.raw.0],
        SmallIE::TI45(v) => seq![v.value.0],
        SmallIE::TI49(v) => u16_le(u16_of_i16(v.value)) + seq![v.qos.0],
        SmallIE::TI50(v) => u32_le(v.value) + seq![v.qos.0],
        SmallIE::TI112(v) => u32_le(v.value) + seq![v.qpm.0],
        SmallIE::TI136(v) => u32_le(v.value) + seq![v.qds.raw.0],
        SmallIE::TI137(v) => u32_le(u32_of_i32(v.value)) + seq![v.qds.raw.0],
        SmallIE::TI138(v) => u64_le(v.value) + seq![v.qds.raw.0],
        SmallIE::TI139(v) => u64_le(u64_of_i64(v.value)) + seq![v.qds.raw.0],
        SmallIE::TI200(v) => u32_le(v.value) + seq![v.qos.0],
        SmallIE::TI201(v) => u32_le(u32_of_i32(v.value)) + seq![v.qos.0],
        SmallIE::TI202(v) => u64_le(v.value) + seq![v.qos.0],
        SmallIE::TI203(v) => u64_le(u64_of_i64(v.value)) + seq![v.qos.0],
    }
}

/// The catalog member of type `code` whose fields are read little-endian
/// from the start of `b`.
pub open spec fn decode_payload(code: u8, b: Seq<u8>) -> SmallIE
    recommends
        is_catalog_code(code),
        b.len() >= spec_size_for_typecode(code),
{
    if code == 1 {
        SmallIE::TI1(M_SP_NA_1 { value: SIQ { raw: RawQualityDescriptor(b[0]) } })
    } else if code == 3 {
        SmallIE::TI3(M_DP_NA_1 { value: DIQ { raw: RawQualityDescriptor(b[0]) } })
    } else if code == 11 {
        SmallIE::TI11(
            M_ME_NB_1 {
                value: i16_of_u16(u16_from_le(b[0], b[1])),
                qds: QDS { raw: RawQualityDescriptor(b[2]) },
            },
        )
    } else if code == 13 {
        SmallIE::TI13(
            M_ME_NE_1 {
                value: u32_from_le(b[0], b[1], b[2], b[3]),
                qds: QDS { raw: RawQualityDescriptor(b[4]) },
            },
        )
    } else if code == 45 {
        SmallIE::TI45(C_SC_NA_1 { value: SCO(b[0]) })
    } else if code == 49 {
        SmallIE::TI49(C_SE_NB_1 { value: i16_of_u16(u16_from_le(b[0], b[1])), qos: QOS(b[2]) })
    } else if code == 50 {
        SmallIE::TI50(C_SE_NC_1 { value: u32_from_le(b[0], b[1], b[2], b[3]), qos: QOS(b[4]) })
    } else if code == 112 {
        SmallIE::TI112(P_ME_NC_1 { value: u32_from_le(b[0], b[1], b[2], b[3]), qpm: QPM(b[4]) })
    } else if code == 136 {
        SmallIE::TI136(
            TI136 {
                value: u32_from_le(b[0], b[1], b[2], b[3]),
                qds: QDS { raw: RawQualityDescriptor(b[4]) },
            },
        )
    } else if code == 137 {
        SmallIE::TI137(
            TI137 {
                value: i32_of_u32(u32_from_le(b[0], b[1], b[2], b[3])),
                qds: QDS { raw: RawQualityDescriptor(b[4]) },
            },
        )
    } else if code == 138 {
        SmallIE::TI138(
            TI138 {
                value: u64_from_le(b[0], b[1], b[2], b[3], b[4], b[5], b[6], b[7]),
                qds: QDS { raw: RawQualityDescriptor(b[8]) },
            },
        )
    } else if code == 139 {
        SmallIE::TI139(
            TI139 {
                value: i64_of_u64(u64_from_le(b[0], b[1], b[2], b[3], b[4], b[5], b[6], b[7])),
                qds: QDS { raw: RawQualityDescriptor(b[8]) },
            },
        )
    } else if code == 200 {
        SmallIE::TI200(TI200 { value: u32_from_le(b[0], b[1], b[2], b[3]), qos: QOS(b[4]) })
    } else if code == 201 {
        SmallIE::TI201(
            TI201 { value: i32_of_u32(u32_from_le(b[0], b[1], b[2], b[3])), qos: QOS(b[4]) },
        )
    } else if code == 202 {
        SmallIE::TI202(
            TI202 { value: u64_from_le(b[0], b[1], b[2], b[3], b[4], b[5], b[6], b[7]), qos: QOS(b[8]) },
        )
    } else {
        SmallIE::TI203(
            TI203 {
                value: i64_of_u64(u64_from_le(b[0], b[1], b[2], b[3], b[4], b[5], b[6], b[7])),
                qos: QOS(b[8]),
            },
        )
    }
}

/// The payload of every union value is as long as the size table says for
/// its type code, and that is between 1 and 9 bytes.
pub proof fn lemma_payload_len(ie: SmallIE)
    ensures
        payload(ie).len() == spec_size_for_typecode(spec_typecode(ie)),
        1 <= payload(ie).len() <= 9,
        is_catalog_code(spec_typecode(ie)),
{
}

/// Decoding reads only the first `spec_size_for_typecode(code)` bytes, so
/// any extension of the payload decodes to the same value.
pub proof fn lemma_decode_prefix(code: u8, b1: Seq<u8>, b2: Seq<u8>)
    requires
        is_catalog_code(code),
        b1.len() >= spec_size_for_typecode(code),
        b2.len() >= spec_size_for_typecode(code),
        forall|i: int| 0 <= i < spec_size_for_typecode(code) ==> b1[i] == b2[i],
    ensures
        decode_payload(code, b1) == decode_payload(code, b2),
{
}

/// Decoding a value's payload under its own type code yields the value
/// back: the encoding is lossless.
#[verifier::rlimit(100)]
pub proof fn lemma_payload_round_trip(ie: SmallIE)
    ensures
        decode_payload(spec_typecode(ie), payload(ie)) == ie,
{
    crate::wire::lemma_le_round_trip();
    crate::wire::lemma_signed_bits_round_trip();
}

impl Default for SmallIE {
    /// The default union value: the zeroed single-point status record.
    fn default() -> (r: Self)
        ensures
            r == spec_default_ie(1),
    {
        SmallIE::TI1(M_SP_NA_1 { value: SIQ { raw: RawQualityDescriptor(0) } })
    }
}

impl SmallIE {
    /// The type code of the active record.
    pub fn typecode(&self) -> (r: u8)
        ensures
            r == spec_typecode(*self),
    {
        match self {
            SmallIE::TI1(_) => 1,
            SmallIE::TI3(_) => 3,
            SmallIE::TI11(_) => 11,
            SmallIE::TI13(_) => 13,
            SmallIE::TI45(_) => 45,
            SmallIE::TI49(_) => 49,
            SmallIE::TI50(_) => 50,
            SmallIE::TI112(_) => 112,
            SmallIE::TI136(_) => 136,
            SmallIE::TI137(_) => 137,
            SmallIE::TI138(_) => 138,
            SmallIE::TI139(_) => 139,
            SmallIE::TI200(_) => 200,
            SmallIE::TI201(_) => 201,
            SmallIE::TI202(_) => 202,
            SmallIE::TI203(_) => 203,
        }
    }

    /// Returns the zeroed instance of the catalog member with the given
    /// type code, or `None` exactly when the code is not in the catalog;
    /// the result's type code always equals the requested one.
    pub fn default_for_typecode(typecode: u8) -> (r: Option<Self>)
        ensures
            r is Some <==> is_catalog_code(typecode),
            r matches Some(v) ==> v == spec_default_ie(typecode) && spec_typecode(v) == typecode,
    {
        match typecode {
            1 => Some(SmallIE::TI1(M_SP_NA_1 { value: SIQ { raw: RawQualityDescriptor(0) } })),
            3 => Some(SmallIE::TI3(M_DP_NA_1 { value: DIQ { raw: RawQualityDescriptor(0) } })),
            11 => Some(
                SmallIE::TI11(M_ME_NB_1 { value: 0, qds: QDS { raw: RawQualityDescriptor(0) } }),
            ),
            13 => Some(
                SmallIE::TI13(M_ME_NE_1 { value: 0, qds: QDS { raw: RawQualityDescriptor(0) } }),
            ),
            45 => Some(SmallIE::TI45(C_SC_NA_1 { value: SCO(0) })),
            49 => Some(SmallIE::TI49(C_SE_NB_1 { value: 0, qos: QOS(0) })),
            50 => Some(SmallIE::TI50(C_SE_NC_1 { value: 0, qos: QOS(0) })),
            112 => Some(SmallIE::TI112(P_ME_NC_1 { value: 0, qpm: QPM(0) })),
            136 => Some(
                SmallIE::TI136(TI136 { value: 0, qds: QDS { raw: RawQualityDescriptor(0) } }),
            ),
            137 => Some(
                SmallIE::TI137(TI137 { value: 0, qds: QDS { raw: RawQualityDescriptor(0) } }),
            ),
            138 => Some(
                SmallIE::TI138(TI138 { value: 0, qds: QDS { raw: RawQualityDescriptor(0) } }),
            ),
            139 => Some(
                SmallIE::TI139(TI139 { value: 0, qds: QDS { raw: RawQualityDescriptor(0) } }),
            ),
            200 => Some(SmallIE::TI200(TI200 { value: 0, qos: QOS(0) })),
            201 => Some(SmallIE::TI201(TI201 { value: 0, qos: QOS(0) })),
            202 => Some(SmallIE::TI202(TI202 { value: 0, qos: QOS(0) })),
            203 => Some(SmallIE::TI203(TI203 { value: 0, qos: QOS(0) })),
            _ => None,
        }
    }

    /// The payload size in bytes of the catalog member with the given type
    /// code, or 0 for a code outside the catalog.
    pub fn size_for_typecode(typecode: u8) -> (r: usize)
        ensures
            r == spec_size_for_typecode(typecode),
            r != 0 <==> is_catalog_code(typecode),
    {
        match typecode {
            1 | 3 | 45 => 1,
            11 | 49 => 3,
            13 | 50 | 112 | 136 | 137 | 200 | 201 => 5,
            138 | 139 | 202 | 203 => 9,
            _ => 0,
        }
    }

    /// The in-memory alignment of every catalog record is one byte, so the
    /// records pack without padding; 0 for a code outside the catalog.
    pub fn align_for_typecode(typecode: u8) -> (r: usize)
        ensures
            r == if is_catalog_code(typecode) {
                1usize
            } else {
                0usize
            },
    {
        if SmallIE::size_for_typecode(typecode) != 0 {
            1
        } else {
            0
        }
    }

    /// The payload length in bytes of the active record.
    pub fn current_size(&self) -> (r: usize)
        ensures
            r == payload(*self).len(),
    {
        proof {
            lemma_payload_len(*self);
        }
        SmallIE::size_for_typecode(self.typecode())
    }

    /// The payload bytes of the active record, without the type code
    /// byte: as many bytes as the active variant's size.
    pub fn as_bytes(&self) -> (r: Vec<u8>)
        ensures
            r@ == payload(*self),
    {
        let mut out: Vec<u8> = Vec::new();
        self.encode_payload(&mut out);
        out
    }

    /// Appends the payload encoding of the active record to `out`.
    pub fn encode_payload(&self, out: &mut Vec<u8>)
        ensures
            final(out)@ == old(out)@ + payload(*self),
    {
        match self {
            SmallIE::TI1(v) => {
                out.push(v.value.raw.0);
                assert(final(out)@ =~= old(out)@ + payload(*self));
            },
            SmallIE::TI3(v) => {
                out.push(v.value.raw.0);
                assert(final(out)@ =~= old(out)@ + payload(*self));
            },
            SmallIE::TI11(v) => {
                push_u16_le(out, i16_to_bits(v.value));
                out.push(v.qds.raw.0);
                assert(final(out)@ =~= old(out)@ + payload(*self));
            },
            SmallIE::TI13(v) => {
                push_u32_le(out, v.value);
                out.push(v.qds.raw.0);
                assert(final(out)@ =~= old(out)@ + payload(*self));
            },
            SmallIE::TI45(v) => {
                out.push(v.value.0);
                assert(final(out)@ =~= old(out)@ + payload(*self));
            },
            SmallIE::TI49(v) => {
                push_u16_le(out, i16_to_bits(v.value));
                out.push(v.qos.0);
                assert(final(out)@ =~= old(out)@ + payload(*self));
            },
            SmallIE::TI50(v) => {
                push_u32_le(out, v.value);
                out.push(v.qos.0);
                assert(final(out)@ =~= old(out)@ + payload(*self));
            },
            SmallIE::TI112(v) => {
                push_u32_le(out, v.value);
                out.push(v.qpm.0);
                assert(final(out)@ =~= old(out)@ + payload(*self));
            },
            SmallIE::TI136(v) => {
                push_u32_le(out, v.value);
                out.push(v.qds.raw.0);
                assert(final(out)@ =~= old(out)@ + payload(*self));
            },
            SmallIE::TI137(v) => {
                push_u32_le(out, i32_to_bits(v.value));
                out.push(v.qds.raw.0);
                assert(final(out)@ =~= old(out)@ + payload(*self));
            },
            SmallIE::TI138(v) => {
                push_u64_le(out, v.value);
                out.push(v.qds.raw.0);
                assert(final(out)@ =~= old(out)@ + payload(*self));
            },
            SmallIE::TI139(v) => {
                push_u64_le(out, i64_to_bits(v.value));
                out.push(v.qds.raw.0);
                assert(final(out)@ =~= old(out)@ + payload(*self));
            },
            SmallIE::TI200(v) => {
                push_u32_le(out, v.value);
                out.push(v.qos.0);
                assert(final(out)@ =~= old(out)@ + payload(*self));
            },
            SmallIE::TI201(v) => {
                push_u32_le(out, i32_to_bits(v.value));
                out.push(v.qos.0);
                assert(final(out)@ =~= old(out)@ + payload(*self));
            },
            SmallIE::TI202(v) => {
                push_u64_le(out, v.value);
                out.push(v.qos.0);
                assert(final(out)@ =~= old(out)@ + payload(*self));
            },
            SmallIE::TI203(v) => {
                push_u64_le(out, i64_to_bits(v.value));
                out.push(v.qos.0);
                assert(final(out)@ =~= old(out)@ + payload(*self));
            },
        }
    }

    /// Copies the payload encoding of the active record into the start of
    /// `buf`, leaving the rest of `buf` unchanged; fails, changing
    /// nothing, exactly when `buf` is shorter than the payload.
    pub fn copy_to_slice(&self, buf: &mut Vec<u8>) -> (r: Result<(), BufferTooSmall>)
        ensures
            r is Ok <==> payload(*self).len() <= old(buf)@.len(),
            r is Ok ==> final(buf)@ =~= payload(*self) + old(buf)@.skip(payload(*self).len() as int),
            r is Err ==> final(buf)@ == old(buf)@,
            final(buf)@.len() == old(buf)@.len(),
    {
        proof {
            lemma_payload_len(*self);
        }
        let n = self.current_size();
        if buf.len() < n {
            return Err(BufferTooSmall);
        }
        let mut bytes: Vec<u8> = Vec::new();
        self.encode_payload(&mut bytes);
        let mut i: usize = 0;
        while i < n
            invariant
                i <= n,
                n == payload(*self).len(),
                bytes@ == payload(*self),
                buf@.len() == old(buf)@.len() >= n,
                forall|j: int| 0 <= j < i ==> buf@[j] == payload(*self)[j],
                forall|j: int| i <= j < buf@.len() ==> buf@[j] == old(buf)@[j],
            decreases n - i,
        {
            let b = bytes[i];
            buf[i] = b;
            i = i + 1;
        }
        Ok(())
    }

    /// Decodes the catalog member with type code `code` from the start of
    /// `b`: `None` exactly when the code is outside the catalog or `b` is
    /// shorter than that member's payload.
    pub fn from_payload(code: u8, b: &[u8]) -> (r: Option<SmallIE>)
        ensures
            r is Some <==> is_catalog_code(code) && b@.len() >= spec_size_for_typecode(code),
            r matches Some(v) ==> v == decode_payload(code, b@) && spec_typecode(v) == code,
    {
        let n = b.len();
        let need = SmallIE::size_for_typecode(code);
        if need == 0 || n < need {
            return None;
        }
        match code {
            1 => Some(
                SmallIE::TI1(M_SP_NA_1 { value: SIQ { raw: RawQualityDescriptor(b[0]) } }),
            ),
            3 => Some(
                SmallIE::TI3(M_DP_NA_1 { value: DIQ { raw: RawQualityDescriptor(b[0]) } }),
            ),
            11 => Some(
                SmallIE::TI11(
                    M_ME_NB_1 {
                        value: i16_from_bits(read_u16_le(b, 0)),
                        qds: QDS { raw: RawQualityDescriptor(b[2]) },
                    },
                ),
            ),
            13 => Some(
                SmallIE::TI13(
                    M_ME_NE_1 {
                        value: read_u32_le(b, 0),
                        qds: QDS { raw: RawQualityDescriptor(b[4]) },
                    },
                ),
            ),
            45 => Some(SmallIE::TI45(C_SC_NA_1 { value: SCO(b[0]) })),
            49 => Some(
                SmallIE::TI49(C_SE_NB_1 { value: i16_from_bits(read_u16_le(b, 0)), qos: QOS(b[2]) }),
            ),
            50 => Some(SmallIE::TI50(C_SE_NC_1 { value: read_u32_le(b, 0), qos: QOS(b[4]) })),
            112 => Some(SmallIE::TI112(P_ME_NC_1 { value: read_u32_le(b, 0), qpm: QPM(b[4]) })),
            136 => Some(
                SmallIE::TI136(
                    TI136 { value: read_u32_le(b, 0), qds: QDS { raw: RawQualityDescriptor(b[4]) } },
                ),
            ),
            137 => Some(
                SmallIE::TI137(
                    TI137 {
                        value: i32_from_bits(read_u32_le(b, 0)),
                        qds: QDS { raw: RawQualityDescriptor(b[4]) },
                    },
                ),
            ),
            138 => Some(
                SmallIE::TI138(
                    TI138 { value: read_u64_le(b, 0), qds: QDS { raw: RawQualityDescriptor(b[8]) } },
                ),
            ),
            139 => Some(
                SmallIE::TI139(
                    TI139 {
                        value: i64_from_bits(read_u64_le(b, 0)),
                        qds: QDS { raw: RawQualityDescriptor(b[8]) },
                    },
                ),
            ),
            200 => Some(SmallIE::TI200(TI200 { value: read_u32_le(b, 0), qos: QOS(b[4]) })),
            201 => Some(
                SmallIE::TI201(TI201 { value: i32_from_bits(read_u32_le(b, 0)), qos: QOS(b[4]) }),
            ),
            202 => Some(SmallIE::TI202(TI202 { value: read_u64_le(b, 0), qos: QOS(b[8]) })),
            _ => Some(
                SmallIE::TI203(TI203 { value: i64_from_bits(read_u64_le(b, 0)), qos: QOS(b[8]) }),
            ),
        }
    }

    /// The raw quality byte of the active record, for the record kinds
    /// that carry one; `None` for commands and parameters.
    pub fn try_get_qds(&self) -> (r: Option<RawQualityDescriptor>)
        ensures
            r == spec_try_get_qds(*self),
    {
        match self {
            SmallIE::TI1(ie) => Some(ie.value.raw),
            SmallIE::TI3(ie) => Some(ie.value.raw),
            SmallIE::TI11(ie) => Some(ie.qds.raw),
            SmallIE::TI13(ie) => Some(ie.qds.raw),
            SmallIE::TI136(ie) => Some(ie.qds.raw),
            SmallIE::TI137(ie) => Some(ie.qds.raw),
            SmallIE::TI138(ie) => Some(ie.qds.raw),
            SmallIE::TI139(ie) => Some(ie.qds.raw),
            SmallIE::TI45(_) => None,
            SmallIE::TI49(_) => None,
            SmallIE::TI50(_) => None,
            SmallIE::TI112(_) => None,
            SmallIE::TI200(_) => None,
            SmallIE::TI201(_) => None,
            SmallIE::TI202(_) => None,
            SmallIE::TI203(_) => None,
        }
    }

    /// Replaces the raw quality byte of the active record where it has
    /// one, returning whether it did; commands and parameters are left
    /// unchanged and report `false`.
    pub fn try_set_qds(&mut self, q: RawQualityDescriptor) -> (r: bool)
        ensures
            r == (spec_try_get_qds(*old(self)) is Some),
            *final(self) == spec_with_qds(*old(self), q),
    {
        let cur = *self;
        match cur {
            SmallIE::TI1(_) => {
                *self = SmallIE::TI1(M_SP_NA_1 { value: SIQ { raw: q } });
                true
            },
            SmallIE::TI3(_) => {
                *self = SmallIE::TI3(M_DP_NA_1 { value: DIQ { raw: q } });
                true
            },
            SmallIE::TI11(v) => {
                *self = SmallIE::TI11(M_ME_NB_1 { qds: QDS { raw: q }, ..v });
                true
            },
            SmallIE::TI13(v) => {
                *self = SmallIE::TI13(M_ME_NE_1 { qds: QDS { raw: q }, ..v });
                true
            },
            SmallIE::TI136(v) => {
                *self = SmallIE::TI136(TI136 { qds: QDS { raw: q }, ..v });
                true
            },
            SmallIE::TI137(v) => {
                *self = SmallIE::TI137(TI137 { qds: QDS { raw: q }, ..v });
                true
            },
            SmallIE::TI138(v) => {
                *self = SmallIE::TI138(TI138 { qds: QDS { raw: q }, ..v });
                true
            },
            SmallIE::TI139(v) => {
                *self = SmallIE::TI139(TI139 { qds: QDS { raw: q }, ..v });
                true
            },
            _ => false,
        }
    }
}

/// The raw quality byte of the active record, where the record kind has
/// one.
pub open spec fn spec_try_get_qds(ie: SmallIE) -> Option<RawQualityDescriptor> {
    match ie {
        SmallIE::TI1(v) => Some(v.value.raw),
        SmallIE::TI3(v) => Some(v.value.raw),
        SmallIE::TI11(v) => Some(v.qds.raw),
        SmallIE::TI13(v) => Some(v.qds.raw),
        SmallIE::TI136(v) => Some(v.qds.raw),
        SmallIE::TI137(v) => Some(v.qds.raw),
        SmallIE::TI138(v) => Some(v.qds.raw),
        SmallIE::TI139(v) => Some(v.qds.raw),
        _ => None,
    }
}

/// The union value with its quality byte replaced by `q` where the active
/// record carries one, and unchanged otherwise.
pub open spec fn spec_with_qds(ie: SmallIE, q: RawQualityDescriptor) -> SmallIE {
    match ie {
        SmallIE::TI1(v) => SmallIE::TI1(M_SP_NA_1 { value: SIQ { raw: q } }),
        SmallIE::TI3(v) => SmallIE::TI3(M_DP_NA_1 { value: DIQ { raw: q } }),
        SmallIE::TI11(v) => SmallIE::TI11(M_ME_NB_1 { qds: QDS { raw: q }, ..v }),
        SmallIE::TI13(v) => SmallIE::TI13(M_ME_NE_1 { qds: QDS { raw: q }, ..v }),
        SmallIE::TI136(v) => SmallIE::TI136(TI136 { qds: QDS { raw: q }, ..v }),
        SmallIE::TI137(v) => SmallIE::TI137(TI137 { qds: QDS { raw: q }, ..v }),
        SmallIE::TI138(v) => SmallIE::TI138(TI138 { qds: QDS { raw: q }, ..v }),
        SmallIE::TI139(v) => SmallIE::TI139(TI139 { qds: QDS { raw: q }, ..v }),
        _ => ie,
    }
}

} // verus!
