//! The flat byte encoding of a union value: a fixed-capacity buffer whose
//! first byte is the type code and whose remaining bytes hold the payload,
//! with unused trailing bytes zeroed on construction.
//!
//! Reinterpreting the buffer as a union value always goes through one
//! validated decoding path, shared by the by-value and by-reference
//! conversions, so an unknown first byte is a data error and never a
//! panic.

use vstd::prelude::*;

use crate::small_ie::{
    decode_payload, is_catalog_code, lemma_decode_prefix, lemma_payload_len,
    lemma_payload_round_trip, payload, spec_size_for_typecode, spec_typecode, SmallIE,
};

verus! {

/// The byte length of [`IEBuf`]: one type code byte plus the largest
/// payload in the catalog.
pub const IEBUF_LEN: usize = 10;

/// A fixed-capacity byte buffer holding the encoding of one union value,
/// or the all-zero terminator.
#[derive(Debug, Clone, Copy, PartialEq, Eq)]
pub struct IEBuf(pub [u8; IEBUF_LEN]);

/// The error returned when a buffer's first byte is not a catalog type
/// code.
#[derive(Debug, Clone, Copy, PartialEq, Eq, Default)]
pub struct IEDeserializationError;

/// The buffer encoding of a union value: the type code byte, the payload,
/// and zeros up to the buffer length.
pub open spec fn ie_encoding(ie: SmallIE) -> Seq<u8> {
    seq![spec_typecode(ie)] + payload(ie) + Seq::new(
        (IEBUF_LEN - 1 - payload(ie).len()) as nat,
        |i: int| 0u8,
    )
}

/// The union value encoded by a buffer: its first byte names the catalog
/// member and the following bytes hold the payload. `None` exactly when
/// the first byte is not a catalog type code.
pub open spec fn buf_decode(b: Seq<u8>) -> Option<SmallIE>
    recommends
        b.len() == IEBUF_LEN,
{
    if is_catalog_code(b[0]) {
        Some(decode_payload(b[0], b.skip(1)))
    } else {
        None
    }
}

/// The first byte of a union value's encoding is its type code.
pub proof fn lemma_first_byte_is_typecode(ie: SmallIE)
    ensures
        ie_encoding(ie)[0] == spec_typecode(ie),
        ie_encoding(ie).len() == IEBUF_LEN,
{
    lemma_payload_len(ie);
}

/// Encoding a union value into a buffer and decoding the buffer yields
/// the value back, whatever the value.
pub proof fn lemma_buf_round_trip(ie: SmallIE)
    ensures
        buf_decode(ie_encoding(ie)) == Some(ie),
{
    lemma_payload_len(ie);
    lemma_payload_round_trip(ie);
    let code = spec_typecode(ie);
    let rest = ie_encoding(ie).skip(1);
    assert(forall|i: int|
        0 <= i < spec_size_for_typecode(code) ==> rest[i] == payload(ie)[i]);
    lemma_decode_prefix(code, rest, payload(ie));
}

impl Default for IEBuf {
    /// The default buffer is the all-zero terminator.
    fn default() -> (r: Self)
        ensures
            r.0@ =~= Seq::new(IEBUF_LEN as nat, |i: int| 0u8),
    {
        IEBuf([0u8; IEBUF_LEN])
    }
}

impl IEBuf {
    /// The all-zero end-of-list sentinel; zero is not a catalog type code,
    /// so the terminator is never a valid encoding.
    pub fn terminator() -> (r: Self)
        ensures
            r.0@ =~= Seq::new(IEBUF_LEN as nat, |i: int| 0u8),
            !is_catalog_code(r.0@[0]),
    {
        IEBuf([0u8; IEBUF_LEN])
    }

    /// True exactly when the first byte is a catalog type code.
    pub fn is_valid(self) -> (r: bool)
        ensures
            r == is_catalog_code(self.0@[0]),
    {
        let code = self.0[0];
        SmallIE::size_for_typecode(code) != 0
    }

    /// Encodes a union value: the type code byte, then the payload, then
    /// zeros.
    pub fn from_ie(ie: SmallIE) -> (r: Self)
        ensures
            r.0@ == ie_encoding(ie),
            r.0@[0] == spec_typecode(ie),
    {
        proof {
            lemma_payload_len(ie);
        }
        let mut bytes: Vec<u8> = Vec::new();
        bytes.push(ie.typecode());
        ie.encode_payload(&mut bytes);
        let n = bytes.len();
        let mut arr: [u8; IEBUF_LEN] = [0u8; IEBUF_LEN];
        let mut i: usize = 0;
        while i < n
            invariant
                i <= n,
                n == 1 + payload(ie).len() <= IEBUF_LEN,
                bytes@ == seq![spec_typecode(ie)] + payload(ie),
                arr@.len() == IEBUF_LEN,
                forall|j: int| 0 <= j < i ==> arr@[j] == bytes@[j],
                forall|j: int| i <= j < IEBUF_LEN ==> arr@[j] == 0u8,
            decreases n - i,
        {
            let b = bytes[i];
            arr[i] = b;
            i = i + 1;
        }
        let r = IEBuf(arr);
        proof {
            assert(r.0@ =~= ie_encoding(ie));
        }
        r
    }

    /// Overwrites this buffer with the encoding of a union value.
    pub fn store_ie(&mut self, ie: SmallIE)
        ensures
            final(self).0@ == ie_encoding(ie),
    {
        *self = IEBuf::from_ie(ie);
    }

    /// Decodes the buffer as a union value: fails exactly when the first
    /// byte is not a catalog type code, whatever the trailing bytes hold.
    pub fn try_to_ie(&self) -> (r: Result<SmallIE, IEDeserializationError>)
        ensures
            r is Ok <==> is_catalog_code(self.0@[0]),
            r matches Ok(v) ==> Some(v) == buf_decode(self.0@),
    {
        let code = self.0[0];
        let s: &[u8] = vstd::array::array_as_slice(&self.0);
        let tail: &[u8] = vstd::slice::slice_subrange(s, 1, IEBUF_LEN);
        match SmallIE::from_payload(code, tail) {
            Some(v) => {
                proof {
                    assert(tail@ =~= self.0@.skip(1));
                }
                Ok(v)
            },
            None => Err(IEDeserializationError),
        }
    }
}

impl SmallIE {
    /// Decodes a buffer by value; the same validated path as the
    /// by-reference decoding.
    pub fn try_from_buf(value: IEBuf) -> (r: Result<SmallIE, IEDeserializationError>)
        ensures
            r is Ok <==> is_catalog_code(value.0@[0]),
            r matches Ok(v) ==> Some(v) == buf_decode(value.0@),
    {
        value.try_to_ie()
    }
}

} // verus!
