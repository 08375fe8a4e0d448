//! Common and object addresses: the two-byte common address with its
//! broadcast test, the three-byte information object address with its
//! unstructured 24-bit reading, and parsing of both from dot-separated
//! text.

use vstd::prelude::*;
use vstd::string::StringSliceAdditionalSpecFns;

verus! {

/// A two-byte common address of an exchange partner.
#[derive(Copy, Clone, Debug, PartialEq, Eq, PartialOrd, Ord, Default, Hash)]
pub struct CA(pub u8, pub u8);

/// A three-byte information object address.
#[derive(Copy, Clone, Debug, PartialEq, Eq, PartialOrd, Ord, Default, Hash)]
pub struct IOA(pub u8, pub u8, pub u8);

/// The error returned when dot-separated address text does not parse.
#[derive(Debug)]
pub struct ParseError;

/// True when `b` is an ASCII decimal digit.
pub open spec fn is_digit(b: u8) -> bool {
    0x30 <= b <= 0x39
}

/// The numeric value of an ASCII decimal digit.
pub open spec fn digit_val(b: u8) -> int {
    b - 0x30
}

/// One step at a time, left to right: the parse of dot-separated decimal
/// groups from position `i`, with `cur` the value and `cur_len` the digit
/// count of the group being read, and `acc` the groups already read. A
/// group must be nonempty and its value at most 255 when it closes, and a
/// group whose value has already passed 255 fails at the next digit.
pub open spec fn parse_rec(s: Seq<u8>, i: int, cur: int, cur_len: int, acc: Seq<u8>) -> Option<
    Seq<u8>,
>
    decreases s.len() - i,
{
    if i < 0 || i > s.len() {
        None
    } else if i == s.len() {
        if cur_len > 0 && cur <= 255 {
            Some(acc + seq![cur as u8])
        } else {
            None
        }
    } else if s[i] == 0x2eu8 {
        if cur_len > 0 && cur <= 255 {
            parse_rec(s, i + 1, 0, 0, acc + seq![cur as u8])
        } else {
            None
        }
    } else if is_digit(s[i]) {
        if cur > 255 {
            None
        } else {
            parse_rec(s, i + 1, cur * 10 + digit_val(s[i]), cur_len + 1, acc)
        }
    } else {
        None
    }
}

/// The parse of a whole byte string as exactly `n` dot-separated decimal
/// groups of at most 255 each.
pub open spec fn parse_dot_spec(s: Seq<u8>, n: int) -> Option<Seq<u8>> {
    match parse_rec(s, 0, 0, 0, Seq::empty()) {
        Some(vals) => if vals.len() == n {
            Some(vals)
        } else {
            None
        },
        None => None,
    }
}

/// Parses `src` as exactly `n` dot-separated decimal values of at most
/// 255 each: digits and dots only, no empty group, overflow rejected.
pub fn parse_dot_separated(src: &str, n: usize) -> (r: Result<Vec<u8>, ParseError>)
    ensures
        r is Ok <==> parse_dot_spec(src.spec_bytes(), n as int) is Some,
        r matches Ok(vals) ==> Some(vals@) == parse_dot_spec(src.spec_bytes(), n as int)
            && vals@.len() == n,
{
    let b: &[u8] = src.as_bytes();
    let len: usize = b.len();
    let mut i: usize = 0;
    let mut cur: u32 = 0;
    let mut cur_len: usize = 0;
    let mut acc: Vec<u8> = Vec::new();
    while i < len
        invariant
            i <= len,
            cur_len <= i,
            len == b@.len(),
            b@ == src.spec_bytes(),
            cur <= 2559,
            parse_rec(b@, 0, 0, 0, Seq::empty()) == parse_rec(
                b@,
                i as int,
                cur as int,
                cur_len as int,
                acc@,
            ),
        decreases len - i,
    {
        let c = *vstd::slice::slice_index_get(b, i);
        if c == 0x2eu8 {
            if cur_len > 0 && cur <= 255 {
                let ghost pre = acc@;
                acc.push(cur as u8);
                proof {
                    assert(acc@ =~= pre + seq![(cur as int) as u8]);
                }
                cur = 0;
                cur_len = 0;
            } else {
                return Err(ParseError);
            }
        } else if 0x30 <= c && c <= 0x39 {
            if cur > 255 {
                return Err(ParseError);
            }
            cur = cur * 10 + (c - 0x30) as u32;
            cur_len = cur_len + 1;
        } else {
            return Err(ParseError);
        }
        i = i + 1;
    }
    if cur_len > 0 && cur <= 255 {
        let ghost pre = acc@;
        acc.push(cur as u8);
        proof {
            assert(acc@ =~= pre + seq![(cur as int) as u8]);
        }
        if acc.len() == n {
            Ok(acc)
        } else {
            Err(ParseError)
        }
    } else {
        Err(ParseError)
    }
}

impl CA {
    /// True for the broadcast address, both bytes `0xff`.
    pub fn is_broadcast(&self) -> (r: bool)
        ensures
            r == (self.0 == 0xff && self.1 == 0xff),
    {
        self.0 == 0xff && self.1 == 0xff
    }

    /// True when this address is selected by `filter`: either the filter
    /// is the broadcast address or the two are equal.
    pub fn matches(&self, filter: Self) -> (r: bool)
        ensures
            r == ((filter.0 == 0xff && filter.1 == 0xff) || *self == filter),
    {
        filter.is_broadcast() || (self.0 == filter.0 && self.1 == filter.1)
    }
}

/// The unstructured 24-bit reading of an object address: its three bytes,
/// big end first.
pub open spec fn spec_unstructured(a: IOA) -> u32 {
    (a.0 * 0x10000 + a.1 * 0x100 + a.2) as u32
}

/// The object address whose unstructured reading is the low 24 bits of
/// `u`.
pub open spec fn spec_from_unstructured(u: u32) -> IOA {
    IOA(((u / 0x10000) % 0x100) as u8, ((u / 0x100) % 0x100) as u8, (u % 0x100) as u8)
}

impl IOA {
    /// The unstructured 24-bit reading of this address.
    pub fn as_unstructured(&self) -> (r: u32)
        ensures
            r == spec_unstructured(*self),
    {
        (self.0 as u32) * 0x10000 + (self.1 as u32) * 0x100 + (self.2 as u32)
    }

    /// The address holding the low 24 bits of `u`.
    pub fn from_unstructured(u: u32) -> (r: Self)
        ensures
            r == spec_from_unstructured(u),
    {
        IOA(((u / 0x10000) % 0x100) as u8, ((u / 0x100) % 0x100) as u8, (u % 0x100) as u8)
    }

    /// The next address: the unstructured reading plus one, wrapped into
    /// 24 bits.
    pub fn inc(&self) -> (r: Self)
        ensures
            r == spec_from_unstructured((spec_unstructured(*self) + 1) as u32),
    {
        IOA::from_unstructured(self.as_unstructured() + 1)
    }
}

impl core::str::FromStr for CA {
    type Err = ParseError;

    fn from_str(s: &str) -> Result<Self, ParseError> {
        let vals = parse_dot_separated(s, 2)?;
        Ok(CA(vals[0], vals[1]))
    }
}

impl core::str::FromStr for IOA {
    type Err = ParseError;

    fn from_str(s: &str) -> Result<Self, ParseError> {
        let vals = parse_dot_separated(s, 3)?;
        Ok(IOA(vals[0], vals[1], vals[2]))
    }
}

} // verus!
