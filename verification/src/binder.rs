//! The port/parameter binder: parses a shared byte buffer, laid out as a
//! header table of pad/length pairs followed by packed element data, into
//! bounds- and cardinality-checked field views, and tracks which element
//! positions a block has written through a per-element dirty bit vector.
//!
//! Parsing is stateless and short-circuits on the first failure; all
//! cursor arithmetic is checked, so a malformed header yields an error and
//! never an out-of-bounds access.

use vstd::prelude::*;

use crate::small_ie::{
    decode_payload, is_catalog_code, payload, spec_size_for_typecode, spec_typecode, SmallIE,
};
use crate::bitops::bit_get;
use crate::iebuf::IEBuf;

verus! {

/// The byte capacity of each latched binding region of
/// [`crate::shared::Shared`].
pub const BINDINGS_BYTES_CAP: usize = 512;

/// The flag bit marking a binding as required.
pub const REQUIRED: u8 = 1;

/// The result of one step of block logic: zero for success.
pub type StepResult = i32;

/// Errors from parsing the shared buffer against the declared bindings.
/// They indicate a misconfigured host or a corrupted header, never a
/// fault in this parser.
#[derive(Debug, Clone, Copy, PartialEq, Eq)]
pub enum ParseError {
    NotTerminated,
    NotEnoughData,
    TooMuchData,
    InvalidData,
    BadHeader,
    MultiplePointsForSingular,
}

/// A binding's direction. The meaningful raw values are 0 (in), 1 (out)
/// and 2 (in-out); all other values are invalid but safe.
#[derive(Debug, Clone, Copy, PartialEq, Eq, PartialOrd, Ord)]
pub struct Direction(pub u8);

/// True when a binding with direction byte `d` may be read by the block.
pub open spec fn spec_readable(d: u8) -> bool {
    d == 0 || d == 2
}

/// True when a binding with direction byte `d` may be written by the
/// block, and so owns a slice of the dirty bit vector.
pub open spec fn spec_writable(d: u8) -> bool {
    d == 1 || d == 2
}

impl Direction {
    /// The direction of an input binding.
    pub fn new_in() -> (r: Self)
        ensures
            r.0 == 0,
    {
        Direction(0)
    }

    /// The direction of an output binding.
    pub fn new_out() -> (r: Self)
        ensures
            r.0 == 1,
    {
        Direction(1)
    }

    /// The direction of an input-output binding.
    pub fn new_in_out() -> (r: Self)
        ensures
            r.0 == 2,
    {
        Direction(2)
    }

    /// True when the block may read fields bound in this direction.
    pub fn is_readable(&self) -> (r: bool)
        ensures
            r == spec_readable(self.0),
    {
        self.0 == 0 || self.0 == 2
    }

    /// True when the block may write fields bound in this direction.
    pub fn is_writable(&self) -> (r: bool)
        ensures
            r == spec_writable(self.0),
    {
        self.0 == 1 || self.0 == 2
    }
}

/// One port or parameter declaration: interned name, flags, element type
/// code, cardinality bounds and direction. Produced at build time,
/// immutable at run time.
#[derive(Debug, Clone, Copy)]
pub struct BindingDefinition {
    pub name_offset: u16,
    pub flags: u8,
    pub typ: u8,
    pub min_size: u8,
    pub max_size: Option<u8>,
    pub direction: Direction,
    pub name_len: u8,
}

/// A binding definition with its name resolved from the interned string
/// table.
#[derive(Debug, Clone)]
pub struct NativeBindingDefinition {
    pub name: String,
    pub flags: u8,
    pub typ: u8,
    pub min_size: u8,
    pub max_size: Option<u8>,
    pub direction: Direction,
}

/// Relies on alloc's `String::from_utf8`: it succeeds exactly on valid
/// UTF-8 input and then decodes it, as vstd's UTF-8 model states.
#[verifier::external_body]
fn bytes_to_string(v: Vec<u8>) -> (r: Option<String>)
    ensures
        r is Some <==> vstd::utf8::valid_utf8(v@),
        r matches Some(s) ==> s@ == vstd::utf8::decode_utf8(v@),
{
    match String::from_utf8(v) {
        Ok(s) => Some(s),
        Err(_) => None,
    }
}

impl BindingDefinition {
    /// Resolves this binding's name against the interned string table:
    /// the `name_len` bytes starting at `name_offset`, decoded as UTF-8.
    /// `None` exactly when the range is out of bounds or the bytes are
    /// not valid UTF-8.
    pub fn name(&self, collected_names: &[u8]) -> (r: Option<String>)
        ensures
            r is Some <==> (self.name_offset + self.name_len <= collected_names@.len()
                && vstd::utf8::valid_utf8(
                collected_names@.subrange(
                    self.name_offset as int,
                    self.name_offset + self.name_len,
                ),
            )),
            r matches Some(s) ==> s@ == vstd::utf8::decode_utf8(
                collected_names@.subrange(
                    self.name_offset as int,
                    self.name_offset + self.name_len,
                ),
            ),
    {
        let offset = self.name_offset as usize;
        let len = self.name_len as usize;
        let total = collected_names.len();
        if offset > total || len > total - offset {
            return None;
        }
        let sub = vstd::slice::slice_subrange(collected_names, offset, offset + len);
        let bytes = vstd::slice::slice_to_vec(sub);
        bytes_to_string(bytes)
    }

    /// Resolves the name and carries the remaining fields over; `None`
    /// exactly when the name does not resolve.
    pub fn into_native(self, collected_names: &[u8]) -> (r: Option<NativeBindingDefinition>)
        ensures
            r is Some <==> (self.name_offset + self.name_len <= collected_names@.len()
                && vstd::utf8::valid_utf8(
                collected_names@.subrange(
                    self.name_offset as int,
                    self.name_offset + self.name_len,
                ),
            )),
            r matches Some(n) ==> n.name@ == vstd::utf8::decode_utf8(
                collected_names@.subrange(
                    self.name_offset as int,
                    self.name_offset + self.name_len,
                ),
            ) && n.flags == self.flags && n.typ == self.typ && n.min_size == self.min_size
                && n.max_size == self.max_size && n.direction == self.direction,
    {
        match self.name(collected_names) {
            Some(name) => Some(
                NativeBindingDefinition {
                    name,
                    flags: self.flags,
                    typ: self.typ,
                    min_size: self.min_size,
                    max_size: self.max_size,
                    direction: self.direction,
                },
            ),
            None => None,
        }
    }
}

/// One parsed field: the element region it is scoped to, its element
/// type and count, its direction, whether an optional field was present,
/// and the field's first position in the dirty bit vector.
#[derive(Debug, Clone, Copy, PartialEq, Eq)]
pub struct FieldView {
    pub offset: usize,
    pub count: usize,
    pub elem_size: usize,
    pub typ: u8,
    pub direction: Direction,
    pub present: bool,
    pub dirty_offset: usize,
}

/// The result of one parse: the field views in declaration order, the
/// length of the buffer they are scoped to, and the total number of
/// writable element positions (the dirty bit vector's length).
#[derive(Debug, Clone, PartialEq, Eq)]
pub struct ParsedBindings {
    pub fields: Vec<FieldView>,
    pub source_len: usize,
    pub dirty_len: usize,
}

/// One field view is well formed against a buffer of `source_len` bytes
/// and a dirty vector of `dirty_len` bits: its element region lies in
/// the buffer, its element size is the size table's entry for its type
/// code, a present view names a catalog type, and a writable view owns
/// `count` dirty bits starting at its dirty offset.
pub open spec fn field_wf(f: FieldView, source_len: int, dirty_len: int) -> bool {
    &&& f.elem_size == spec_size_for_typecode(f.typ)
    &&& f.present ==> is_catalog_code(f.typ)
    &&& f.offset + f.count * f.elem_size <= source_len
    &&& spec_writable(f.direction.0) ==> f.dirty_offset + f.count <= dirty_len
}

impl ParsedBindings {
    /// Every field view is well formed against this parse's buffer
    /// length and dirty vector length.
    pub open spec fn wf(self) -> bool {
        forall|k: int|
            0 <= k < self.fields@.len() ==> field_wf(
                #[trigger] self.fields@[k],
                self.source_len as int,
                self.dirty_len as int,
            )
    }
}

/// The bytes of element `i` of field `f` in the shared buffer.
pub open spec fn element_bytes(src: Seq<u8>, f: FieldView, i: int) -> Seq<u8> {
    src.subrange(f.offset + i * f.elem_size, f.offset + (i + 1) * f.elem_size)
}

/// Every byte outside the window of element `i` of field `f` is the same
/// in `new_src` as in `old_src`.
pub open spec fn frame_outside_element(
    old_src: Seq<u8>,
    new_src: Seq<u8>,
    f: FieldView,
    i: int,
) -> bool {
    forall|j: int|
        0 <= j < old_src.len() && !(f.offset + i * f.elem_size <= j < f.offset + (i + 1)
            * f.elem_size) ==> new_src[j] == old_src[j]
}

/// The parse outcome from field `k` on, with the data cursor at
/// `cursor`, `dirty` writable positions handed out, and the views of the
/// fields before `k` in `acc`: either the completed views with the final
/// dirty length, or the first error. One field takes its pad and length
/// bytes from the header table, skips the pad, carves `length` bytes,
/// and checks its element count against the declared bounds; an optional
/// field with no elements is an absent view.
pub open spec fn spec_parse_rec(
    defs: Seq<BindingDefinition>,
    source: Seq<u8>,
    k: int,
    cursor: int,
    dirty: int,
    acc: Seq<FieldView>,
) -> Result<(Seq<FieldView>, int), ParseError>
    decreases defs.len() - k,
{
    if k < 0 || k > defs.len() {
        Err(ParseError::BadHeader)
    } else if k == defs.len() {
        Ok((acc, dirty))
    } else {
        let pad = source[2 * k] as int;
        let length = source[2 * k + 1] as int;
        let elem = spec_size_for_typecode(defs[k].typ) as int;
        if pad + length > source.len() - cursor {
            Err(ParseError::BadHeader)
        } else if elem == 0 {
            Err(ParseError::InvalidData)
        } else if length % elem != 0 {
            Err(ParseError::InvalidData)
        } else {
            let count = length / elem;
            let optional = defs[k].flags & REQUIRED == 0;
            let view = FieldView {
                offset: (cursor + pad) as usize,
                count: count as usize,
                elem_size: elem as usize,
                typ: defs[k].typ,
                direction: defs[k].direction,
                present: true,
                dirty_offset: dirty as usize,
            };
            if count == 0 && optional {
                spec_parse_rec(
                    defs,
                    source,
                    k + 1,
                    cursor + pad + length,
                    dirty,
                    acc + seq![FieldView { present: false, ..view }],
                )
            } else if defs[k].min_size == 1 && defs[k].max_size == Some(1u8) && count != 1 {
                Err(ParseError::MultiplePointsForSingular)
            } else if count < defs[k].min_size {
                Err(ParseError::NotEnoughData)
            } else if defs[k].max_size matches Some(m) && count > m {
                Err(ParseError::TooMuchData)
            } else {
                spec_parse_rec(
                    defs,
                    source,
                    k + 1,
                    cursor + pad + length,
                    if spec_writable(defs[k].direction.0) {
                        dirty + count
                    } else {
                        dirty
                    },
                    acc + seq![view],
                )
            }
        }
    }
}

/// The parse of a whole buffer against the declared bindings: fails with
/// a bad header when the buffer cannot hold the header table, and
/// otherwise starts the field walk just past it.
pub open spec fn spec_parse(defs: Seq<BindingDefinition>, source: Seq<u8>) -> Result<
    (Seq<FieldView>, int),
    ParseError,
> {
    if source.len() < 2 * defs.len() {
        Err(ParseError::BadHeader)
    } else {
        spec_parse_rec(defs, source, 0, 2 * defs.len() as int, 0, Seq::empty())
    }
}

impl ParsedBindings {
    /// Parses `source` against the declared bindings: reads each field's
    /// pad and length pair from the header table, carves that field's
    /// element region, and checks its element count against the declared
    /// bounds, failing on the first violation. On success the views are
    /// well formed against the buffer, so later element reads and writes
    /// stay in bounds.
    pub fn parse_fallible(defs: &[BindingDefinition], source: &[u8]) -> (r: Result<
        ParsedBindings,
        ParseError,
    >)
        ensures
            r matches Ok(p) ==> spec_parse(defs@, source@) == Ok::<_, ParseError>(
                (p.fields@, p.dirty_len as int),
            ) && p.source_len == source@.len() && p.wf() && p.fields@.len() == defs@.len(),
            r matches Err(e) ==> spec_parse(defs@, source@) == Err::<(Seq<FieldView>, int), _>(e),
    {
        let nf = defs.len();
        let total = source.len();
        if nf > total / 2 {
            proof {
                assert(source@.len() < 2 * defs@.len());
            }
            return Err(ParseError::BadHeader);
        }
        proof {
            assert(2 * defs@.len() <= source@.len());
        }
        let mut fields: Vec<FieldView> = Vec::new();
        let mut cursor: usize = 2 * nf;
        let mut dirty: usize = 0;
        let mut k: usize = 0;
        while k < nf
            invariant
                k <= nf,
                nf == defs@.len(),
                total == source@.len(),
                2 * nf <= cursor <= total,
                dirty + 2 * nf <= cursor,
                fields@.len() == k,
                spec_parse(defs@, source@) == spec_parse_rec(
                    defs@,
                    source@,
                    k as int,
                    cursor as int,
                    dirty as int,
                    fields@,
                ),
                forall|j: int|
                    0 <= j < k ==> field_wf(#[trigger] fields@[j], total as int, dirty as int),
            decreases nf - k,
        {
            let pad = *vstd::slice::slice_index_get(source, 2 * k) as usize;
            let length = *vstd::slice::slice_index_get(source, 2 * k + 1) as usize;
            if pad + length > total - cursor {
                return Err(ParseError::BadHeader);
            }
            let elem = SmallIE::size_for_typecode(defs[k].typ);
            if elem == 0 {
                return Err(ParseError::InvalidData);
            }
            if length % elem != 0 {
                return Err(ParseError::InvalidData);
            }
            let count = length / elem;
            proof {
                vstd::arithmetic::div_mod::lemma_fundamental_div_mod(length as int, elem as int);
                assert(length as int == elem as int * (count as int));
                assert(count <= length) by (nonlinear_arith)
                    requires
                        length as int == elem as int * (count as int),
                        elem >= 1,
                        count >= 0,
                ;
                assert(count as int * elem as int == length as int) by (nonlinear_arith)
                    requires
                        length as int == elem as int * (count as int),
                ;
            }
            let optional = defs[k].flags & REQUIRED == 0;
            let offset = cursor + pad;
            let mut view = FieldView {
                offset,
                count,
                elem_size: elem,
                typ: defs[k].typ,
                direction: defs[k].direction,
                present: true,
                dirty_offset: dirty,
            };
            let ghost pre_fields = fields@;
            if count == 0 && optional {
                view.present = false;
                fields.push(view);
                proof {
                    assert(fields@ =~= pre_fields + seq![view]);
                }
            } else if defs[k].min_size == 1 && max_is_one(&defs[k].max_size) && count != 1 {
                return Err(ParseError::MultiplePointsForSingular);
            } else if count < defs[k].min_size as usize {
                return Err(ParseError::NotEnoughData);
            } else if max_exceeded(&defs[k].max_size, count) {
                return Err(ParseError::TooMuchData);
            } else {
                fields.push(view);
                proof {
                    assert(fields@ =~= pre_fields + seq![view]);
                }
                if defs[k].direction.is_writable() {
                    dirty = dirty + count;
                }
            }
            cursor = cursor + pad + length;
            k = k + 1;
        }
        Ok(ParsedBindings { fields, source_len: total, dirty_len: dirty })
    }
}

/// The per-element dirty bit vector: one bit for every element position
/// of every writable field, packed eight to a byte. Writing an element
/// through a view sets exactly that element's bit; the host reads and
/// clears the vector between steps.
#[derive(Debug, Clone, PartialEq, Eq)]
pub struct DirtyFlags {
    bits: Vec<u8>,
}

impl View for DirtyFlags {
    type V = Seq<bool>;

    closed spec fn view(&self) -> Seq<bool> {
        Seq::new(self.bits@.len() * 8, |i: int| bit_get(self.bits@[i / 8], (i % 8) as u8))
    }
}

impl DirtyFlags {
    /// A cleared vector with room for at least `n` bits.
    pub fn new_for(n: usize) -> (r: Self)
        requires
            n < usize::MAX - 8,
        ensures
            r@.len() >= n,
            forall|i: int| 0 <= i < r@.len() ==> !r@[i],
    {
        let nbytes = n / 8 + 1;
        let mut bits: Vec<u8> = Vec::new();
        let mut i: usize = 0;
        while i < nbytes
            invariant
                i <= nbytes,
                bits@.len() == i,
                forall|j: int| 0 <= j < i ==> bits@[j] == 0u8,
            decreases nbytes - i,
        {
            bits.push(0);
            i = i + 1;
        }
        let r = DirtyFlags { bits };
        proof {
            assert(r@.len() == nbytes * 8);
            vstd::arithmetic::div_mod::lemma_fundamental_div_mod(n as int, 8);
            assert(forall|j: int| 0 <= j < r@.len() ==> !r@[j]) by {
                assert forall|j: int| 0 <= j < r@.len() implies !r@[j] by {
                    let b = r.bits@[j / 8];
                    assert(b == 0u8);
                    let k = (j % 8) as u8;
                    assert(!bit_get(0u8, k)) by (bit_vector)
                        requires
                            k < 8,
                    ;
                }
            }
        }
        r
    }

    /// Reads bit `i`.
    pub fn get(&self, i: usize) -> (r: bool)
        requires
            i < self@.len(),
        ensures
            r == self@[i as int],
    {
        let b = self.bits[i / 8];
        crate::bitops::get_bit(b, (i % 8) as u8)
    }

    /// Sets bit `i`, leaving every other bit unchanged.
    pub fn set(&mut self, i: usize)
        requires
            i < old(self)@.len(),
        ensures
            final(self)@ == old(self)@.update(i as int, true),
    {
        let byte: usize = i / 8;
        let k: u8 = (i % 8) as u8;
        let old_b = self.bits[byte];
        let new_b = crate::bitops::set_bit(old_b, k, true);
        self.bits[byte] = new_b;
        proof {
            crate::bitops::lemma_bit_set_effect();
            assert forall|j: int| 0 <= j < old(self)@.len() implies final(self)@[j] == old(
                self,
            )@.update(i as int, true)[j] by {
                vstd::arithmetic::div_mod::lemma_fundamental_div_mod(j, 8);
                vstd::arithmetic::div_mod::lemma_fundamental_div_mod(i as int, 8);
            }
            assert(final(self)@ =~= old(self)@.update(i as int, true));
        }
    }
}

impl ParsedBindings {
    /// Reads element `i` of field `f` from the shared buffer, decoded as
    /// the field's element type.
    pub fn read_ie(&self, source: &[u8], f: usize, i: usize) -> (r: SmallIE)
        requires
            self.wf(),
            source@.len() == self.source_len,
            f < self.fields@.len(),
            self.fields@[f as int].present,
            i < self.fields@[f as int].count,
            spec_readable(self.fields@[f as int].direction.0),
        ensures
            r == decode_payload(
                self.fields@[f as int].typ,
                element_bytes(source@, self.fields@[f as int], i as int),
            ),
    {
        let fv = self.fields[f];
        proof {
            vstd::arithmetic::mul::lemma_mul_inequality(
                i + 1,
                fv.count as int,
                fv.elem_size as int,
            );
            assert((i + 1) * fv.elem_size == i * fv.elem_size + fv.elem_size)
                by (nonlinear_arith);
            vstd::arithmetic::mul::lemma_mul_is_commutative(fv.count as int, fv.elem_size as int);
        }
        let start = fv.offset + i * fv.elem_size;
        let sub = vstd::slice::slice_subrange(source, start, start + fv.elem_size);
        SmallIE::from_payload(fv.typ, sub).unwrap()
    }

    /// Writes `value` into element `i` of field `f` in place, and sets
    /// exactly that element's bit in the dirty vector: every byte outside
    /// the element's window and every other dirty bit are unchanged.
    #[verifier::rlimit(100)]
    pub fn write_ie(
        &self,
        source: &mut Vec<u8>,
        dirty: &mut DirtyFlags,
        f: usize,
        i: usize,
        value: SmallIE,
    )
        requires
            self.wf(),
            old(source)@.len() == self.source_len,
            old(dirty)@.len() >= self.dirty_len,
            f < self.fields@.len(),
            self.fields@[f as int].present,
            i < self.fields@[f as int].count,
            spec_writable(self.fields@[f as int].direction.0),
            spec_typecode(value) == self.fields@[f as int].typ,
        ensures
            final(source)@.len() == old(source)@.len(),
            element_bytes(final(source)@, self.fields@[f as int], i as int) == payload(value),
            frame_outside_element(old(source)@, final(source)@, self.fields@[f as int], i as int),
            final(dirty)@ == old(dirty)@.update(
                self.fields@[f as int].dirty_offset + i as int,
                true,
            ),
    {
        let fv = self.fields[f];
        proof {
            crate::small_ie::lemma_payload_len(value);
            vstd::arithmetic::mul::lemma_mul_inequality(
                i + 1,
                fv.count as int,
                fv.elem_size as int,
            );
            assert((i + 1) * fv.elem_size == i * fv.elem_size + fv.elem_size)
                by (nonlinear_arith);
            vstd::arithmetic::mul::lemma_mul_is_commutative(fv.count as int, fv.elem_size as int);
        }
        let start = fv.offset + i * fv.elem_size;
        let mut bytes: Vec<u8> = Vec::new();
        value.encode_payload(&mut bytes);
        crate::wire::copy_into(source, start, &bytes);
        dirty.set(fv.dirty_offset + i);
        proof {
            assert(element_bytes(final(source)@, self.fields@[f as int], i as int) =~= payload(
                value,
            ));
        }
    }
}

/// Scans a terminator-delimited element list: counts the leading valid
/// buffers and checks the count against the declared bounds. An optional
/// port with no elements is accepted as absent.
pub fn parse_port(
    source: &[IEBuf],
    is_optional: bool,
    min_size: u8,
    max_size: Option<u8>,
) -> (r: Result<usize, ParseError>)
    ensures
        r == spec_parse_port(source@, is_optional, min_size, max_size),
{
    let total = source.len();
    let mut len: usize = 0;
    let mut found = false;
    while len < total && !found
        invariant
            len <= total,
            total == source@.len(),
            found ==> spec_scan(source@, 0) == Some(len as int),
            !found ==> spec_scan(source@, 0) == spec_scan(source@, len as int),
        decreases
                total - len,
                if found {
                    0int
                } else {
                    1int
                },
    {
        let buf = *vstd::slice::slice_index_get(source, len);
        if buf.is_valid() {
            len = len + 1;
        } else {
            found = true;
        }
    }
    if total > 0 && !found {
        return Err(ParseError::NotTerminated);
    }
    if len == 0 && is_optional {
        return Ok(0);
    }
    if len < min_size as usize {
        return Err(ParseError::NotEnoughData);
    }
    match max_size {
        Some(m) => {
            if len > m as usize {
                return Err(ParseError::TooMuchData);
            }
        },
        None => {},
    }
    Ok(len)
}

/// The index of the first invalid (terminator) buffer at or after `i`,
/// or `None` when the scan runs off the end without finding one.
pub open spec fn spec_scan(s: Seq<IEBuf>, i: int) -> Option<int>
    decreases s.len() - i,
{
    if i < 0 || i >= s.len() {
        None
    } else if !is_catalog_code(s[i].0@[0]) {
        Some(i)
    } else {
        spec_scan(s, i + 1)
    }
}

/// The outcome of scanning a terminator-delimited element list: the
/// number of leading valid buffers, held against the declared bounds; an
/// empty source counts zero elements without needing a terminator.
pub open spec fn spec_parse_port(
    s: Seq<IEBuf>,
    is_optional: bool,
    min_size: u8,
    max_size: Option<u8>,
) -> Result<usize, ParseError> {
    let scan = if s.len() == 0 {
        Some(0int)
    } else {
        spec_scan(s, 0)
    };
    match scan {
        None => Err(ParseError::NotTerminated),
        Some(len) => if len == 0 && is_optional {
            Ok(0)
        } else if len < min_size {
            Err(ParseError::NotEnoughData)
        } else if max_size matches Some(m) && len > m {
            Err(ParseError::TooMuchData)
        } else {
            Ok(len as usize)
        },
    }
}

/// True when the declared maximum is exactly one.
fn max_is_one(max_size: &Option<u8>) -> (r: bool)
    ensures
        r == (*max_size == Some(1u8)),
{
    match max_size {
        Some(m) => *m == 1,
        None => false,
    }
}

/// True when a declared maximum exists and `count` exceeds it.
fn max_exceeded(max_size: &Option<u8>, count: usize) -> (r: bool)
    ensures
        r == (max_size matches Some(m) && count > m as usize),
{
    match max_size {
        Some(m) => count > *m as usize,
        None => false,
    }
}

} // verus!
