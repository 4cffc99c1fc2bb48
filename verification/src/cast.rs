//! The one supported cast that rewrites buffer content: widening an
//! eight-bit unsigned array to a sixteen-bit unsigned array. Every element
//! keeps its value; the value region doubles, little endian.

use vstd::prelude::*;

use crate::buffer::buffer_conforms;
use crate::buffer::BufferDescriptor;
use crate::schema::schema_wf;
use crate::schema::SchemaDescriptor;
use crate::schema::TypeKind;

verus! {

/// The little-endian bytes of the sixteen-bit values holding the same
/// numbers as the eight-bit values `v` holds: every source byte followed by
/// a zero high byte.
pub open spec fn widened_bytes(v: Seq<u8>) -> Seq<u8> {
    Seq::new(2 * v.len(), |i: int| if i % 2 == 0 { v[i / 2] } else { 0u8 })
}

/// When the widening cast leads from schema `a` to schema `b`: a flat
/// eight-bit unsigned source, a sixteen-bit unsigned target, the same
/// metadata, and nulls allowed wherever the source allowed them.
pub open spec fn widening_applies(a: SchemaDescriptor, b: SchemaDescriptor) -> bool {
    &&& a.kind is UInt8
    &&& b.kind is UInt16
    &&& (a.nullable ==> b.nullable)
    &&& a.metadata@ == b.metadata@
    &&& a.children@.len() == 0
    &&& b.children@.len() == 0
    &&& a.dictionary is None
    &&& b.dictionary is None
}

/// How the widening cast rewrites a buffer: counts and validity region kept,
/// the value region widened, no children and no dictionary.
pub open spec fn widened_from(out: BufferDescriptor, src: BufferDescriptor) -> bool {
    &&& out.length == src.length
    &&& out.null_count == src.null_count
    &&& out.offset == src.offset
    &&& out.buffers@.len() == 2
    &&& src.buffers@.len() == 2
    &&& out.buffers@[0]@ == src.buffers@[0]@
    &&& out.buffers@[1]@ == widened_bytes(src.buffers@[1]@)
    &&& out.children@.len() == 0
    &&& out.dictionary is None
}

/// Widening test, deciding `widening_applies`.
pub fn check_widening(a: &SchemaDescriptor, b: &SchemaDescriptor) -> (r: bool)
    ensures
        r == widening_applies(*a, *b),
{
    let kinds_ok = match (a.kind, b.kind) {
        (TypeKind::UInt8, TypeKind::UInt16) => true,
        _ => false,
    };
    kinds_ok && (!a.nullable || b.nullable) && crate::schema::bytes_eq(&a.metadata, &b.metadata)
        && a.children.len() == 0 && b.children.len() == 0 && a.dictionary.is_none()
        && b.dictionary.is_none()
}

/// Widen eight-bit values to sixteen-bit values, little endian.
pub fn widen_values(v: &Vec<u8>) -> (r: Vec<u8>)
    requires
        v@.len() * 2 <= usize::MAX,
    ensures
        r@ == widened_bytes(v@),
{
    let mut r: Vec<u8> = Vec::new();
    let mut i: usize = 0;
    while i < v.len()
        invariant
            i <= v@.len(),
            v@.len() * 2 <= usize::MAX,
            r@.len() == 2 * i,
            forall|j: int| 0 <= j < i ==> r@[2 * j] == v@[j] && r@[2 * j + 1] == 0u8,
        decreases v@.len() - i,
    {
        r.push(v[i]);
        r.push(0);
        i += 1;
    }
    proof {
        assert forall|k: int| 0 <= k < r@.len() implies r@[k] == widened_bytes(v@)[k] by {
            if k % 2 == 0 {
                assert(r@[2 * (k / 2)] == v@[k / 2]);
            } else {
                assert(r@[2 * (k / 2) + 1] == 0u8);
            }
        }
        assert(r@ =~= widened_bytes(v@));
    }
    r
}

/// Rewrite a buffer of eight-bit values as a buffer of sixteen-bit values.
pub fn widen_buffer(src: BufferDescriptor) -> (r: BufferDescriptor)
    requires
        src.buffers@.len() == 2,
        src.buffers@[1]@.len() * 2 <= usize::MAX,
    ensures
        widened_from(r, src),
{
    let mut src = src;
    let values = src.buffers.pop().unwrap();
    let validity = src.buffers.pop().unwrap();
    let widened = widen_values(&values);
    let mut regions: Vec<Vec<u8>> = Vec::new();
    regions.push(validity);
    regions.push(widened);
    BufferDescriptor {
        length: src.length,
        null_count: src.null_count,
        offset: src.offset,
        buffers: regions,
        children: Vec::new(),
        dictionary: None,
    }
}

/// The widening cast hands out a well-formed array: the widened buffer
/// conforms to the target schema, and the target schema of a well-formed
/// widening is well formed itself.
pub proof fn lemma_widened_well_formed(
    out: BufferDescriptor,
    src: BufferDescriptor,
    s: SchemaDescriptor,
    t: SchemaDescriptor,
)
    requires
        buffer_conforms(src, s),
        widening_applies(s, t),
        widened_from(out, src),
    ensures
        schema_wf(t),
        buffer_conforms(out, t),
{
}

} // verus!
