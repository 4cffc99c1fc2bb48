//! Buffer descriptors: the physical side of a columnar array.

use vstd::prelude::*;

use crate::schema::bytes_eq;
use crate::schema::schema_relaxes;
use crate::schema::SchemaDescriptor;
use crate::schema::TypeKind;

verus! {

/// Describes the memory of one array: element count, null count, element
/// offset, the ordered raw memory regions, the buffers of child arrays
/// (for nested kinds), and the buffer of the dictionary values.
/// Exclusively owned by one handle or capsule at a time.
#[derive(Debug)]
pub struct BufferDescriptor {
    pub length: usize,
    pub null_count: usize,
    pub offset: usize,
    pub buffers: Vec<Vec<u8>>,
    pub children: Vec<BufferDescriptor>,
    pub dictionary: Option<Box<BufferDescriptor>>,
}

/// How many raw memory regions an array of kind `k` owns: none for the null
/// kind, a validity and a value region for fixed-width kinds, additionally
/// an offsets region for variable-width binary data, a validity and an
/// offsets region for lists, only a validity region for structs, and a
/// validity and a key region for dictionary-encoded arrays.
pub open spec fn expected_region_count(k: TypeKind) -> nat {
    match k {
        TypeKind::Null => 0,
        TypeKind::Binary => 3,
        TypeKind::List => 2,
        TypeKind::Struct => 1,
        _ => 2,
    }
}

/// A buffer descriptor conforms to a schema when its region count is the one
/// the schema's kind expects, it has one child buffer per child type, its
/// null count does not exceed its length, and the same holds recursively of
/// every child pair and of the dictionary pair.
pub open spec fn buffer_conforms(b: BufferDescriptor, s: SchemaDescriptor) -> bool
    decreases b,
{
    &&& b.buffers@.len() == expected_region_count(s.kind)
    &&& b.children@.len() == s.children@.len()
    &&& b.null_count <= b.length
    &&& (forall|i: int|
        0 <= i < b.children@.len() ==> buffer_conforms(
            #[trigger] b.children@[i],
            s.children@[i],
        ))
    &&& match (b.dictionary, s.dictionary) {
        (Some(db), Some(ds)) => buffer_conforms(*db, *ds),
        (None, None) => true,
        _ => false,
    }
}

/// Structural equality of two buffer descriptors: same counts and offset,
/// byte-wise equal memory regions, and structurally equal children and
/// dictionary buffers.
pub open spec fn buffer_matches(a: BufferDescriptor, b: BufferDescriptor) -> bool
    decreases a,
{
    &&& a.length == b.length
    &&& a.null_count == b.null_count
    &&& a.offset == b.offset
    &&& a.buffers@.len() == b.buffers@.len()
    &&& (forall|i: int|
        0 <= i < a.buffers@.len() ==> (#[trigger] a.buffers@[i])@ == b.buffers@[i]@)
    &&& a.children@.len() == b.children@.len()
    &&& (forall|i: int|
        0 <= i < a.children@.len() ==> buffer_matches(
            #[trigger] a.children@[i],
            b.children@[i],
        ))
    &&& match (a.dictionary, b.dictionary) {
        (Some(da), Some(db)) => buffer_matches(*da, *db),
        (None, None) => true,
        _ => false,
    }
}


/// A supported cast never changes what a buffer must look like: a buffer
/// conforming to the native schema conforms to any schema the native one
/// casts to.
pub proof fn lemma_relaxes_preserves_conforms(
    b: BufferDescriptor,
    s: SchemaDescriptor,
    t: SchemaDescriptor,
)
    requires
        buffer_conforms(b, s),
        schema_relaxes(s, t),
    ensures
        buffer_conforms(b, t),
    decreases b,
{
    assert forall|i: int| 0 <= i < b.children@.len() implies buffer_conforms(
        #[trigger] b.children@[i],
        t.children@[i],
    ) by {
        assert(schema_relaxes(s.children@[i], t.children@[i]));
        lemma_relaxes_preserves_conforms(b.children@[i], s.children@[i], t.children@[i]);
    }
    match (b.dictionary, s.dictionary, t.dictionary) {
        (Some(db), Some(ds), Some(dt)) => lemma_relaxes_preserves_conforms(*db, *ds, *dt),
        _ => {},
    }
}

impl BufferDescriptor {
    /// Conformance test, deciding `buffer_conforms`.
    pub fn conforms_to(&self, s: &SchemaDescriptor) -> (r: bool)
        ensures
            r == buffer_conforms(*self, *s),
        decreases *self,
    {
        let expected: usize = match s.kind {
            TypeKind::Null => 0,
            TypeKind::Binary => 3,
            TypeKind::List => 2,
            TypeKind::Struct => 1,
            _ => 2,
        };
        if self.buffers.len() != expected {
            return false;
        }
        if self.children.len() != s.children.len() {
            return false;
        }
        if self.null_count > self.length {
            return false;
        }
        let mut i: usize = 0;
        while i < self.children.len()
            invariant
                i <= self.children@.len(),
                self.children@.len() == s.children@.len(),
                forall|j: int|
                    0 <= j < i ==> buffer_conforms(
                        #[trigger] self.children@[j],
                        s.children@[j],
                    ),
            decreases self.children@.len() - i,
        {
            if !self.children[i].conforms_to(&s.children[i]) {
                return false;
            }
            i += 1;
        }
        match (&self.dictionary, &s.dictionary) {
            (Some(db), Some(ds)) => db.conforms_to(ds),
            (None, None) => true,
            _ => false,
        }
    }

    /// Structural equality test, deciding `buffer_matches`.
    pub fn same_as(&self, other: &BufferDescriptor) -> (r: bool)
        ensures
            r == buffer_matches(*self, *other),
        decreases *self,
    {
        if self.length != other.length {
            return false;
        }
        if self.null_count != other.null_count {
            return false;
        }
        if self.offset != other.offset {
            return false;
        }
        if self.buffers.len() != other.buffers.len() {
            return false;
        }
        let mut i: usize = 0;
        while i < self.buffers.len()
            invariant
                i <= self.buffers@.len(),
                self.buffers@.len() == other.buffers@.len(),
                forall|j: int|
                    0 <= j < i ==> (#[trigger] self.buffers@[j])@ == other.buffers@[j]@,
            decreases self.buffers@.len() - i,
        {
            if !bytes_eq(&self.buffers[i], &other.buffers[i]) {
                return false;
            }
            i += 1;
        }
        if self.children.len() != other.children.len() {
            return false;
        }
        let mut k: usize = 0;
        while k < self.children.len()
            invariant
                k <= self.children@.len(),
                self.children@.len() == other.children@.len(),
                forall|j: int|
                    0 <= j < k ==> buffer_matches(
                        #[trigger] self.children@[j],
                        other.children@[j],
                    ),
            decreases self.children@.len() - k,
        {
            if !self.children[k].same_as(&other.children[k]) {
                return false;
            }
            k += 1;
        }
        match (&self.dictionary, &other.dictionary) {
            (Some(da), Some(db)) => da.same_as(db),
            (None, None) => true,
            _ => false,
        }
    }
}

} // verus!
