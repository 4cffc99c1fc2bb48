//! Schema descriptors: the logical type of a columnar array.

use vstd::prelude::*;

verus! {

/// Logical type tag of a columnar array.
#[derive(Clone, Copy, PartialEq, Eq, Structural, Debug)]
pub enum TypeKind {
    Null,
    Boolean,
    Int8,
    Int16,
    Int32,
    Int64,
    UInt8,
    UInt16,
    UInt32,
    UInt64,
    Binary,
    List,
    Struct,
    Dictionary,
}

/// Describes a logical array type: kind, nullability, ordered child types
/// (for nested kinds), an optional dictionary value type, and opaque
/// metadata bytes. Immutable once constructed.
#[derive(Debug)]
pub struct SchemaDescriptor {
    pub kind: TypeKind,
    pub nullable: bool,
    pub children: Vec<SchemaDescriptor>,
    pub dictionary: Option<Box<SchemaDescriptor>>,
    pub metadata: Vec<u8>,
}

/// How many child types a well-formed schema of kind `k` carries:
/// a list has exactly one, a struct any number, every other kind none.
pub open spec fn kind_allows_children(k: TypeKind, n: nat) -> bool {
    match k {
        TypeKind::List => n == 1,
        TypeKind::Struct => true,
        _ => n == 0,
    }
}

/// A schema is well formed when its child count fits its kind, it carries a
/// dictionary type exactly when its kind is dictionary-encoded, and the same
/// holds recursively of every child and of the dictionary type.
pub open spec fn schema_wf(s: SchemaDescriptor) -> bool
    decreases s,
{
    &&& kind_allows_children(s.kind, s.children@.len())
    &&& (s.dictionary is Some <==> s.kind is Dictionary)
    &&& (forall|i: int|
        0 <= i < s.children@.len() ==> schema_wf(#[trigger] s.children@[i]))
    &&& match s.dictionary {
        Some(d) => schema_wf(*d),
        None => true,
    }
}

/// Structural equality of two schemas: same kind, nullability and metadata,
/// and structurally equal children and dictionary types.
pub open spec fn schema_matches(a: SchemaDescriptor, b: SchemaDescriptor) -> bool
    decreases a,
{
    &&& a.kind == b.kind
    &&& a.nullable == b.nullable
    &&& a.metadata@ == b.metadata@
    &&& a.children@.len() == b.children@.len()
    &&& (forall|i: int|
        0 <= i < a.children@.len() ==> schema_matches(
            #[trigger] a.children@[i],
            b.children@[i],
        ))
    &&& match (a.dictionary, b.dictionary) {
        (Some(da), Some(db)) => schema_matches(*da, *db),
        (None, None) => true,
        _ => false,
    }
}

/// The supported cast relation between a native schema and a requested one:
/// the target may allow nulls where the source does not, and must agree with
/// the source in kind, metadata, child count, and recursively in every child
/// and in the dictionary type. Such a cast never has to rewrite buffer
/// contents.
pub open spec fn schema_relaxes(a: SchemaDescriptor, b: SchemaDescriptor) -> bool
    decreases a,
{
    &&& a.kind == b.kind
    &&& (a.nullable ==> b.nullable)
    &&& a.metadata@ == b.metadata@
    &&& a.children@.len() == b.children@.len()
    &&& (forall|i: int|
        0 <= i < a.children@.len() ==> schema_relaxes(
            #[trigger] a.children@[i],
            b.children@[i],
        ))
    &&& match (a.dictionary, b.dictionary) {
        (Some(da), Some(db)) => schema_relaxes(*da, *db),
        (None, None) => true,
        _ => false,
    }
}

/// A supported cast carries a well-formed schema to a well-formed schema.
pub proof fn lemma_relaxes_preserves_wf(a: SchemaDescriptor, b: SchemaDescriptor)
    requires
        schema_wf(a),
        schema_relaxes(a, b),
    ensures
        schema_wf(b),
    decreases a,
{
    assert forall|i: int| 0 <= i < b.children@.len() implies schema_wf(
        #[trigger] b.children@[i],
    ) by {
        assert(schema_relaxes(a.children@[i], b.children@[i]));
        lemma_relaxes_preserves_wf(a.children@[i], b.children@[i]);
    }
    match (a.dictionary, b.dictionary) {
        (Some(da), Some(db)) => lemma_relaxes_preserves_wf(*da, *db),
        _ => {},
    }
}

/// Byte-wise equality of two byte vectors.
pub fn bytes_eq(a: &Vec<u8>, b: &Vec<u8>) -> (r: bool)
    ensures
        r == (a@ == b@),
{
    if a.len() != b.len() {
        return false;
    }
    let mut i: usize = 0;
    while i < a.len()
        invariant
            i <= a@.len(),
            a@.len() == b@.len(),
            forall|j: int| 0 <= j < i ==> a@[j] == b@[j],
        decreases a@.len() - i,
    {
        if a[i] != b[i] {
            return false;
        }
        i += 1;
    }
    proof {
        assert(a@ =~= b@);
    }
    true
}

impl SchemaDescriptor {
    /// Structural equality test, deciding `schema_matches`.
    pub fn same_as(&self, other: &SchemaDescriptor) -> (r: bool)
        ensures
            r == schema_matches(*self, *other),
        decreases *self,
    {
        if !(self.kind == other.kind) {
            return false;
        }
        if self.nullable != other.nullable {
            return false;
        }
        if !bytes_eq(&self.metadata, &other.metadata) {
            return false;
        }
        if self.children.len() != other.children.len() {
            return false;
        }
        let mut i: usize = 0;
        while i < self.children.len()
            invariant
                i <= self.children@.len(),
                self.children@.len() == other.children@.len(),
                forall|j: int|
                    0 <= j < i ==> schema_matches(
                        #[trigger] self.children@[j],
                        other.children@[j],
                    ),
            decreases self.children@.len() - i,
        {
            if !self.children[i].same_as(&other.children[i]) {
                return false;
            }
            i += 1;
        }
        match (&self.dictionary, &other.dictionary) {
            (Some(da), Some(db)) => da.same_as(db),
            (None, None) => true,
            _ => false,
        }
    }

    /// Well-formedness test, deciding `schema_wf`.
    pub fn check_wf(&self) -> (r: bool)
        ensures
            r == schema_wf(*self),
        decreases *self,
    {
        let n: usize = self.children.len();
        let children_ok = match self.kind {
            TypeKind::List => n == 1,
            TypeKind::Struct => true,
            _ => n == 0,
        };
        if !children_ok {
            return false;
        }
        let dict_ok = match (&self.dictionary, self.kind) {
            (Some(_), TypeKind::Dictionary) => true,
            (None, TypeKind::Dictionary) => false,
            (Some(_), _) => false,
            (None, _) => true,
        };
        if !dict_ok {
            return false;
        }
        let mut i: usize = 0;
        while i < self.children.len()
            invariant
                i <= self.children@.len(),
                forall|j: int| 0 <= j < i ==> schema_wf(#[trigger] self.children@[j]),
            decreases self.children@.len() - i,
        {
            if !self.children[i].check_wf() {
                return false;
            }
            i += 1;
        }
        match &self.dictionary {
            Some(d) => d.check_wf(),
            None => true,
        }
    }

    /// Cast support test, deciding `schema_relaxes` of `self` and `other`.
    pub fn relaxes_to(&self, other: &SchemaDescriptor) -> (r: bool)
        ensures
            r == schema_relaxes(*self, *other),
        decreases *self,
    {
        if !(self.kind == other.kind) {
            return false;
        }
        if self.nullable && !other.nullable {
            return false;
        }
        if !bytes_eq(&self.metadata, &other.metadata) {
            return false;
        }
        if self.children.len() != other.children.len() {
            return false;
        }
        let mut i: usize = 0;
        while i < self.children.len()
            invariant
                i <= self.children@.len(),
                self.children@.len() == other.children@.len(),
                forall|j: int|
                    0 <= j < i ==> schema_relaxes(
                        #[trigger] self.children@[j],
                        other.children@[j],
                    ),
            decreases self.children@.len() - i,
        {
            if !self.children[i].relaxes_to(&other.children[i]) {
                return false;
            }
            i += 1;
        }
        match (&self.dictionary, &other.dictionary) {
            (Some(da), Some(db)) => da.relaxes_to(db),
            (None, None) => true,
            _ => false,
        }
    }
}

} // verus!
