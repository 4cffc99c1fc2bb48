//! The array handle: one columnar array value, pairing an exclusively owned
//! buffer descriptor with its schema descriptor.

use vstd::prelude::*;

use crate::buffer::buffer_conforms;
use crate::buffer::buffer_matches;
use crate::buffer::BufferDescriptor;
use crate::schema::schema_matches;
use crate::schema::schema_wf;
use crate::schema::SchemaDescriptor;
use crate::schema::TypeKind;

verus! {

/// One columnar array value. The buffer descriptor is exclusively owned by
/// this handle; the schema descriptor is immutable and may be shared
/// structurally with other handles.
#[derive(Debug)]
pub struct ArrayHandle {
    pub buffer: BufferDescriptor,
    pub schema: SchemaDescriptor,
}

/// Structural equality of two handles: byte-wise equal buffer contents and
/// structurally equal schemas. Identity of the capsules or allocations a
/// handle passed through is irrelevant.
pub open spec fn handle_matches(a: ArrayHandle, b: ArrayHandle) -> bool {
    &&& buffer_matches(a.buffer, b.buffer)
    &&& schema_matches(a.schema, b.schema)
}

impl ArrayHandle {
    /// The handle's internal invariant: a well-formed schema and a buffer
    /// descriptor conforming to it.
    pub open spec fn well_formed(self) -> bool {
        &&& schema_wf(self.schema)
        &&& buffer_conforms(self.buffer, self.schema)
    }

    /// Pair a buffer descriptor with a schema descriptor.
    pub fn new(buffer: BufferDescriptor, schema: SchemaDescriptor) -> (r: ArrayHandle)
        ensures
            r == (ArrayHandle { buffer, schema }),
    {
        ArrayHandle { buffer, schema }
    }

    /// Access the underlying buffer descriptor.
    pub fn buffer(&self) -> (r: &BufferDescriptor)
        ensures
            *r == self.buffer,
    {
        &self.buffer
    }

    /// Access the underlying schema descriptor.
    pub fn schema(&self) -> (r: &SchemaDescriptor)
        ensures
            *r == self.schema,
    {
        &self.schema
    }

    /// Consume the handle to take back the buffer and schema descriptors.
    pub fn into_inner(self) -> (r: (BufferDescriptor, SchemaDescriptor))
        ensures
            r == (self.buffer, self.schema),
    {
        (self.buffer, self.schema)
    }

    /// Number of elements of the array.
    pub fn len(&self) -> (n: usize)
        ensures
            n == self.buffer.length,
    {
        self.buffer.length
    }

    /// Whether the handle's invariant holds.
    pub fn check_well_formed(&self) -> (r: bool)
        ensures
            r == self.well_formed(),
    {
        self.schema.check_wf() && self.buffer.conforms_to(&self.schema)
    }

    /// Structural equality test, deciding `handle_matches`.
    pub fn same_as(&self, other: &ArrayHandle) -> (r: bool)
        ensures
            r == handle_matches(*self, *other),
    {
        self.buffer.same_as(&other.buffer) && self.schema.same_as(&other.schema)
    }

    /// A bounded rendering of the handle: the name of its top-level type
    /// kind. Its cost never depends on the array's length or depth.
    pub fn summary(&self) -> (r: String)
        ensures
            r@ == kind_label(self.schema.kind),
    {
        kind_name(self.schema.kind).to_owned()
    }
}

/// The label `summary` renders for each type kind.
pub open spec fn kind_label(k: TypeKind) -> Seq<char> {
    match k {
        TypeKind::Null => "null"@,
        TypeKind::Boolean => "boolean"@,
        TypeKind::Int8 => "int8"@,
        TypeKind::Int16 => "int16"@,
        TypeKind::Int32 => "int32"@,
        TypeKind::Int64 => "int64"@,
        TypeKind::UInt8 => "uint8"@,
        TypeKind::UInt16 => "uint16"@,
        TypeKind::UInt32 => "uint32"@,
        TypeKind::UInt64 => "uint64"@,
        TypeKind::Binary => "binary"@,
        TypeKind::List => "list"@,
        TypeKind::Struct => "struct"@,
        TypeKind::Dictionary => "dictionary"@,
    }
}

/// The printable name of a type kind.
pub fn kind_name(k: TypeKind) -> (r: &'static str)
    ensures
        r@ == kind_label(k),
{
    match k {
        TypeKind::Null => "null",
        TypeKind::Boolean => "boolean",
        TypeKind::Int8 => "int8",
        TypeKind::Int16 => "int16",
        TypeKind::Int32 => "int32",
        TypeKind::Int64 => "int64",
        TypeKind::UInt8 => "uint8",
        TypeKind::UInt16 => "uint16",
        TypeKind::UInt32 => "uint32",
        TypeKind::UInt64 => "uint64",
        TypeKind::Binary => "binary",
        TypeKind::List => "list",
        TypeKind::Struct => "struct",
        TypeKind::Dictionary => "dictionary",
    }
}

} // verus!
