//! The capsule protocol: exporting an array as a pair of name-tagged opaque
//! handles, importing such a pair back into an array handle without copying
//! the buffer, and releasing an abandoned capsule's payload exactly once.

use vstd::prelude::*;
use vstd::pervasive::unreached;

use crate::buffer::buffer_conforms;
use crate::buffer::BufferDescriptor;
use crate::cast::check_widening;
use crate::cast::widen_buffer;
use crate::cast::widened_from;
use crate::cast::widening_applies;
use crate::handle::ArrayHandle;
use crate::schema::schema_matches;
use crate::schema::schema_relaxes;
use crate::schema::schema_wf;
use crate::schema::SchemaDescriptor;

verus! {

/// The failures of the protocol. Every failing operation returns one of
/// these and constructs nothing: no partially built handle, no capsule left
/// between states.
#[derive(Clone, Copy, PartialEq, Eq, Structural, Debug)]
pub enum ProtocolError {
    /// The requested schema differs from the native one and no supported
    /// cast leads to it.
    CastError,
    /// The capsule pair could not be built from the given handle.
    FfiExportError,
    /// A capsule's name tag is not the protocol constant expected of it.
    InvalidCapsuleTag,
    /// A capsule was offered for import after it had already been consumed
    /// or dropped.
    DoubleConsumptionError,
    /// The capsule payloads are structurally inconsistent: a buffer region
    /// count or a child count does not fit the schema.
    FfiImportError,
}

/// What an unbound capsule carries across the boundary.
#[derive(Debug)]
pub enum CapsulePayload {
    Schema(SchemaDescriptor),
    Array(BufferDescriptor),
}

/// The lifecycle cell of a capsule. While unbound, the capsule still owns
/// its payload and its destructor is armed; consuming or dropping it takes
/// the payload away for good.
#[derive(Debug)]
pub enum CapsuleCell {
    Unbound(CapsulePayload),
    Consumed,
    Dropped,
}

/// The lifecycle states, with the payloads stripped. Unbound is initial;
/// consumed and dropped are terminal.
#[derive(Clone, Copy, PartialEq, Eq, Structural, Debug)]
pub enum CapsuleState {
    Unbound,
    Consumed,
    Dropped,
}

/// An opaque boundary-crossing handle: a name tag identifying the protocol
/// role of its payload, and the lifecycle cell holding that payload.
#[derive(Debug)]
pub struct Capsule {
    pub name: String,
    pub cell: CapsuleCell,
}

/// The fixed name tag of a schema capsule.
pub open spec fn schema_capsule_tag() -> Seq<char> {
    "arrow_schema"@
}

/// The fixed name tag of an array capsule.
pub open spec fn array_capsule_tag() -> Seq<char> {
    "arrow_array"@
}

/// The schema capsule's name tag, as a value.
pub fn schema_capsule_name() -> (r: String)
    ensures
        r@ == schema_capsule_tag(),
{
    "arrow_schema".to_owned()
}

/// The array capsule's name tag, as a value.
pub fn array_capsule_name() -> (r: String)
    ensures
        r@ == array_capsule_tag(),
{
    "arrow_array".to_owned()
}

impl Capsule {
    /// The lifecycle state of the capsule.
    pub open spec fn state(self) -> CapsuleState {
        match self.cell {
            CapsuleCell::Unbound(_) => CapsuleState::Unbound,
            CapsuleCell::Consumed => CapsuleState::Consumed,
            CapsuleCell::Dropped => CapsuleState::Dropped,
        }
    }

    /// Wrap a payload in a fresh, unbound capsule under the given name tag.
    pub fn new(name: String, payload: CapsulePayload) -> (r: Capsule)
        ensures
            r == (Capsule { name, cell: CapsuleCell::Unbound(payload) }),
    {
        Capsule { name, cell: CapsuleCell::Unbound(payload) }
    }

    /// The lifecycle state of the capsule, as a value.
    pub fn current_state(&self) -> (r: CapsuleState)
        ensures
            r == self.state(),
    {
        match &self.cell {
            CapsuleCell::Unbound(_) => CapsuleState::Unbound,
            CapsuleCell::Consumed => CapsuleState::Consumed,
            CapsuleCell::Dropped => CapsuleState::Dropped,
        }
    }
}

/// The shape of a freshly exported pair: a schema capsule carrying `sch` and
/// an array capsule carrying `buf`, both unbound, under the two protocol
/// name tags.
pub open spec fn exported_with(
    buf: BufferDescriptor,
    sch: SchemaDescriptor,
    sc: Capsule,
    ac: Capsule,
) -> bool {
    &&& sc.name@ == schema_capsule_tag()
    &&& sc.cell == CapsuleCell::Unbound(CapsulePayload::Schema(sch))
    &&& ac.name@ == array_capsule_tag()
    &&& ac.cell == CapsuleCell::Unbound(CapsulePayload::Array(buf))
}

/// The shape of the pair that the widening cast produces: the requested
/// schema beside a buffer rewritten from the source buffer.
pub open spec fn exported_widened(
    src: BufferDescriptor,
    req: SchemaDescriptor,
    sc: Capsule,
    ac: Capsule,
) -> bool {
    &&& sc.name@ == schema_capsule_tag()
    &&& sc.cell == CapsuleCell::Unbound(CapsulePayload::Schema(req))
    &&& ac.name@ == array_capsule_tag()
    &&& (ac.cell matches CapsuleCell::Unbound(CapsulePayload::Array(b)) && widened_from(b, src))
}

/// The shape of the pair that exporting `h` without a cast produces.
pub open spec fn exported_pair(h: ArrayHandle, sc: Capsule, ac: Capsule) -> bool {
    exported_with(h.buffer, h.schema, sc, ac)
}

/// Both name tags are the protocol constants expected of the two roles.
pub open spec fn import_tags_ok(sc: Capsule, ac: Capsule) -> bool {
    &&& sc.name@ == schema_capsule_tag()
    &&& ac.name@ == array_capsule_tag()
}

/// Both capsules are still unbound.
pub open spec fn import_states_ok(sc: Capsule, ac: Capsule) -> bool {
    &&& sc.state() is Unbound
    &&& ac.state() is Unbound
}

/// The schema capsule carries a schema and the array capsule a buffer.
pub open spec fn import_shape_ok(sc: Capsule, ac: Capsule) -> bool {
    &&& sc.cell matches CapsuleCell::Unbound(CapsulePayload::Schema(_))
    &&& ac.cell matches CapsuleCell::Unbound(CapsulePayload::Array(_))
}

/// The schema an unbound schema capsule carries.
pub open spec fn unbound_schema(sc: Capsule) -> SchemaDescriptor {
    match sc.cell {
        CapsuleCell::Unbound(CapsulePayload::Schema(s)) => s,
        _ => arbitrary(),
    }
}

/// The buffer an unbound array capsule carries.
pub open spec fn unbound_buffer(ac: Capsule) -> BufferDescriptor {
    match ac.cell {
        CapsuleCell::Unbound(CapsulePayload::Array(b)) => b,
        _ => arbitrary(),
    }
}

/// The payloads are internally consistent: a well-formed schema whose
/// expected buffer layout the carried buffer has.
pub open spec fn import_structure_ok(sc: Capsule, ac: Capsule) -> bool {
    &&& schema_wf(unbound_schema(sc))
    &&& buffer_conforms(unbound_buffer(ac), unbound_schema(sc))
}

/// When the importer accepts a capsule pair and hands out an array handle.
pub open spec fn import_accepts(sc: Capsule, ac: Capsule) -> bool {
    &&& import_tags_ok(sc, ac)
    &&& import_states_ok(sc, ac)
    &&& import_shape_ok(sc, ac)
    &&& import_structure_ok(sc, ac)
}

/// Publish an array handle as a pair of capsules, the schema capsule first.
///
/// Without a requested schema, or with one structurally equal to the native
/// schema, the native schema and the very buffer of the handle move into the
/// capsules: nothing is copied. With a requested schema a supported cast
/// leads to, the pair carries the requested schema instead. Otherwise the
/// export fails and hands the untouched handle back beside the error: a cast
/// to an unsupported schema with `CastError`, a handle violating its own
/// invariant with `FfiExportError`.
pub fn export_array(handle: ArrayHandle, requested_schema: Option<SchemaDescriptor>) -> (r:
    Result<(Capsule, Capsule), (ProtocolError, ArrayHandle)>)
    ensures
        !handle.well_formed() ==> r == Err::<(Capsule, Capsule), _>(
            (ProtocolError::FfiExportError, handle),
        ),
        handle.well_formed() ==> match requested_schema {
            None => r matches Ok(p) && exported_pair(handle, p.0, p.1),
            Some(req) => {
                if schema_matches(handle.schema, req) {
                    r matches Ok(p) && exported_pair(handle, p.0, p.1)
                } else if schema_relaxes(handle.schema, req) {
                    r matches Ok(p) && exported_with(handle.buffer, req, p.0, p.1)
                } else if widening_applies(handle.schema, req) && handle.buffer.buffers@[1]@.len()
                    * 2 <= usize::MAX {
                    r matches Ok(p) && exported_widened(handle.buffer, req, p.0, p.1)
                } else {
                    r == Err::<(Capsule, Capsule), _>((ProtocolError::CastError, handle))
                }
            },
        },
{
    if !handle.check_well_formed() {
        return Err((ProtocolError::FfiExportError, handle));
    }
    let mut widen = false;
    let cast_to: Option<SchemaDescriptor> = match requested_schema {
        None => None,
        Some(req) => {
            if handle.schema().same_as(&req) {
                None
            } else if handle.schema().relaxes_to(&req) {
                Some(req)
            } else if check_widening(handle.schema(), &req)
                && handle.buffer().buffers[1].len() <= usize::MAX / 2 {
                widen = true;
                Some(req)
            } else {
                return Err((ProtocolError::CastError, handle));
            }
        },
    };
    let (buffer, schema) = handle.into_inner();
    let out_buffer = if widen {
        widen_buffer(buffer)
    } else {
        buffer
    };
    let out_schema = match cast_to {
        Some(req) => req,
        None => schema,
    };
    let sc = Capsule {
        name: schema_capsule_name(),
        cell: CapsuleCell::Unbound(CapsulePayload::Schema(out_schema)),
    };
    let ac = Capsule {
        name: array_capsule_name(),
        cell: CapsuleCell::Unbound(CapsulePayload::Array(out_buffer)),
    };
    Ok((sc, ac))
}

/// Reclaim an array from a previously exported capsule pair.
///
/// The name tags are validated against the two protocol constants, the
/// lifecycle states against the unbound state, and the payloads against the
/// schema's expected structure; the first violation found is returned as
/// `InvalidCapsuleTag`, `DoubleConsumptionError` or `FfiImportError`, with
/// both capsules left exactly as they were. On acceptance the payloads move,
/// uncopied, into the returned handle, and both capsules are consumed: their
/// destructors are disarmed and the new owner's drop governs the buffer.
pub fn import_array(schema_capsule: &mut Capsule, array_capsule: &mut Capsule) -> (r: Result<
    ArrayHandle,
    ProtocolError,
>)
    ensures
        !import_tags_ok(*old(schema_capsule), *old(array_capsule)) ==> {
            &&& r == Err::<ArrayHandle, _>(ProtocolError::InvalidCapsuleTag)
            &&& *final(schema_capsule) == *old(schema_capsule)
            &&& *final(array_capsule) == *old(array_capsule)
        },
        import_tags_ok(*old(schema_capsule), *old(array_capsule)) && !import_states_ok(
            *old(schema_capsule),
            *old(array_capsule),
        ) ==> {
            &&& r == Err::<ArrayHandle, _>(ProtocolError::DoubleConsumptionError)
            &&& *final(schema_capsule) == *old(schema_capsule)
            &&& *final(array_capsule) == *old(array_capsule)
        },
        import_tags_ok(*old(schema_capsule), *old(array_capsule)) && import_states_ok(
            *old(schema_capsule),
            *old(array_capsule),
        ) && !(import_shape_ok(*old(schema_capsule), *old(array_capsule))
            && import_structure_ok(*old(schema_capsule), *old(array_capsule))) ==> {
            &&& r == Err::<ArrayHandle, _>(ProtocolError::FfiImportError)
            &&& *final(schema_capsule) == *old(schema_capsule)
            &&& *final(array_capsule) == *old(array_capsule)
        },
        import_accepts(*old(schema_capsule), *old(array_capsule)) ==> {
            &&& r == Ok::<ArrayHandle, ProtocolError>(
                (ArrayHandle {
                    buffer: unbound_buffer(*old(array_capsule)),
                    schema: unbound_schema(*old(schema_capsule)),
                }),
            )
            &&& final(schema_capsule).name == old(schema_capsule).name
            &&& final(array_capsule).name == old(array_capsule).name
            &&& final(schema_capsule).cell == CapsuleCell::Consumed
            &&& final(array_capsule).cell == CapsuleCell::Consumed
        },
{
    let schema_name = schema_capsule_name();
    let array_name = array_capsule_name();
    if !(schema_capsule.name == schema_name && array_capsule.name == array_name) {
        return Err(ProtocolError::InvalidCapsuleTag);
    }
    let schema_unbound = match &schema_capsule.cell {
        CapsuleCell::Unbound(_) => true,
        _ => false,
    };
    let array_unbound = match &array_capsule.cell {
        CapsuleCell::Unbound(_) => true,
        _ => false,
    };
    if !(schema_unbound && array_unbound) {
        return Err(ProtocolError::DoubleConsumptionError);
    }
    let structure_ok = match (&schema_capsule.cell, &array_capsule.cell) {
        (
            CapsuleCell::Unbound(CapsulePayload::Schema(s)),
            CapsuleCell::Unbound(CapsulePayload::Array(b)),
        ) => s.check_wf() && b.conforms_to(s),
        _ => false,
    };
    if !structure_ok {
        return Err(ProtocolError::FfiImportError);
    }
    let mut schema_cell = CapsuleCell::Consumed;
    let mut array_cell = CapsuleCell::Consumed;
    core::mem::swap(&mut schema_capsule.cell, &mut schema_cell);
    core::mem::swap(&mut array_capsule.cell, &mut array_cell);
    let schema = match schema_cell {
        CapsuleCell::Unbound(CapsulePayload::Schema(s)) => s,
        _ => unreached(),
    };
    let buffer = match array_cell {
        CapsuleCell::Unbound(CapsulePayload::Array(b)) => b,
        _ => unreached(),
    };
    Ok(ArrayHandle { buffer, schema })
}

/// How one release call may change a capsule: the payload is freed exactly
/// when the capsule was still unbound, and the capsule is then dropped; a
/// consumed or dropped capsule is left untouched.
pub open spec fn release_step(before: Capsule, after: Capsule, freed: bool) -> bool {
    &&& freed == (before.state() is Unbound)
    &&& if freed {
        after == (Capsule { name: before.name, cell: CapsuleCell::Dropped })
    } else {
        after == before
    }
}

/// Discard a capsule. An unbound capsule's armed destructor runs: its
/// payload is freed and the capsule becomes dropped. A consumed or dropped
/// capsule's destructor is disarmed, so nothing happens. Returns whether the
/// payload was freed by this call.
pub fn release_capsule(capsule: &mut Capsule) -> (freed: bool)
    ensures
        release_step(*old(capsule), *final(capsule), freed),
{
    let unbound = match &capsule.cell {
        CapsuleCell::Unbound(_) => true,
        _ => false,
    };
    if unbound {
        capsule.cell = CapsuleCell::Dropped;
        true
    } else {
        false
    }
}

/// Round trip: the pair exported from a well-formed array, without a cast,
/// is accepted by the importer, and the handle the importer builds from it
/// is the exported array itself, of the same length.
pub proof fn lemma_round_trip(h: ArrayHandle, sc: Capsule, ac: Capsule)
    requires
        h.well_formed(),
        exported_pair(h, sc, ac),
    ensures
        import_accepts(sc, ac),
        (ArrayHandle { buffer: unbound_buffer(ac), schema: unbound_schema(sc) }) == h,
        unbound_buffer(ac).length == h.buffer.length,
{
}

/// Round trip of a cast export: the pair exported from a well-formed array
/// under a supported cast is accepted by the importer, and the handle it
/// yields carries the very buffer of the array and the requested schema.
pub proof fn lemma_cast_round_trip(
    h: ArrayHandle,
    req: SchemaDescriptor,
    sc: Capsule,
    ac: Capsule,
)
    requires
        h.well_formed(),
        schema_relaxes(h.schema, req),
        exported_with(h.buffer, req, sc, ac),
    ensures
        import_accepts(sc, ac),
        unbound_buffer(ac) == h.buffer,
        unbound_schema(sc) == req,
{
    crate::schema::lemma_relaxes_preserves_wf(h.schema, req);
    crate::buffer::lemma_relaxes_preserves_conforms(h.buffer, h.schema, req);
}

/// Round trip of a widening export: the pair carrying the requested
/// sixteen-bit schema and the widened buffer is accepted by the importer.
pub proof fn lemma_widening_round_trip(
    h: ArrayHandle,
    req: SchemaDescriptor,
    sc: Capsule,
    ac: Capsule,
)
    requires
        h.well_formed(),
        widening_applies(h.schema, req),
        exported_widened(h.buffer, req, sc, ac),
    ensures
        import_accepts(sc, ac),
        unbound_schema(sc) == req,
        unbound_buffer(ac).length == h.buffer.length,
{
    let out = unbound_buffer(ac);
    crate::cast::lemma_widened_well_formed(out, h.buffer, h.schema, req);
}

/// A capsule is consumed at most once: a pair of which either member has
/// left the unbound state is never accepted again, so no second handle can
/// be built from it.
pub proof fn lemma_no_double_consumption(sc: Capsule, ac: Capsule)
    requires
        !(sc.state() is Unbound) || !(ac.state() is Unbound),
    ensures
        !import_accepts(sc, ac),
{
}

/// The destructor runs at most once: of two successive releases of the same
/// capsule, only the first can free the payload; and it does free it when
/// the capsule was never imported.
pub proof fn lemma_release_exactly_once(
    c0: Capsule,
    c1: Capsule,
    c2: Capsule,
    f1: bool,
    f2: bool,
)
    requires
        release_step(c0, c1, f1),
        release_step(c1, c2, f2),
    ensures
        !(f1 && f2),
        c0.state() is Unbound ==> f1,
{
}

/// A consumed capsule's destructor is disarmed for good: releasing it frees
/// nothing and changes nothing, however often it is tried.
pub proof fn lemma_consumed_never_freed(c0: Capsule, c1: Capsule, f: bool)
    requires
        c0.state() is Consumed,
        release_step(c0, c1, f),
    ensures
        !f,
        c1 == c0,
{
}

} // verus!
