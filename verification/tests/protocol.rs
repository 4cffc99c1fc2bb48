use capsule_exchange::buffer::BufferDescriptor;
use capsule_exchange::capsule::array_capsule_name;
use capsule_exchange::capsule::export_array;
use capsule_exchange::capsule::import_array;
use capsule_exchange::capsule::release_capsule;
use capsule_exchange::capsule::schema_capsule_name;
use capsule_exchange::capsule::Capsule;
use capsule_exchange::capsule::CapsulePayload;
use capsule_exchange::capsule::CapsuleState;
use capsule_exchange::capsule::ProtocolError;
use capsule_exchange::handle::ArrayHandle;
use capsule_exchange::schema::SchemaDescriptor;
use capsule_exchange::schema::TypeKind;

fn prim_schema(kind: TypeKind, nullable: bool) -> SchemaDescriptor {
    SchemaDescriptor {
        kind,
        nullable,
        children: vec![],
        dictionary: None,
        metadata: vec![],
    }
}

fn prim_buffer(values: Vec<u8>, length: usize) -> BufferDescriptor {
    BufferDescriptor {
        length,
        null_count: 0,
        offset: 0,
        buffers: vec![vec![], values],
        children: vec![],
        dictionary: None,
    }
}

fn int32_handle() -> ArrayHandle {
    let schema = prim_schema(TypeKind::Int32, false);
    let buffer = prim_buffer(vec![1, 0, 0, 0, 2, 0, 0, 0, 3, 0, 0, 0], 3);
    ArrayHandle::new(buffer, schema)
}

fn list_handle() -> ArrayHandle {
    let child_schema = prim_schema(TypeKind::Int32, true);
    let schema = SchemaDescriptor {
        kind: TypeKind::List,
        nullable: true,
        children: vec![child_schema],
        dictionary: None,
        metadata: vec![],
    };
    // Two lists over five child elements: the child's length is independent
    // of the parent's.
    let child_buffer = prim_buffer(vec![5, 0, 0, 0, 6, 0, 0, 0, 7, 0, 0, 0, 8, 0, 0, 0, 9, 0, 0, 0], 5);
    let buffer = BufferDescriptor {
        length: 2,
        null_count: 0,
        offset: 0,
        buffers: vec![vec![], vec![0, 0, 0, 0, 2, 0, 0, 0, 5, 0, 0, 0]],
        children: vec![child_buffer],
        dictionary: None,
    };
    ArrayHandle::new(buffer, schema)
}

fn dictionary_handle() -> ArrayHandle {
    let value_schema = prim_schema(TypeKind::Int64, true);
    let schema = SchemaDescriptor {
        kind: TypeKind::Dictionary,
        nullable: true,
        children: vec![],
        dictionary: Some(Box::new(value_schema)),
        metadata: vec![],
    };
    let value_buffer = prim_buffer(vec![7, 0, 0, 0, 0, 0, 0, 0], 1);
    let buffer = BufferDescriptor {
        length: 4,
        null_count: 0,
        offset: 0,
        buffers: vec![vec![], vec![0, 0, 0, 0]],
        children: vec![],
        dictionary: Some(Box::new(value_buffer)),
    };
    ArrayHandle::new(buffer, schema)
}

#[test]
fn round_trip_primitive() {
    let (sc, ac) = match export_array(int32_handle(), None) {
        Ok(pair) => pair,
        Err(_) => panic!("export refused a well-formed handle"),
    };
    let mut sc = sc;
    let mut ac = ac;
    let back = import_array(&mut sc, &mut ac).expect("import refused an exported pair");
    assert!(back.same_as(&int32_handle()));
    assert_eq!(sc.current_state(), CapsuleState::Consumed);
    assert_eq!(ac.current_state(), CapsuleState::Consumed);
}

#[test]
fn round_trip_nested() {
    let (mut sc, mut ac) = export_array(list_handle(), None).expect("export failed");
    let back = import_array(&mut sc, &mut ac).expect("import failed");
    assert!(back.same_as(&list_handle()));
    assert_eq!(back.len(), 2);
    assert_eq!(back.buffer().children[0].length, 5);
}

#[test]
fn round_trip_dictionary() {
    let (mut sc, mut ac) = export_array(dictionary_handle(), None).expect("export failed");
    let back = import_array(&mut sc, &mut ac).expect("import failed");
    assert!(back.same_as(&dictionary_handle()));
    assert_eq!(back.len(), 4);
}

#[test]
fn round_trip_zero_length() {
    let schema = prim_schema(TypeKind::UInt8, true);
    let buffer = prim_buffer(vec![], 0);
    let handle = ArrayHandle::new(buffer, schema);
    let (mut sc, mut ac) = export_array(handle, None).expect("export failed");
    let back = import_array(&mut sc, &mut ac).expect("import failed");
    assert_eq!(back.len(), 0);
}

#[test]
fn import_wrong_tag_fails_and_capsule_drops_once() {
    // A schema capsule under the wrong name: otherwise a fully valid payload.
    let mut sc = Capsule::new(
        "not_the_protocol".to_owned(),
        CapsulePayload::Schema(prim_schema(TypeKind::Int32, false)),
    );
    let mut ac = Capsule::new(
        array_capsule_name(),
        CapsulePayload::Array(prim_buffer(vec![1, 0, 0, 0], 1)),
    );
    assert!(matches!(
        import_array(&mut sc, &mut ac),
        Err(ProtocolError::InvalidCapsuleTag)
    ));
    // The failed import left both capsules unbound; abandoning them frees
    // each payload exactly once.
    assert_eq!(sc.current_state(), CapsuleState::Unbound);
    assert_eq!(ac.current_state(), CapsuleState::Unbound);
    assert!(release_capsule(&mut sc));
    assert!(!release_capsule(&mut sc));
    assert!(release_capsule(&mut ac));
    assert!(!release_capsule(&mut ac));
    assert_eq!(ac.current_state(), CapsuleState::Dropped);
}

#[test]
fn import_twice_fails_with_double_consumption() {
    let (mut sc, mut ac) = export_array(int32_handle(), None).expect("export failed");
    let first = import_array(&mut sc, &mut ac);
    assert!(first.is_ok());
    let second = import_array(&mut sc, &mut ac);
    assert!(matches!(second, Err(ProtocolError::DoubleConsumptionError)));
}

#[test]
fn export_with_native_schema_keeps_buffer_identity() {
    let requested = prim_schema(TypeKind::Int32, false);
    let (mut sc, mut ac) = export_array(int32_handle(), Some(requested)).expect("export failed");
    let back = import_array(&mut sc, &mut ac).expect("import failed");
    // The exported buffer is the source buffer itself, bytes untouched.
    assert_eq!(back.buffer().buffers[1], vec![1, 0, 0, 0, 2, 0, 0, 0, 3, 0, 0, 0]);
    assert!(back.same_as(&int32_handle()));
}

#[test]
fn export_unsupported_cast_fails_and_handle_survives() {
    let requested = prim_schema(TypeKind::Int64, true);
    let (err, handle) = match export_array(int32_handle(), Some(requested)) {
        Ok(_) => panic!("an unsupported cast was accepted"),
        Err(e) => e,
    };
    assert_eq!(err, ProtocolError::CastError);
    // The handle came back untouched: exporting it again succeeds.
    assert!(handle.same_as(&int32_handle()));
    assert!(export_array(handle, None).is_ok());
}

#[test]
fn export_nullability_relaxing_cast() {
    let requested = prim_schema(TypeKind::Int32, true);
    let (mut sc, mut ac) = export_array(int32_handle(), Some(requested)).expect("cast refused");
    let back = import_array(&mut sc, &mut ac).expect("import failed");
    // The buffer is untouched; the schema is the requested, nullable one.
    assert_eq!(back.buffer().buffers[1], vec![1, 0, 0, 0, 2, 0, 0, 0, 3, 0, 0, 0]);
    assert!(back.schema().nullable);
    assert_eq!(back.schema().kind, TypeKind::Int32);
    assert!(!back.same_as(&int32_handle()));
}

#[test]
fn export_malformed_handle_fails() {
    // An Int32 array must own two memory regions, not one.
    let schema = prim_schema(TypeKind::Int32, false);
    let buffer = BufferDescriptor {
        length: 1,
        null_count: 0,
        offset: 0,
        buffers: vec![vec![1, 0, 0, 0]],
        children: vec![],
        dictionary: None,
    };
    let handle = ArrayHandle::new(buffer, schema);
    match export_array(handle, None) {
        Ok(_) => panic!("a malformed handle was exported"),
        Err((e, _)) => assert_eq!(e, ProtocolError::FfiExportError),
    }
}

#[test]
fn import_inconsistent_payload_fails() {
    // Correct tags and states, but the buffer has one region where the
    // schema's kind expects two.
    let mut sc = Capsule::new(
        schema_capsule_name(),
        CapsulePayload::Schema(prim_schema(TypeKind::Int32, false)),
    );
    let mut ac = Capsule::new(
        array_capsule_name(),
        CapsulePayload::Array(BufferDescriptor {
            length: 1,
            null_count: 0,
            offset: 0,
            buffers: vec![vec![1, 0, 0, 0]],
            children: vec![],
            dictionary: None,
        }),
    );
    assert!(matches!(import_array(&mut sc, &mut ac), Err(ProtocolError::FfiImportError)));
    assert_eq!(sc.current_state(), CapsuleState::Unbound);
    assert_eq!(ac.current_state(), CapsuleState::Unbound);
}

#[test]
fn import_swapped_payloads_fails() {
    // The right tags, but the schema capsule carries the buffer and the
    // array capsule the schema.
    let mut sc = Capsule::new(
        schema_capsule_name(),
        CapsulePayload::Array(prim_buffer(vec![1, 0, 0, 0], 1)),
    );
    let mut ac = Capsule::new(
        array_capsule_name(),
        CapsulePayload::Schema(prim_schema(TypeKind::Int32, false)),
    );
    assert!(matches!(import_array(&mut sc, &mut ac), Err(ProtocolError::FfiImportError)));
}

#[test]
fn release_after_import_frees_nothing() {
    let (mut sc, mut ac) = export_array(int32_handle(), None).expect("export failed");
    let _back = import_array(&mut sc, &mut ac).expect("import failed");
    assert!(!release_capsule(&mut sc));
    assert!(!release_capsule(&mut ac));
    assert_eq!(sc.current_state(), CapsuleState::Consumed);
    assert_eq!(ac.current_state(), CapsuleState::Consumed);
}

#[test]
fn structural_equality_ignores_provenance() {
    let a = int32_handle();
    let b = int32_handle();
    assert!(a.same_as(&b));
    let c = ArrayHandle::new(
        prim_buffer(vec![9, 0, 0, 0, 2, 0, 0, 0, 3, 0, 0, 0], 3),
        prim_schema(TypeKind::Int32, false),
    );
    assert!(!a.same_as(&c));
}

#[test]
fn metadata_divergence_blocks_cast() {
    let mut requested = prim_schema(TypeKind::Int32, true);
    requested.metadata = vec![1, 2, 3];
    match export_array(int32_handle(), Some(requested)) {
        Ok(_) => panic!("a metadata-changing cast was accepted"),
        Err((e, _)) => assert_eq!(e, ProtocolError::CastError),
    }
}

#[test]
fn summary_is_bounded_type_name() {
    assert_eq!(int32_handle().summary(), "int32");
    assert_eq!(list_handle().summary(), "list");
    assert_eq!(dictionary_handle().summary(), "dictionary");
}

#[test]
fn export_widening_cast_rewrites_values() {
    let handle = ArrayHandle::new(
        prim_buffer(vec![1, 2, 3], 3),
        prim_schema(TypeKind::UInt8, false),
    );
    let requested = prim_schema(TypeKind::UInt16, true);
    let (mut sc, mut ac) = export_array(handle, Some(requested)).expect("widening refused");
    let back = import_array(&mut sc, &mut ac).expect("import failed");
    assert_eq!(back.schema().kind, TypeKind::UInt16);
    assert_eq!(back.len(), 3);
    // Every eight-bit value reappears as a little-endian sixteen-bit value.
    assert_eq!(back.buffer().buffers[1], vec![1, 0, 2, 0, 3, 0]);
}
