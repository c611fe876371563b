use golem::grpc::{
    bad_request_error, compilation_response, compilation_target, make_component_id,
    service_outcome, CompilationError, CompileGrpcService, ComponentCompilationError,
    ComponentCompilationErrorKind, ComponentCompilationRequest, ComponentCompilationResult,
    ComponentId, GrpcComponentId, Uuid,
};

fn bad_request_messages(e: &ComponentCompilationError) -> Option<Vec<String>> {
    match &e.error {
        Some(ComponentCompilationErrorKind::BadRequest(b)) => Some(b.errors.clone()),
        _ => None,
    }
}

const UUID: Uuid = Uuid { high_bits: 0x0123_4567_89ab_cdef, low_bits: 42 };

#[test]
fn missing_component_id_is_a_bad_request() {
    let e = make_component_id(None).unwrap_err();
    assert_eq!(bad_request_messages(&e), Some(vec!["Missing component id".to_string()]));
}

#[test]
fn component_id_without_uuid_is_invalid() {
    let e = make_component_id(Some(GrpcComponentId { value: None })).unwrap_err();
    assert_eq!(bad_request_messages(&e), Some(vec!["Invalid component id".to_string()]));
}

#[test]
fn component_id_with_uuid_is_accepted() {
    let id = make_component_id(Some(GrpcComponentId { value: Some(UUID) })).unwrap();
    assert_eq!(id, ComponentId(UUID));
    assert_eq!(ComponentId::try_from_grpc(GrpcComponentId { value: None }), Err("Missing value".to_string()));
}

#[test]
fn target_keeps_component_and_version() {
    let request = ComponentCompilationRequest {
        component_id: Some(GrpcComponentId { value: Some(UUID) }),
        component_version: 7,
    };
    assert_eq!(compilation_target(request).unwrap(), (ComponentId(UUID), 7));
    let request = ComponentCompilationRequest { component_id: None, component_version: 7 };
    let e = compilation_target(request).unwrap_err();
    assert_eq!(bad_request_messages(&e), Some(vec!["Missing component id".to_string()]));
}

#[test]
fn bad_request_carries_one_message() {
    let e = bad_request_error("oops");
    assert_eq!(bad_request_messages(&e), Some(vec!["oops".to_string()]));
}

#[test]
fn not_found_errors_are_classified() {
    let e = ComponentCompilationError::from(CompilationError::ComponentNotFound("c#1".to_string()));
    match e.error {
        Some(ComponentCompilationErrorKind::NotFound(b)) => assert_eq!(b.error, "Component not found: c#1"),
        other => panic!("unexpected {:?}", other),
    }
}

#[test]
fn other_errors_are_internal() {
    let cases = vec![
        (CompilationError::CompileFailure("a".to_string()), "Failed to compile component: a"),
        (CompilationError::ComponentDownloadFailed("b".to_string()), "Failed to download component: b"),
        (CompilationError::ComponentUploadFailed("c".to_string()), "Failed to upload component: c"),
        (CompilationError::Unexpected("d".to_string()), "Unexpected error: d"),
    ];
    for (error, message) in cases {
        assert_eq!(error.to_string(), message);
        match ComponentCompilationError::from(error).error {
            Some(ComponentCompilationErrorKind::InternalError(b)) => assert_eq!(b.error, message),
            other => panic!("unexpected {:?}", other),
        }
    }
}

#[test]
fn service_outcome_maps_errors() {
    assert!(service_outcome(Ok(())).is_ok());
    let e = service_outcome(Err(CompilationError::Unexpected("x".to_string()))).unwrap_err();
    assert!(matches!(e.error, Some(ComponentCompilationErrorKind::InternalError(_))));
}

#[test]
fn response_reflects_outcome() {
    let r = compilation_response(Ok(()));
    assert!(matches!(r.result, Some(ComponentCompilationResult::Success(_))));
    let r = compilation_response(Err(bad_request_error("no")));
    match r.result {
        Some(ComponentCompilationResult::Failure(e)) => {
            assert_eq!(bad_request_messages(&e), Some(vec!["no".to_string()]))
        }
        other => panic!("unexpected {:?}", other),
    }
}

#[test]
fn service_front_holds_its_service() {
    let front = CompileGrpcService::new(5u32);
    assert_eq!(*front.service(), 5);
    assert_eq!(*front.clone().service(), 5);
}
