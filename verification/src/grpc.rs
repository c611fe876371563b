//! The compilation service's gRPC request handling: validating the request,
//! classifying the service's errors, and building the response.
//!
//! The handler itself awaits the compilation service; it runs
//! [`compilation_target`] before the call, [`service_outcome`] on what the
//! call returned, and [`compilation_response`] on the outcome.

use vstd::prelude::*;
use vstd::string::*;

verus! {

/// A UUID as the gRPC messages carry it.
#[derive(Debug, Clone, Copy, PartialEq, Eq, Structural)]
pub struct Uuid {
    pub high_bits: u64,
    pub low_bits: u64,
}

/// A component id as the gRPC messages carry it: the UUID may be missing.
#[derive(Debug, Clone, Copy, PartialEq, Eq, Structural)]
pub struct GrpcComponentId {
    pub value: Option<Uuid>,
}

/// A validated component id.
#[derive(Debug, Clone, Copy, PartialEq, Eq, Structural)]
pub struct ComponentId(pub Uuid);

/// A request to compile a version of a component.
#[derive(Debug, Clone, Copy, PartialEq, Eq, Structural)]
pub struct ComponentCompilationRequest {
    pub component_id: Option<GrpcComponentId>,
    pub component_version: u64,
}

/// An error with one message.
#[derive(Debug)]
pub struct ErrorBody {
    pub error: String,
}

/// An error with a list of messages.
#[derive(Debug)]
pub struct ErrorsBody {
    pub errors: Vec<String>,
}

/// The kinds of error that a compilation request is answered with.
#[derive(Debug)]
pub enum ComponentCompilationErrorKind {
    BadRequest(ErrorsBody),
    NotFound(ErrorBody),
    InternalError(ErrorBody),
}

/// The error that a compilation request is answered with.
#[derive(Debug)]
pub struct ComponentCompilationError {
    pub error: Option<ComponentCompilationErrorKind>,
}

/// The empty message of a successful answer.
#[derive(Debug, Clone, Copy, PartialEq, Eq, Structural)]
pub struct Empty {}

/// Whether a compilation request succeeded.
#[derive(Debug)]
pub enum ComponentCompilationResult {
    Success(Empty),
    Failure(ComponentCompilationError),
}

/// The answer to a compilation request.
#[derive(Debug)]
pub struct ComponentCompilationResponse {
    pub result: Option<ComponentCompilationResult>,
}

/// The errors that the compilation service reports. Each carries its detail.
#[derive(Debug)]
pub enum CompilationError {
    ComponentNotFound(String),
    CompileFailure(String),
    ComponentDownloadFailed(String),
    ComponentUploadFailed(String),
    Unexpected(String),
}

/// An error of a compilation request, with its messages as text.
pub enum ErrorView {
    BadRequest(Seq<Seq<char>>),
    NotFound(Seq<char>),
    InternalError(Seq<char>),
}

/// The answer to a compilation request, with its messages as text.
pub enum ResponseView {
    Success,
    Failure(Option<ErrorView>),
}

impl View for ComponentCompilationError {
    type V = Option<ErrorView>;

    open spec fn view(&self) -> Option<ErrorView> {
        match self.error {
            None => None,
            Some(ComponentCompilationErrorKind::BadRequest(b)) => Some(
                ErrorView::BadRequest(b.errors@.map_values(|e: String| e@)),
            ),
            Some(ComponentCompilationErrorKind::NotFound(b)) => Some(
                ErrorView::NotFound(b.error@),
            ),
            Some(ComponentCompilationErrorKind::InternalError(b)) => Some(
                ErrorView::InternalError(b.error@),
            ),
        }
    }
}

impl View for ComponentCompilationResponse {
    type V = Option<ResponseView>;

    open spec fn view(&self) -> Option<ResponseView> {
        match self.result {
            None => None,
            Some(ComponentCompilationResult::Success(_)) => Some(ResponseView::Success),
            Some(ComponentCompilationResult::Failure(e)) => Some(ResponseView::Failure(e@)),
        }
    }
}

/// The message that describes a service error: a fixed text for each kind
/// of error, chosen by this library, followed by the error's detail.
pub open spec fn compilation_error_message(e: CompilationError) -> Seq<char> {
    match e {
        CompilationError::ComponentNotFound(d) => "Component not found: "@ + d@,
        CompilationError::CompileFailure(d) => "Failed to compile component: "@ + d@,
        CompilationError::ComponentDownloadFailed(d) => "Failed to download component: "@ + d@,
        CompilationError::ComponentUploadFailed(d) => "Failed to upload component: "@ + d@,
        CompilationError::Unexpected(d) => "Unexpected error: "@ + d@,
    }
}

/// How a service error is answered: a missing component as not found,
/// anything else as an internal error, both with the error's message.
pub open spec fn classify_error(e: CompilationError) -> ErrorView {
    match e {
        CompilationError::ComponentNotFound(_) => ErrorView::NotFound(compilation_error_message(e)),
        _ => ErrorView::InternalError(compilation_error_message(e)),
    }
}

/// The answer to a request whose component id is missing or carries no UUID.
pub open spec fn id_error(id: Option<GrpcComponentId>) -> Option<ErrorView> {
    match id {
        None => Some(ErrorView::BadRequest(seq!["Missing component id"@])),
        Some(_) => Some(ErrorView::BadRequest(seq!["Invalid component id"@])),
    }
}

impl CompilationError {
    /// The message that describes this error.
    pub fn to_string(&self) -> (r: String)
        ensures
            r@ == compilation_error_message(*self),
            match *self {
                CompilationError::ComponentNotFound(d) => r@ == "Component not found: "@ + d@,
                CompilationError::CompileFailure(d) => r@ == "Failed to compile component: "@ + d@,
                CompilationError::ComponentDownloadFailed(d) => r@ == "Failed to download component: "@
                    + d@,
                CompilationError::ComponentUploadFailed(d) => r@ == "Failed to upload component: "@
                    + d@,
                CompilationError::Unexpected(d) => r@ == "Unexpected error: "@ + d@,
            },
    {
        let (prefix, detail) = match self {
            CompilationError::ComponentNotFound(d) => ("Component not found: ", d),
            CompilationError::CompileFailure(d) => ("Failed to compile component: ", d),
            CompilationError::ComponentDownloadFailed(d) => ("Failed to download component: ", d),
            CompilationError::ComponentUploadFailed(d) => ("Failed to upload component: ", d),
            CompilationError::Unexpected(d) => ("Unexpected error: ", d),
        };
        let mut s = String::from_str(prefix);
        s.append(detail.as_str());
        s
    }
}

impl ComponentCompilationError {
    /// The answer to a request that the service failed: not found for a
    /// missing component, an internal error otherwise, with the error's
    /// message.
    pub fn from(value: CompilationError) -> (r: Self)
        ensures
            r@ == Some(classify_error(value)),
            match value {
                CompilationError::ComponentNotFound(d) => r.error matches Some(
                    ComponentCompilationErrorKind::NotFound(b),
                ) && b.error@ == "Component not found: "@ + d@,
                CompilationError::CompileFailure(d) => r.error matches Some(
                    ComponentCompilationErrorKind::InternalError(b),
                ) && b.error@ == "Failed to compile component: "@ + d@,
                CompilationError::ComponentDownloadFailed(d) => r.error matches Some(
                    ComponentCompilationErrorKind::InternalError(b),
                ) && b.error@ == "Failed to download component: "@ + d@,
                CompilationError::ComponentUploadFailed(d) => r.error matches Some(
                    ComponentCompilationErrorKind::InternalError(b),
                ) && b.error@ == "Failed to upload component: "@ + d@,
                CompilationError::Unexpected(d) => r.error matches Some(
                    ComponentCompilationErrorKind::InternalError(b),
                ) && b.error@ == "Unexpected error: "@ + d@,
            },
    {
        let body = ErrorBody { error: value.to_string() };
        let error = match value {
            CompilationError::ComponentNotFound(_) => ComponentCompilationErrorKind::NotFound(body),
            CompilationError::CompileFailure(_)
            | CompilationError::ComponentDownloadFailed(_)
            | CompilationError::ComponentUploadFailed(_)
            | CompilationError::Unexpected(_) => ComponentCompilationErrorKind::InternalError(body),
        };
        ComponentCompilationError { error: Some(error) }
    }
}

/// A bad-request answer with the single message `error`.
pub fn bad_request_error(error: &str) -> (r: ComponentCompilationError)
    ensures
        r@ == Some(ErrorView::BadRequest(seq![error@])),
{
    let mut errors: Vec<String> = Vec::new();
    errors.push(String::from_str(error));
    assert(errors@.map_values(|e: String| e@) =~= seq![error@]);
    let r = ComponentCompilationError {
        error: Some(ComponentCompilationErrorKind::BadRequest(ErrorsBody { errors })),
    };
    r
}

impl ComponentId {
    /// The component id that a gRPC id names; an error where it carries no UUID.
    pub fn try_from_grpc(id: GrpcComponentId) -> (r: Result<ComponentId, String>)
        ensures
            r is Ok <==> id.value is Some,
            r matches Ok(c) ==> c.0 == id.value->0,
            r matches Err(e) ==> e@ == "Missing value"@,
    {
        match id.value {
            Some(uuid) => Ok(ComponentId(uuid)),
            None => Err(String::from_str("Missing value")),
        }
    }
}

/// Validates the component id of a request: a bad request where it is
/// missing or carries no UUID.
pub fn make_component_id(id: Option<GrpcComponentId>) -> (r: Result<
    ComponentId,
    ComponentCompilationError,
>)
    ensures
        r is Ok <==> (id matches Some(g) && g.value is Some),
        r matches Ok(c) ==> c.0 == id->0.value->0,
        r matches Err(e) ==> e@ == id_error(id),
        r matches Err(e) ==> e@ == Some(
            ErrorView::BadRequest(
                seq![
                    if id is None {
                        "Missing component id"@
                    } else {
                        "Invalid component id"@
                    },
                ],
            ),
        ),
{
    let id = match id {
        Some(id) => id,
        None => {
            return Err(bad_request_error("Missing component id"));
        },
    };
    match ComponentId::try_from_grpc(id) {
        Ok(c) => Ok(c),
        Err(_) => Err(bad_request_error("Invalid component id")),
    }
}

/// What to ask the compilation service for: the request's component and
/// version, or the bad-request answer where the component id is invalid.
pub fn compilation_target(request: ComponentCompilationRequest) -> (r: Result<
    (ComponentId, u64),
    ComponentCompilationError,
>)
    ensures
        r is Ok <==> (request.component_id matches Some(g) && g.value is Some),
        r matches Ok(t) ==> t.0 .0 == request.component_id->0.value->0 && t.1
            == request.component_version,
        r matches Err(e) ==> e@ == id_error(request.component_id),
        r matches Err(e) ==> e@ == Some(
            ErrorView::BadRequest(
                seq![
                    if request.component_id is None {
                        "Missing component id"@
                    } else {
                        "Invalid component id"@
                    },
                ],
            ),
        ),
{
    let component_id = make_component_id(request.component_id)?;
    Ok((component_id, request.component_version))
}

/// The outcome of a request given what the compilation service returned.
pub fn service_outcome(result: Result<(), CompilationError>) -> (r: Result<
    (),
    ComponentCompilationError,
>)
    ensures
        r is Ok <==> result is Ok,
        r matches Err(e) ==> e@ == Some(classify_error(result->Err_0)),
        r matches Err(e) ==> (e.error matches Some(ComponentCompilationErrorKind::NotFound(_))
            <==> result->Err_0 is ComponentNotFound),
        r matches Err(e) ==> (e.error matches Some(ComponentCompilationErrorKind::InternalError(_))
            <==> !(result->Err_0 is ComponentNotFound)),
{
    match result {
        Ok(()) => Ok(()),
        Err(e) => Err(ComponentCompilationError::from(e)),
    }
}

/// The answer to a request: success, or failure with the request's error.
pub fn compilation_response(outcome: Result<(), ComponentCompilationError>) -> (r:
    ComponentCompilationResponse)
    ensures
        r@ == Some(
            match outcome {
                Ok(_) => ResponseView::Success,
                Err(e) => ResponseView::Failure(e@),
            },
        ),
{
    let result = match outcome {
        Ok(_) => ComponentCompilationResult::Success(Empty {}),
        Err(e) => ComponentCompilationResult::Failure(e),
    };
    ComponentCompilationResponse { result: Some(result) }
}

/// The gRPC front of a compilation service `S`.
#[derive(Clone)]
pub struct CompileGrpcService<S> {
    service: S,
}

impl<S> CompileGrpcService<S> {
    /// The service that the front hands requests to.
    pub closed spec fn inner(&self) -> S {
        self.service
    }

    /// A front for `service`.
    pub fn new(service: S) -> (r: Self)
        ensures
            r.inner() == service,
    {
        CompileGrpcService { service }
    }

    /// The service that the front hands requests to.
    pub fn service(&self) -> (r: &S)
        ensures
            *r == self.inner(),
    {
        &self.service
    }
}

/// The message of a service error is the kind's fixed text followed by the
/// whole of the error's detail, and whether it is answered as not found
/// depends only on its kind.
pub proof fn lemma_error_message_keeps_detail(e: CompilationError)
    ensures
        ({
            let m = compilation_error_message(e);
            let d = match e {
                CompilationError::ComponentNotFound(d) => d@,
                CompilationError::CompileFailure(d) => d@,
                CompilationError::ComponentDownloadFailed(d) => d@,
                CompilationError::ComponentUploadFailed(d) => d@,
                CompilationError::Unexpected(d) => d@,
            };
            &&& m.len() >= d.len()
            &&& m.skip(m.len() - d.len()) == d
        }),
        (classify_error(e) is NotFound) <==> (e is ComponentNotFound),
        (classify_error(e) is InternalError) <==> !(e is ComponentNotFound),
{
    let m = compilation_error_message(e);
    match e {
        CompilationError::ComponentNotFound(d) => {
            assert(m.skip(m.len() - d@.len()) =~= d@);
        },
        CompilationError::CompileFailure(d) => {
            assert(m.skip(m.len() - d@.len()) =~= d@);
        },
        CompilationError::ComponentDownloadFailed(d) => {
            assert(m.skip(m.len() - d@.len()) =~= d@);
        },
        CompilationError::ComponentUploadFailed(d) => {
            assert(m.skip(m.len() - d@.len()) =~= d@);
        },
        CompilationError::Unexpected(d) => {
            assert(m.skip(m.len() - d@.len()) =~= d@);
        },
    }
}

} // verus!
