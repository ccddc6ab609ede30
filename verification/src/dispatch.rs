//! Name-routed dispatch: from the name of a call and its decoded request to
//! the handler, and from the handler's result to the protocol status.

use vstd::prelude::*;
use vstd::string::*;
use crate::error::{code_of_error, text_of_error, wire_number, RpcCode, ServiceError};
use crate::rpc::{status_made, status_of};
use crate::model::{
    CreateBranchFromSourceDeploymentRequest, CreateBranchFromSourceDeploymentResponse,
    DeployBranchRequest, DeployBranchResponse, GetActiveDeploymentsRequest,
    GetActiveDeploymentsResponse, GetDeploymentRequest, GetDeploymentResponse,
    ListDeploymentsRequest, ListDeploymentsResponse, ScaleDeploymentRequest,
    ScaleDeploymentResponse, SuspendDeploymentRequest, SuspendDeploymentResponse,
    TagDeploymentRequest, TagDeploymentResponse, Timestamp,
};
use crate::service::DeployService;
use crate::text::{decimal, format_decimal};

verus! {

/// The HTTP status of every answer; the outcome of the call travels in the
/// protocol status, not here.
pub const HTTP_STATUS: u16 = 200;

/// The content type of every answer.
pub const CONTENT_TYPE: &'static str = "application/grpc";

/// The name that the service is registered under.
pub const SERVICE_NAME: &'static str = "chalk.server.v1.DeployService";

/// The operations of the service.
#[derive(Clone, Copy, Debug, PartialEq, Eq, Structural, Hash)]
pub enum Operation {
    DeployBranch,
    CreateBranchFromSourceDeployment,
    GetDeployment,
    ListDeployments,
    GetActiveDeployments,
    SuspendDeployment,
    ScaleDeployment,
    TagDeployment,
}

/// The name that an operation is registered under: the service's name, a
/// slash and the method's name.
pub open spec fn operation_name(op: Operation) -> Seq<char> {
    match op {
        Operation::DeployBranch => "chalk.server.v1.DeployService/DeployBranch"@,
        Operation::CreateBranchFromSourceDeployment =>
            "chalk.server.v1.DeployService/CreateBranchFromSourceDeployment"@,
        Operation::GetDeployment => "chalk.server.v1.DeployService/GetDeployment"@,
        Operation::ListDeployments => "chalk.server.v1.DeployService/ListDeployments"@,
        Operation::GetActiveDeployments => "chalk.server.v1.DeployService/GetActiveDeployments"@,
        Operation::SuspendDeployment => "chalk.server.v1.DeployService/SuspendDeployment"@,
        Operation::ScaleDeployment => "chalk.server.v1.DeployService/ScaleDeployment"@,
        Operation::TagDeployment => "chalk.server.v1.DeployService/TagDeployment"@,
    }
}

/// The operation that a name is bound to, if any; the names are tried in
/// the order of the operations.
pub open spec fn routed(name: Seq<char>) -> Option<Operation> {
    if name == operation_name(Operation::DeployBranch) {
        Some(Operation::DeployBranch)
    } else if name == operation_name(Operation::CreateBranchFromSourceDeployment) {
        Some(Operation::CreateBranchFromSourceDeployment)
    } else if name == operation_name(Operation::GetDeployment) {
        Some(Operation::GetDeployment)
    } else if name == operation_name(Operation::ListDeployments) {
        Some(Operation::ListDeployments)
    } else if name == operation_name(Operation::GetActiveDeployments) {
        Some(Operation::GetActiveDeployments)
    } else if name == operation_name(Operation::SuspendDeployment) {
        Some(Operation::SuspendDeployment)
    } else if name == operation_name(Operation::ScaleDeployment) {
        Some(Operation::ScaleDeployment)
    } else if name == operation_name(Operation::TagDeployment) {
        Some(Operation::TagDeployment)
    } else {
        None
    }
}

impl Operation {
    /// The name that this operation is registered under.
    pub fn name(self) -> (n: &'static str)
        ensures
            n@ == operation_name(self),
    {
        match self {
            Operation::DeployBranch => "chalk.server.v1.DeployService/DeployBranch",
            Operation::CreateBranchFromSourceDeployment =>
                "chalk.server.v1.DeployService/CreateBranchFromSourceDeployment",
            Operation::GetDeployment => "chalk.server.v1.DeployService/GetDeployment",
            Operation::ListDeployments => "chalk.server.v1.DeployService/ListDeployments",
            Operation::GetActiveDeployments =>
                "chalk.server.v1.DeployService/GetActiveDeployments",
            Operation::SuspendDeployment => "chalk.server.v1.DeployService/SuspendDeployment",
            Operation::ScaleDeployment => "chalk.server.v1.DeployService/ScaleDeployment",
            Operation::TagDeployment => "chalk.server.v1.DeployService/TagDeployment",
        }
    }
}

fn names(name: &String, op: Operation) -> (b: bool)
    ensures
        b == (name@ == operation_name(op)),
{
    let bound = String::from_str(op.name());
    *name == bound
}

/// Finds the operation that a name is bound to; `None` for a name that no
/// operation is registered under.
pub fn route(name: &str) -> (r: Option<Operation>)
    ensures
        r == routed(name@),
{
    let n = String::from_str(name);
    if names(&n, Operation::DeployBranch) {
        Some(Operation::DeployBranch)
    } else if names(&n, Operation::CreateBranchFromSourceDeployment) {
        Some(Operation::CreateBranchFromSourceDeployment)
    } else if names(&n, Operation::GetDeployment) {
        Some(Operation::GetDeployment)
    } else if names(&n, Operation::ListDeployments) {
        Some(Operation::ListDeployments)
    } else if names(&n, Operation::GetActiveDeployments) {
        Some(Operation::GetActiveDeployments)
    } else if names(&n, Operation::SuspendDeployment) {
        Some(Operation::SuspendDeployment)
    } else if names(&n, Operation::ScaleDeployment) {
        Some(Operation::ScaleDeployment)
    } else if names(&n, Operation::TagDeployment) {
        Some(Operation::TagDeployment)
    } else {
        None
    }
}

/// The operation that the path of a call is bound to: the path is a slash
/// followed by the operation's name.
pub open spec fn routed_path(path: Seq<char>) -> Option<Operation> {
    if path.len() > 0 && path[0] == '/' {
        routed(path.subrange(1, path.len() as int))
    } else {
        None
    }
}

/// Finds the operation that the path of a call is bound to; `None` for a
/// path without the leading slash or with a name that no operation is
/// registered under.
pub fn route_path(path: &str) -> (r: Option<Operation>)
    ensures
        r == routed_path(path@),
{
    let n: usize = path.unicode_len();
    if n == 0 {
        return None;
    }
    if path.get_char(0) != '/' {
        return None;
    }
    route(path.substring_char(1, n))
}

/// A decoded request, of any operation.
#[derive(Clone, Debug, PartialEq, Eq)]
pub enum RpcRequest {
    DeployBranch(DeployBranchRequest),
    CreateBranchFromSourceDeployment(CreateBranchFromSourceDeploymentRequest),
    GetDeployment(GetDeploymentRequest),
    ListDeployments(ListDeploymentsRequest),
    GetActiveDeployments(GetActiveDeploymentsRequest),
    SuspendDeployment(SuspendDeploymentRequest),
    ScaleDeployment(ScaleDeploymentRequest),
    TagDeployment(TagDeploymentRequest),
}

/// A response to be encoded, of any operation.
#[derive(Clone, Debug, PartialEq, Eq)]
pub enum RpcResponse {
    DeployBranch(DeployBranchResponse),
    CreateBranchFromSourceDeployment(CreateBranchFromSourceDeploymentResponse),
    GetDeployment(GetDeploymentResponse),
    ListDeployments(ListDeploymentsResponse),
    GetActiveDeployments(GetActiveDeploymentsResponse),
    SuspendDeployment(SuspendDeploymentResponse),
    ScaleDeployment(ScaleDeploymentResponse),
    TagDeployment(TagDeploymentResponse),
}

/// The operation that a request belongs to.
pub open spec fn request_operation(r: RpcRequest) -> Operation {
    match r {
        RpcRequest::DeployBranch(_) => Operation::DeployBranch,
        RpcRequest::CreateBranchFromSourceDeployment(_) =>
            Operation::CreateBranchFromSourceDeployment,
        RpcRequest::GetDeployment(_) => Operation::GetDeployment,
        RpcRequest::ListDeployments(_) => Operation::ListDeployments,
        RpcRequest::GetActiveDeployments(_) => Operation::GetActiveDeployments,
        RpcRequest::SuspendDeployment(_) => Operation::SuspendDeployment,
        RpcRequest::ScaleDeployment(_) => Operation::ScaleDeployment,
        RpcRequest::TagDeployment(_) => Operation::TagDeployment,
    }
}

/// The operation that a response belongs to.
pub open spec fn response_operation(r: RpcResponse) -> Operation {
    match r {
        RpcResponse::DeployBranch(_) => Operation::DeployBranch,
        RpcResponse::CreateBranchFromSourceDeployment(_) =>
            Operation::CreateBranchFromSourceDeployment,
        RpcResponse::GetDeployment(_) => Operation::GetDeployment,
        RpcResponse::ListDeployments(_) => Operation::ListDeployments,
        RpcResponse::GetActiveDeployments(_) => Operation::GetActiveDeployments,
        RpcResponse::SuspendDeployment(_) => Operation::SuspendDeployment,
        RpcResponse::ScaleDeployment(_) => Operation::ScaleDeployment,
        RpcResponse::TagDeployment(_) => Operation::TagDeployment,
    }
}

impl RpcRequest {
    /// The operation that this request belongs to.
    pub fn operation(&self) -> (op: Operation)
        ensures
            op == request_operation(*self),
    {
        match self {
            RpcRequest::DeployBranch(_) => Operation::DeployBranch,
            RpcRequest::CreateBranchFromSourceDeployment(_) =>
                Operation::CreateBranchFromSourceDeployment,
            RpcRequest::GetDeployment(_) => Operation::GetDeployment,
            RpcRequest::ListDeployments(_) => Operation::ListDeployments,
            RpcRequest::GetActiveDeployments(_) => Operation::GetActiveDeployments,
            RpcRequest::SuspendDeployment(_) => Operation::SuspendDeployment,
            RpcRequest::ScaleDeployment(_) => Operation::ScaleDeployment,
            RpcRequest::TagDeployment(_) => Operation::TagDeployment,
        }
    }
}

/// How a call ended: the protocol status, a message for the caller, and the
/// response to encode where the call succeeded.
#[derive(Clone, Debug, PartialEq, Eq)]
pub struct CallOutcome {
    pub code: RpcCode,
    pub message: String,
    pub response: Option<RpcResponse>,
}

/// The outcome that a handler's result maps to: success carries the
/// response with status `Success`; a failure carries the status of its
/// kind and the error's detail as its message, and no response.
pub open spec fn outcome_matches(result: Result<RpcResponse, ServiceError>, outcome: CallOutcome)
    -> bool {
    match result {
        Ok(resp) => outcome.code == RpcCode::Success && outcome.response == Some(resp)
            && outcome.message@.len() == 0,
        Err(e) => outcome.code == code_of_error(e) && outcome.response.is_none()
            && outcome.message@ == text_of_error(e),
    }
}

impl CallOutcome {
    /// The outcome of a call whose handler returned `result`.
    pub fn of_result(result: Result<RpcResponse, ServiceError>) -> (o: CallOutcome)
        ensures
            outcome_matches(result, o),
    {
        match result {
            Ok(resp) => CallOutcome {
                code: RpcCode::Success,
                message: String::new(),
                response: Some(resp),
            },
            Err(e) => CallOutcome { code: e.code(), message: e.detail(), response: None },
        }
    }

    /// The outcome of a call whose name no operation is registered under.
    pub fn unknown_operation() -> (o: CallOutcome)
        ensures
            o.code == RpcCode::Unimplemented,
            o.response.is_none(),
            o.message@ == "Not implemented"@,
    {
        CallOutcome {
            code: RpcCode::Unimplemented,
            message: String::from_str("Not implemented"),
            response: None,
        }
    }

    /// The outcome of a call whose request could not be decoded.
    pub fn undecodable() -> (o: CallOutcome)
        ensures
            o.code == RpcCode::InvalidArgument,
            o.response.is_none(),
            o.message@ == "Request could not be decoded"@,
    {
        CallOutcome {
            code: RpcCode::InvalidArgument,
            message: String::from_str("Request could not be decoded"),
            response: None,
        }
    }

    /// The outcome's status and message as the transport's own status.
    pub fn to_status(&self) -> (s: tonic::Status)
        ensures
            s == status_made(wire_number(self.code), self.message@),
    {
        status_of(self.code, self.message.clone())
    }

    /// The decimal text of the protocol status, as the transport's status
    /// header carries it.
    pub fn status_text(&self) -> (t: String)
        ensures
            t@ == decimal(wire_number(self.code) as nat),
    {
        let n: i32 = self.code.number();
        format_decimal(n as usize)
    }
}

/// Where one call stands on its way through the dispatch layer.
#[derive(Clone, Copy, Debug, PartialEq, Eq, Structural)]
pub enum CallState {
    Received,
    Decoded,
    Handled,
    Encoded,
    Sent,
    Failed(RpcCode),
}

/// What happened to a call since its last state.
#[derive(Clone, Copy, Debug, PartialEq, Eq, Structural)]
pub enum CallEvent {
    /// No operation is registered under the call's name.
    NameUnknown,
    /// The request was decoded.
    DecodeSucceeded,
    /// The request could not be decoded.
    DecodeFailed,
    /// The handler returned a response.
    HandlerSucceeded,
    /// The handler failed with an error of the given status.
    HandlerFailed(RpcCode),
    /// The response was encoded.
    ResponseEncoded,
    /// The answer left.
    AnswerSent,
}

/// The state that an event leads to. An event that does not belong to the
/// state leaves it where it is; `Sent` and `Failed` are final.
pub open spec fn next_state(state: CallState, event: CallEvent) -> CallState {
    match (state, event) {
        (CallState::Received, CallEvent::NameUnknown) => CallState::Failed(RpcCode::Unimplemented),
        (CallState::Received, CallEvent::DecodeFailed) => CallState::Failed(
            RpcCode::InvalidArgument,
        ),
        (CallState::Received, CallEvent::DecodeSucceeded) => CallState::Decoded,
        (CallState::Decoded, CallEvent::HandlerSucceeded) => CallState::Handled,
        (CallState::Decoded, CallEvent::HandlerFailed(code)) => if code == RpcCode::Success {
            CallState::Failed(RpcCode::Internal)
        } else {
            CallState::Failed(code)
        },
        (CallState::Handled, CallEvent::ResponseEncoded) => CallState::Encoded,
        (CallState::Encoded, CallEvent::AnswerSent) => CallState::Sent,
        _ => state,
    }
}

/// The protocol status that a call in the given state is answered with, if
/// it is decided: `Success` once the handler has returned a response, the
/// status of the failure after a failure.
pub open spec fn decided_status(state: CallState) -> Option<RpcCode> {
    match state {
        CallState::Received => None,
        CallState::Decoded => None,
        CallState::Handled => Some(RpcCode::Success),
        CallState::Encoded => Some(RpcCode::Success),
        CallState::Sent => Some(RpcCode::Success),
        CallState::Failed(code) => Some(code),
    }
}

impl CallState {
    /// Moves a call on by one event.
    pub fn advance(self, event: CallEvent) -> (next: CallState)
        ensures
            next == next_state(self, event),
    {
        match (self, event) {
            (CallState::Received, CallEvent::NameUnknown) => CallState::Failed(
                RpcCode::Unimplemented,
            ),
            (CallState::Received, CallEvent::DecodeFailed) => CallState::Failed(
                RpcCode::InvalidArgument,
            ),
            (CallState::Received, CallEvent::DecodeSucceeded) => CallState::Decoded,
            (CallState::Decoded, CallEvent::HandlerSucceeded) => CallState::Handled,
            (CallState::Decoded, CallEvent::HandlerFailed(code)) => {
                match code {
                    RpcCode::Success => CallState::Failed(RpcCode::Internal),
                    _ => CallState::Failed(code),
                }
            },
            (CallState::Handled, CallEvent::ResponseEncoded) => CallState::Encoded,
            (CallState::Encoded, CallEvent::AnswerSent) => CallState::Sent,
            _ => self,
        }
    }

    /// The protocol status that the call is answered with, once decided.
    pub fn status(self) -> (c: Option<RpcCode>)
        ensures
            c == decided_status(self),
    {
        match self {
            CallState::Received => None,
            CallState::Decoded => None,
            CallState::Handled => Some(RpcCode::Success),
            CallState::Encoded => Some(RpcCode::Success),
            CallState::Sent => Some(RpcCode::Success),
            CallState::Failed(code) => Some(code),
        }
    }
}

/// A decided status never changes: once a call has failed, or its handler
/// has succeeded, no event gives it another status. A failure never carries
/// the status `Success`, and a decode failure is always an invalid argument.
pub proof fn lemma_status_is_final(state: CallState, event: CallEvent)
    ensures
        decided_status(state).is_some() ==> decided_status(next_state(state, event))
            == decided_status(state),
        state == CallState::Sent ==> next_state(state, event) == state,
        state matches CallState::Failed(_) ==> next_state(state, event) == state,
        !(state matches CallState::Failed(_)) ==> !(next_state(state, event) matches CallState::Failed(
            RpcCode::Success,
        )),
        next_state(CallState::Received, CallEvent::DecodeFailed) == CallState::Failed(
            RpcCode::InvalidArgument,
        ),
{
}

/// What a call with a decoded request of its operation comes to: the one
/// handler of that operation is called with that request, and the outcome
/// is that of the handler's result. A read operation leaves the service as
/// it was and its result is one that the handler's own contract admits; a
/// write operation leaves the service and gives a result as the
/// implementation's relation for that operation admits.
pub open spec fn answers<T: DeployService>(
    before: T,
    request: RpcRequest,
    now: Timestamp,
    after: T,
    o: CallOutcome,
) -> bool {
    match request {
        RpcRequest::DeployBranch(q) => exists|res: Result<DeployBranchResponse, ServiceError>|
            #[trigger] T::deploy_branch_outcome(before, q, now, after, res) && outcome_matches(
                (match res {
                    Ok(x) => Ok(RpcResponse::DeployBranch(x)),
                    Err(e) => Err(e),
                }),
                o,
            ),
        RpcRequest::CreateBranchFromSourceDeployment(q) => exists|res: Result<CreateBranchFromSourceDeploymentResponse, ServiceError>|
            #[trigger] T::create_branch_outcome(before, q, now, after, res) && outcome_matches(
                (match res {
                    Ok(x) => Ok(RpcResponse::CreateBranchFromSourceDeployment(x)),
                    Err(e) => Err(e),
                }),
                o,
            ),
        RpcRequest::GetDeployment(q) => after == before && exists|res: Result<GetDeploymentResponse, ServiceError>|
            #[trigger] call_ensures(T::get_deployment, (&before, q), res) && outcome_matches(
                (match res {
                    Ok(x) => Ok(RpcResponse::GetDeployment(x)),
                    Err(e) => Err(e),
                }),
                o,
            ),
        RpcRequest::ListDeployments(q) => after == before && exists|res: Result<ListDeploymentsResponse, ServiceError>|
            #[trigger] call_ensures(T::list_deployments, (&before, q), res) && outcome_matches(
                (match res {
                    Ok(x) => Ok(RpcResponse::ListDeployments(x)),
                    Err(e) => Err(e),
                }),
                o,
            ),
        RpcRequest::GetActiveDeployments(q) => after == before && exists|res: Result<GetActiveDeploymentsResponse, ServiceError>|
            #[trigger] call_ensures(T::get_active_deployments, (&before, q), res) && outcome_matches(
                (match res {
                    Ok(x) => Ok(RpcResponse::GetActiveDeployments(x)),
                    Err(e) => Err(e),
                }),
                o,
            ),
        RpcRequest::SuspendDeployment(q) => exists|res: Result<SuspendDeploymentResponse, ServiceError>|
            #[trigger] T::suspend_outcome(before, q, now, after, res) && outcome_matches(
                (match res {
                    Ok(x) => Ok(RpcResponse::SuspendDeployment(x)),
                    Err(e) => Err(e),
                }),
                o,
            ),
        RpcRequest::ScaleDeployment(q) => exists|res: Result<ScaleDeploymentResponse, ServiceError>|
            #[trigger] T::scale_outcome(before, q, now, after, res) && outcome_matches(
                (match res {
                    Ok(x) => Ok(RpcResponse::ScaleDeployment(x)),
                    Err(e) => Err(e),
                }),
                o,
            ),
        RpcRequest::TagDeployment(q) => exists|res: Result<TagDeploymentResponse, ServiceError>|
            #[trigger] T::tag_outcome(before, q, now, after, res) && outcome_matches(
                (match res {
                    Ok(x) => Ok(RpcResponse::TagDeployment(x)),
                    Err(e) => Err(e),
                }),
                o,
            ),
    }
}

/// The protocol status of a handler's result.
pub open spec fn result_code(result: Result<RpcResponse, ServiceError>) -> RpcCode {
    match result {
        Ok(_) => RpcCode::Success,
        Err(e) => code_of_error(e),
    }
}

/// The state that the events of one call lead to from `Received`: a name
/// that is not known fails the call at once, and so does a request that is
/// not decoded; a decoded request is handled, and the handler's status
/// either fails the call or lets it be encoded and sent.
pub open spec fn state_of_call(known: bool, decoded: bool, handler: RpcCode) -> CallState {
    if !known {
        next_state(CallState::Received, CallEvent::NameUnknown)
    } else if !decoded {
        next_state(CallState::Received, CallEvent::DecodeFailed)
    } else {
        let handling = next_state(CallState::Received, CallEvent::DecodeSucceeded);
        if handler == RpcCode::Success {
            next_state(
                next_state(
                    next_state(handling, CallEvent::HandlerSucceeded),
                    CallEvent::ResponseEncoded,
                ),
                CallEvent::AnswerSent,
            )
        } else {
            next_state(handling, CallEvent::HandlerFailed(handler))
        }
    }
}

/// Whether the request was decoded as one of the operation that the name
/// is bound to.
pub open spec fn decoded_for(op: Option<Operation>, request: Option<RpcRequest>) -> bool {
    op.is_some() && request.is_some() && request_operation(request.unwrap()) == op.unwrap()
}

/// The status of the outcome of a handler's result is the status that the
/// call's state machine decides on the events of a handled call.
pub proof fn lemma_outcome_is_decided_status(
    result: Result<RpcResponse, ServiceError>,
    o: CallOutcome,
)
    requires
        outcome_matches(result, o),
    ensures
        decided_status(state_of_call(true, true, result_code(result))) == Some(o.code),
        state_of_call(true, true, result_code(result)) == (if result.is_ok() {
            CallState::Sent
        } else {
            CallState::Failed(o.code)
        }),
{
}

/// The dispatch layer in front of a service.
#[derive(Clone, Debug, PartialEq, Eq)]
pub struct DeployServiceServer<T> {
    inner: T,
}

impl<T: DeployService> DeployServiceServer<T> {
    /// The service behind this layer.
    pub closed spec fn service(&self) -> T {
        self.inner
    }

    /// A dispatch layer in front of `inner`.
    pub fn new(inner: T) -> (s: Self)
        ensures
            s.service() == inner,
    {
        DeployServiceServer { inner }
    }

    /// The service behind this layer.
    pub fn inner(&self) -> (t: &T)
        ensures
            *t == self.service(),
    {
        &self.inner
    }

    /// Serves one call at time `now`: routes it by name, hands the decoded
    /// request to the handler of its operation, and maps the result to the
    /// outcome. A name that no operation is registered under is answered as
    /// unimplemented and a request that was not decoded (`None`), or that
    /// belongs to another operation, as an invalid argument; neither
    /// reaches the service.
    pub fn call(&mut self, name: &str, request: Option<RpcRequest>, now: Timestamp) -> (o:
        CallOutcome)
        ensures
            routed(name@).is_none() ==> o.code == RpcCode::Unimplemented && o.response.is_none()
                && o.message@ == "Not implemented"@ && final(self).service() == old(
                self,
            ).service(),
            routed(name@).is_some() && (request.is_none() || request_operation(request.unwrap())
                != routed(name@).unwrap()) ==> o.code == RpcCode::InvalidArgument
                && o.response.is_none() && o.message@ == "Request could not be decoded"@
                && final(self).service() == old(self).service(),
            o.code == RpcCode::Success <==> o.response.is_some(),
            o.response.is_some() ==> routed(name@) == Some(response_operation(o.response.unwrap())),
            decoded_for(routed(name@), request) ==> answers(
                old(self).service(),
                request.unwrap(),
                now,
                final(self).service(),
                o,
            ),
            decided_status(
                state_of_call(routed(name@).is_some(), decoded_for(routed(name@), request), o.code),
            ) == Some(o.code),
    {
        let op = match route(name) {
            None => {
                return CallOutcome::unknown_operation();
            },
            Some(op) => op,
        };
        let request = match request {
            None => {
                return CallOutcome::undecodable();
            },
            Some(r) => r,
        };
        let result = match request {
            RpcRequest::DeployBranch(r) => {
                if op != Operation::DeployBranch {
                    return CallOutcome::undecodable();
                }
                match self.inner.deploy_branch(r, now) {
                    Ok(resp) => Ok(RpcResponse::DeployBranch(resp)),
                    Err(e) => Err(e),
                }
            },
            RpcRequest::CreateBranchFromSourceDeployment(r) => {
                if op != Operation::CreateBranchFromSourceDeployment {
                    return CallOutcome::undecodable();
                }
                match self.inner.create_branch_from_source_deployment(r, now) {
                    Ok(resp) => Ok(RpcResponse::CreateBranchFromSourceDeployment(resp)),
                    Err(e) => Err(e),
                }
            },
            RpcRequest::GetDeployment(r) => {
                if op != Operation::GetDeployment {
                    return CallOutcome::undecodable();
                }
                match self.inner.get_deployment(r) {
                    Ok(resp) => Ok(RpcResponse::GetDeployment(resp)),
                    Err(e) => Err(e),
                }
            },
            RpcRequest::ListDeployments(r) => {
                if op != Operation::ListDeployments {
                    return CallOutcome::undecodable();
                }
                match self.inner.list_deployments(r) {
                    Ok(resp) => Ok(RpcResponse::ListDeployments(resp)),
                    Err(e) => Err(e),
                }
            },
            RpcRequest::GetActiveDeployments(r) => {
                if op != Operation::GetActiveDeployments {
                    return CallOutcome::undecodable();
                }
                match self.inner.get_active_deployments(r) {
                    Ok(resp) => Ok(RpcResponse::GetActiveDeployments(resp)),
                    Err(e) => Err(e),
                }
            },
            RpcRequest::SuspendDeployment(r) => {
                if op != Operation::SuspendDeployment {
                    return CallOutcome::undecodable();
                }
                match self.inner.suspend_deployment(r, now) {
                    Ok(resp) => Ok(RpcResponse::SuspendDeployment(resp)),
                    Err(e) => Err(e),
                }
            },
            RpcRequest::ScaleDeployment(r) => {
                if op != Operation::ScaleDeployment {
                    return CallOutcome::undecodable();
                }
                match self.inner.scale_deployment(r, now) {
                    Ok(resp) => Ok(RpcResponse::ScaleDeployment(resp)),
                    Err(e) => Err(e),
                }
            },
            RpcRequest::TagDeployment(r) => {
                if op != Operation::TagDeployment {
                    return CallOutcome::undecodable();
                }
                match self.inner.tag_deployment(r, now) {
                    Ok(resp) => Ok(RpcResponse::TagDeployment(resp)),
                    Err(e) => Err(e),
                }
            },
        };
        CallOutcome::of_result(result)
    }
}

} // verus!
