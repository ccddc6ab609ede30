//! The error taxonomy of the handlers and the protocol status codes it maps to.

use vstd::prelude::*;
use vstd::string::*;

verus! {

/// The failure of a handler.
#[derive(Clone, Debug, PartialEq, Eq)]
pub enum ServiceError {
    /// The entity id is unknown.
    NotFound(String),
    /// An unexpected failure of a collaborator.
    Internal(String),
    /// A malformed or missing field, or a violated invariant of the request.
    InvalidRequest(String),
    /// The operation is not supported by this service.
    Unimplemented(String),
}

/// Protocol-level status of a finished call.
#[derive(Clone, Copy, Debug, PartialEq, Eq, Structural, Hash)]
pub enum RpcCode {
    Success,
    InvalidArgument,
    NotFound,
    Unimplemented,
    Internal,
}

/// The protocol status that each handler failure maps to, one for one.
pub open spec fn code_of_error(e: ServiceError) -> RpcCode {
    match e {
        ServiceError::NotFound(_) => RpcCode::NotFound,
        ServiceError::Internal(_) => RpcCode::Internal,
        ServiceError::InvalidRequest(_) => RpcCode::InvalidArgument,
        ServiceError::Unimplemented(_) => RpcCode::Unimplemented,
    }
}

/// The number that the transport carries for a protocol status.
pub open spec fn wire_number(c: RpcCode) -> int {
    match c {
        RpcCode::Success => 0,
        RpcCode::InvalidArgument => 3,
        RpcCode::NotFound => 5,
        RpcCode::Unimplemented => 12,
        RpcCode::Internal => 13,
    }
}

/// The message that an error shows: a fixed prefix for the kind of error,
/// followed by the error's detail.
pub open spec fn message_of_error(e: ServiceError) -> Seq<char> {
    match e {
        ServiceError::NotFound(d) => "Deployment not found: "@ + d@,
        ServiceError::Internal(d) => "Internal server error: "@ + d@,
        ServiceError::InvalidRequest(d) => "Invalid request: "@ + d@,
        ServiceError::Unimplemented(d) => "Not implemented: "@ + d@,
    }
}

/// The text that an error carries.
pub open spec fn text_of_error(e: ServiceError) -> Seq<char> {
    match e {
        ServiceError::NotFound(m) => m@,
        ServiceError::Internal(m) => m@,
        ServiceError::InvalidRequest(m) => m@,
        ServiceError::Unimplemented(m) => m@,
    }
}

/// Whether a handler refused the request as invalid.
pub open spec fn is_invalid<T>(r: Result<T, ServiceError>) -> bool {
    match r {
        Err(ServiceError::InvalidRequest(_)) => true,
        _ => false,
    }
}

/// Whether a handler refused the request because the entity is unknown.
pub open spec fn is_not_found<T>(r: Result<T, ServiceError>) -> bool {
    match r {
        Err(ServiceError::NotFound(_)) => true,
        _ => false,
    }
}

/// Whether a handler refused the request as unsupported.
pub open spec fn is_unimplemented<T>(r: Result<T, ServiceError>) -> bool {
    match r {
        Err(ServiceError::Unimplemented(_)) => true,
        _ => false,
    }
}

impl RpcCode {
    /// The number that the transport carries for this status.
    pub fn number(self) -> (n: i32)
        ensures
            n as int == wire_number(self),
    {
        match self {
            RpcCode::Success => 0,
            RpcCode::InvalidArgument => 3,
            RpcCode::NotFound => 5,
            RpcCode::Unimplemented => 12,
            RpcCode::Internal => 13,
        }
    }
}

impl ServiceError {
    /// The protocol status of this error.
    pub fn code(&self) -> (c: RpcCode)
        ensures
            c == code_of_error(*self),
            c != RpcCode::Success,
    {
        match self {
            ServiceError::NotFound(_) => RpcCode::NotFound,
            ServiceError::Internal(_) => RpcCode::Internal,
            ServiceError::InvalidRequest(_) => RpcCode::InvalidArgument,
            ServiceError::Unimplemented(_) => RpcCode::Unimplemented,
        }
    }

    /// The detail text that the error was made with.
    pub fn detail(&self) -> (m: String)
        ensures
            m@ == text_of_error(*self),
    {
        match self {
            ServiceError::NotFound(m) => m.clone(),
            ServiceError::Internal(m) => m.clone(),
            ServiceError::InvalidRequest(m) => m.clone(),
            ServiceError::Unimplemented(m) => m.clone(),
        }
    }

    /// The human-readable message: a fixed prefix for the kind of error,
    /// followed by the detail text.
    pub fn message(&self) -> (m: String)
        ensures
            m@ == message_of_error(*self),
    {
        match self {
            ServiceError::NotFound(d) => String::from_str("Deployment not found: ").concat(
                d.as_str(),
            ),
            ServiceError::Internal(d) => String::from_str("Internal server error: ").concat(
                d.as_str(),
            ),
            ServiceError::InvalidRequest(d) => String::from_str("Invalid request: ").concat(
                d.as_str(),
            ),
            ServiceError::Unimplemented(d) => String::from_str("Not implemented: ").concat(
                d.as_str(),
            ),
        }
    }
}

/// Distinct kinds of error map to distinct protocol statuses, and none maps
/// to `Success`.
pub proof fn lemma_error_mapping_is_one_to_one(a: ServiceError, b: ServiceError)
    ensures
        code_of_error(a) != RpcCode::Success,
        code_of_error(a) == code_of_error(b) <==> (a is NotFound && b is NotFound) || (a is Internal
            && b is Internal) || (a is InvalidRequest && b is InvalidRequest) || (a is Unimplemented
            && b is Unimplemented),
{
}

} // verus!
