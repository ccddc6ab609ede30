//! Protocol statuses as the transport's own type.

use vstd::prelude::*;
use crate::error::{code_of_error, text_of_error, wire_number, RpcCode, ServiceError};

verus! {

#[verifier::external_type_specification]
#[verifier::external_body]
pub struct ExStatus(tonic::Status);

/// The status that `tonic::Status::new` makes of the code with the given
/// number and of a message.
pub uninterp spec fn status_made(number: int, message: Seq<char>) -> tonic::Status;

/// Calls `tonic::Status::new` with the code that `tonic::Code::from_i32`
/// gives for `number`, and with `message`. Trusted: the result is a
/// function of the number and the message alone, which the contract names
/// `status_made`; nothing else is claimed of it.
#[verifier::external_body]
fn make_status(number: i32, message: String) -> (s: tonic::Status)
    ensures
        s == status_made(number as int, message@),
{
    tonic::Status::new(tonic::Code::from_i32(number), message)
}

/// The transport's status for a protocol status and a message.
pub fn status_of(code: RpcCode, message: String) -> (s: tonic::Status)
    ensures
        s == status_made(wire_number(code), message@),
{
    make_status(code.number(), message)
}

impl From<ServiceError> for tonic::Status {
    /// The transport's status for a handler's failure: the status of its
    /// kind, with the error's detail as the message.
    fn from(err: ServiceError) -> (s: tonic::Status) {
        let code = err.code();
        let message = err.detail();
        status_of(code, message)
    }
}

impl vstd::std_specs::convert::FromSpecImpl<ServiceError> for tonic::Status {
    open spec fn obeys_from_spec() -> bool {
        true
    }

    open spec fn from_spec(err: ServiceError) -> tonic::Status {
        status_made(wire_number(code_of_error(err)), text_of_error(err))
    }
}

} // verus!
