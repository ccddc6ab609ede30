//! The deployment lifecycle: a flat status tag, its wire codes and the
//! terminal states.

use vstd::prelude::*;

verus! {

/// Lifecycle state of a deployment, in wire-code order.
#[derive(Clone, Copy, Debug, PartialEq, Eq, Structural, Hash)]
pub enum DeploymentStatus {
    Unspecified,
    Unknown,
    Pending,
    Queued,
    Working,
    Success,
    Failure,
    InternalError,
    Timeout,
    Cancelled,
    Expired,
    BootErrors,
    AwaitingSource,
    Deploying,
}

/// The status that a wire code stands for; every code without a variant of
/// its own stands for `Unspecified`.
pub open spec fn status_of_code(code: int) -> DeploymentStatus {
    if code == 1 {
        DeploymentStatus::Unknown
    } else if code == 2 {
        DeploymentStatus::Pending
    } else if code == 3 {
        DeploymentStatus::Queued
    } else if code == 4 {
        DeploymentStatus::Working
    } else if code == 5 {
        DeploymentStatus::Success
    } else if code == 6 {
        DeploymentStatus::Failure
    } else if code == 7 {
        DeploymentStatus::InternalError
    } else if code == 8 {
        DeploymentStatus::Timeout
    } else if code == 9 {
        DeploymentStatus::Cancelled
    } else if code == 10 {
        DeploymentStatus::Expired
    } else if code == 11 {
        DeploymentStatus::BootErrors
    } else if code == 12 {
        DeploymentStatus::AwaitingSource
    } else if code == 13 {
        DeploymentStatus::Deploying
    } else {
        DeploymentStatus::Unspecified
    }
}

/// The wire code of a status.
pub open spec fn code_of_status(s: DeploymentStatus) -> int {
    match s {
        DeploymentStatus::Unspecified => 0,
        DeploymentStatus::Unknown => 1,
        DeploymentStatus::Pending => 2,
        DeploymentStatus::Queued => 3,
        DeploymentStatus::Working => 4,
        DeploymentStatus::Success => 5,
        DeploymentStatus::Failure => 6,
        DeploymentStatus::InternalError => 7,
        DeploymentStatus::Timeout => 8,
        DeploymentStatus::Cancelled => 9,
        DeploymentStatus::Expired => 10,
        DeploymentStatus::BootErrors => 11,
        DeploymentStatus::AwaitingSource => 12,
        DeploymentStatus::Deploying => 13,
    }
}

/// The six states from which a deployment never moves again.
pub open spec fn terminal(s: DeploymentStatus) -> bool {
    s == DeploymentStatus::Success || s == DeploymentStatus::Failure
        || s == DeploymentStatus::InternalError || s == DeploymentStatus::Timeout
        || s == DeploymentStatus::Cancelled || s == DeploymentStatus::Expired
}

/// What a record's status is after a request to move it to `requested`:
/// a terminal status stays, any other gives way.
pub open spec fn status_after(current: DeploymentStatus, requested: DeploymentStatus)
    -> DeploymentStatus {
    if terminal(current) {
        current
    } else {
        requested
    }
}

/// The status after a whole sequence of transition requests, applied in order.
pub open spec fn status_after_all(start: DeploymentStatus, requests: Seq<DeploymentStatus>)
    -> DeploymentStatus
    decreases requests.len(),
{
    if requests.len() == 0 {
        start
    } else {
        status_after(status_after_all(start, requests.drop_last()), requests.last())
    }
}

/// Decodes a wire code. Total: a code outside the known range decodes to
/// `Unspecified`.
pub fn decode_status(code: i32) -> (s: DeploymentStatus)
    ensures
        s == status_of_code(code as int),
        !(0 <= code <= 13) ==> s == DeploymentStatus::Unspecified,
{
    match code {
        1 => DeploymentStatus::Unknown,
        2 => DeploymentStatus::Pending,
        3 => DeploymentStatus::Queued,
        4 => DeploymentStatus::Working,
        5 => DeploymentStatus::Success,
        6 => DeploymentStatus::Failure,
        7 => DeploymentStatus::InternalError,
        8 => DeploymentStatus::Timeout,
        9 => DeploymentStatus::Cancelled,
        10 => DeploymentStatus::Expired,
        11 => DeploymentStatus::BootErrors,
        12 => DeploymentStatus::AwaitingSource,
        13 => DeploymentStatus::Deploying,
        _ => DeploymentStatus::Unspecified,
    }
}

/// Whether `status` is one of the six terminal states.
pub fn is_terminal(status: DeploymentStatus) -> (b: bool)
    ensures
        b == terminal(status),
{
    match status {
        DeploymentStatus::Success => true,
        DeploymentStatus::Failure => true,
        DeploymentStatus::InternalError => true,
        DeploymentStatus::Timeout => true,
        DeploymentStatus::Cancelled => true,
        DeploymentStatus::Expired => true,
        _ => false,
    }
}

/// Applies a transition request: the new status, or `None` where the current
/// status is terminal and so admits no transition.
pub fn transition(current: DeploymentStatus, requested: DeploymentStatus) -> (next: Option<
    DeploymentStatus,
>)
    ensures
        next.is_none() <==> terminal(current),
        next.is_some() ==> next.unwrap() == requested,
        status_after(current, requested) == (match next {
            Some(s) => s,
            None => current,
        }),
{
    if is_terminal(current) {
        None
    } else {
        Some(requested)
    }
}

impl DeploymentStatus {
    /// The wire code of this status.
    pub fn code(self) -> (c: i32)
        ensures
            c as int == code_of_status(self),
            0 <= c <= 13,
    {
        match self {
            DeploymentStatus::Unspecified => 0,
            DeploymentStatus::Unknown => 1,
            DeploymentStatus::Pending => 2,
            DeploymentStatus::Queued => 3,
            DeploymentStatus::Working => 4,
            DeploymentStatus::Success => 5,
            DeploymentStatus::Failure => 6,
            DeploymentStatus::InternalError => 7,
            DeploymentStatus::Timeout => 8,
            DeploymentStatus::Cancelled => 9,
            DeploymentStatus::Expired => 10,
            DeploymentStatus::BootErrors => 11,
            DeploymentStatus::AwaitingSource => 12,
            DeploymentStatus::Deploying => 13,
        }
    }
}

impl From<i32> for DeploymentStatus {
    fn from(value: i32) -> (s: DeploymentStatus) {
        decode_status(value)
    }
}

impl vstd::std_specs::convert::FromSpecImpl<i32> for DeploymentStatus {
    open spec fn obeys_from_spec() -> bool {
        true
    }

    open spec fn from_spec(value: i32) -> DeploymentStatus {
        status_of_code(value as int)
    }
}

impl Default for DeploymentStatus {
    fn default() -> (s: DeploymentStatus)
        ensures
            s == DeploymentStatus::Unspecified,
    {
        DeploymentStatus::Unspecified
    }
}

/// Decoding the code of a status gives the status back.
pub proof fn lemma_decode_inverts_code(s: DeploymentStatus)
    ensures
        status_of_code(code_of_status(s)) == s,
        0 <= code_of_status(s) <= 13,
{
}

/// Every code outside 0..=13 decodes to `Unspecified`, and every code inside
/// decodes to the status that carries it.
pub proof fn lemma_decode_total(code: int)
    ensures
        !(0 <= code <= 13) ==> status_of_code(code) == DeploymentStatus::Unspecified,
        0 <= code <= 13 ==> code_of_status(status_of_code(code)) == code,
{
}

/// A terminal status survives every sequence of transition requests: the
/// status after the whole sequence is the one it started in.
pub proof fn lemma_terminal_is_absorbing(start: DeploymentStatus, requests: Seq<DeploymentStatus>)
    requires
        terminal(start),
    ensures
        status_after_all(start, requests) == start,
    decreases requests.len(),
{
    if requests.len() > 0 {
        lemma_terminal_is_absorbing(start, requests.drop_last());
    }
}

/// Once a sequence of transition requests has led to a terminal status, no
/// longer run of the same sequence leads anywhere else.
pub proof fn lemma_terminal_never_regresses(
    start: DeploymentStatus,
    requests: Seq<DeploymentStatus>,
    i: int,
    j: int,
)
    requires
        0 <= i <= j <= requests.len(),
        terminal(status_after_all(start, requests.take(i))),
    ensures
        status_after_all(start, requests.take(j)) == status_after_all(start, requests.take(i)),
    decreases j - i,
{
    if i < j {
        lemma_terminal_never_regresses(start, requests, i, j - 1);
        assert(requests.take(j).drop_last() =~= requests.take(j - 1));
    }
}

} // verus!
