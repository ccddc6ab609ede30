use chalk_deploy::dispatch::{route, CallEvent, CallOutcome, CallState, Operation, RpcResponse};
use chalk_deploy::error::{RpcCode, ServiceError};
use chalk_deploy::framing::{frame_message, unframe_message};
use chalk_deploy::model::{DeployBranchResponse, InstanceSizing, Timestamp};
use chalk_deploy::status::{decode_status, is_terminal, transition, DeploymentStatus};

fn all_statuses() -> Vec<DeploymentStatus> {
    vec![
        DeploymentStatus::Unspecified,
        DeploymentStatus::Unknown,
        DeploymentStatus::Pending,
        DeploymentStatus::Queued,
        DeploymentStatus::Working,
        DeploymentStatus::Success,
        DeploymentStatus::Failure,
        DeploymentStatus::InternalError,
        DeploymentStatus::Timeout,
        DeploymentStatus::Cancelled,
        DeploymentStatus::Expired,
        DeploymentStatus::BootErrors,
        DeploymentStatus::AwaitingSource,
        DeploymentStatus::Deploying,
    ]
}

#[test]
fn decode_status_maps_each_code_to_its_variant() {
    for (code, status) in all_statuses().into_iter().enumerate() {
        assert_eq!(decode_status(code as i32), status);
        assert_eq!(status.code(), code as i32);
        assert_eq!(DeploymentStatus::from(code as i32), status);
    }
    assert_eq!(decode_status(5), DeploymentStatus::Success);
    assert_eq!(decode_status(13), DeploymentStatus::Deploying);
}

#[test]
fn decode_status_out_of_range_is_unspecified() {
    for code in [-1, 14, 15, 100, -100, i32::MAX, i32::MIN] {
        assert_eq!(decode_status(code), DeploymentStatus::Unspecified);
        assert_eq!(DeploymentStatus::from(code), DeploymentStatus::Unspecified);
    }
    assert_eq!(DeploymentStatus::default(), DeploymentStatus::Unspecified);
}

#[test]
fn exactly_six_statuses_are_terminal() {
    let terminal: Vec<DeploymentStatus> =
        all_statuses().into_iter().filter(|s| is_terminal(*s)).collect();
    assert_eq!(
        terminal,
        vec![
            DeploymentStatus::Success,
            DeploymentStatus::Failure,
            DeploymentStatus::InternalError,
            DeploymentStatus::Timeout,
            DeploymentStatus::Cancelled,
            DeploymentStatus::Expired,
        ]
    );
}

#[test]
fn transition_is_refused_from_every_terminal_status() {
    for from in all_statuses() {
        for to in all_statuses() {
            let next = transition(from, to);
            if is_terminal(from) {
                assert_eq!(next, None);
            } else {
                assert_eq!(next, Some(to));
            }
        }
    }
    assert_eq!(
        transition(DeploymentStatus::Queued, DeploymentStatus::Working),
        Some(DeploymentStatus::Working)
    );
    assert_eq!(transition(DeploymentStatus::Success, DeploymentStatus::Pending), None);
}

#[test]
fn terminal_status_survives_a_run_of_requests() {
    let requests = all_statuses();
    for start in all_statuses() {
        let mut current = start;
        let mut reached_terminal: Option<DeploymentStatus> = None;
        for round in 0..3 {
            for (i, wanted) in requests.iter().enumerate() {
                let to = requests[(i * 5 + round) % requests.len()];
                let _ = wanted;
                if let Some(next) = transition(current, to) {
                    current = next;
                }
                if let Some(t) = reached_terminal {
                    assert_eq!(current, t);
                } else if is_terminal(current) {
                    reached_terminal = Some(current);
                }
            }
        }
    }
}

#[test]
fn sizing_with_lower_bound_above_upper_is_invalid() {
    let bad = InstanceSizing { min_instances: Some(5), max_instances: Some(2) };
    assert!(!bad.is_valid());
    let equal = InstanceSizing { min_instances: Some(2), max_instances: Some(2) };
    assert!(equal.is_valid());
    let open_above = InstanceSizing { min_instances: Some(5), max_instances: None };
    assert!(open_above.is_valid());
    let open_below = InstanceSizing { min_instances: None, max_instances: Some(0) };
    assert!(open_below.is_valid());
    let none = InstanceSizing { min_instances: None, max_instances: None };
    assert!(none.is_valid());
}

#[test]
fn timestamps_order_by_seconds_then_nanos() {
    let a = Timestamp { seconds: 10, nanos: 500 };
    let b = Timestamp { seconds: 10, nanos: 501 };
    let c = Timestamp { seconds: 11, nanos: 0 };
    assert!(a.is_not_after(&a));
    assert!(a.is_not_after(&b));
    assert!(!b.is_not_after(&a));
    assert!(b.is_not_after(&c));
    assert!(!c.is_not_after(&a));
    assert_eq!(Timestamp::later_of(a, b), b);
    assert_eq!(Timestamp::later_of(c, a), c);
    assert_eq!(Timestamp::later_of(a, a), a);
}

#[test]
fn each_error_maps_to_its_own_status_code() {
    let not_found = ServiceError::NotFound("d-1".to_string());
    let internal = ServiceError::Internal("boom".to_string());
    let invalid = ServiceError::InvalidRequest("bad".to_string());
    let unimplemented = ServiceError::Unimplemented("later".to_string());
    assert_eq!(not_found.code(), RpcCode::NotFound);
    assert_eq!(internal.code(), RpcCode::Internal);
    assert_eq!(invalid.code(), RpcCode::InvalidArgument);
    assert_eq!(unimplemented.code(), RpcCode::Unimplemented);
    assert_eq!(RpcCode::Success.number(), 0);
    assert_eq!(RpcCode::InvalidArgument.number(), 3);
    assert_eq!(RpcCode::NotFound.number(), 5);
    assert_eq!(RpcCode::Unimplemented.number(), 12);
    assert_eq!(RpcCode::Internal.number(), 13);
}

#[test]
fn error_messages_carry_prefix_and_detail() {
    assert_eq!(
        ServiceError::NotFound("d-1".to_string()).message(),
        "Deployment not found: d-1"
    );
    assert_eq!(ServiceError::Internal("boom".to_string()).message(), "Internal server error: boom");
    assert_eq!(ServiceError::InvalidRequest("bad".to_string()).message(), "Invalid request: bad");
    assert_eq!(ServiceError::Unimplemented("x".to_string()).message(), "Not implemented: x");
    assert_eq!(ServiceError::NotFound("d-1".to_string()).detail(), "d-1");
}

#[test]
fn route_finds_each_operation_by_its_name() {
    let ops = [
        (Operation::DeployBranch, "chalk.server.v1.DeployService/DeployBranch"),
        (
            Operation::CreateBranchFromSourceDeployment,
            "chalk.server.v1.DeployService/CreateBranchFromSourceDeployment",
        ),
        (Operation::GetDeployment, "chalk.server.v1.DeployService/GetDeployment"),
        (Operation::ListDeployments, "chalk.server.v1.DeployService/ListDeployments"),
        (Operation::GetActiveDeployments, "chalk.server.v1.DeployService/GetActiveDeployments"),
        (Operation::SuspendDeployment, "chalk.server.v1.DeployService/SuspendDeployment"),
        (Operation::ScaleDeployment, "chalk.server.v1.DeployService/ScaleDeployment"),
        (Operation::TagDeployment, "chalk.server.v1.DeployService/TagDeployment"),
    ];
    for (op, name) in ops {
        assert_eq!(op.name(), name);
        assert_eq!(route(name), Some(op));
    }
}

#[test]
fn route_knows_no_other_name() {
    assert_eq!(route(""), None);
    assert_eq!(route("ListDeployments"), None);
    assert_eq!(route("chalk.server.v1.DeployService/listdeployments"), None);
    assert_eq!(route("chalk.server.v1.DeployService/ListDeployments "), None);
    assert_eq!(route("chalk.server.v1.DeployService/DeleteDeployment"), None);
}

#[test]
fn outcome_of_success_carries_the_response() {
    let resp = RpcResponse::DeployBranch(DeployBranchResponse { deployment_id: "d".to_string() });
    let o = CallOutcome::of_result(Ok(resp.clone()));
    assert_eq!(o.code, RpcCode::Success);
    assert_eq!(o.response, Some(resp));
    assert_eq!(o.message, "");
    assert_eq!(o.status_text(), "0");
}

#[test]
fn outcome_of_failure_carries_code_and_message() {
    let o = CallOutcome::of_result(Err(ServiceError::NotFound("d-9".to_string())));
    assert_eq!(o.code, RpcCode::NotFound);
    assert_eq!(o.response, None);
    assert_eq!(o.message, "d-9");
    assert_eq!(o.status_text(), "5");
    let u = CallOutcome::unknown_operation();
    assert_eq!(u.code, RpcCode::Unimplemented);
    assert_eq!(u.status_text(), "12");
    assert_eq!(u.message, "Not implemented");
    let d = CallOutcome::undecodable();
    assert_eq!(d.code, RpcCode::InvalidArgument);
    assert_eq!(d.status_text(), "3");
    let i = CallOutcome::of_result(Err(ServiceError::Internal("x".to_string())));
    assert_eq!(i.status_text(), "13");
}

#[test]
fn call_walks_from_received_to_sent() {
    let s = CallState::Received;
    assert_eq!(s.status(), None);
    let s = s.advance(CallEvent::DecodeSucceeded);
    assert_eq!(s, CallState::Decoded);
    let s = s.advance(CallEvent::HandlerSucceeded);
    assert_eq!(s, CallState::Handled);
    assert_eq!(s.status(), Some(RpcCode::Success));
    let s = s.advance(CallEvent::ResponseEncoded);
    assert_eq!(s, CallState::Encoded);
    let s = s.advance(CallEvent::AnswerSent);
    assert_eq!(s, CallState::Sent);
    assert_eq!(s.advance(CallEvent::DecodeFailed), CallState::Sent);
}

#[test]
fn call_fails_with_the_status_of_the_step_that_failed() {
    assert_eq!(
        CallState::Received.advance(CallEvent::NameUnknown),
        CallState::Failed(RpcCode::Unimplemented)
    );
    assert_eq!(
        CallState::Received.advance(CallEvent::DecodeFailed),
        CallState::Failed(RpcCode::InvalidArgument)
    );
    assert_eq!(
        CallState::Decoded.advance(CallEvent::HandlerFailed(RpcCode::NotFound)),
        CallState::Failed(RpcCode::NotFound)
    );
    assert_eq!(
        CallState::Decoded.advance(CallEvent::HandlerFailed(RpcCode::Success)),
        CallState::Failed(RpcCode::Internal)
    );
    let failed = CallState::Failed(RpcCode::NotFound);
    assert_eq!(failed.advance(CallEvent::HandlerSucceeded), failed);
    assert_eq!(failed.advance(CallEvent::AnswerSent), failed);
    assert_eq!(failed.status(), Some(RpcCode::NotFound));
    assert_eq!(CallState::Received.advance(CallEvent::HandlerSucceeded), CallState::Received);
    assert_eq!(CallState::Decoded.advance(CallEvent::DecodeFailed), CallState::Decoded);
}

#[test]
fn errors_become_transport_statuses_of_their_kind() {
    let s = tonic::Status::from(ServiceError::NotFound("d-1".to_string()));
    assert_eq!(s.code(), tonic::Code::NotFound);
    assert_eq!(s.message(), "d-1");
    let s = tonic::Status::from(ServiceError::Internal("boom".to_string()));
    assert_eq!(s.code(), tonic::Code::Internal);
    assert_eq!(s.message(), "boom");
    let s = tonic::Status::from(ServiceError::InvalidRequest("bad".to_string()));
    assert_eq!(s.code(), tonic::Code::InvalidArgument);
    assert_eq!(s.message(), "bad");
    let s = tonic::Status::from(ServiceError::Unimplemented("Not implemented".to_string()));
    assert_eq!(s.code(), tonic::Code::Unimplemented);
    assert_eq!(s.message(), "Not implemented");
}

#[test]
fn outcome_becomes_transport_status_with_its_code_and_message() {
    let o = CallOutcome::of_result(Err(ServiceError::NotFound("d-9".to_string())));
    let s = o.to_status();
    assert_eq!(s.code(), tonic::Code::NotFound);
    assert_eq!(s.message(), "d-9");
    assert_eq!(CallOutcome::unknown_operation().to_status().code(), tonic::Code::Unimplemented);
    assert_eq!(CallOutcome::undecodable().to_status().code(), tonic::Code::InvalidArgument);
    let ok = chalk_deploy::rpc::status_of(RpcCode::Success, String::new());
    assert_eq!(ok.code(), tonic::Code::Ok);
    assert_eq!(ok.message(), "");
    for code in [
        RpcCode::Success,
        RpcCode::InvalidArgument,
        RpcCode::NotFound,
        RpcCode::Unimplemented,
        RpcCode::Internal,
    ] {
        let s = chalk_deploy::rpc::status_of(code, "m".to_string());
        assert_eq!(s.code() as i32, code.number());
    }
}

#[test]
fn route_path_wants_the_leading_slash() {
    assert_eq!(
        chalk_deploy::dispatch::route_path("/chalk.server.v1.DeployService/TagDeployment"),
        Some(Operation::TagDeployment)
    );
    assert_eq!(
        chalk_deploy::dispatch::route_path("chalk.server.v1.DeployService/TagDeployment"),
        None
    );
    assert_eq!(
        chalk_deploy::dispatch::route_path("//chalk.server.v1.DeployService/TagDeployment"),
        None
    );
    assert_eq!(chalk_deploy::dispatch::route_path(""), None);
    assert_eq!(chalk_deploy::dispatch::route_path("/"), None);
    assert_eq!(chalk_deploy::dispatch::route_path("/chalk.server.v1.DeployService/Nope"), None);
}

#[test]
fn frame_is_flag_length_and_payload() {
    assert_eq!(frame_message(&vec![1, 2, 3]), Some(vec![0, 0, 0, 0, 3, 1, 2, 3]));
    assert_eq!(frame_message(&Vec::new()), Some(vec![0, 0, 0, 0, 0]));
    let long: Vec<u8> = (0..300u32).map(|i| (i % 251) as u8).collect();
    let frame = frame_message(&long).unwrap();
    assert_eq!(&frame[..5], &[0, 0, 0, 1, 44]);
    assert_eq!(&frame[5..], &long[..]);
    assert_eq!(unframe_message(&frame), Some(long));
    let big: Vec<u8> = vec![7; 70000];
    let frame = frame_message(&big).unwrap();
    assert_eq!(&frame[..5], &[0, 0, 1, 17, 112]);
    assert_eq!(unframe_message(&frame), Some(big));
}

#[test]
fn unframe_refuses_what_is_not_one_frame() {
    assert_eq!(unframe_message(&vec![0, 0, 0, 0, 3, 1, 2, 3]), Some(vec![1, 2, 3]));
    assert_eq!(unframe_message(&vec![0, 0, 0, 0, 0]), Some(Vec::new()));
    assert_eq!(unframe_message(&Vec::new()), None);
    assert_eq!(unframe_message(&vec![0, 0, 0, 0]), None);
    assert_eq!(unframe_message(&vec![1, 0, 0, 0, 3, 1, 2, 3]), None);
    assert_eq!(unframe_message(&vec![0, 0, 0, 0, 4, 1, 2, 3]), None);
    assert_eq!(unframe_message(&vec![0, 0, 0, 0, 2, 1, 2, 3]), None);
    assert_eq!(unframe_message(&vec![0, 1, 0, 0, 3, 1, 2, 3]), None);
}

#[test]
fn every_operation_name_starts_with_the_service_name() {
    let ops = [
        Operation::DeployBranch,
        Operation::CreateBranchFromSourceDeployment,
        Operation::GetDeployment,
        Operation::ListDeployments,
        Operation::GetActiveDeployments,
        Operation::SuspendDeployment,
        Operation::ScaleDeployment,
        Operation::TagDeployment,
    ];
    for op in ops {
        let prefix = format!("{}/", chalk_deploy::dispatch::SERVICE_NAME);
        assert!(op.name().starts_with(&prefix));
    }
    assert_eq!(chalk_deploy::dispatch::SERVICE_NAME, "chalk.server.v1.DeployService");
    assert_eq!(chalk_deploy::dispatch::CONTENT_TYPE, "application/grpc");
    assert_eq!(chalk_deploy::dispatch::HTTP_STATUS, 200);
}
