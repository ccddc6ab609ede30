use chalk_deploy::config::{
    parse_port, AppConfig, ConfigError, ConfigLayer, GrpcServer, RawLayer, ServerConfig,
};
use chalk_deploy::dispatch::{DeployServiceServer, RpcRequest, RpcResponse};
use chalk_deploy::error::{RpcCode, ServiceError};
use chalk_deploy::mock::{
    generate_mock_active_deployments, generate_mock_deployment, generate_mock_deployments,
};
use chalk_deploy::model::{
    CreateBranchFromSourceDeploymentRequest, DeployBranchRequest, Deployment,
    GetActiveDeploymentsRequest, GetDeploymentRequest, InstanceSizing, ListDeploymentsRequest,
    ScaleDeploymentRequest, SuspendDeploymentRequest, TagDeploymentRequest, Timestamp,
};
use chalk_deploy::pagination::{decode_cursor, encode_cursor, list};
use chalk_deploy::service::{DeployService, DeploymentServiceImpl};
use chalk_deploy::status::DeploymentStatus;
use chalk_deploy::tags::{carries_tag, strip_tag};
use chalk_deploy::text::{format_decimal, parse_decimal};

fn at(seconds: i64) -> Timestamp {
    Timestamp { seconds, nanos: 0 }
}

fn record(id: &str, environment: &str, branch: &str, status: DeploymentStatus) -> Deployment {
    Deployment {
        id: id.to_string(),
        environment_id: environment.to_string(),
        status,
        deployment_tags: Vec::new(),
        cloud_build_id: format!("build-{}", id),
        triggered_by: "user@example.com".to_string(),
        requirements_filepath: Some("requirements.txt".to_string()),
        dockerfile_filepath: Some("Dockerfile".to_string()),
        runtime: Some("python3.8".to_string()),
        chalkpy_version: "0.5.0".to_string(),
        raw_dependency_hash: "abc123".to_string(),
        final_dependency_hash: Some("def456".to_string()),
        is_preview_deployment: Some(false),
        created_at: at(100),
        updated_at: at(100),
        git_commit: "a1b2c3d4e5f6".to_string(),
        git_pr: "42".to_string(),
        git_branch: branch.to_string(),
        git_author_email: "author@example.com".to_string(),
        branch: branch.to_string(),
        project_settings: "{}".to_string(),
        requirements_files: Some("[]".to_string()),
        git_tag: "v1.0.0".to_string(),
        base_image_sha: "sha256:12345".to_string(),
        status_changed_at: at(100),
        pinned_platform_version: None,
        preview_deployment_tag: None,
        sizing: None,
    }
}

fn tagged(mut d: Deployment, tags: &[&str]) -> Deployment {
    d.deployment_tags = tags.iter().map(|t| t.to_string()).collect();
    d
}

fn numbered(n: usize) -> Vec<Deployment> {
    (0..n)
        .map(|i| {
            let branch = if i % 2 == 0 { "main" } else { "dev" };
            record(&format!("deployment-{}", i), "production", branch, DeploymentStatus::Working)
        })
        .collect()
}

fn ids(items: &[Deployment]) -> Vec<String> {
    items.iter().map(|d| d.id.clone()).collect()
}

fn list_request(cursor: Option<&str>, limit: Option<i32>, branch: Option<&str>) -> ListDeploymentsRequest {
    ListDeploymentsRequest {
        cursor: cursor.map(|c| c.to_string()),
        limit,
        include_branch: None,
        branch_name: branch.map(|b| b.to_string()),
    }
}

fn get(svc: &DeploymentServiceImpl, id: &str) -> Option<Deployment> {
    svc.get_deployment(GetDeploymentRequest { deployment_id: id.to_string() }).unwrap().deployment
}

#[test]
fn decimal_text_round_trips() {
    assert_eq!(format_decimal(0), "0");
    assert_eq!(format_decimal(7), "7");
    assert_eq!(format_decimal(10), "10");
    assert_eq!(format_decimal(50051), "50051");
    assert_eq!(format_decimal(usize::MAX), usize::MAX.to_string());
    for n in [0usize, 1, 9, 10, 11, 99, 100, 12345, usize::MAX - 1, usize::MAX] {
        assert_eq!(parse_decimal(&format_decimal(n)), Some(n));
    }
}

#[test]
fn decimal_text_is_read_strictly() {
    assert_eq!(parse_decimal(""), None);
    assert_eq!(parse_decimal("12a"), None);
    assert_eq!(parse_decimal("-1"), None);
    assert_eq!(parse_decimal("+1"), None);
    assert_eq!(parse_decimal(" 1"), None);
    assert_eq!(parse_decimal("１"), None);
    assert_eq!(parse_decimal("007"), Some(7));
    assert_eq!(parse_decimal("18446744073709551615"), Some(18446744073709551615));
    assert_eq!(parse_decimal("18446744073709551616"), None);
    assert_eq!(parse_decimal("99999999999999999999999"), None);
}

#[test]
fn cursor_denotes_the_position_it_was_made_for() {
    assert_eq!(encode_cursor(20), "20");
    assert_eq!(decode_cursor("20"), Some(20));
    assert_eq!(decode_cursor(&encode_cursor(0)), Some(0));
    assert_eq!(decode_cursor("next-page-token"), None);
    assert_eq!(decode_cursor(""), None);
}

#[test]
fn twenty_five_records_come_in_pages_of_ten_ten_five() {
    let svc = DeploymentServiceImpl::with_records(numbered(25), 1000);
    let mut cursor: Option<String> = None;
    let mut sizes: Vec<usize> = Vec::new();
    let mut seen: Vec<String> = Vec::new();
    loop {
        let resp = svc
            .list_deployments(list_request(cursor.as_deref(), Some(10), None))
            .unwrap();
        sizes.push(resp.deployments.len());
        seen.extend(ids(&resp.deployments));
        cursor = resp.cursor;
        if cursor.is_none() {
            break;
        }
    }
    assert_eq!(sizes, vec![10, 10, 5]);
    assert_eq!(seen, ids(&numbered(25)));
}

#[test]
fn every_page_size_covers_every_record_once() {
    for n in [0usize, 1, 9, 10, 11, 20, 25] {
        for limit in [1i32, 2, 3, 7, 10, 25, 26, 100] {
            let svc = DeploymentServiceImpl::with_records(numbered(n), 0);
            let mut cursor: Option<String> = None;
            let mut seen: Vec<String> = Vec::new();
            let mut pages = 0usize;
            loop {
                let resp = svc
                    .list_deployments(list_request(cursor.as_deref(), Some(limit), None))
                    .unwrap();
                assert_eq!(resp.cursor.is_some(), resp.deployments.len() == limit as usize);
                seen.extend(ids(&resp.deployments));
                pages += 1;
                cursor = resp.cursor;
                if cursor.is_none() {
                    break;
                }
            }
            assert_eq!(seen, ids(&numbered(n)));
            assert_eq!(pages, n / (limit as usize) + 1);
        }
    }
}

#[test]
fn full_last_page_is_followed_by_an_empty_one() {
    let svc = DeploymentServiceImpl::with_records(numbered(20), 1000);
    let first = svc.list_deployments(list_request(None, Some(10), None)).unwrap();
    assert_eq!(first.cursor.as_deref(), Some("10"));
    let second = svc.list_deployments(list_request(Some("10"), Some(10), None)).unwrap();
    assert_eq!(second.deployments.len(), 10);
    assert_eq!(second.cursor.as_deref(), Some("20"));
    let third = svc.list_deployments(list_request(Some("20"), Some(10), None)).unwrap();
    assert!(third.deployments.is_empty());
    assert_eq!(third.cursor, None);
    let beyond = svc.list_deployments(list_request(Some("500"), Some(10), None)).unwrap();
    assert!(beyond.deployments.is_empty());
    assert_eq!(beyond.cursor, None);
}

#[test]
fn same_cursor_gives_same_page() {
    let svc = DeploymentServiceImpl::with_records(numbered(25), 1000);
    let a = svc.list_deployments(list_request(Some("10"), Some(10), None)).unwrap();
    let b = svc.list_deployments(list_request(Some("10"), Some(10), None)).unwrap();
    assert_eq!(a, b);
    assert_eq!(ids(&a.deployments)[0], "deployment-10");
}

#[test]
fn branch_filter_applies_before_the_cursor() {
    let svc = DeploymentServiceImpl::with_records(numbered(25), 1000);
    let first = svc.list_deployments(list_request(None, Some(5), Some("main"))).unwrap();
    assert_eq!(
        ids(&first.deployments),
        vec!["deployment-0", "deployment-2", "deployment-4", "deployment-6", "deployment-8"]
    );
    assert_eq!(first.cursor.as_deref(), Some("5"));
    let second = svc.list_deployments(list_request(Some("5"), Some(5), Some("main"))).unwrap();
    assert_eq!(
        ids(&second.deployments),
        vec!["deployment-10", "deployment-12", "deployment-14", "deployment-16", "deployment-18"]
    );
    let third = svc.list_deployments(list_request(Some("10"), Some(5), Some("main"))).unwrap();
    assert_eq!(ids(&third.deployments), vec!["deployment-20", "deployment-22", "deployment-24"]);
    assert_eq!(third.cursor, None);
    let none = svc.list_deployments(list_request(None, Some(5), Some("release"))).unwrap();
    assert!(none.deployments.is_empty());
    assert_eq!(none.cursor, None);
}

#[test]
fn limit_defaults_to_ten_and_is_cut_to_the_ceiling() {
    let svc = DeploymentServiceImpl::with_records(numbered(25), 1000);
    let resp = svc.list_deployments(list_request(None, None, None)).unwrap();
    assert_eq!(resp.deployments.len(), 10);
    assert_eq!(resp.cursor.as_deref(), Some("10"));
    let empty_cursor = svc.list_deployments(list_request(Some(""), None, None)).unwrap();
    assert_eq!(empty_cursor, resp);
    let capped = DeploymentServiceImpl::with_records(numbered(25), 4);
    let resp = capped.list_deployments(list_request(None, Some(20), None)).unwrap();
    assert_eq!(resp.deployments.len(), 4);
    assert_eq!(resp.cursor.as_deref(), Some("4"));
    let resp = capped.list_deployments(list_request(None, None, None)).unwrap();
    assert_eq!(resp.deployments.len(), 4);
    assert_eq!(capped.resolve_limit(Some(3)), Some(3));
    assert_eq!(capped.resolve_limit(Some(5)), Some(4));
    assert_eq!(capped.resolve_limit(Some(0)), None);
    let open = DeploymentServiceImpl::with_records(numbered(25), 0);
    assert_eq!(open.resolve_limit(Some(i32::MAX)), Some(i32::MAX as usize));
    let d = DeploymentServiceImpl::default();
    assert_eq!(d.page_ceiling, 1000);
    assert!(d.deployments.is_empty());
}

#[test]
fn list_refuses_bad_limit_and_malformed_cursor() {
    let svc = DeploymentServiceImpl::with_records(numbered(5), 1000);
    for limit in [0, -1, i32::MIN] {
        let r = svc.list_deployments(list_request(None, Some(limit), None));
        assert!(matches!(r, Err(ServiceError::InvalidRequest(_))));
    }
    for cursor in ["abc", "next-page-token", "-3", "1.5", "18446744073709551616"] {
        let r = svc.list_deployments(list_request(Some(cursor), Some(10), None));
        assert!(matches!(r, Err(ServiceError::InvalidRequest(_))));
    }
}

#[test]
fn page_engine_cuts_the_filtered_sequence() {
    let records = numbered(7);
    let p = list(&records, &None, 3, 0);
    assert_eq!(ids(&p.items), vec!["deployment-0", "deployment-1", "deployment-2"]);
    assert_eq!(p.next, Some(3));
    let p = list(&records, &None, 3, 6);
    assert_eq!(ids(&p.items), vec!["deployment-6"]);
    assert_eq!(p.next, None);
    let p = list(&records, &Some("dev".to_string()), 2, 1);
    assert_eq!(ids(&p.items), vec!["deployment-3", "deployment-5"]);
    assert_eq!(p.next, Some(3));
    let p = list(&records, &None, 0, 2);
    assert!(p.items.is_empty());
    assert_eq!(p.next, Some(2));
    let p = list(&records, &None, usize::MAX, usize::MAX);
    assert!(p.items.is_empty());
    assert_eq!(p.next, None);
    assert_eq!(p.items, Vec::<Deployment>::new());
    let whole = list(&records, &None, 100, 0);
    assert_eq!(whole.items, records);
}

#[test]
fn get_deployment_with_empty_id_is_invalid() {
    let svc = DeploymentServiceImpl::with_records(numbered(3), 1000);
    let r = svc.get_deployment(GetDeploymentRequest { deployment_id: String::new() });
    match r {
        Err(e) => {
            assert_eq!(e.code(), RpcCode::InvalidArgument);
            assert_eq!(e.detail(), "Deployment ID cannot be empty");
        }
        Ok(_) => panic!("empty id accepted"),
    }
}

#[test]
fn get_deployment_with_unknown_id_answers_without_deployment() {
    let svc = DeploymentServiceImpl::with_records(numbered(3), 1000);
    let r = svc.get_deployment(GetDeploymentRequest { deployment_id: "nope".to_string() });
    assert_eq!(r.unwrap().deployment, None);
    assert_eq!(svc.find(&"nope".to_string()), None);
}

#[test]
fn get_deployment_returns_the_record() {
    let records = numbered(3);
    let svc = DeploymentServiceImpl::with_records(records.clone(), 1000);
    assert_eq!(get(&svc, "deployment-1"), Some(records[1].clone()));
    assert_eq!(svc.find(&"deployment-2".to_string()), Some(2));
    assert_eq!(records[1].duplicate(), records[1]);
}

#[test]
fn active_deployments_are_the_successful_ones_in_order() {
    let records = vec![
        record("a", "production", "main", DeploymentStatus::Success),
        record("b", "production", "main", DeploymentStatus::Working),
        record("c", "staging", "dev", DeploymentStatus::Success),
        record("d", "staging", "dev", DeploymentStatus::Failure),
    ];
    let svc = DeploymentServiceImpl::with_records(records, 1000);
    let resp = svc.get_active_deployments(GetActiveDeploymentsRequest {}).unwrap();
    assert_eq!(ids(&resp.deployments), vec!["a", "c"]);
    let empty = DeploymentServiceImpl::default();
    assert!(empty.get_active_deployments(GetActiveDeploymentsRequest {}).unwrap().deployments.is_empty());
}

#[test]
fn scale_with_min_above_max_is_invalid() {
    let mut svc = DeploymentServiceImpl::with_records(numbered(3), 1000);
    let before = svc.clone();
    let r = svc.scale_deployment(
        ScaleDeploymentRequest {
            deployment_id: "deployment-1".to_string(),
            sizing: Some(InstanceSizing { min_instances: Some(5), max_instances: Some(2) }),
        },
        at(200),
    );
    match r {
        Err(e) => assert_eq!(e.code(), RpcCode::InvalidArgument),
        Ok(_) => panic!("bad sizing accepted"),
    }
    assert_eq!(svc, before);
}

#[test]
fn scale_sets_the_bounds_and_the_time_of_update() {
    let mut svc = DeploymentServiceImpl::with_records(numbered(3), 1000);
    let sizing = InstanceSizing { min_instances: Some(2), max_instances: Some(5) };
    let resp = svc
        .scale_deployment(
            ScaleDeploymentRequest { deployment_id: "deployment-1".to_string(), sizing: Some(sizing) },
            at(200),
        )
        .unwrap();
    let d = resp.deployment.unwrap();
    assert_eq!(d.sizing, Some(sizing));
    assert_eq!(d.updated_at, at(200));
    assert_eq!(d.status_changed_at, at(100));
    assert_eq!(d.status, DeploymentStatus::Working);
    assert_eq!(get(&svc, "deployment-1"), Some(d.clone()));
    assert_eq!(get(&svc, "deployment-0"), Some(numbered(3)[0].clone()));
    let again = svc
        .scale_deployment(
            ScaleDeploymentRequest { deployment_id: "deployment-1".to_string(), sizing: Some(sizing) },
            at(150),
        )
        .unwrap();
    assert_eq!(again.deployment, Some(d));
}

#[test]
fn scale_refuses_missing_parts_and_unknown_ids() {
    let mut svc = DeploymentServiceImpl::with_records(numbered(3), 1000);
    let sizing = InstanceSizing { min_instances: Some(1), max_instances: Some(1) };
    let r = svc.scale_deployment(
        ScaleDeploymentRequest { deployment_id: String::new(), sizing: Some(sizing) },
        at(200),
    );
    assert!(matches!(r, Err(ServiceError::InvalidRequest(_))));
    let r = svc.scale_deployment(
        ScaleDeploymentRequest { deployment_id: "deployment-1".to_string(), sizing: None },
        at(200),
    );
    assert!(matches!(r, Err(ServiceError::InvalidRequest(_))));
    let r = svc.scale_deployment(
        ScaleDeploymentRequest { deployment_id: "ghost".to_string(), sizing: Some(sizing) },
        at(200),
    );
    assert_eq!(r, Err(ServiceError::NotFound("ghost".to_string())));
    assert_eq!(svc.deployments, numbered(3));
}

#[test]
fn suspend_cancels_a_running_deployment() {
    let mut svc = DeploymentServiceImpl::with_records(numbered(3), 1000);
    let resp = svc
        .suspend_deployment(
            SuspendDeploymentRequest { deployment_id: "deployment-2".to_string() },
            at(300),
        )
        .unwrap();
    let d = resp.deployment.unwrap();
    assert_eq!(d.status, DeploymentStatus::Cancelled);
    assert_eq!(d.status_changed_at, at(300));
    assert_eq!(d.updated_at, at(300));
    assert_eq!(d.created_at, at(100));
    assert_eq!(get(&svc, "deployment-2"), Some(d));
    assert_eq!(get(&svc, "deployment-1"), Some(numbered(3)[1].clone()));
}

#[test]
fn suspend_keeps_time_from_running_backwards() {
    let mut svc = DeploymentServiceImpl::with_records(numbered(1), 1000);
    let resp = svc
        .suspend_deployment(
            SuspendDeploymentRequest { deployment_id: "deployment-0".to_string() },
            at(50),
        )
        .unwrap();
    let d = resp.deployment.unwrap();
    assert_eq!(d.updated_at, at(100));
    assert_eq!(d.status_changed_at, at(100));
}

#[test]
fn suspend_refuses_terminal_unknown_and_empty() {
    let terminal = [
        DeploymentStatus::Success,
        DeploymentStatus::Failure,
        DeploymentStatus::InternalError,
        DeploymentStatus::Timeout,
        DeploymentStatus::Cancelled,
        DeploymentStatus::Expired,
    ];
    for status in terminal {
        let records = vec![record("t", "production", "main", status)];
        let mut svc = DeploymentServiceImpl::with_records(records.clone(), 1000);
        let r = svc.suspend_deployment(
            SuspendDeploymentRequest { deployment_id: "t".to_string() },
            at(300),
        );
        assert!(matches!(r, Err(ServiceError::InvalidRequest(_))));
        assert_eq!(svc.deployments, records);
    }
    let mut svc = DeploymentServiceImpl::with_records(numbered(2), 1000);
    let r = svc
        .suspend_deployment(SuspendDeploymentRequest { deployment_id: "ghost".to_string() }, at(1));
    assert_eq!(r, Err(ServiceError::NotFound("ghost".to_string())));
    let r = svc.suspend_deployment(SuspendDeploymentRequest { deployment_id: String::new() }, at(1));
    assert!(matches!(r, Err(ServiceError::InvalidRequest(_))));
    let second = svc
        .suspend_deployment(SuspendDeploymentRequest { deployment_id: "deployment-0".to_string() }, at(5));
    assert!(second.is_ok());
    let retry = svc
        .suspend_deployment(SuspendDeploymentRequest { deployment_id: "deployment-0".to_string() }, at(6));
    assert!(matches!(retry, Err(ServiceError::InvalidRequest(_))));
    assert_eq!(get(&svc, "deployment-0").unwrap().status, DeploymentStatus::Cancelled);
}

#[test]
fn tag_moves_from_prior_holder_to_new_one() {
    let records = vec![
        tagged(record("A", "production", "main", DeploymentStatus::Success), &["latest", "stable"]),
        record("B", "production", "main", DeploymentStatus::Success),
    ];
    let mut svc = DeploymentServiceImpl::with_records(records, 1000);
    let resp = svc
        .tag_deployment(
            TagDeploymentRequest { deployment_id: "B".to_string(), tag: "latest".to_string() },
            at(400),
        )
        .unwrap();
    assert_eq!(resp.untagged_deployment_id, Some("A".to_string()));
    let a = get(&svc, "A").unwrap();
    let b = get(&svc, "B").unwrap();
    assert_eq!(a.deployment_tags, vec!["stable".to_string()]);
    assert_eq!(b.deployment_tags, vec!["latest".to_string()]);
    assert_eq!(resp.deployment, Some(b.clone()));
    assert_eq!(a.updated_at, at(400));
    assert_eq!(b.updated_at, at(400));
    assert_eq!(a.status, DeploymentStatus::Success);
    assert_eq!(b.status, DeploymentStatus::Success);
}

#[test]
fn of_two_taggers_the_later_one_holds_the_tag() {
    let records = vec![
        record("A", "production", "main", DeploymentStatus::Success),
        record("B", "production", "main", DeploymentStatus::Success),
        tagged(record("C", "production", "main", DeploymentStatus::Success), &["latest"]),
    ];
    let mut svc = DeploymentServiceImpl::with_records(records, 1000);
    let first = svc
        .tag_deployment(
            TagDeploymentRequest { deployment_id: "A".to_string(), tag: "latest".to_string() },
            at(400),
        )
        .unwrap();
    let second = svc
        .tag_deployment(
            TagDeploymentRequest { deployment_id: "B".to_string(), tag: "latest".to_string() },
            at(401),
        )
        .unwrap();
    assert_eq!(first.untagged_deployment_id, Some("C".to_string()));
    assert_eq!(second.untagged_deployment_id, Some("A".to_string()));
    let holders: Vec<String> = svc
        .deployments
        .iter()
        .filter(|d| carries_tag(d, &"latest".to_string()))
        .map(|d| d.id.clone())
        .collect();
    assert_eq!(holders, vec!["B".to_string()]);
}

#[test]
fn tagging_again_changes_nothing() {
    let records = vec![
        tagged(record("A", "production", "main", DeploymentStatus::Success), &["latest"]),
        record("B", "production", "main", DeploymentStatus::Working),
    ];
    let mut svc = DeploymentServiceImpl::with_records(records, 1000);
    let request = TagDeploymentRequest { deployment_id: "B".to_string(), tag: "latest".to_string() };
    let first = svc.tag_deployment(request.clone(), at(400)).unwrap();
    let after_first = svc.clone();
    let retry = svc.tag_deployment(request, at(500)).unwrap();
    assert_eq!(svc, after_first);
    assert_eq!(retry.deployment, first.deployment);
    assert_eq!(retry.untagged_deployment_id, None);
}

#[test]
fn tag_is_exclusive_within_one_environment_only() {
    let records = vec![
        tagged(record("A", "staging", "main", DeploymentStatus::Success), &["latest"]),
        tagged(record("B", "production", "main", DeploymentStatus::Success), &["latest", "x", "latest"]),
        record("C", "production", "main", DeploymentStatus::Success),
    ];
    let mut svc = DeploymentServiceImpl::with_records(records.clone(), 1000);
    let resp = svc
        .tag_deployment(
            TagDeploymentRequest { deployment_id: "C".to_string(), tag: "latest".to_string() },
            at(400),
        )
        .unwrap();
    assert_eq!(resp.untagged_deployment_id, Some("B".to_string()));
    assert_eq!(get(&svc, "A"), Some(records[0].clone()));
    assert_eq!(get(&svc, "B").unwrap().deployment_tags, vec!["x".to_string()]);
    assert_eq!(get(&svc, "C").unwrap().deployment_tags, vec!["latest".to_string()]);
}

#[test]
fn tag_refuses_empty_parts_and_unknown_ids() {
    let mut svc = DeploymentServiceImpl::with_records(numbered(2), 1000);
    let r = svc.tag_deployment(
        TagDeploymentRequest { deployment_id: String::new(), tag: "latest".to_string() },
        at(1),
    );
    assert!(matches!(r, Err(ServiceError::InvalidRequest(_))));
    let r = svc.tag_deployment(
        TagDeploymentRequest { deployment_id: "deployment-0".to_string(), tag: String::new() },
        at(1),
    );
    assert!(matches!(r, Err(ServiceError::InvalidRequest(_))));
    let r = svc.tag_deployment(
        TagDeploymentRequest { deployment_id: "ghost".to_string(), tag: "latest".to_string() },
        at(1),
    );
    assert_eq!(r, Err(ServiceError::NotFound("ghost".to_string())));
    assert_eq!(svc.deployments, numbered(2));
}

#[test]
fn strip_tag_takes_out_every_occurrence() {
    let tags: Vec<String> = ["a", "b", "a", "c", "a"].iter().map(|t| t.to_string()).collect();
    assert_eq!(strip_tag(&tags, &"a".to_string()), vec!["b".to_string(), "c".to_string()]);
    assert_eq!(strip_tag(&tags, &"z".to_string()), tags);
    assert_eq!(strip_tag(&Vec::new(), &"a".to_string()), Vec::<String>::new());
}

#[test]
fn deploy_branch_checks_the_request_first() {
    let mut svc = DeploymentServiceImpl::with_records(numbered(2), 1000);
    let r = svc.deploy_branch(
        DeployBranchRequest {
            branch_name: String::new(),
            reset_branch: false,
            archive: vec![1, 2, 3],
            is_hot_deploy: false,
        },
        at(1),
    );
    assert!(matches!(r, Err(ServiceError::InvalidRequest(_))));
    let r = svc.deploy_branch(
        DeployBranchRequest {
            branch_name: "main".to_string(),
            reset_branch: false,
            archive: Vec::new(),
            is_hot_deploy: false,
        },
        at(1),
    );
    assert!(matches!(r, Err(ServiceError::InvalidRequest(_))));
    let r = svc.deploy_branch(
        DeployBranchRequest {
            branch_name: "main".to_string(),
            reset_branch: true,
            archive: vec![1, 2, 3],
            is_hot_deploy: true,
        },
        at(1),
    );
    match r {
        Err(e) => assert_eq!(e.code(), RpcCode::Unimplemented),
        Ok(_) => panic!("deploy answered"),
    }
    assert_eq!(svc.deployments, numbered(2));
}

#[test]
fn create_branch_needs_a_known_source_branch() {
    let mut svc = DeploymentServiceImpl::with_records(numbered(2), 1000);
    let r = svc.create_branch_from_source_deployment(
        CreateBranchFromSourceDeploymentRequest {
            branch_name: "feature".to_string(),
            source_branch_name: "release".to_string(),
        },
        at(1),
    );
    assert_eq!(r, Err(ServiceError::NotFound("release".to_string())));
    let r = svc.create_branch_from_source_deployment(
        CreateBranchFromSourceDeploymentRequest {
            branch_name: String::new(),
            source_branch_name: "main".to_string(),
        },
        at(1),
    );
    assert!(matches!(r, Err(ServiceError::InvalidRequest(_))));
    let r = svc.create_branch_from_source_deployment(
        CreateBranchFromSourceDeploymentRequest {
            branch_name: "feature".to_string(),
            source_branch_name: "main".to_string(),
        },
        at(1),
    );
    assert!(matches!(r, Err(ServiceError::Unimplemented(_))));
    assert!(svc.branch_exists(&"dev".to_string()));
    assert!(!svc.branch_exists(&"release".to_string()));
}

#[test]
fn call_with_unknown_name_is_unimplemented() {
    let mut server = DeployServiceServer::new(DeploymentServiceImpl::with_records(numbered(2), 1000));
    let request = RpcRequest::GetDeployment(GetDeploymentRequest { deployment_id: "deployment-0".to_string() });
    let o = server.call("chalk.server.v1.DeployService/Nope", Some(request), at(1));
    assert_eq!(o.code, RpcCode::Unimplemented);
    assert_eq!(o.status_text(), "12");
    assert_eq!(o.response, None);
}

#[test]
fn call_without_decoded_request_is_invalid_argument() {
    let mut server = DeployServiceServer::new(DeploymentServiceImpl::with_records(numbered(2), 1000));
    let o = server.call("chalk.server.v1.DeployService/GetDeployment", None, at(1));
    assert_eq!(o.code, RpcCode::InvalidArgument);
    assert_eq!(o.response, None);
    let other = RpcRequest::GetActiveDeployments(GetActiveDeploymentsRequest {});
    let o = server.call("chalk.server.v1.DeployService/GetDeployment", Some(other), at(1));
    assert_eq!(o.code, RpcCode::InvalidArgument);
    assert_eq!(o.response, None);
}

#[test]
fn call_hands_the_request_to_its_handler() {
    let records = numbered(2);
    let mut server = DeployServiceServer::new(DeploymentServiceImpl::with_records(records.clone(), 1000));
    let request = RpcRequest::GetDeployment(GetDeploymentRequest { deployment_id: "deployment-1".to_string() });
    let o = server.call("chalk.server.v1.DeployService/GetDeployment", Some(request), at(1));
    assert_eq!(o.code, RpcCode::Success);
    match o.response {
        Some(RpcResponse::GetDeployment(resp)) => assert_eq!(resp.deployment, Some(records[1].clone())),
        _ => panic!("wrong response"),
    }
    let request = RpcRequest::GetDeployment(GetDeploymentRequest { deployment_id: String::new() });
    let o = server.call("chalk.server.v1.DeployService/GetDeployment", Some(request), at(1));
    assert_eq!(o.code, RpcCode::InvalidArgument);
    assert_eq!(o.message, "Deployment ID cannot be empty");
    let request = RpcRequest::SuspendDeployment(SuspendDeploymentRequest { deployment_id: "deployment-0".to_string() });
    let o = server.call("chalk.server.v1.DeployService/SuspendDeployment", Some(request), at(9));
    assert_eq!(o.code, RpcCode::Success);
    assert_eq!(server.inner().deployments[0].status, DeploymentStatus::Cancelled);
    let request = RpcRequest::ScaleDeployment(ScaleDeploymentRequest { deployment_id: "ghost".to_string(), sizing: Some(InstanceSizing { min_instances: None, max_instances: None }) });
    let o = server.call("chalk.server.v1.DeployService/ScaleDeployment", Some(request), at(9));
    assert_eq!(o.code, RpcCode::NotFound);
    assert_eq!(o.status_text(), "5");
}

#[test]
fn configuration_layers_override_in_order() {
    let none = ConfigLayer { host: None, port: None, page_ceiling: None };
    let c = AppConfig::from_layers(None, none.clone());
    assert_eq!(c.server.host, "127.0.0.1");
    assert_eq!(c.server.port, 50051);
    assert_eq!(c.page_ceiling, 1000);
    assert_eq!(c, AppConfig::default());
    let file = ConfigLayer { host: Some("0.0.0.0".to_string()), port: Some(8080), page_ceiling: None };
    let c = AppConfig::from_layers(Some(file.clone()), none);
    assert_eq!(c.server.host, "0.0.0.0");
    assert_eq!(c.server.port, 8080);
    assert_eq!(c.page_ceiling, 1000);
    let env = ConfigLayer { host: None, port: Some(9090), page_ceiling: Some(50) };
    let c = AppConfig::from_layers(Some(file), env.clone());
    assert_eq!(c.server.host, "0.0.0.0");
    assert_eq!(c.server.port, 9090);
    assert_eq!(c.page_ceiling, 50);
    let c = AppConfig::from_layers(None, env);
    assert_eq!(c.server.host, "127.0.0.1");
    assert_eq!(c.server.port, 9090);
}

#[test]
fn server_address_is_host_colon_port() {
    let server = GrpcServer::new(ServerConfig::default());
    assert_eq!(server.address(), "127.0.0.1:50051");
    assert_eq!(server.config().port, 50051);
    let c = ServerConfig { host: "localhost".to_string(), port: 0 };
    assert_eq!(c.address(), "localhost:0");
    let c = ServerConfig { host: "::1".to_string(), port: 65535 };
    assert_eq!(c.address(), "::1:65535");
}

#[test]
fn mock_deployment_has_the_demonstration_values() {
    let now = Timestamp { seconds: 1700000000, nanos: 12345 };
    let d = generate_mock_deployment("abc", now);
    let mut want = record("abc", "production", "main", DeploymentStatus::Success);
    want.deployment_tags = vec!["latest".to_string(), "stable".to_string()];
    want.created_at = now;
    want.updated_at = now;
    want.status_changed_at = now;
    assert_eq!(d, want);
    assert_eq!(d.cloud_build_id, "build-abc");
    assert_eq!(d.status.code(), 5);
}

#[test]
fn mock_runs_are_numbered_from_zero() {
    let now = at(7);
    let run = generate_mock_deployments(12, now);
    assert_eq!(run.len(), 12);
    assert_eq!(run[0].id, "deployment-0");
    assert_eq!(run[11].id, "deployment-11");
    assert_eq!(run[11].cloud_build_id, "build-deployment-11");
    let active = generate_mock_active_deployments(5, now);
    assert_eq!(
        ids(&active),
        vec![
            "active-deployment-0",
            "active-deployment-1",
            "active-deployment-2",
            "active-deployment-3",
            "active-deployment-4"
        ]
    );
    assert!(active.iter().all(|d| d.status == DeploymentStatus::Success));
    assert!(generate_mock_deployments(0, now).is_empty());
    let svc = DeploymentServiceImpl::with_records(active.clone(), 1000);
    assert_eq!(
        svc.get_active_deployments(GetActiveDeploymentsRequest {}).unwrap().deployments,
        active
    );
}

#[test]
fn no_run_of_calls_moves_a_terminal_status() {
    let statuses = [
        DeploymentStatus::Pending,
        DeploymentStatus::Success,
        DeploymentStatus::Working,
        DeploymentStatus::Failure,
        DeploymentStatus::Queued,
        DeploymentStatus::Cancelled,
        DeploymentStatus::Deploying,
        DeploymentStatus::Expired,
    ];
    let records: Vec<Deployment> = statuses
        .iter()
        .enumerate()
        .map(|(i, s)| record(&format!("d{}", i), "production", "main", *s))
        .collect();
    let mut svc = DeploymentServiceImpl::with_records(records, 1000);
    let mut terminal_seen: Vec<Option<DeploymentStatus>> = vec![None; statuses.len()];
    let mut seed: u32 = 12345;
    for step in 0..400 {
        seed = seed.wrapping_mul(1103515245).wrapping_add(12345);
        let target = format!("d{}", (seed >> 16) as usize % statuses.len());
        let now = at(100 + step);
        match (seed >> 8) % 3 {
            0 => {
                let _ = svc.suspend_deployment(SuspendDeploymentRequest { deployment_id: target }, now);
            }
            1 => {
                let sizing = InstanceSizing { min_instances: Some(1), max_instances: Some(3) };
                let _ = svc.scale_deployment(
                    ScaleDeploymentRequest { deployment_id: target, sizing: Some(sizing) },
                    now,
                );
            }
            _ => {
                let _ = svc.tag_deployment(
                    TagDeploymentRequest { deployment_id: target, tag: "latest".to_string() },
                    now,
                );
            }
        }
        for (i, d) in svc.deployments.iter().enumerate() {
            assert_eq!(d.id, format!("d{}", i));
            assert!(d.created_at.is_not_after(&d.status_changed_at));
            assert!(d.status_changed_at.is_not_after(&d.updated_at));
            match terminal_seen[i] {
                Some(s) => assert_eq!(d.status, s),
                None => {
                    if chalk_deploy::status::is_terminal(d.status) {
                        terminal_seen[i] = Some(d.status);
                    }
                }
            }
        }
        let holders = svc
            .deployments
            .iter()
            .filter(|d| carries_tag(d, &"latest".to_string()))
            .count();
        assert!(holders <= 1);
    }
}

fn raw(host: Option<&str>, port: Option<&str>, ceiling: Option<&str>) -> RawLayer {
    RawLayer {
        host: host.map(|t| t.to_string()),
        port: port.map(|t| t.to_string()),
        page_ceiling: ceiling.map(|t| t.to_string()),
    }
}

#[test]
fn load_reads_numbers_from_the_merged_texts() {
    let c = AppConfig::load(None, raw(None, None, None)).unwrap();
    assert_eq!(c, AppConfig::default());
    let file = raw(Some("0.0.0.0"), Some("8080"), Some("25"));
    let c = AppConfig::load(Some(file.clone()), raw(None, None, None)).unwrap();
    assert_eq!(c.server.host, "0.0.0.0");
    assert_eq!(c.server.port, 8080);
    assert_eq!(c.page_ceiling, 25);
    let c = AppConfig::load(Some(file), raw(Some("localhost"), Some("65535"), None)).unwrap();
    assert_eq!(c.server.host, "localhost");
    assert_eq!(c.server.port, 65535);
    assert_eq!(c.page_ceiling, 25);
    let c = AppConfig::load(None, raw(None, Some("0"), Some("0"))).unwrap();
    assert_eq!(c.server.port, 0);
    assert_eq!(c.page_ceiling, 0);
}

#[test]
fn load_refuses_a_port_that_is_no_u16() {
    for bad in ["abc", "70000", "65536", "", "-1", "80 ", "8o80", "99999999999999999999999"] {
        let r = AppConfig::load(None, raw(None, Some(bad), None));
        assert_eq!(r, Err(ConfigError::InvalidPort(bad.to_string())));
        let r = AppConfig::load(Some(raw(Some("h"), Some(bad), Some("5"))), raw(None, None, None));
        assert_eq!(r, Err(ConfigError::InvalidPort(bad.to_string())));
        assert_eq!(parse_port(bad), None);
    }
    let overridden = AppConfig::load(Some(raw(None, Some("abc"), None)), raw(None, Some("9090"), None));
    assert_eq!(overridden.unwrap().server.port, 9090);
    let r = AppConfig::load(Some(raw(None, Some("9090"), None)), raw(None, Some("abc"), None));
    assert_eq!(r, Err(ConfigError::InvalidPort("abc".to_string())));
    assert_eq!(parse_port("50051"), Some(50051));
    assert_eq!(parse_port("00080"), Some(80));
}

#[test]
fn load_refuses_a_page_ceiling_that_is_no_number() {
    let r = AppConfig::load(None, raw(None, None, Some("many")));
    assert_eq!(r, Err(ConfigError::InvalidPageCeiling("many".to_string())));
    let r = AppConfig::load(None, raw(None, Some("x"), Some("many")));
    assert_eq!(r, Err(ConfigError::InvalidPort("x".to_string())));
}

#[test]
fn settings_lines_set_their_keys() {
    let mut layer = RawLayer::empty();
    assert_eq!(layer, raw(None, None, None));
    assert_eq!(layer.absorb_line("server.host=0.0.0.0"), Ok(()));
    assert_eq!(layer.absorb_line("server.port=8080"), Ok(()));
    assert_eq!(layer.absorb_line(""), Ok(()));
    assert_eq!(layer.absorb_line("other=thing"), Ok(()));
    assert_eq!(layer, raw(Some("0.0.0.0"), Some("8080"), None));
    assert_eq!(layer.absorb_line("page_ceiling=a=b"), Ok(()));
    assert_eq!(layer.absorb_line("server.port="), Ok(()));
    assert_eq!(layer, raw(Some("0.0.0.0"), Some(""), Some("a=b")));
    assert_eq!(
        layer.absorb_line("server.port 8080"),
        Err(ConfigError::MalformedLine("server.port 8080".to_string()))
    );
    assert_eq!(layer, raw(Some("0.0.0.0"), Some(""), Some("a=b")));
    assert_eq!(
        AppConfig::load(Some(layer), raw(None, None, None)),
        Err(ConfigError::InvalidPort(String::new()))
    );
}
