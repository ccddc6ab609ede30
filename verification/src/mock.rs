//! Demonstration records: a successful production deployment of the `main`
//! branch for any id, and numbered runs of them.

use vstd::prelude::*;
use vstd::string::*;
use crate::model::{Deployment, Timestamp};
use crate::status::DeploymentStatus;
use crate::tags::texts;
use crate::text::{decimal, format_decimal, text_of};

verus! {

/// Whether `d` is the demonstration record for the id, stamped with `now`.
pub open spec fn is_mock(d: Deployment, id: Seq<char>, now: Timestamp) -> bool {
    &&& d.id@ == id
    &&& d.environment_id@ == "production"@
    &&& d.status == DeploymentStatus::Success
    &&& texts(d.deployment_tags@) == seq!["latest"@, "stable"@]
    &&& d.cloud_build_id@ == "build-"@ + id
    &&& d.triggered_by@ == "user@example.com"@
    &&& text_of(d.requirements_filepath) == Some("requirements.txt"@)
    &&& text_of(d.dockerfile_filepath) == Some("Dockerfile"@)
    &&& text_of(d.runtime) == Some("python3.8"@)
    &&& d.chalkpy_version@ == "0.5.0"@
    &&& d.raw_dependency_hash@ == "abc123"@
    &&& text_of(d.final_dependency_hash) == Some("def456"@)
    &&& d.is_preview_deployment == Some(false)
    &&& d.created_at == now
    &&& d.updated_at == now
    &&& d.git_commit@ == "a1b2c3d4e5f6"@
    &&& d.git_pr@ == "42"@
    &&& d.git_branch@ == "main"@
    &&& d.git_author_email@ == "author@example.com"@
    &&& d.branch@ == "main"@
    &&& d.project_settings@ == "{}"@
    &&& text_of(d.requirements_files) == Some("[]"@)
    &&& d.git_tag@ == "v1.0.0"@
    &&& d.base_image_sha@ == "sha256:12345"@
    &&& d.status_changed_at == now
    &&& d.pinned_platform_version.is_none()
    &&& d.preview_deployment_tag.is_none()
    &&& d.sizing.is_none()
}

/// The id of the numbered demonstration record: the prefix followed by the
/// number in decimal.
pub open spec fn numbered_id(prefix: Seq<char>, i: nat) -> Seq<char> {
    prefix + decimal(i)
}

/// Whether `v` is the run of `count` demonstration records whose ids are
/// the prefix followed by 0, 1, 2 and so on.
pub open spec fn is_mock_run(v: Seq<Deployment>, prefix: Seq<char>, count: nat, now: Timestamp)
    -> bool {
    &&& v.len() == count
    &&& forall|i: int| 0 <= i < count ==> is_mock(#[trigger] v[i], numbered_id(prefix, i as nat), now)
}

/// The demonstration record for an id, stamped with `now`.
pub fn generate_mock_deployment(id: &str, now: Timestamp) -> (d: Deployment)
    ensures
        is_mock(d, id@, now),
{
    let mut tags: Vec<String> = Vec::new();
    tags.push(String::from_str("latest"));
    tags.push(String::from_str("stable"));
    proof {
        assert(texts(tags@) =~= seq!["latest"@, "stable"@]);
    }
    Deployment {
        id: String::from_str(id),
        environment_id: String::from_str("production"),
        status: DeploymentStatus::Success,
        deployment_tags: tags,
        cloud_build_id: String::from_str("build-").concat(id),
        triggered_by: String::from_str("user@example.com"),
        requirements_filepath: Some(String::from_str("requirements.txt")),
        dockerfile_filepath: Some(String::from_str("Dockerfile")),
        runtime: Some(String::from_str("python3.8")),
        chalkpy_version: String::from_str("0.5.0"),
        raw_dependency_hash: String::from_str("abc123"),
        final_dependency_hash: Some(String::from_str("def456")),
        is_preview_deployment: Some(false),
        created_at: now,
        updated_at: now,
        git_commit: String::from_str("a1b2c3d4e5f6"),
        git_pr: String::from_str("42"),
        git_branch: String::from_str("main"),
        git_author_email: String::from_str("author@example.com"),
        branch: String::from_str("main"),
        project_settings: String::from_str("{}"),
        requirements_files: Some(String::from_str("[]")),
        git_tag: String::from_str("v1.0.0"),
        base_image_sha: String::from_str("sha256:12345"),
        status_changed_at: now,
        pinned_platform_version: None,
        preview_deployment_tag: None,
        sizing: None,
    }
}

fn numbered_run(prefix: &str, count: usize, now: Timestamp) -> (v: Vec<Deployment>)
    ensures
        is_mock_run(v@, prefix@, count as nat, now),
{
    let mut v: Vec<Deployment> = Vec::new();
    let mut i: usize = 0;
    while i < count
        invariant
            0 <= i <= count,
            is_mock_run(v@, prefix@, i as nat, now),
        decreases count - i,
    {
        let id = String::from_str(prefix).concat(format_decimal(i).as_str());
        let d = generate_mock_deployment(id.as_str(), now);
        v.push(d);
        i = i + 1;
    }
    v
}

/// `count` demonstration records with the ids `deployment-0`,
/// `deployment-1` and so on.
pub fn generate_mock_deployments(count: usize, now: Timestamp) -> (v: Vec<Deployment>)
    ensures
        is_mock_run(v@, "deployment-"@, count as nat, now),
{
    numbered_run("deployment-", count, now)
}

/// `count` live demonstration records with the ids `active-deployment-0`,
/// `active-deployment-1` and so on.
pub fn generate_mock_active_deployments(count: usize, now: Timestamp) -> (v: Vec<Deployment>)
    ensures
        is_mock_run(v@, "active-deployment-"@, count as nat, now),
        forall|i: int| 0 <= i < count ==> (#[trigger] v@[i]).status == DeploymentStatus::Success,
{
    numbered_run("active-deployment-", count, now)
}

} // verus!
