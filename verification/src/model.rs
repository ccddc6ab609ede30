//! The deployment record and the request and response of every operation.

use vstd::prelude::*;
use crate::status::DeploymentStatus;
use crate::text::{copy_optional_text, copy_texts};

verus! {

/// A point in time: whole seconds since the epoch and the nanoseconds within
/// the second.
#[derive(Clone, Copy, Debug, PartialEq, Eq, Structural, Hash)]
pub struct Timestamp {
    pub seconds: i64,
    pub nanos: i32,
}

/// Whether `a` is no later than `b`.
pub open spec fn not_after(a: Timestamp, b: Timestamp) -> bool {
    a.seconds < b.seconds || (a.seconds == b.seconds && a.nanos <= b.nanos)
}

/// The later of two points in time.
pub open spec fn later(a: Timestamp, b: Timestamp) -> Timestamp {
    if not_after(a, b) {
        b
    } else {
        a
    }
}

impl Timestamp {
    /// Whether this point in time is no later than `other`.
    pub fn is_not_after(&self, other: &Timestamp) -> (b: bool)
        ensures
            b == not_after(*self, *other),
    {
        self.seconds < other.seconds || (self.seconds == other.seconds && self.nanos
            <= other.nanos)
    }

    /// The later of two points in time.
    pub fn later_of(a: Timestamp, b: Timestamp) -> (r: Timestamp)
        ensures
            r == later(a, b),
            not_after(a, r),
            not_after(b, r),
    {
        if a.is_not_after(&b) {
            b
        } else {
            a
        }
    }
}

/// Optional bounds on the number of instances of a deployment.
#[derive(Clone, Copy, Debug, PartialEq, Eq, Structural)]
pub struct InstanceSizing {
    pub min_instances: Option<u32>,
    pub max_instances: Option<u32>,
}

/// Where both bounds are present, the lower is no greater than the upper.
pub open spec fn sizing_valid(s: InstanceSizing) -> bool {
    s.min_instances.is_some() && s.max_instances.is_some() ==> s.min_instances.unwrap()
        <= s.max_instances.unwrap()
}

impl InstanceSizing {
    /// Whether the bounds are acceptable: not both present with the lower
    /// above the upper.
    pub fn is_valid(&self) -> (b: bool)
        ensures
            b == sizing_valid(*self),
    {
        match (self.min_instances, self.max_instances) {
            (Some(lo), Some(hi)) => lo <= hi,
            _ => true,
        }
    }
}

/// One build and release attempt. `deployment_tags` is ordered and may hold
/// a tag more than once.
#[derive(Clone, Debug, PartialEq, Eq)]
pub struct Deployment {
    pub id: String,
    pub environment_id: String,
    pub status: DeploymentStatus,
    pub deployment_tags: Vec<String>,
    pub cloud_build_id: String,
    pub triggered_by: String,
    pub requirements_filepath: Option<String>,
    pub dockerfile_filepath: Option<String>,
    pub runtime: Option<String>,
    pub chalkpy_version: String,
    pub raw_dependency_hash: String,
    pub final_dependency_hash: Option<String>,
    pub is_preview_deployment: Option<bool>,
    pub created_at: Timestamp,
    pub updated_at: Timestamp,
    pub git_commit: String,
    pub git_pr: String,
    pub git_branch: String,
    pub git_author_email: String,
    pub branch: String,
    pub project_settings: String,
    pub requirements_files: Option<String>,
    pub git_tag: String,
    pub base_image_sha: String,
    pub status_changed_at: Timestamp,
    pub pinned_platform_version: Option<String>,
    pub preview_deployment_tag: Option<String>,
    /// The instance bounds set by the last scale request; kept with the
    /// record, not part of its wire message.
    pub sizing: Option<InstanceSizing>,
}

/// Two records that agree in every field, the tags compared as sequences.
pub open spec fn same_record(a: Deployment, b: Deployment) -> bool {
    a.deployment_tags@ == b.deployment_tags@ && a == (Deployment {
        deployment_tags: a.deployment_tags,
        ..b
    })
}

/// Two sequences of records that agree position by position.
pub open spec fn same_records(a: Seq<Deployment>, b: Seq<Deployment>) -> bool {
    a.len() == b.len() && forall|i: int| 0 <= i < a.len() ==> same_record(#[trigger] a[i], b[i])
}

/// A record's timestamps are in order: it was not updated, nor its status
/// changed, before it was created, and its status did not change after its
/// last update.
pub open spec fn record_valid(d: Deployment) -> bool {
    not_after(d.created_at, d.updated_at) && not_after(d.created_at, d.status_changed_at)
        && not_after(d.status_changed_at, d.updated_at)
}

impl Deployment {
    /// An owned copy of the record.
    pub fn duplicate(&self) -> (r: Deployment)
        ensures
            same_record(r, *self),
    {
        Deployment {
            id: self.id.clone(),
            environment_id: self.environment_id.clone(),
            status: self.status,
            deployment_tags: copy_texts(&self.deployment_tags),
            cloud_build_id: self.cloud_build_id.clone(),
            triggered_by: self.triggered_by.clone(),
            requirements_filepath: copy_optional_text(&self.requirements_filepath),
            dockerfile_filepath: copy_optional_text(&self.dockerfile_filepath),
            runtime: copy_optional_text(&self.runtime),
            chalkpy_version: self.chalkpy_version.clone(),
            raw_dependency_hash: self.raw_dependency_hash.clone(),
            final_dependency_hash: copy_optional_text(&self.final_dependency_hash),
            is_preview_deployment: self.is_preview_deployment,
            created_at: self.created_at,
            updated_at: self.updated_at,
            git_commit: self.git_commit.clone(),
            git_pr: self.git_pr.clone(),
            git_branch: self.git_branch.clone(),
            git_author_email: self.git_author_email.clone(),
            branch: self.branch.clone(),
            project_settings: self.project_settings.clone(),
            requirements_files: copy_optional_text(&self.requirements_files),
            git_tag: self.git_tag.clone(),
            base_image_sha: self.base_image_sha.clone(),
            status_changed_at: self.status_changed_at,
            pinned_platform_version: copy_optional_text(&self.pinned_platform_version),
            preview_deployment_tag: copy_optional_text(&self.preview_deployment_tag),
            sizing: self.sizing,
        }
    }
}

#[derive(Clone, Debug, PartialEq, Eq)]
pub struct ListDeploymentsRequest {
    pub cursor: Option<String>,
    pub limit: Option<i32>,
    pub include_branch: Option<bool>,
    pub branch_name: Option<String>,
}

#[derive(Clone, Debug, PartialEq, Eq)]
pub struct ListDeploymentsResponse {
    pub deployments: Vec<Deployment>,
    pub cursor: Option<String>,
}

#[derive(Clone, Debug, PartialEq, Eq)]
pub struct GetDeploymentRequest {
    pub deployment_id: String,
}

#[derive(Clone, Debug, PartialEq, Eq)]
pub struct GetDeploymentResponse {
    pub deployment: Option<Deployment>,
}

#[derive(Clone, Debug, PartialEq, Eq)]
pub struct GetActiveDeploymentsRequest {}

#[derive(Clone, Debug, PartialEq, Eq)]
pub struct GetActiveDeploymentsResponse {
    pub deployments: Vec<Deployment>,
}

#[derive(Clone, Debug, PartialEq, Eq)]
pub struct DeployBranchRequest {
    pub branch_name: String,
    pub reset_branch: bool,
    pub archive: Vec<u8>,
    pub is_hot_deploy: bool,
}

#[derive(Clone, Debug, PartialEq, Eq)]
pub struct DeployBranchResponse {
    pub deployment_id: String,
}

#[derive(Clone, Debug, PartialEq, Eq)]
pub struct CreateBranchFromSourceDeploymentRequest {
    pub branch_name: String,
    pub source_branch_name: String,
}

#[derive(Clone, Debug, PartialEq, Eq)]
pub struct CreateBranchFromSourceDeploymentResponse {
    pub deployment_id: String,
    pub branch_already_exists: bool,
}

#[derive(Clone, Debug, PartialEq, Eq)]
pub struct SuspendDeploymentRequest {
    pub deployment_id: String,
}

#[derive(Clone, Debug, PartialEq, Eq)]
pub struct SuspendDeploymentResponse {
    pub deployment: Option<Deployment>,
}

#[derive(Clone, Debug, PartialEq, Eq)]
pub struct ScaleDeploymentRequest {
    pub deployment_id: String,
    pub sizing: Option<InstanceSizing>,
}

#[derive(Clone, Debug, PartialEq, Eq)]
pub struct ScaleDeploymentResponse {
    pub deployment: Option<Deployment>,
}

#[derive(Clone, Debug, PartialEq, Eq)]
pub struct TagDeploymentRequest {
    pub deployment_id: String,
    pub tag: String,
}

#[derive(Clone, Debug, PartialEq, Eq)]
pub struct TagDeploymentResponse {
    pub deployment: Option<Deployment>,
    pub untagged_deployment_id: Option<String>,
}

} // verus!
