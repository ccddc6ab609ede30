//! The operation handlers, over a record set held in memory.
//!
//! Policy of the write operations: a deployment in a terminal status admits
//! no transition, so suspending one is refused; suspending any other moves it
//! to `Cancelled`. Scaling and tagging never touch the status. Every handler
//! that changes records leaves the status of a terminal record as it was.

use vstd::prelude::*;
use vstd::string::*;
use crate::error::{is_invalid, is_not_found, is_unimplemented, ServiceError};
use crate::model::{
    record_valid, same_record, same_records, sizing_valid, CreateBranchFromSourceDeploymentRequest,
    CreateBranchFromSourceDeploymentResponse, DeployBranchRequest, DeployBranchResponse,
    Deployment, GetActiveDeploymentsRequest, GetActiveDeploymentsResponse, GetDeploymentRequest,
    GetDeploymentResponse, InstanceSizing, ListDeploymentsRequest, ListDeploymentsResponse,
    ScaleDeploymentRequest, ScaleDeploymentResponse, SuspendDeploymentRequest,
    SuspendDeploymentResponse, TagDeploymentRequest, TagDeploymentResponse, Timestamp, later,
};
use crate::pagination::{
    cursor_position, decode_cursor, encode_cursor, list, matching, next_start, page_at,
    DEFAULT_LIMIT,
};
use crate::status::{is_terminal, terminal, DeploymentStatus};
use crate::tags::{
    carries_tag, is_prior_holder, other_holder, sole_holder, strip_tag, tag_moved,
    lemma_moved_tag_has_sole_holder,
};
use crate::text::{decimal, text_of};

verus! {

/// The largest archive, in bytes, that a deploy request may carry.
pub const MAX_ARCHIVE_BYTES: usize = 104857600;

/// The page ceiling of a service made by `default`.
pub const DEFAULT_PAGE_CEILING: usize = 1000;

/// Whether some record carries the id.
pub open spec fn has_id(records: Seq<Deployment>, id: Seq<char>) -> bool {
    exists|k: int| 0 <= k < records.len() && (#[trigger] records[k]).id@ == id
}

/// Whether `k` is the position of the first record that carries the id.
pub open spec fn is_first_with_id(records: Seq<Deployment>, id: Seq<char>, k: int) -> bool {
    &&& 0 <= k < records.len()
    &&& records[k].id@ == id
    &&& forall|j: int| 0 <= j < k ==> (#[trigger] records[j]).id@ != id
}

/// Whether some record is on the branch.
pub open spec fn has_branch(records: Seq<Deployment>, branch: Seq<char>) -> bool {
    exists|k: int| 0 <= k < records.len() && (#[trigger] records[k]).branch@ == branch
}

/// The records that are live: those whose status is `Success`, in the order
/// of the record set.
pub open spec fn active_records(records: Seq<Deployment>) -> Seq<Deployment>
    decreases records.len(),
{
    if records.len() == 0 {
        Seq::<Deployment>::empty()
    } else if records.last().status == DeploymentStatus::Success {
        active_records(records.drop_last()).push(records.last())
    } else {
        active_records(records.drop_last())
    }
}

/// The page size that a request gets: the requested size, or the default
/// where none is named, cut down to the ceiling where a ceiling is set
/// (a ceiling of 0 sets none). `None` where the requested size is not
/// positive.
pub open spec fn effective_limit(limit: Option<i32>, ceiling: usize) -> Option<nat> {
    let wanted: int = match limit {
        None => DEFAULT_LIMIT as int,
        Some(l) => l as int,
    };
    if wanted <= 0 {
        None
    } else if ceiling > 0 && wanted > ceiling {
        Some(ceiling as nat)
    } else {
        Some(wanted as nat)
    }
}

/// The position that a listing starts at: the first for an absent or empty
/// cursor, the one that the cursor denotes otherwise. `None` for a malformed
/// cursor.
pub open spec fn start_position(cursor: Option<Seq<char>>) -> Option<nat> {
    match cursor {
        None => Some(0),
        Some(c) => if c.len() == 0 {
            Some(0)
        } else {
            cursor_position(c)
        },
    }
}

/// The cursor that a full page hands out denotes the position at which the
/// next page starts: a pass that follows the cursors takes the steps of
/// `pages_from`.
pub proof fn lemma_cursor_resumes(m: Seq<Deployment>, start: nat, limit: nat)
    requires
        next_start(m, start, limit).is_some(),
        start + limit <= usize::MAX,
    ensures
        start_position(cursor_text(next_start(m, start, limit))) == Some(start + limit),
{
    crate::text::lemma_decimal_round_trip(start + limit);
}

/// The cursor text for an optional next position.
pub open spec fn cursor_text(next: Option<nat>) -> Option<Seq<char>> {
    match next {
        None => None,
        Some(n) => Some(decimal(n)),
    }
}

/// Every record that was in a terminal status still has that status, and no
/// record came or went.
pub open spec fn terminal_statuses_kept(before: Seq<Deployment>, after: Seq<Deployment>) -> bool {
    &&& before.len() == after.len()
    &&& forall|i: int|
        0 <= i < before.len() && terminal((#[trigger] before[i]).status) ==> after[i].status
            == before[i].status
}

/// Terminal statuses are kept over any run of changes that each keep them:
/// what holds of every single handler holds of every sequence of calls.
pub proof fn lemma_terminal_statuses_kept_in_sequence(
    a: Seq<Deployment>,
    b: Seq<Deployment>,
    c: Seq<Deployment>,
)
    requires
        terminal_statuses_kept(a, b),
        terminal_statuses_kept(b, c),
    ensures
        terminal_statuses_kept(a, c),
        terminal_statuses_kept(a, a),
{
    assert forall|i: int| 0 <= i < a.len() && terminal((#[trigger] a[i]).status) implies c[i].status
        == a[i].status by {
        assert(terminal(b[i].status));
    }
}

/// Every record keeps its id and its place.
pub open spec fn ids_kept(before: Seq<Deployment>, after: Seq<Deployment>) -> bool {
    &&& before.len() == after.len()
    &&& forall|i: int| 0 <= i < before.len() ==> (#[trigger] after[i]).id == before[i].id
}

/// Every record but the one at `k` is as it was.
pub open spec fn others_kept(before: Seq<Deployment>, after: Seq<Deployment>, k: int) -> bool {
    &&& before.len() == after.len()
    &&& forall|i: int| 0 <= i < before.len() && i != k ==> #[trigger] after[i] == before[i]
}

/// What suspending at time `now` makes of a record.
pub open spec fn suspended(before: Deployment, now: Timestamp, after: Deployment) -> bool {
    after.deployment_tags@ == before.deployment_tags@ && after == (Deployment {
        status: DeploymentStatus::Cancelled,
        updated_at: later(before.updated_at, now),
        status_changed_at: later(before.updated_at, now),
        deployment_tags: after.deployment_tags,
        ..before
    })
}

/// What scaling to `sizing` at time `now` makes of a record.
pub open spec fn scaled(before: Deployment, sizing: InstanceSizing, now: Timestamp, after: Deployment)
    -> bool {
    after.deployment_tags@ == before.deployment_tags@ && after == (Deployment {
        sizing: Some(sizing),
        updated_at: later(before.updated_at, now),
        deployment_tags: after.deployment_tags,
        ..before
    })
}

/// The operations of the deploy service. Read operations take the service
/// as it is; write operations may change it and are told the time of the
/// call. For each write operation an implementation states, as a relation
/// between the service before and after, the request and the result, what
/// the operation does; the trait itself promises nothing of it.
pub trait DeployService: Sized {
    /// What `deploy_branch` may make of the service and answer: each
    /// implementation says it for itself.
    spec fn deploy_branch_outcome(
        before: Self,
        request: DeployBranchRequest,
        now: Timestamp,
        after: Self,
        result: Result<DeployBranchResponse, ServiceError>,
    ) -> bool;

    /// What `create_branch_from_source_deployment` may make of the service
    /// and answer.
    spec fn create_branch_outcome(
        before: Self,
        request: CreateBranchFromSourceDeploymentRequest,
        now: Timestamp,
        after: Self,
        result: Result<CreateBranchFromSourceDeploymentResponse, ServiceError>,
    ) -> bool;

    /// What `suspend_deployment` may make of the service and answer.
    spec fn suspend_outcome(
        before: Self,
        request: SuspendDeploymentRequest,
        now: Timestamp,
        after: Self,
        result: Result<SuspendDeploymentResponse, ServiceError>,
    ) -> bool;

    /// What `scale_deployment` may make of the service and answer.
    spec fn scale_outcome(
        before: Self,
        request: ScaleDeploymentRequest,
        now: Timestamp,
        after: Self,
        result: Result<ScaleDeploymentResponse, ServiceError>,
    ) -> bool;

    /// What `tag_deployment` may make of the service and answer.
    spec fn tag_outcome(
        before: Self,
        request: TagDeploymentRequest,
        now: Timestamp,
        after: Self,
        result: Result<TagDeploymentResponse, ServiceError>,
    ) -> bool;

    fn deploy_branch(&mut self, request: DeployBranchRequest, now: Timestamp) -> (r: Result<
        DeployBranchResponse,
        ServiceError,
    >)
        ensures
            Self::deploy_branch_outcome(*old(self), request, now, *final(self), r),
    ;

    fn create_branch_from_source_deployment(
        &mut self,
        request: CreateBranchFromSourceDeploymentRequest,
        now: Timestamp,
    ) -> (r: Result<CreateBranchFromSourceDeploymentResponse, ServiceError>)
        ensures
            Self::create_branch_outcome(*old(self), request, now, *final(self), r),
    ;

    fn get_deployment(&self, request: GetDeploymentRequest) -> Result<
        GetDeploymentResponse,
        ServiceError,
    >;

    fn list_deployments(&self, request: ListDeploymentsRequest) -> Result<
        ListDeploymentsResponse,
        ServiceError,
    >;

    fn get_active_deployments(&self, request: GetActiveDeploymentsRequest) -> Result<
        GetActiveDeploymentsResponse,
        ServiceError,
    >;

    fn suspend_deployment(&mut self, request: SuspendDeploymentRequest, now: Timestamp) -> (r:
        Result<SuspendDeploymentResponse, ServiceError>)
        ensures
            Self::suspend_outcome(*old(self), request, now, *final(self), r),
    ;

    fn scale_deployment(&mut self, request: ScaleDeploymentRequest, now: Timestamp) -> (r: Result<
        ScaleDeploymentResponse,
        ServiceError,
    >)
        ensures
            Self::scale_outcome(*old(self), request, now, *final(self), r),
    ;

    fn tag_deployment(&mut self, request: TagDeploymentRequest, now: Timestamp) -> (r: Result<
        TagDeploymentResponse,
        ServiceError,
    >)
        ensures
            Self::tag_outcome(*old(self), request, now, *final(self), r),
    ;
}

/// The deployment service over a record set held in memory, in creation
/// order.
#[derive(Clone, Debug, PartialEq, Eq)]
pub struct DeploymentServiceImpl {
    /// The records, oldest first.
    pub deployments: Vec<Deployment>,
    /// The largest page that a listing hands out; 0 sets no ceiling.
    pub page_ceiling: usize,
}

impl Default for DeploymentServiceImpl {
    fn default() -> (s: DeploymentServiceImpl)
        ensures
            s.deployments@.len() == 0,
            s.page_ceiling == DEFAULT_PAGE_CEILING,
    {
        DeploymentServiceImpl { deployments: Vec::new(), page_ceiling: DEFAULT_PAGE_CEILING }
    }
}

impl DeploymentServiceImpl {
    /// A service over the given records.
    pub fn with_records(deployments: Vec<Deployment>, page_ceiling: usize) -> (s:
        DeploymentServiceImpl)
        ensures
            s.deployments == deployments,
            s.page_ceiling == page_ceiling,
    {
        DeploymentServiceImpl { deployments, page_ceiling }
    }

    /// The position of the first record with the given id.
    pub fn find(&self, id: &String) -> (r: Option<usize>)
        ensures
            r.is_none() <==> !has_id(self.deployments@, id@),
            r.is_some() ==> is_first_with_id(self.deployments@, id@, r.unwrap() as int),
    {
        let mut i: usize = 0;
        while i < self.deployments.len()
            invariant
                0 <= i <= self.deployments.len(),
                forall|j: int| 0 <= j < i ==> (#[trigger] self.deployments@[j]).id@ != id@,
            decreases self.deployments.len() - i,
        {
            if self.deployments[i].id == *id {
                return Some(i);
            }
            i = i + 1;
        }
        None
    }

    /// Whether some record is on the given branch.
    pub fn branch_exists(&self, branch: &String) -> (b: bool)
        ensures
            b == has_branch(self.deployments@, branch@),
    {
        let mut i: usize = 0;
        while i < self.deployments.len()
            invariant
                0 <= i <= self.deployments.len(),
                forall|j: int| 0 <= j < i ==> (#[trigger] self.deployments@[j]).branch@ != branch@,
            decreases self.deployments.len() - i,
        {
            if self.deployments[i].branch == *branch {
                return true;
            }
            i = i + 1;
        }
        false
    }

    /// The page size for a requested limit; `None` where it is not positive.
    pub fn resolve_limit(&self, limit: Option<i32>) -> (r: Option<usize>)
        ensures
            r.is_some() <==> effective_limit(limit, self.page_ceiling).is_some(),
            r.is_some() ==> r.unwrap() as nat == effective_limit(limit, self.page_ceiling).unwrap(),
    {
        let wanted: i32 = match limit {
            None => 10,
            Some(l) => l,
        };
        if wanted <= 0 {
            None
        } else {
            let w: usize = wanted as usize;
            if self.page_ceiling > 0 && w > self.page_ceiling {
                Some(self.page_ceiling)
            } else {
                Some(w)
            }
        }
    }
}

impl DeployService for DeploymentServiceImpl {
    /// What deploying may do: nothing but refuse, as invalid or as unimplemented.
    open spec fn deploy_branch_outcome(
        before: Self,
        request: DeployBranchRequest,
        now: Timestamp,
        after: Self,
        result: Result<DeployBranchResponse, ServiceError>,
    ) -> bool {
        &&& (after == before)
        &&& (if request.branch_name@.len() == 0 || request.archive@.len() == 0
                || request.archive@.len() > MAX_ARCHIVE_BYTES {
                is_invalid(result)
            } else {
                is_unimplemented(result)
            })
    }

    /// What branching off may do: nothing but refuse.
    open spec fn create_branch_outcome(
        before: Self,
        request: CreateBranchFromSourceDeploymentRequest,
        now: Timestamp,
        after: Self,
        result: Result<CreateBranchFromSourceDeploymentResponse, ServiceError>,
    ) -> bool {
        &&& (after == before)
        &&& (if request.branch_name@.len() == 0 || request.source_branch_name@.len() == 0 {
                is_invalid(result)
            } else if !has_branch(before.deployments@, request.source_branch_name@) {
                is_not_found(result)
            } else {
                is_unimplemented(result)
            })
    }

    /// What suspending does to the records, and what it answers.
    open spec fn suspend_outcome(
        before: Self,
        request: SuspendDeploymentRequest,
        now: Timestamp,
        after: Self,
        result: Result<SuspendDeploymentResponse, ServiceError>,
    ) -> bool {
        &&& (after.page_ceiling == before.page_ceiling)
        &&& (terminal_statuses_kept(before.deployments@, after.deployments@))
        &&& (ids_kept(before.deployments@, after.deployments@))
        &&& (request.deployment_id@.len() == 0 ==> is_invalid(result))
        &&& (request.deployment_id@.len() > 0 && !has_id(
                before.deployments@,
                request.deployment_id@,
            ) ==> is_not_found(result))
        &&& (result.is_err() ==> after.deployments@ == before.deployments@)
        &&& (forall|k: int|
                request.deployment_id@.len() > 0 && is_first_with_id(
                    before.deployments@,
                    request.deployment_id@,
                    k,
                ) ==> (if terminal((#[trigger] before.deployments@[k]).status) {
                    is_invalid(result)
                } else {
                    &&& (result matches Ok(resp) && resp.deployment matches Some(d) && same_record(
                        d,
                        after.deployments@[k],
                    ))
                    &&& suspended(before.deployments@[k], now, after.deployments@[k])
                    &&& others_kept(before.deployments@, after.deployments@, k)
                }))
        &&& (forall|k: int|
                0 <= k < before.deployments@.len() && record_valid(
                    #[trigger] before.deployments@[k],
                ) ==> record_valid(after.deployments@[k]))
    }

    /// What scaling does to the records, and what it answers.
    open spec fn scale_outcome(
        before: Self,
        request: ScaleDeploymentRequest,
        now: Timestamp,
        after: Self,
        result: Result<ScaleDeploymentResponse, ServiceError>,
    ) -> bool {
        &&& (after.page_ceiling == before.page_ceiling)
        &&& (terminal_statuses_kept(before.deployments@, after.deployments@))
        &&& (ids_kept(before.deployments@, after.deployments@))
        &&& (result.is_err() ==> after.deployments@ == before.deployments@)
        &&& (request.deployment_id@.len() == 0 || request.sizing.is_none() || !sizing_valid(
                request.sizing.unwrap(),
            ) ==> is_invalid(result))
        &&& (request.deployment_id@.len() > 0 && request.sizing.is_some() && sizing_valid(
                request.sizing.unwrap(),
            ) && !has_id(before.deployments@, request.deployment_id@) ==> is_not_found(result))
        &&& (forall|k: int|
                request.deployment_id@.len() > 0 && request.sizing.is_some() && sizing_valid(
                    request.sizing.unwrap(),
                ) && #[trigger] is_first_with_id(before.deployments@, request.deployment_id@, k)
                    ==> {
                    &&& (result matches Ok(resp) && resp.deployment matches Some(d) && same_record(
                        d,
                        after.deployments@[k],
                    ))
                    &&& scaled(
                        before.deployments@[k],
                        request.sizing.unwrap(),
                        now,
                        after.deployments@[k],
                    )
                    &&& others_kept(before.deployments@, after.deployments@, k)
                })
        &&& (forall|k: int|
                0 <= k < before.deployments@.len() && record_valid(
                    #[trigger] before.deployments@[k],
                ) ==> record_valid(after.deployments@[k]))
    }

    /// What moving a tag does to the records, and what it answers.
    open spec fn tag_outcome(
        before: Self,
        request: TagDeploymentRequest,
        now: Timestamp,
        after: Self,
        result: Result<TagDeploymentResponse, ServiceError>,
    ) -> bool {
        &&& (after.page_ceiling == before.page_ceiling)
        &&& (terminal_statuses_kept(before.deployments@, after.deployments@))
        &&& (ids_kept(before.deployments@, after.deployments@))
        &&& (result.is_err() ==> after.deployments@ == before.deployments@)
        &&& (request.deployment_id@.len() == 0 || request.tag@.len() == 0 ==> is_invalid(result))
        &&& (request.deployment_id@.len() > 0 && request.tag@.len() > 0 && !has_id(
                before.deployments@,
                request.deployment_id@,
            ) ==> is_not_found(result))
        &&& (forall|k: int|
                request.deployment_id@.len() > 0 && request.tag@.len() > 0
                    && #[trigger] is_first_with_id(
                    before.deployments@,
                    request.deployment_id@,
                    k,
                ) ==> {
                    &&& (result matches Ok(resp) && resp.deployment matches Some(d) && same_record(
                        d,
                        after.deployments@[k],
                    ))
                    &&& tag_moved(
                        before.deployments@,
                        after.deployments@,
                        k,
                        request.tag@,
                        now,
                    )
                    &&& sole_holder(after.deployments@, k, request.tag@)
                    &&& (result matches Ok(resp) && match resp.untagged_deployment_id {
                        None => forall|j: int|
                            0 <= j < before.deployments@.len() ==> !#[trigger] other_holder(
                                before.deployments@,
                                k,
                                request.tag@,
                                j,
                            ),
                        Some(id) => exists|p: int|
                            #[trigger] is_prior_holder(before.deployments@, k, request.tag@, p)
                                && id@ == before.deployments@[p].id@,
                    })
                })
        &&& (forall|k: int|
                0 <= k < before.deployments@.len() && record_valid(
                    #[trigger] before.deployments@[k],
                ) ==> record_valid(after.deployments@[k]))
    }

    /// Looks a deployment up by id. An empty id is refused; an unknown one
    /// is answered with no deployment.
    fn get_deployment(&self, request: GetDeploymentRequest) -> (r: Result<
        GetDeploymentResponse,
        ServiceError,
    >)
        ensures
            r.is_err() <==> request.deployment_id@.len() == 0,
            r.is_err() ==> is_invalid(r),
            r matches Ok(resp) ==> (match resp.deployment {
                None => !has_id(self.deployments@, request.deployment_id@),
                Some(d) => exists|k: int|
                    is_first_with_id(self.deployments@, request.deployment_id@, k) && same_record(
                        d,
                        #[trigger] self.deployments@[k],
                    ),
            }),
    {
        if request.deployment_id.as_str().unicode_len() == 0 {
            return Err(
                ServiceError::InvalidRequest(String::from_str("Deployment ID cannot be empty")),
            );
        }
        match self.find(&request.deployment_id) {
            None => Ok(GetDeploymentResponse { deployment: None }),
            Some(k) => {
                let d = self.deployments[k].duplicate();
                Ok(GetDeploymentResponse { deployment: Some(d) })
            },
        }
    }

    /// Lists one page of the deployments that pass the branch filter. The
    /// response carries a cursor if and only if the page is full.
    fn list_deployments(&self, request: ListDeploymentsRequest) -> (r: Result<
        ListDeploymentsResponse,
        ServiceError,
    >)
        ensures
            r.is_err() <==> effective_limit(request.limit, self.page_ceiling).is_none()
                || start_position(text_of(request.cursor)).is_none(),
            r.is_err() ==> is_invalid(r),
            r matches Ok(resp) ==> {
                let m = matching(self.deployments@, text_of(request.branch_name));
                let start = start_position(text_of(request.cursor)).unwrap();
                let limit = effective_limit(request.limit, self.page_ceiling).unwrap();
                &&& same_records(resp.deployments@, page_at(m, start, limit))
                &&& resp.cursor.is_some() <==> resp.deployments@.len() == limit
                &&& text_of(resp.cursor) == cursor_text(next_start(m, start, limit))
            },
    {
        let limit = match self.resolve_limit(request.limit) {
            None => {
                return Err(
                    ServiceError::InvalidRequest(String::from_str("Limit must be positive")),
                );
            },
            Some(l) => l,
        };
        let start: usize = match &request.cursor {
            None => 0,
            Some(c) => {
                if c.as_str().unicode_len() == 0 {
                    0
                } else {
                    match decode_cursor(c.as_str()) {
                        None => {
                            return Err(
                                ServiceError::InvalidRequest(String::from_str("Malformed cursor")),
                            );
                        },
                        Some(p) => p,
                    }
                }
            },
        };
        let page = list(&self.deployments, &request.branch_name, limit, start);
        let cursor = match page.next {
            None => None,
            Some(n) => Some(encode_cursor(n)),
        };
        Ok(ListDeploymentsResponse { deployments: page.items, cursor })
    }

    /// The live deployments: copies of the records whose status is
    /// `Success`, in order.
    fn get_active_deployments(&self, request: GetActiveDeploymentsRequest) -> (r: Result<
        GetActiveDeploymentsResponse,
        ServiceError,
    >)
        ensures
            r.is_ok(),
            r matches Ok(resp) ==> same_records(
                resp.deployments@,
                active_records(self.deployments@),
            ),
    {
        let mut items: Vec<Deployment> = Vec::new();
        let mut i: usize = 0;
        proof {
            assert(self.deployments@.take(0) =~= Seq::<Deployment>::empty());
        }
        while i < self.deployments.len()
            invariant
                0 <= i <= self.deployments.len(),
                same_records(items@, active_records(self.deployments@.take(i as int))),
            decreases self.deployments.len() - i,
        {
            proof {
                assert(self.deployments@.take(i + 1).drop_last() =~= self.deployments@.take(
                    i as int,
                ));
                assert(self.deployments@.take(i + 1).last() == self.deployments@[i as int]);
            }
            if self.deployments[i].status == DeploymentStatus::Success {
                let copy = self.deployments[i].duplicate();
                items.push(copy);
            }
            i = i + 1;
        }
        proof {
            assert(self.deployments@.take(self.deployments.len() as int) =~= self.deployments@);
        }
        Ok(GetActiveDeploymentsResponse { deployments: items })
    }

    /// Suspends a deployment at time `now`: its status becomes `Cancelled`.
    /// Refused for an empty id, an unknown id, and a deployment whose status
    /// is terminal; a refused request changes nothing.
    fn suspend_deployment(&mut self, request: SuspendDeploymentRequest, now: Timestamp) -> (r:
        Result<SuspendDeploymentResponse, ServiceError>)
    {
        if request.deployment_id.as_str().unicode_len() == 0 {
            return Err(
                ServiceError::InvalidRequest(String::from_str("Deployment ID cannot be empty")),
            );
        }
        let k = match self.find(&request.deployment_id) {
            None => {
                return Err(ServiceError::NotFound(request.deployment_id));
            },
            Some(k) => k,
        };
        if is_terminal(self.deployments[k].status) {
            return Err(
                ServiceError::InvalidRequest(
                    String::from_str("Deployment is already in a terminal status"),
                ),
            );
        }
        let mut d = self.deployments[k].duplicate();
        let at = Timestamp::later_of(d.updated_at, now);
        d.status = DeploymentStatus::Cancelled;
        d.updated_at = at;
        d.status_changed_at = at;
        let copy = d.duplicate();
        self.deployments.set(k, d);
        Ok(SuspendDeploymentResponse { deployment: Some(copy) })
    }

    /// Sets the instance bounds of a deployment at time `now`. Refused for
    /// an empty id, for absent bounds, for bounds with the lower above the
    /// upper, and for an unknown id, in that order; a refused request
    /// changes nothing.
    fn scale_deployment(&mut self, request: ScaleDeploymentRequest, now: Timestamp) -> (r:
        Result<ScaleDeploymentResponse, ServiceError>)
    {
        if request.deployment_id.as_str().unicode_len() == 0 {
            return Err(
                ServiceError::InvalidRequest(String::from_str("Deployment ID cannot be empty")),
            );
        }
        let sizing = match request.sizing {
            None => {
                return Err(ServiceError::InvalidRequest(String::from_str("Sizing is missing")));
            },
            Some(s) => s,
        };
        if !sizing.is_valid() {
            return Err(
                ServiceError::InvalidRequest(
                    String::from_str("min_instances must not exceed max_instances"),
                ),
            );
        }
        let k = match self.find(&request.deployment_id) {
            None => {
                return Err(ServiceError::NotFound(request.deployment_id));
            },
            Some(k) => k,
        };
        let mut d = self.deployments[k].duplicate();
        d.sizing = Some(sizing);
        d.updated_at = Timestamp::later_of(d.updated_at, now);
        let copy = d.duplicate();
        self.deployments.set(k, d);
        Ok(ScaleDeploymentResponse { deployment: Some(copy) })
    }

    /// Moves a tag to a deployment at time `now`: every other deployment of
    /// the same environment that holds the tag loses it, and the response
    /// names the first of them. Refused for an empty id or tag and for an
    /// unknown id; a refused request changes nothing.
    fn tag_deployment(&mut self, request: TagDeploymentRequest, now: Timestamp) -> (r: Result<
        TagDeploymentResponse,
        ServiceError,
    >)
    {
        if request.deployment_id.as_str().unicode_len() == 0 {
            return Err(
                ServiceError::InvalidRequest(String::from_str("Deployment ID cannot be empty")),
            );
        }
        if request.tag.as_str().unicode_len() == 0 {
            return Err(ServiceError::InvalidRequest(String::from_str("Tag cannot be empty")));
        }
        let k = match self.find(&request.deployment_id) {
            None => {
                return Err(ServiceError::NotFound(request.deployment_id));
            },
            Some(k) => k,
        };
        let ghost before = self.deployments@;
        let ghost tag = request.tag@;
        let n: usize = self.deployments.len();
        let scope = self.deployments[k].environment_id.clone();
        let mut prior: Option<String> = None;
        let mut j: usize = 0;
        while j < n
            invariant
                0 <= j <= n,
                0 <= k < n,
                n == before.len(),
                self.deployments@.len() == n,
                self.page_ceiling == old(self).page_ceiling,
                before == old(self).deployments@,
                tag == request.tag@,
                scope@ == before[k as int].environment_id@,
                forall|i: int|
                    0 <= i < j && i != k ==> crate::tags::tag_detached(
                        #[trigger] before[i],
                        before[k as int],
                        tag,
                        now,
                        self.deployments@[i],
                    ),
                forall|i: int|
                    0 <= i < n && (i >= j || i == k) ==> #[trigger] self.deployments@[i]
                        == before[i],
                match prior {
                    None => forall|i: int| 0 <= i < j ==> !#[trigger] other_holder(before, k as int, tag, i),
                    Some(id) => exists|p: int|
                        #[trigger] is_prior_holder(before, k as int, tag, p) && id@ == before[p].id@,
                },
            decreases n - j,
        {
            if j != k && self.deployments[j].environment_id == scope && carries_tag(
                &self.deployments[j],
                &request.tag,
            ) {
                let mut d = self.deployments[j].duplicate();
                d.deployment_tags = strip_tag(&d.deployment_tags, &request.tag);
                d.updated_at = Timestamp::later_of(d.updated_at, now);
                proof {
                    assert(other_holder(before, k as int, tag, j as int));
                }
                if prior.is_none() {
                    prior = Some(d.id.clone());
                    proof {
                        assert(is_prior_holder(before, k as int, tag, j as int));
                    }
                }
                self.deployments.set(j, d);
            } else {
                proof {
                    assert(!other_holder(before, k as int, tag, j as int));
                }
            }
            j = j + 1;
        }
        if !carries_tag(&self.deployments[k], &request.tag) {
            let mut d = self.deployments[k].duplicate();
            let ghost had = d.deployment_tags@;
            d.deployment_tags.push(request.tag.clone());
            d.updated_at = Timestamp::later_of(d.updated_at, now);
            proof {
                assert(crate::tags::texts(d.deployment_tags@) =~= crate::tags::texts(had).push(tag));
            }
            self.deployments.set(k, d);
        }
        let copy = self.deployments[k].duplicate();
        proof {
            assert(tag_moved(before, self.deployments@, k as int, tag, now));
            lemma_moved_tag_has_sole_holder(before, self.deployments@, k as int, tag, now);
        }
        Ok(TagDeploymentResponse { deployment: Some(copy), untagged_deployment_id: prior })
    }

    /// Checks a deploy request and refuses it: an empty branch name or an
    /// archive that is empty or above `MAX_ARCHIVE_BYTES` is an invalid
    /// request; a well-formed one is answered as unimplemented, since
    /// builds are not started from here.
    fn deploy_branch(&mut self, request: DeployBranchRequest, now: Timestamp) -> (r: Result<
        DeployBranchResponse,
        ServiceError,
    >)
    {
        if request.branch_name.as_str().unicode_len() == 0 {
            return Err(ServiceError::InvalidRequest(String::from_str("Branch name is empty")));
        }
        if request.archive.len() == 0 || request.archive.len() > MAX_ARCHIVE_BYTES {
            return Err(
                ServiceError::InvalidRequest(String::from_str("Archive is empty or too large")),
            );
        }
        Err(ServiceError::Unimplemented(String::from_str("Not implemented")))
    }

    /// Checks a request to branch off a source branch and refuses it: an
    /// empty name is an invalid request, a source branch without a record
    /// is not found; a well-formed one is answered as unimplemented.
    fn create_branch_from_source_deployment(
        &mut self,
        request: CreateBranchFromSourceDeploymentRequest,
        now: Timestamp,
    ) -> (r: Result<CreateBranchFromSourceDeploymentResponse, ServiceError>)
    {
        if request.branch_name.as_str().unicode_len() == 0
            || request.source_branch_name.as_str().unicode_len() == 0 {
            return Err(ServiceError::InvalidRequest(String::from_str("Branch name is empty")));
        }
        if !self.branch_exists(&request.source_branch_name) {
            return Err(ServiceError::NotFound(request.source_branch_name));
        }
        Err(ServiceError::Unimplemented(String::from_str("Not implemented")))
    }
}

} // verus!
