//! The resource limits of a container: what the resource manager is told when the container is
//! created, updated and stopped, and how an update goes on.

use vstd::prelude::*;

use crate::container::{Container, ContainerInner};
use crate::oci::resources_view;
use crate::oci::{Mount, OciResources, OciResourcesView};
use crate::process::ProcessStatus;
use crate::process::{ContainerProcess, Exec, PassfdIo};

verus! {

/// What the resource manager is told of a container's limits for.
#[derive(Clone, Copy, Debug, PartialEq, Eq, Structural)]
pub enum ResourceUpdateOp {
    /// The container is created.
    Add,
    /// The container was stopped.
    Del,
    /// The container gets other limits.
    Update,
}

/// What the resource manager is told.
pub struct ResourceUpdate<'a> {
    pub container_id: &'a String,
    pub resources: Option<&'a OciResources>,
    pub op: ResourceUpdateOp,
}

/// The request to the agent to change the limits of a container.
pub struct UpdateContainerRequest {
    pub container_id: String,
    pub resources: Option<OciResources>,
    pub mounts: Vec<Mount>,
}

/// How an update goes on.
pub enum UpdateStep<E> {
    /// The agent is asked.
    AskAgent { request: UpdateContainerRequest },
    /// The container has its new limits.
    Done,
    /// Outside work failed.
    Failed { error: E },
}

impl Container {
    /// `update` tells of this container and of the limits that were last asked for.
    pub open spec fn tells_of_limits(self, op: ResourceUpdateOp, update: ResourceUpdate) -> bool {
        update == (ResourceUpdate {
            container_id: &self.config.container_id,
            resources: match self.inner.linux_resources {
                Some(limits) => Some(&limits),
                None => None,
            },
            op,
        })
    }

    fn limits_for(&self, op: ResourceUpdateOp) -> (r: ResourceUpdate<'_>)
        ensures
            self.tells_of_limits(op, r),
    {
        ResourceUpdate {
            container_id: &self.config.container_id,
            resources: match &self.inner.linux_resources {
                Some(limits) => Some(limits),
                None => None,
            },
            op,
        }
    }

    /// What the resource manager is told when the container is created.
    pub fn limits_to_add(&self) -> (r: ResourceUpdate<'_>)
        ensures
            self.tells_of_limits(ResourceUpdateOp::Add, r),
    {
        self.limits_for(ResourceUpdateOp::Add)
    }

    /// What the resource manager is told when the container was stopped.
    pub fn limits_to_give_back(&self) -> (r: ResourceUpdate<'_>)
        ensures
            self.tells_of_limits(ResourceUpdateOp::Del, r),
    {
        self.limits_for(ResourceUpdateOp::Del)
    }

    /// What the resource manager is told in an update, once the new limits were taken note of.
    pub fn limits_to_update(&self) -> (r: ResourceUpdate<'_>)
        ensures
            self.tells_of_limits(ResourceUpdateOp::Update, r),
    {
        self.limits_for(ResourceUpdateOp::Update)
    }

    /// `after` is this container with the limits `resources`.
    pub open spec fn with_limits(self, resources: OciResourcesView, after: Container) -> bool {
        &&& after == (Container {
            inner: ContainerInner { linux_resources: after.inner.linux_resources, ..self.inner },
            ..self
        })
        &&& resources_view(after.inner.linux_resources) == Some(resources)
    }

    /// Begins an update: takes note of the limits that the container is to have from now on,
    /// whatever becomes of the update. The resource manager is told next.
    pub fn update(&mut self, resources: &OciResources)
        ensures
            old(self).with_limits(resources@, *final(self)),
    {
        self.inner.linux_resources = Some(resources.clone());
    }

    /// `request` gives the agent the limits `resources`.
    pub open spec fn is_update_request(
        self,
        resources: Option<OciResources>,
        request: UpdateContainerRequest,
    ) -> bool {
        &&& request.container_id@ == self.container_id.container_id@
        &&& request.resources == resources
        &&& request.mounts@ == Seq::<Mount>::empty()
    }

    /// How an update goes on after the resource manager has answered: the agent gets the limits
    /// that were settled on, and is not asked where there was an error.
    pub fn update_resources_answered<E>(&self, answer: Result<Option<OciResources>, E>) -> (r:
        UpdateStep<E>)
        ensures
            match answer {
                Ok(resources) => {
                    &&& r matches UpdateStep::AskAgent { request }
                    &&& self.is_update_request(resources, request)
                },
                Err(error) => r == (UpdateStep::Failed { error }),
            },
    {
        match answer {
            Ok(resources) => UpdateStep::AskAgent {
                request: UpdateContainerRequest {
                    container_id: self.container_id.container_id.clone(),
                    resources,
                    mounts: Vec::new(),
                },
            },
            Err(error) => UpdateStep::Failed { error },
        }
    }

    /// How an update ends after the agent has answered.
    pub fn update_agent_answered<E>(&self, answer: Result<(), E>) -> (r: UpdateStep<E>)
        ensures
            r == (match answer {
                Ok(_) => UpdateStep::Done,
                Err(error) => UpdateStep::Failed { error },
            }),
    {
        match answer {
            Ok(_) => UpdateStep::Done,
            Err(error) => UpdateStep::Failed { error },
        }
    }
}

/// The resource manager gets the limits that an update asks for, for this container.
pub proof fn update_tells_the_new_limits(
    before: Container,
    after: Container,
    resources: OciResourcesView,
    update: ResourceUpdate,
)
    requires
        before.with_limits(resources, after),
        after.tells_of_limits(ResourceUpdateOp::Update, update),
    ensures
        update.container_id@ == before.config.container_id@,
        update.resources matches Some(limits) && limits@ == resources,
        update.op == ResourceUpdateOp::Update,
{
}

/// `later` is the same container as `earlier` with the same limits.
pub open spec fn limits_kept(earlier: Container, later: Container) -> bool {
    &&& later.config == earlier.config
    &&& later.inner.linux_resources == earlier.inner.linux_resources
}

/// No request but an update changes the limits of a container.
pub proof fn other_requests_keep_the_limits(
    before: Container,
    after: Container,
    status: ProcessStatus,
    exec_id: Seq<char>,
    exec: Exec,
    process: ContainerProcess,
    io: PassfdIo,
    width: u32,
    height: u32,
)
    requires
        ({
            ||| after == before.with_status(status)
            ||| before.exec_added(exec_id, exec, after)
            ||| before.exec_deleted(exec_id, after)
            ||| before.resized(exec_id, width, height, after)
            ||| before.with_streams(process, io, after)
        }),
    ensures
        limits_kept(before, after),
{
}

/// A stop gives back the limits that were last asked for, those of an update that failed included:
/// the limits are taken note of before anything can fail.
pub proof fn stop_gives_back_the_limits_last_asked_for(
    before: Container,
    updated: Container,
    stopped: Container,
    resources: OciResourcesView,
    update: ResourceUpdate,
)
    requires
        before.with_limits(resources, updated),
        limits_kept(updated, stopped),
        stopped.tells_of_limits(ResourceUpdateOp::Del, update),
    ensures
        update.container_id@ == before.config.container_id@,
        update.resources matches Some(limits) && limits@ == resources,
        update.op == ResourceUpdateOp::Del,
{
}

/// A container that was not updated since it was created gives back what it was given: the limits
/// of its specification.
pub proof fn stop_gives_back_what_create_added(
    created: Container,
    stopped: Container,
    added: ResourceUpdate,
    given_back: ResourceUpdate,
)
    requires
        limits_kept(created, stopped),
        created.tells_of_limits(ResourceUpdateOp::Add, added),
        stopped.tells_of_limits(ResourceUpdateOp::Del, given_back),
    ensures
        given_back.container_id == added.container_id,
        given_back.resources == added.resources,
{
}

} // verus!
