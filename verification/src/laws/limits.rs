//! What the resource manager and the agent are told of limits.

use vstd::prelude::*;

use crate::container::{Container, ContainerInner};
use crate::limits::{ResourceUpdate, ResourceUpdateOp, UpdateStep};
use crate::oci::OciResources;

verus! {

/// At a creation, a stop and an update the resource manager is told the id that the container was
/// asked for with and the limits that the container holds, each time with its own purpose.
pub proof fn resource_manager_is_told_the_limits_held(
    container: &Container,
    add: ResourceUpdate,
    give_back: ResourceUpdate,
    update: ResourceUpdate,
)
    requires
        call_ensures(Container::limits_to_add, (container,), add),
        call_ensures(Container::limits_to_give_back, (container,), give_back),
        call_ensures(Container::limits_to_update, (container,), update),
    ensures
        add.op == ResourceUpdateOp::Add,
        give_back.op == ResourceUpdateOp::Del,
        update.op == ResourceUpdateOp::Update,
        *add.container_id == container.config.container_id,
        *give_back.container_id == container.config.container_id,
        *update.container_id == container.config.container_id,
        container.inner.linux_resources is None ==> add.resources is None && give_back.resources
            is None && update.resources is None,
        container.inner.linux_resources matches Some(limits) ==> {
            &&& add.resources is Some && *add.resources->0 == limits
            &&& give_back.resources is Some && *give_back.resources->0 == limits
            &&& update.resources is Some && *update.resources->0 == limits
        },
{
}

/// An update gives the container the limits that it asks for, each of them, and changes nothing
/// else.
pub proof fn update_gives_every_limit(container: &mut Container, resources: &OciResources)
    requires
        call_ensures(Container::update, (container, resources), ()),
    ensures
        final(container).inner.linux_resources matches Some(limits) && {
            &&& limits.block_io == resources.block_io
            &&& limits.devices is Some <==> resources.devices is Some
            &&& limits.devices is Some ==> limits.devices->0@ == resources.devices->0@
            &&& limits.network == resources.network
            &&& limits.pids == resources.pids
            &&& limits.rest == resources.rest
        },
        *final(container) == (Container {
            inner: ContainerInner {
                linux_resources: final(container).inner.linux_resources,
                ..old(container).inner
            },
            ..*old(container)
        }),
{
}

/// The limits that were asked for last are given back by the stop that follows, whatever became of
/// the update: the stop tells of the container as the update left it.
pub proof fn stop_gives_back_what_the_update_asked_for(
    container: &mut Container,
    resources: &OciResources,
    stopped: &Container,
    told: ResourceUpdate,
)
    requires
        call_ensures(Container::update, (container, resources), ()),
        stopped.config == final(container).config,
        stopped.inner.linux_resources == final(container).inner.linux_resources,
        call_ensures(Container::limits_to_give_back, (stopped,), told),
    ensures
        told.op == ResourceUpdateOp::Del,
        *told.container_id == old(container).config.container_id,
        told.resources matches Some(limits) && {
            &&& limits.block_io == resources.block_io
            &&& limits.devices is Some <==> resources.devices is Some
            &&& limits.devices is Some ==> limits.devices->0@ == resources.devices->0@
            &&& limits.network == resources.network
            &&& limits.pids == resources.pids
            &&& limits.rest == resources.rest
        },
{
}

/// The agent is asked if and only if the resource manager agreed, for this container, with the
/// limits that the resource manager settled on and without mounts. An error is handed on.
pub proof fn agent_gets_the_limits_settled_on<E>(
    container: &Container,
    answer: Result<Option<OciResources>, E>,
    r: UpdateStep<E>,
)
    requires
        call_ensures(Container::update_resources_answered::<E>, (container, answer), r),
    ensures
        r is AskAgent <==> answer is Ok,
        answer matches Ok(resources) ==> {
            &&& r matches UpdateStep::AskAgent { request }
            &&& request.container_id@ == container.container_id.container_id@
            &&& request.resources == resources
            &&& request.mounts@.len() == 0
        },
        answer matches Err(error) ==> r == (UpdateStep::Failed { error }),
{
}

/// An update succeeds if and only if the agent agreed; its refusal is handed on.
pub proof fn update_succeeds_with_the_agent<E>(
    container: &Container,
    answer: Result<(), E>,
    r: UpdateStep<E>,
)
    requires
        call_ensures(Container::update_agent_answered::<E>, (container, answer), r),
    ensures
        r is Done <==> answer is Ok,
        answer matches Err(error) ==> r == (UpdateStep::Failed { error }),
{
}

} // verus!
