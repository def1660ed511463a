//! In which order the outside work of a start is done, and what a start comes to.

use vstd::prelude::*;

use crate::checkpoint::ImageRequest;
use crate::container::{Container, ContainerInner};
use crate::process::{ContainerProcess, ProcessRecord, ProcessStatus, ProcessType};
use crate::start::{StartError, StartFailure, StartRun, StartStep};

verus! {

/// The first process of a container with a checkpoint is restored: from images on the host, if the
/// configuration names any, and else from those in the guest. Without a checkpoint it is started.
pub proof fn first_process_is_restored_or_started(
    container: &Container,
    process: &ContainerProcess,
    r: StartStep,
)
    requires
        call_ensures(Container::start, (container, process), r),
        process.process_type == ProcessType::Container,
    ensures
        container.config.checkpoint is None ==> r == StartStep::StartContainer,
        container.config.checkpoint matches Some(checkpoint) ==> {
            &&& checkpoint@.len() > 0 ==> r == StartStep::ProbeCheckpoint
            &&& checkpoint@.len() == 0 ==> r == StartStep::Restore
        },
{
}

/// An added process is started, after its streams were handed over if the container has a listener
/// address; there the container has to know it.
pub proof fn added_process_is_started_after_its_streams(
    container: &Container,
    process: &ContainerProcess,
    r: StartStep,
)
    requires
        call_ensures(Container::start, (container, process), r),
        process.process_type == ProcessType::Exec,
    ensures
        container.passfd_listener_addr is None ==> r == StartStep::StartExec,
        container.passfd_listener_addr is Some ==> {
            let known = container.inner.exec_processes@.contains_key(process.exec_id@);
            &&& known ==> r == StartStep::InitExecPassfd
            &&& !known ==> r == StartStep::Failed(StartFailure::ProcessNotFound)
        },
{
}

/// A start succeeds only when a step has that watches for the exit of the process, and each such
/// step that succeeds makes the start succeed.
pub proof fn start_succeeds_with_its_watch(
    container: &mut Container,
    process: &ContainerProcess,
    step: StartStep,
    succeeded: bool,
    r: StartStep,
)
    requires
        call_ensures(Container::start_next, (container, process, step, succeeded), r),
        step != StartStep::Done,
    ensures
        r == StartStep::Done <==> succeeded && {
            ||| step == StartStep::WatchRestored
            ||| step == StartStep::WatchContainerPassfd
            ||| step == StartStep::WatchContainerIo
            ||| step == StartStep::WatchExecPassfd
            ||| step == StartStep::WatchExecIo
        },
{
}

/// A step that a start of an added process can be at.
pub open spec fn for_added_process(step: StartStep) -> bool {
    ||| step is InitExecPassfd
    ||| step is StartExec
    ||| step is StopExec
    ||| step is ResizeExec
    ||| step is WatchExecPassfd
    ||| step is OpenExecIo
    ||| step is WatchExecIo
    ||| step is Done
    ||| step is Failed
}

/// A step that a fresh start of a container can be at.
pub open spec fn for_fresh_container(step: StartStep) -> bool {
    ||| step is StartContainer
    ||| step is StopContainer
    ||| step is WatchContainerPassfd
    ||| step is OpenContainerIo
    ||| step is WatchContainerIo
    ||| step is Done
    ||| step is Failed
}

/// A start of an added process begins with a step for added processes and goes through no other, so
/// it succeeds only when the exit of that process is watched for.
pub proof fn added_process_is_watched_before_success(
    first_container: &Container,
    process: &ContainerProcess,
    first: StartStep,
    container: &mut Container,
    step: StartStep,
    succeeded: bool,
    r: StartStep,
)
    requires
        call_ensures(Container::start, (first_container, process), first),
        process.process_type == ProcessType::Exec,
        for_added_process(step),
        call_ensures(Container::start_next, (container, process, step, succeeded), r),
    ensures
        for_added_process(first),
        first != StartStep::Done,
        for_added_process(r),
        r == StartStep::Done && step != StartStep::Done ==> succeeded && (step
            == StartStep::WatchExecPassfd || step == StartStep::WatchExecIo),
{
}

/// A fresh start of a container begins with a step for containers and goes through no other, so it
/// succeeds only when the exit of the container is watched for.
pub proof fn container_is_watched_before_success(
    first_container: &Container,
    process: &ContainerProcess,
    first: StartStep,
    container: &mut Container,
    step: StartStep,
    succeeded: bool,
    r: StartStep,
)
    requires
        call_ensures(Container::start, (first_container, process), first),
        process.process_type == ProcessType::Container,
        first_container.config.checkpoint is None,
        for_fresh_container(step),
        call_ensures(Container::start_next, (container, process, step, succeeded), r),
    ensures
        for_fresh_container(first),
        first != StartStep::Done,
        for_fresh_container(r),
        r == StartStep::Done && step != StartStep::Done ==> succeeded && (step
            == StartStep::WatchContainerPassfd || step == StartStep::WatchContainerIo),
{
}

/// A container that was started is watched, on its connections if the container has a listener
/// address, and else after its streams were opened.
pub proof fn started_container_is_watched(
    container: &mut Container,
    process: &ContainerProcess,
    step: StartStep,
    r: StartStep,
)
    requires
        call_ensures(Container::start_next, (container, process, step, true), r),
    ensures
        step == StartStep::StartContainer ==> {
            &&& old(container).passfd_listener_addr is Some ==> r
                == StartStep::WatchContainerPassfd
            &&& old(container).passfd_listener_addr is None ==> r == StartStep::OpenContainerIo
        },
        step == StartStep::OpenContainerIo ==> r == StartStep::WatchContainerIo,
{
}

/// An added process whose streams were handed over is started next.
pub proof fn streams_come_before_the_start(
    container: &mut Container,
    process: &ContainerProcess,
    r: StartStep,
)
    requires
        call_ensures(
            Container::start_next,
            (container, process, StartStep::InitExecPassfd, true),
            r,
        ),
    ensures
        r == StartStep::StartExec,
{
}

/// An added process that was started gets the size that was asked for, if it has a height and a
/// width, and then, or else at once, its exit is watched for: on its connections if the container
/// has a listener address, and else after its streams were opened. Wherever the container has to
/// know the process and does not, the start fails for that.
pub proof fn started_process_is_sized_and_watched(
    container: &mut Container,
    process: &ContainerProcess,
    step: StartStep,
    r: StartStep,
)
    requires
        call_ensures(Container::start_next, (container, process, step, true), r),
    ensures
        ({
            let known = old(container).inner.exec_processes@.contains_key(process.exec_id@);
            let record = old(container).inner.exec_processes@[process.exec_id@].process;
            let sized = record.height != 0 && record.width != 0;
            let unknown = StartStep::Failed(StartFailure::ProcessNotFound);
            let passfd = old(container).passfd_listener_addr is Some;
            &&& step == StartStep::StartExec ==> {
                &&& !known ==> r == unknown
                &&& known && sized ==> r == (StartStep::ResizeExec {
                    height: record.height,
                    width: record.width,
                })
                &&& known && !sized && passfd ==> r == StartStep::WatchExecPassfd
                &&& known && !sized && !passfd ==> r == StartStep::OpenExecIo
            }
            &&& step is ResizeExec ==> {
                &&& passfd && known ==> r == StartStep::WatchExecPassfd
                &&& passfd && !known ==> r == unknown
                &&& !passfd ==> r == StartStep::OpenExecIo
            }
            &&& step == StartStep::OpenExecIo ==> {
                &&& known ==> r == StartStep::WatchExecIo
                &&& !known ==> r == unknown
            }
        }),
{
}

/// The images of a checkpoint that is on the host are copied to the upper directory, where there is
/// one, after a directory was made for them there; then the container is restored, and then its exit
/// is watched for. A checkpoint that is not on the host is no failure.
pub proof fn images_are_staged_before_the_restore(
    container: &mut Container,
    process: &ContainerProcess,
    step: StartStep,
    succeeded: bool,
    r: StartStep,
    upperdir: Option<String>,
)
    requires
        call_ensures(Container::start_next, (container, process, step, succeeded), r),
        call_ensures(Container::rootfs_upperdir, (&*old(container),), upperdir),
    ensures
        step == StartStep::ProbeCheckpoint ==> {
            &&& succeeded && upperdir is Some ==> r == StartStep::CreateStagingDir
            &&& !(succeeded && upperdir is Some) ==> r == StartStep::Restore
        },
        step == StartStep::CreateStagingDir && succeeded ==> r == StartStep::StageImages,
        step == StartStep::StageImages && succeeded ==> r == StartStep::Restore,
        step == StartStep::Restore && succeeded ==> r == StartStep::WatchRestored,
{
}

/// A restore that succeeds makes the first process running. No other step changes the container.
pub proof fn only_a_restore_changes_the_container(
    container: &mut Container,
    process: &ContainerProcess,
    step: StartStep,
    succeeded: bool,
    r: StartStep,
)
    requires
        call_ensures(Container::start_next, (container, process, step, succeeded), r),
    ensures
        step == StartStep::Restore && succeeded ==> *final(container) == (Container {
            inner: ContainerInner {
                init_process: ProcessRecord {
                    status: ProcessStatus::Running,
                    ..old(container).inner.init_process
                },
                ..old(container).inner
            },
            ..*old(container)
        }),
        !(step == StartStep::Restore && succeeded) ==> *final(container) == *old(container),
{
}

/// A step that fails makes the start fail, but for three: the look for a checkpoint, and the start
/// of a container or of an added process, which is stopped first. A stop makes the start fail
/// whatever becomes of it. A start that has ended does not go on.
pub proof fn failed_step_fails_the_start(
    container: &mut Container,
    process: &ContainerProcess,
    step: StartStep,
    succeeded: bool,
    r: StartStep,
)
    requires
        call_ensures(Container::start_next, (container, process, step, succeeded), r),
    ensures
        step is Done || step is Failed ==> r == step,
        step is StopContainer || step is StopExec ==> r == StartStep::Failed(
            StartFailure::Outside,
        ),
        !succeeded && step is StartContainer ==> r == StartStep::StopContainer,
        !succeeded && step is StartExec ==> r == StartStep::StopExec,
        !succeeded && !(step is StartContainer || step is StartExec || step is ProbeCheckpoint
            || step is Done || step is Failed) ==> r == StartStep::Failed(StartFailure::Outside),
        succeeded && r == StartStep::Failed(StartFailure::Outside) ==> step is StopContainer
            || step is StopExec || step is Failed,
{
}

/// A start that is followed with its answers begins and goes on with the same steps.
pub proof fn answered_start_takes_the_same_steps<E>(
    first_container: &Container,
    process: &ContainerProcess,
    begun: StartRun<E>,
    begun_step: StartStep,
    first: StartStep,
    container: &mut Container,
    run: StartRun<E>,
    step: StartStep,
    answer: Result<(), E>,
    next: StartRun<E>,
    next_step: StartStep,
    other: &mut Container,
    r: StartStep,
)
    requires
        call_ensures(Container::start_run::<E>, (first_container, process), begun),
        call_ensures(StartRun::<E>::step, (&begun,), begun_step),
        call_ensures(Container::start, (first_container, process), first),
        call_ensures(StartRun::<E>::step, (&run,), step),
        call_ensures(Container::start_answered::<E>, (container, process, run, answer), next),
        call_ensures(StartRun::<E>::step, (&next,), next_step),
        *old(other) == *old(container),
        call_ensures(Container::start_next, (other, process, step, answer is Ok), r),
    ensures
        begun_step == first,
        next_step == r,
        *final(container) == *final(other),
{
}

/// A start whose process could not be started fails with the error of that, whatever the stop that
/// follows answers.
pub proof fn error_of_the_start_is_returned<E>(
    container: &mut Container,
    process: &ContainerProcess,
    run: StartRun<E>,
    step: StartStep,
    error: E,
    stopping: StartRun<E>,
    later: &mut Container,
    stopped: Result<(), E>,
    failed: StartRun<E>,
    r: Option<Result<(), StartError<E>>>,
)
    requires
        call_ensures(StartRun::<E>::step, (&run,), step),
        step is StartContainer || step is StartExec,
        call_ensures(
            Container::start_answered::<E>,
            (container, process, run, Err(error)),
            stopping,
        ),
        call_ensures(
            Container::start_answered::<E>,
            (later, process, stopping, stopped),
            failed,
        ),
        call_ensures(StartRun::<E>::result, (failed,), r),
    ensures
        r == Some(Err::<(), StartError<E>>(StartError::Outside(error))),
{
}

/// A start that a step makes fail returns the error of that step. A start that has watched for the
/// exit returns success. A start that has not ended returns nothing.
pub proof fn error_of_the_failed_step_is_returned<E>(
    container: &mut Container,
    process: &ContainerProcess,
    run: StartRun<E>,
    step: StartStep,
    answer: Result<(), E>,
    next: StartRun<E>,
    next_step: StartStep,
    r: Option<Result<(), StartError<E>>>,
)
    requires
        call_ensures(StartRun::<E>::step, (&run,), step),
        call_ensures(Container::start_answered::<E>, (container, process, run, answer), next),
        call_ensures(StartRun::<E>::step, (&next,), next_step),
        call_ensures(StartRun::<E>::result, (next,), r),
    ensures
        answer matches Err(error) ==> (!(step is StartContainer || step is StartExec
            || step is ProbeCheckpoint || step is StopContainer || step is StopExec || step is Done
            || step is Failed) ==> r == Some(Err::<(), StartError<E>>(StartError::Outside(error)))),
        answer is Ok && (step is WatchRestored || step is WatchContainerPassfd || step
            is WatchContainerIo || step is WatchExecPassfd || step is WatchExecIo) ==> r == Some(
            Ok::<(), StartError<E>>(()),
        ),
        r is Some <==> next_step is Done || next_step is Failed,
        r is Some && r->0 is Ok <==> next_step is Done,
        next_step == StartStep::Failed(StartFailure::ProcessNotFound) ==> r == Some(
            Err::<(), StartError<E>>(StartError::ProcessNotFound),
        ),
{
}

/// The images of a container lie, for the guest, in its directory under `/run/kata-containers/`,
/// and for the host in the upper directory of its root filesystem.
pub proof fn images_lie_in_the_root_filesystem(
    container: &Container,
    in_guest: String,
    on_host: Option<String>,
    upperdir: Option<String>,
)
    requires
        call_ensures(Container::guest_image_path, (container,), in_guest),
        call_ensures(Container::host_image_path, (container,), on_host),
        call_ensures(Container::rootfs_upperdir, (container,), upperdir),
    ensures
        in_guest@ == "/run/kata-containers/"@ + container.container_id.container_id@
            + "/rootfs/.kata-cr"@,
        on_host is Some <==> upperdir is Some,
        on_host is Some ==> on_host->0@ == upperdir->0@ + "/.kata-cr"@,
{
    assert(upperdir.deep_view() == crate::config::upperdir_of(container.config.rootfs_mounts@));
    assert(on_host.deep_view() == container.host_images());
}

/// A start copies images from the configured checkpoint to where the host has those of the
/// container, if the checkpoint has a path and the host has a place.
pub proof fn images_are_copied_from_the_checkpoint(
    container: &Container,
    staging: Option<(String, String)>,
    on_host: Option<String>,
)
    requires
        call_ensures(Container::staging_paths, (container,), staging),
        call_ensures(Container::host_image_path, (container,), on_host),
    ensures
        staging is Some <==> {
            &&& container.config.checkpoint is Some
            &&& container.config.checkpoint->0@.len() > 0
            &&& on_host is Some
        },
        staging matches Some(paths) ==> {
            &&& paths.0@ == container.config.checkpoint->0@
            &&& paths.1@ == on_host->0@
        },
{
    assert(staging.deep_view() == container.staging());
    assert(on_host.deep_view() == container.host_images());
}

/// A start restores the container from where a checkpoint of the same container dumps it to, and
/// both name the container.
pub proof fn start_restores_from_where_a_checkpoint_dumps(
    container: &Container,
    restored: ImageRequest,
    dumped: ImageRequest,
    in_guest: String,
)
    requires
        call_ensures(Container::start_restore_request, (container,), restored),
        call_ensures(Container::checkpoint_request, (container,), dumped),
        call_ensures(Container::guest_image_path, (container,), in_guest),
    ensures
        restored.container_id@ == container.container_id.container_id@,
        dumped.container_id@ == container.container_id.container_id@,
        restored.image_path@ == in_guest@,
        dumped.image_path@ == in_guest@,
{
}

} // verus!
