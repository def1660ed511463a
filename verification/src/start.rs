//! How a process is started: which outside work is done, in which order, and what a failure leads
//! to.

use vstd::prelude::*;

use crate::checkpoint::ImageRequest;
use crate::config::upperdir_of;
use crate::container::Container;
use crate::process::{ContainerProcess, ProcessStatus, ProcessType};
use crate::text::join;

verus! {

/// Where the guest keeps the directories of its containers.
pub const GUEST_CONTAINERS: &'static str = "/run/kata-containers/";

/// The images of a checkpoint, seen from the directory of a container in the guest.
pub const GUEST_IMAGES: &'static str = "/rootfs/.kata-cr";

/// The images of a checkpoint, seen from the root filesystem of a container.
pub const ROOTFS_IMAGES: &'static str = "/.kata-cr";

/// Why a start failed.
#[derive(Clone, Copy, Debug, PartialEq, Eq, Structural)]
pub enum StartFailure {
    /// Outside work failed; `StartRun` keeps its error.
    Outside,
    /// The container does not know the process.
    ProcessNotFound,
}

/// The outside work that a start is waiting for.
#[derive(Clone, Copy, Debug, PartialEq, Eq, Structural)]
pub enum StartStep {
    /// Look whether the configured checkpoint exists on the host; success says that it does.
    ProbeCheckpoint,
    /// Create the directory that the images of the checkpoint are copied to.
    CreateStagingDir,
    /// Copy the images of the checkpoint there.
    StageImages,
    /// Have the agent restore the container from the images.
    Restore,
    /// Watch for the exit of the restored process.
    WatchRestored,
    /// Have the agent start the container.
    StartContainer,
    /// Stop the container that could not be started. Whether this succeeds makes no difference.
    StopContainer,
    /// Watch for the exit of the container, whose streams were handed over.
    WatchContainerPassfd,
    /// Open the streams of the container.
    OpenContainerIo,
    /// Copy the streams of the container and watch for its exit.
    WatchContainerIo,
    /// Hand over the streams of the added process.
    InitExecPassfd,
    /// Have the agent start the added process.
    StartExec,
    /// Stop the added process that could not be started. Whether this succeeds makes no
    /// difference.
    StopExec,
    /// Have the agent resize the window of the added process.
    ResizeExec { height: u32, width: u32 },
    /// Watch for the exit of the added process, whose streams were handed over.
    WatchExecPassfd,
    /// Open the streams of the added process.
    OpenExecIo,
    /// Copy the streams of the added process and watch for its exit.
    WatchExecIo,
    /// The process was started.
    Done,
    /// The process was not started.
    Failed(StartFailure),
}

/// Whether the error of a step is why a start fails.
///
/// The error of a stop is not: the process is stopped because it could not be started. Nor does it
/// count that no checkpoint was found, or what comes after the end.
pub open spec fn reports_error(step: StartStep) -> bool {
    match step {
        StartStep::ProbeCheckpoint => false,
        StartStep::StopContainer => false,
        StartStep::StopExec => false,
        StartStep::Done => false,
        StartStep::Failed(_) => false,
        _ => true,
    }
}

/// Why a start fails, as far as is known after a step: `before` as far as was known before it.
pub open spec fn error_after<E>(step: StartStep, before: Option<E>, answer: Result<(), E>) -> Option<
    E,
> {
    match answer {
        Ok(_) => before,
        Err(error) => if reports_error(step) {
            Some(error)
        } else {
            before
        },
    }
}

/// Why a start failed, with the error of the outside work.
pub enum StartError<E> {
    /// Outside work failed with this error.
    Outside(E),
    /// The container does not know the process.
    ProcessNotFound,
}

/// A start under way: the step it is at, and the error of the work that has failed.
pub struct StartRun<E> {
    step: StartStep,
    error: Option<E>,
}

impl<E> StartRun<E> {
    /// Whatever has failed, its error is known.
    #[verifier::type_invariant]
    spec fn error_known(self) -> bool {
        self.step is StopContainer || self.step is StopExec || self.step == StartStep::Failed(
            StartFailure::Outside,
        ) ==> self.error is Some
    }

    /// The step that the start is at.
    pub closed spec fn at(self) -> StartStep {
        self.step
    }

    /// Why the start fails, as far as is known.
    pub closed spec fn known_error(self) -> Option<E> {
        self.error
    }

    /// The step that the start is at.
    pub fn step(&self) -> (r: StartStep)
        ensures
            r == self.at(),
    {
        self.step
    }

    /// The result of a start that has ended.
    pub fn result(self) -> (r: Option<Result<(), StartError<E>>>)
        ensures
            match self.at() {
                StartStep::Done => r == Some(Ok::<(), StartError<E>>(())),
                StartStep::Failed(StartFailure::ProcessNotFound) => r == Some(
                    Err::<(), StartError<E>>(StartError::ProcessNotFound),
                ),
                StartStep::Failed(StartFailure::Outside) => {
                    &&& self.known_error() matches Some(error)
                    &&& r == Some(Err::<(), StartError<E>>(StartError::Outside(error)))
                },
                _ => r is None,
            },
    {
        proof {
            use_type_invariant(&self);
        }
        match self.step {
            StartStep::Done => Some(Ok(())),
            StartStep::Failed(StartFailure::ProcessNotFound) => Some(
                Err(StartError::ProcessNotFound),
            ),
            StartStep::Failed(StartFailure::Outside) => match self.error {
                Some(error) => Some(Err(StartError::Outside(error))),
                None => None,
            },
            _ => None,
        }
    }
}

impl Container {
    /// Begins a start.
    pub fn start_run<E>(&self, process: &ContainerProcess) -> (r: StartRun<E>)
        ensures
            r.at() == self.first_start_step(*process),
            r.known_error() is None,
    {
        StartRun { step: self.start(process), error: None }
    }

    /// What follows when the outside work that a start is waiting for has come to an end: the next
    /// step, with the error that counts.
    pub fn start_answered<E>(
        &mut self,
        process: &ContainerProcess,
        run: StartRun<E>,
        answer: Result<(), E>,
    ) -> (r: StartRun<E>)
        ensures
            r.at() == old(self).start_step_after(*process, run.at(), answer is Ok),
            r.known_error() == error_after(run.at(), run.known_error(), answer),
            *final(self) == (if run.at() == StartStep::Restore && answer is Ok {
                old(self).with_status(ProcessStatus::Running)
            } else {
                *old(self)
            }),
    {
        proof {
            use_type_invariant(&run);
        }
        let step = run.step;
        let counts = match step {
            StartStep::ProbeCheckpoint => false,
            StartStep::StopContainer => false,
            StartStep::StopExec => false,
            StartStep::Done => false,
            StartStep::Failed(_) => false,
            _ => true,
        };
        match answer {
            Ok(_) => StartRun { step: self.start_next(process, step, true), error: run.error },
            Err(error) => {
                let next = self.start_next(process, step, false);
                if counts {
                    StartRun { step: next, error: Some(error) }
                } else {
                    StartRun { step: next, error: run.error }
                }
            },
        }
    }

    /// Where the guest finds the images of a checkpoint of this container.
    pub open spec fn guest_images(self) -> Seq<char> {
        GUEST_CONTAINERS@ + self.container_id.container_id@ + GUEST_IMAGES@
    }

    /// Where the guest finds the images of a checkpoint of this container.
    pub fn guest_image_path(&self) -> (r: String)
        ensures
            r@ == self.guest_images(),
    {
        let r = join(GUEST_CONTAINERS, self.container_id.container_id.as_str());
        join(r.as_str(), GUEST_IMAGES)
    }

    /// Where the host finds the images of a checkpoint of this container.
    pub open spec fn host_images(self) -> Option<Seq<char>> {
        match upperdir_of(self.config.rootfs_mounts@) {
            Some(upper) => Some(upper + ROOTFS_IMAGES@),
            None => None,
        }
    }

    /// Where the host finds the images of a checkpoint of this container, if its root filesystem
    /// has an upper directory.
    pub fn host_image_path(&self) -> (r: Option<String>)
        ensures
            r.deep_view() == self.host_images(),
    {
        match self.rootfs_upperdir() {
            Some(upper) => Some(join(upper.as_str(), ROOTFS_IMAGES)),
            None => None,
        }
    }

    /// Where a start that stages images takes them from and puts them.
    pub open spec fn staging(self) -> Option<(Seq<char>, Seq<char>)> {
        match (self.config.checkpoint, self.host_images()) {
            (Some(checkpoint), Some(place)) => if checkpoint@.len() > 0 {
                Some((checkpoint@, place))
            } else {
                None
            },
            _ => None,
        }
    }

    /// Where a start that stages images takes them from and puts them: from the configured
    /// checkpoint to where the guest sees them.
    pub fn staging_paths(&self) -> (r: Option<(String, String)>)
        ensures
            r.deep_view() == self.staging(),
    {
        match (&self.config.checkpoint, self.host_image_path()) {
            (Some(checkpoint), Some(place)) => if checkpoint.as_str().is_empty() {
                None
            } else {
                Some((checkpoint.clone(), place))
            },
            _ => None,
        }
    }

    /// The request that has the agent restore the container when it is started: from where its
    /// checkpoints are dumped to.
    pub fn start_restore_request(&self) -> (r: ImageRequest)
        ensures
            r.container_id@ == self.container_id.container_id@,
            r.image_path@ == self.guest_images(),
    {
        let image_path = self.guest_image_path();
        self.restore(image_path.as_str())
    }

    /// The start of `process` is a restore.
    pub open spec fn restores(self, process: ContainerProcess) -> bool {
        process.process_type == ProcessType::Container && self.config.checkpoint is Some
    }

    /// `found` where the container knows the process.
    pub open spec fn if_known(self, process: ContainerProcess, found: StartStep) -> StartStep {
        match self.inner.exec_of(process.exec_id@) {
            Some(_) => found,
            None => StartStep::Failed(StartFailure::ProcessNotFound),
        }
    }

    /// What a start begins with.
    pub open spec fn first_start_step(self, process: ContainerProcess) -> StartStep {
        if self.restores(process) {
            if self.config.checkpoint->0@.len() > 0 {
                StartStep::ProbeCheckpoint
            } else {
                StartStep::Restore
            }
        } else {
            match process.process_type {
                ProcessType::Container => StartStep::StartContainer,
                ProcessType::Exec => if self.passfd_listener_addr is Some {
                    self.if_known(process, StartStep::InitExecPassfd)
                } else {
                    StartStep::StartExec
                },
            }
        }
    }

    /// How the streams of an added process that runs are taken care of.
    pub open spec fn exec_streams_step(self, process: ContainerProcess) -> StartStep {
        if self.passfd_listener_addr is Some {
            self.if_known(process, StartStep::WatchExecPassfd)
        } else {
            StartStep::OpenExecIo
        }
    }

    /// What follows a step that succeeded.
    pub open spec fn start_step_after_success(
        self,
        process: ContainerProcess,
        step: StartStep,
    ) -> StartStep {
        match step {
            StartStep::ProbeCheckpoint => if self.host_images() is Some {
                StartStep::CreateStagingDir
            } else {
                StartStep::Restore
            },
            StartStep::CreateStagingDir => StartStep::StageImages,
            StartStep::StageImages => StartStep::Restore,
            StartStep::Restore => StartStep::WatchRestored,
            StartStep::WatchRestored => StartStep::Done,
            StartStep::StartContainer => if self.passfd_listener_addr is Some {
                StartStep::WatchContainerPassfd
            } else {
                StartStep::OpenContainerIo
            },
            StartStep::StopContainer => StartStep::Failed(StartFailure::Outside),
            StartStep::WatchContainerPassfd => StartStep::Done,
            StartStep::OpenContainerIo => StartStep::WatchContainerIo,
            StartStep::WatchContainerIo => StartStep::Done,
            StartStep::InitExecPassfd => StartStep::StartExec,
            StartStep::StartExec => match self.inner.exec_of(process.exec_id@) {
                Some(exec) => if exec.process.height != 0 && exec.process.width != 0 {
                    StartStep::ResizeExec {
                        height: exec.process.height,
                        width: exec.process.width,
                    }
                } else {
                    self.exec_streams_step(process)
                },
                None => StartStep::Failed(StartFailure::ProcessNotFound),
            },
            StartStep::StopExec => StartStep::Failed(StartFailure::Outside),
            StartStep::ResizeExec { .. } => self.exec_streams_step(process),
            StartStep::WatchExecPassfd => StartStep::Done,
            StartStep::OpenExecIo => self.if_known(process, StartStep::WatchExecIo),
            StartStep::WatchExecIo => StartStep::Done,
            StartStep::Done => StartStep::Done,
            StartStep::Failed(failure) => StartStep::Failed(failure),
        }
    }

    /// What follows a step that failed.
    pub open spec fn start_step_after_failure(step: StartStep) -> StartStep {
        match step {
            StartStep::ProbeCheckpoint => StartStep::Restore,
            StartStep::StartContainer => StartStep::StopContainer,
            StartStep::StartExec => StartStep::StopExec,
            StartStep::Done => StartStep::Done,
            StartStep::Failed(failure) => StartStep::Failed(failure),
            _ => StartStep::Failed(StartFailure::Outside),
        }
    }

    /// What follows a step.
    pub open spec fn start_step_after(
        self,
        process: ContainerProcess,
        step: StartStep,
        succeeded: bool,
    ) -> StartStep {
        if succeeded {
            self.start_step_after_success(process, step)
        } else {
            Container::start_step_after_failure(step)
        }
    }

    fn find_known(&self, process: &ContainerProcess, found: StartStep) -> (r: StartStep)
        ensures
            r == self.if_known(*process, found),
    {
        if self.inner.exec_processes.contains_key(process.exec_id.as_str()) {
            found
        } else {
            StartStep::Failed(StartFailure::ProcessNotFound)
        }
    }

    fn exec_streams(&self, process: &ContainerProcess) -> (r: StartStep)
        ensures
            r == self.exec_streams_step(*process),
    {
        if self.passfd_listener_addr.is_some() {
            self.find_known(process, StartStep::WatchExecPassfd)
        } else {
            StartStep::OpenExecIo
        }
    }

    /// What a start begins with.
    ///
    /// A container that is configured with a checkpoint is restored from it; its images are first
    /// copied to where the guest sees them, if they lie on the host.
    pub fn start(&self, process: &ContainerProcess) -> (r: StartStep)
        ensures
            r == self.first_start_step(*process),
    {
        match process.process_type {
            ProcessType::Container => match &self.config.checkpoint {
                Some(checkpoint) => if checkpoint.as_str().is_empty() {
                    StartStep::Restore
                } else {
                    StartStep::ProbeCheckpoint
                },
                None => StartStep::StartContainer,
            },
            ProcessType::Exec => if self.passfd_listener_addr.is_some() {
                self.find_known(process, StartStep::InitExecPassfd)
            } else {
                StartStep::StartExec
            },
        }
    }

    /// What follows a step of a start. A container that was restored runs.
    pub fn start_next(
        &mut self,
        process: &ContainerProcess,
        step: StartStep,
        succeeded: bool,
    ) -> (r: StartStep)
        ensures
            r == old(self).start_step_after(*process, step, succeeded),
            *final(self) == (if step == StartStep::Restore && succeeded {
                old(self).with_status(ProcessStatus::Running)
            } else {
                *old(self)
            }),
    {
        if !succeeded {
            return match step {
                StartStep::ProbeCheckpoint => StartStep::Restore,
                StartStep::StartContainer => StartStep::StopContainer,
                StartStep::StartExec => StartStep::StopExec,
                StartStep::Done => StartStep::Done,
                StartStep::Failed(failure) => StartStep::Failed(failure),
                _ => StartStep::Failed(StartFailure::Outside),
            };
        }
        match step {
            StartStep::ProbeCheckpoint => if self.rootfs_upperdir().is_some() {
                StartStep::CreateStagingDir
            } else {
                StartStep::Restore
            },
            StartStep::CreateStagingDir => StartStep::StageImages,
            StartStep::StageImages => StartStep::Restore,
            StartStep::Restore => {
                self.set_state(ProcessStatus::Running);
                StartStep::WatchRestored
            },
            StartStep::WatchRestored => StartStep::Done,
            StartStep::StartContainer => if self.passfd_listener_addr.is_some() {
                StartStep::WatchContainerPassfd
            } else {
                StartStep::OpenContainerIo
            },
            StartStep::StopContainer => StartStep::Failed(StartFailure::Outside),
            StartStep::WatchContainerPassfd => StartStep::Done,
            StartStep::OpenContainerIo => StartStep::WatchContainerIo,
            StartStep::WatchContainerIo => StartStep::Done,
            StartStep::InitExecPassfd => StartStep::StartExec,
            StartStep::StartExec => match self.inner.exec_processes.get(process.exec_id.as_str()) {
                Some(exec) => {
                    let height = exec.process.height;
                    let width = exec.process.width;
                    if height != 0 && width != 0 {
                        StartStep::ResizeExec { height, width }
                    } else {
                        self.exec_streams(process)
                    }
                },
                None => StartStep::Failed(StartFailure::ProcessNotFound),
            },
            StartStep::StopExec => StartStep::Failed(StartFailure::Outside),
            StartStep::ResizeExec { .. } => self.exec_streams(process),
            StartStep::WatchExecPassfd => StartStep::Done,
            StartStep::OpenExecIo => self.find_known(process, StartStep::WatchExecIo),
            StartStep::WatchExecIo => StartStep::Done,
            StartStep::Done => StartStep::Done,
            StartStep::Failed(failure) => StartStep::Failed(failure),
        }
    }
}

/// A start is over.
pub open spec fn start_ended(step: StartStep) -> bool {
    step is Done || step is Failed
}

/// A bound on the steps that a start still takes.
pub open spec fn start_steps_left(step: StartStep) -> nat {
    match step {
        StartStep::ProbeCheckpoint => 5,
        StartStep::CreateStagingDir => 4,
        StartStep::StageImages => 3,
        StartStep::Restore => 2,
        StartStep::WatchRestored => 1,
        StartStep::StartContainer => 3,
        StartStep::StopContainer => 1,
        StartStep::WatchContainerPassfd => 1,
        StartStep::OpenContainerIo => 2,
        StartStep::WatchContainerIo => 1,
        StartStep::InitExecPassfd => 5,
        StartStep::StartExec => 4,
        StartStep::StopExec => 1,
        StartStep::ResizeExec { .. } => 3,
        StartStep::WatchExecPassfd => 1,
        StartStep::OpenExecIo => 2,
        StartStep::WatchExecIo => 1,
        StartStep::Done => 0,
        StartStep::Failed(_) => 0,
    }
}

/// Every start ends: it takes at most five steps, whatever becomes of each and whatever happens to
/// the container in between.
pub proof fn start_ends(container: Container, process: ContainerProcess, step: StartStep, succeeded: bool)
    ensures
        start_steps_left(container.first_start_step(process)) <= 5,
        start_ended(step) <==> start_steps_left(step) == 0,
        !start_ended(step) ==> start_steps_left(
            container.start_step_after(process, step, succeeded),
        ) < start_steps_left(step),
        start_ended(step) ==> container.start_step_after(process, step, succeeded) == step,
{
}

/// A step of a restore.
pub open spec fn is_restore_step(step: StartStep) -> bool {
    ||| step is ProbeCheckpoint
    ||| step is CreateStagingDir
    ||| step is StageImages
    ||| step is Restore
    ||| step is WatchRestored
}

/// A container that is configured with a checkpoint is restored and never started afresh; nothing
/// else is ever restored. A restore ends with the container running or not at all.
pub proof fn checkpoint_is_restored(
    container: Container,
    process: ContainerProcess,
    step: StartStep,
    succeeded: bool,
)
    ensures
        container.restores(process) <==> is_restore_step(container.first_start_step(process)),
        is_restore_step(step) ==> ({
            let next = container.start_step_after(process, step, succeeded);
            is_restore_step(next) || start_ended(next)
        }),
        !is_restore_step(step) ==> !is_restore_step(
            container.start_step_after(process, step, succeeded),
        ),
        is_restore_step(step) && container.start_step_after(process, step, succeeded) is Done
            ==> step is WatchRestored && succeeded,
        container.start_step_after(process, step, succeeded) is WatchRestored ==> step is Restore
            && succeeded,
{
}

/// Images are staged only where a start knows both where they are and where they go.
pub proof fn staging_has_its_paths(
    container: Container,
    process: ContainerProcess,
    step: StartStep,
    succeeded: bool,
)
    requires
        container.restores(process),
        step == container.first_start_step(process),
        ({
            let next = container.start_step_after(process, step, succeeded);
            next is CreateStagingDir
        }),
    ensures
        container.staging() is Some,
{
}

/// A process that the agent could not start is stopped, and the start fails, whether or not the
/// stop succeeds.
pub proof fn failed_start_stops(container: Container, later: Container, process: ContainerProcess, stopped: bool)
    ensures
        container.start_step_after(process, StartStep::StartContainer, false)
            == StartStep::StopContainer,
        container.start_step_after(process, StartStep::StartExec, false) == StartStep::StopExec,
        later.start_step_after(process, StartStep::StopContainer, stopped) == StartStep::Failed(
            StartFailure::Outside,
        ),
        later.start_step_after(process, StartStep::StopExec, stopped) == StartStep::Failed(
            StartFailure::Outside,
        ),
{
}

/// A start that fails because the process could not be started fails with the error of that work:
/// whatever the stop answers, its error is not the one that is reported.
pub proof fn failed_start_reports_its_own_error<E>(
    container: Container,
    later: Container,
    process: ContainerProcess,
    step: StartStep,
    before: Option<E>,
    error: E,
    stopped: Result<(), E>,
)
    requires
        step is StartContainer || step is StartExec,
    ensures
        ({
            let stop = container.start_step_after(process, step, false);
            let known = error_after(step, before, Err(error));
            &&& stop is StopContainer || stop is StopExec
            &&& known == Some(error)
            &&& later.start_step_after(process, stop, stopped is Ok) == StartStep::Failed(
                StartFailure::Outside,
            )
            &&& error_after(stop, known, stopped) == Some(error)
        }),
{
}

/// Every other start that fails for outside work fails with the error of the step before the end.
pub proof fn failed_step_reports_its_own_error<E>(
    container: Container,
    process: ContainerProcess,
    step: StartStep,
    before: Option<E>,
    answer: Result<(), E>,
)
    requires
        !start_ended(step),
        !(step is StopContainer || step is StopExec),
        container.start_step_after(process, step, answer is Ok) == StartStep::Failed(
            StartFailure::Outside,
        ),
    ensures
        answer matches Err(error) && error_after(step, before, answer) == Some(error),
{
}

/// A step that opens or copies streams.
pub open spec fn is_stream_step(step: StartStep) -> bool {
    ||| step is OpenContainerIo
    ||| step is WatchContainerIo
    ||| step is OpenExecIo
    ||| step is WatchExecIo
}

/// A step that only occurs where streams are handed over.
pub open spec fn is_passfd_step(step: StartStep) -> bool {
    ||| step is WatchContainerPassfd
    ||| step is InitExecPassfd
    ||| step is WatchExecPassfd
}

/// Where streams are handed over none is opened, and where they are not, none is handed over.
pub proof fn streams_are_handled_one_way(
    container: Container,
    process: ContainerProcess,
    step: StartStep,
    succeeded: bool,
)
    ensures
        container.passfd_listener_addr is Some ==> !is_stream_step(
            container.first_start_step(process),
        ) && (!is_stream_step(step) ==> !is_stream_step(
            container.start_step_after(process, step, succeeded),
        )),
        container.passfd_listener_addr is None ==> !is_passfd_step(
            container.first_start_step(process),
        ) && (!is_passfd_step(step) ==> !is_passfd_step(
            container.start_step_after(process, step, succeeded),
        )),
{
}

/// A window size that is asked for before the process starts is applied by the start.
pub proof fn early_resize_is_applied(
    before: Container,
    after: Container,
    process: ContainerProcess,
    width: u32,
    height: u32,
)
    requires
        before.inner.init_process.status == ProcessStatus::Running,
        process.exec_id@.len() > 0,
        before.inner.exec_of(process.exec_id@) is Some,
        width != 0,
        height != 0,
        before.resized(process.exec_id@, width, height, after),
    ensures
        after.start_step_after(process, StartStep::StartExec, true) == (StartStep::ResizeExec {
            height,
            width,
        }),
{
}

/// A start resizes the window of an added process if and only if the process has a size with a
/// height and a width, and then to that size.
pub proof fn start_resizes_to_the_size_asked_for(container: Container, process: ContainerProcess)
    ensures
        match container.start_step_after(process, StartStep::StartExec, true) {
            StartStep::ResizeExec { height, width } => {
                &&& container.inner.exec_of(process.exec_id@) matches Some(exec)
                &&& height == exec.process.height && height != 0
                &&& width == exec.process.width && width != 0
            },
            _ => container.inner.exec_of(process.exec_id@) matches Some(exec)
                ==> exec.process.height == 0 || exec.process.width == 0,
        },
{
}

/// A size without a height or without a width that is asked for before the process starts leads to
/// no resize.
pub proof fn zero_size_leads_to_no_resize(
    before: Container,
    after: Container,
    process: ContainerProcess,
    width: u32,
    height: u32,
)
    requires
        before.inner.init_process.status == ProcessStatus::Running,
        process.exec_id@.len() > 0,
        width == 0 || height == 0,
        before.resized(process.exec_id@, width, height, after),
    ensures
        !(after.start_step_after(process, StartStep::StartExec, true) is ResizeExec),
{
}

} // verus!
