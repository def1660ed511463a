//! How a process is stopped, and what becomes of the message that a container leaves behind.

use vstd::prelude::*;

use crate::config::shared_fs_configured;
use crate::config::{has_shared_fs, TomlConfig};
use crate::container::Container;
use crate::oci::items_of;
use crate::oci::{Mount, OciSpec};
use crate::path::same_path_spec;
use crate::path::{same_path, FsPath};
use crate::process::{ContainerProcess, ProcessType};
use crate::text::str_eq;

verus! {

/// The annotation that says how a container leaves its termination message.
pub const TERMINATION_POLICY: &'static str = "io.kubernetes.container.terminationMessagePolicy";

/// The annotation that says where a container leaves its termination message.
pub const TERMINATION_PATH: &'static str = "io.kubernetes.container.terminationMessagePath";

/// The policy of a container that leaves its termination message in a file.
pub const POLICY_FILE: &'static str = "File";

/// What the agent calls the termination message.
pub const TERMINATION_LOG: &'static str = "termination_log";

/// The outside work that a stop is waiting for.
#[derive(Clone, Copy, Debug, PartialEq, Eq, Structural)]
pub enum StopStep {
    /// Bring the termination message of the container to the host. Whether this succeeds makes no
    /// difference.
    CopyTerminationLog,
    /// Stop the process.
    StopProcess,
    /// Give back the resources of the container, as `limits_to_give_back` tells them.
    ReleaseResources,
    /// The process was stopped.
    Done,
    /// Outside work failed: the step before this one.
    Failed,
}

/// Where the termination message of a container goes.
pub enum TerminationLog<'a> {
    /// There is nothing to copy.
    Skip,
    /// The host does not mount a file for the message.
    NoHostMount,
    /// The message is fetched from the guest and written to a file of the host.
    Fetch { host_path: &'a FsPath },
}

/// The request to the agent for a piece of diagnostic data.
pub struct GetDiagnosticDataRequest {
    pub log_type: String,
    pub container_id: String,
}

/// What a stop of `process` begins with.
pub open spec fn first_stop_step(process: ContainerProcess) -> StopStep {
    match process.process_type {
        ProcessType::Container => StopStep::CopyTerminationLog,
        ProcessType::Exec => StopStep::StopProcess,
    }
}

/// What follows a step of a stop of `process`.
pub open spec fn stop_step_after(process: ContainerProcess, step: StopStep, succeeded: bool) -> StopStep {
    match step {
        StopStep::CopyTerminationLog => StopStep::StopProcess,
        StopStep::StopProcess => if !succeeded {
            StopStep::Failed
        } else if process.process_type == ProcessType::Container {
            StopStep::ReleaseResources
        } else {
            StopStep::Done
        },
        StopStep::ReleaseResources => if succeeded {
            StopStep::Done
        } else {
            StopStep::Failed
        },
        StopStep::Done => StopStep::Done,
        StopStep::Failed => StopStep::Failed,
    }
}

/// The value of an annotation.
pub open spec fn annotation(spec: OciSpec, key: Seq<char>) -> Option<Seq<char>> {
    match spec.annotations {
        Some(annotations) => if annotations@.contains_key(key) {
            Some(annotations@[key]@)
        } else {
            None
        },
        None => None,
    }
}

/// Where in the container the message is that has to be copied, if one has.
///
/// Where host and guest share a filesystem the host reads the file itself.
pub open spec fn termination_path(config: TomlConfig, spec: OciSpec) -> Option<Seq<char>> {
    if shared_fs_configured(config) || annotation(spec, TERMINATION_POLICY@) != Some(POLICY_FILE@) {
        None
    } else {
        match annotation(spec, TERMINATION_PATH@) {
            Some(path) => if path.len() > 0 {
                Some(path)
            } else {
                None
            },
            None => None,
        }
    }
}

/// The mount ends at `path` in the container.
pub open spec fn mounted_at(mount: Mount, path: Seq<char>) -> bool {
    mount.destination matches FsPath::Text(destination) && same_path_spec(destination@, path)
}

/// What the first mount that ends at `path` mounts there.
pub open spec fn mount_source(mounts: Seq<Mount>, path: Seq<char>) -> Option<FsPath>
    decreases mounts.len(),
{
    if mounts.len() == 0 {
        None
    } else if mounted_at(mounts[0], path) {
        mounts[0].source
    } else {
        mount_source(mounts.drop_first(), path)
    }
}

fn find_annotation<'a>(spec: &'a OciSpec, key: &str) -> (r: Option<&'a String>)
    ensures
        r is Some <==> annotation(*spec, key@) is Some,
        r matches Some(value) ==> annotation(*spec, key@) == Some(value@),
{
    match &spec.annotations {
        Some(annotations) => annotations.get(key),
        None => None,
    }
}

fn find_mount_source<'a>(mounts: &'a Vec<Mount>, path: &str) -> (r: Option<&'a FsPath>)
    ensures
        r == (match mount_source(mounts@, path@) {
            Some(source) => Some(&source),
            None => None,
        }),
{
    let mut i: usize = 0;
    assert(mounts@.skip(0) =~= mounts@);
    while i < mounts.len()
        invariant
            i <= mounts@.len(),
            mount_source(mounts@, path@) == mount_source(mounts@.skip(i as int), path@),
        decreases mounts@.len() - i,
    {
        assert(mounts@.skip(i as int)[0] == mounts@[i as int]);
        let found = match &mounts[i].destination {
            FsPath::Text(destination) => same_path(destination.as_str(), path),
            FsPath::Raw(_) => false,
        };
        if found {
            return mounts[i].source.as_ref();
        }
        assert(mounts@.skip(i as int).drop_first() =~= mounts@.skip(i + 1));
        i = i + 1;
    }
    None
}

/// The message to write to the host, out of the agent's answer: an empty one is not written.
pub fn termination_message<E>(answer: Result<String, E>) -> (r: Option<String>)
    ensures
        r == (match answer {
            Ok(data) => if data@.len() > 0 {
                Some(data)
            } else {
                None
            },
            Err(_) => None,
        }),
{
    match answer {
        Ok(data) => if data.as_str().is_empty() {
            None
        } else {
            Some(data)
        },
        Err(_) => None,
    }
}

impl Container {
    /// What a stop begins with: the message of a container is saved before the container goes.
    pub fn stop_process(&self, container_process: &ContainerProcess) -> (r: StopStep)
        ensures
            r == first_stop_step(*container_process),
    {
        match container_process.process_type {
            ProcessType::Container => StopStep::CopyTerminationLog,
            ProcessType::Exec => StopStep::StopProcess,
        }
    }

    /// What follows a step of a stop.
    pub fn stop_next(
        &self,
        container_process: &ContainerProcess,
        step: StopStep,
        succeeded: bool,
    ) -> (r: StopStep)
        ensures
            r == stop_step_after(*container_process, step, succeeded),
    {
        match step {
            StopStep::CopyTerminationLog => StopStep::StopProcess,
            StopStep::StopProcess => if !succeeded {
                StopStep::Failed
            } else {
                match container_process.process_type {
                    ProcessType::Container => StopStep::ReleaseResources,
                    ProcessType::Exec => StopStep::Done,
                }
            },
            StopStep::ReleaseResources => if succeeded {
                StopStep::Done
            } else {
                StopStep::Failed
            },
            StopStep::Done => StopStep::Done,
            StopStep::Failed => StopStep::Failed,
        }
    }

    /// Where the termination message of the container goes.
    ///
    /// The message is copied where host and guest share no filesystem, the container leaves it in
    /// a file, and the specification mounts a file of the host there.
    pub fn copy_termination_log(&self, toml_config: &TomlConfig) -> (r: TerminationLog<'_>)
        ensures
            match termination_path(*toml_config, self.spec) {
                None => r is Skip,
                Some(path) => match mount_source(items_of(self.spec.mounts), path) {
                    Some(source) => r == (TerminationLog::Fetch { host_path: &source }),
                    None => r is NoHostMount,
                },
            },
    {
        if has_shared_fs(toml_config) {
            return TerminationLog::Skip;
        }
        match find_annotation(&self.spec, TERMINATION_POLICY) {
            Some(policy) => if !str_eq(policy.as_str(), POLICY_FILE) {
                return TerminationLog::Skip;
            },
            None => return TerminationLog::Skip,
        }
        let path = match find_annotation(&self.spec, TERMINATION_PATH) {
            Some(path) => if path.as_str().is_empty() {
                return TerminationLog::Skip;
            } else {
                path
            },
            None => return TerminationLog::Skip,
        };
        match &self.spec.mounts {
            Some(mounts) => match find_mount_source(mounts, path.as_str()) {
                Some(host_path) => TerminationLog::Fetch { host_path },
                None => TerminationLog::NoHostMount,
            },
            None => TerminationLog::NoHostMount,
        }
    }

    /// The request that fetches the termination message of the container.
    pub fn termination_log_request(&self) -> (r: GetDiagnosticDataRequest)
        ensures
            r.log_type@ == TERMINATION_LOG@,
            r.container_id@ == self.container_id.container_id@,
    {
        GetDiagnosticDataRequest {
            log_type: TERMINATION_LOG.to_owned(),
            container_id: self.container_id.container_id.clone(),
        }
    }
}

/// A stop is over.
pub open spec fn stop_ended(step: StopStep) -> bool {
    step is Done || step is Failed
}

/// A bound on the steps that a stop still takes.
pub open spec fn stop_steps_left(step: StopStep) -> nat {
    match step {
        StopStep::CopyTerminationLog => 3,
        StopStep::StopProcess => 2,
        StopStep::ReleaseResources => 1,
        StopStep::Done => 0,
        StopStep::Failed => 0,
    }
}

/// Every stop ends: it takes at most three steps, whatever becomes of each.
pub proof fn stop_ends(process: ContainerProcess, step: StopStep, succeeded: bool)
    ensures
        stop_steps_left(first_stop_step(process)) <= 3,
        stop_ended(step) <==> stop_steps_left(step) == 0,
        !stop_ended(step) ==> stop_steps_left(stop_step_after(process, step, succeeded))
            < stop_steps_left(step),
        stop_ended(step) ==> stop_step_after(process, step, succeeded) == step,
{
}

/// Resources are given back after a container was stopped, never after an added process was, and a
/// container counts as stopped only when they are.
pub proof fn only_containers_release_resources(
    process: ContainerProcess,
    step: StopStep,
    succeeded: bool,
)
    ensures
        !(first_stop_step(process) is ReleaseResources),
        stop_step_after(process, step, succeeded) is ReleaseResources ==> {
            &&& process.process_type == ProcessType::Container
            &&& step is StopProcess
            &&& succeeded
        },
        process.process_type == ProcessType::Container && !(step is Done) && stop_step_after(
            process,
            step,
            succeeded,
        ) is Done ==> step is ReleaseResources && succeeded,
{
}

/// A stop that fails has just failed to stop the process or to give back its resources; that a
/// termination message could not be copied makes none fail.
pub proof fn stop_fails_with_its_work(process: ContainerProcess, step: StopStep, succeeded: bool)
    requires
        !stop_ended(step),
        stop_step_after(process, step, succeeded) is Failed,
    ensures
        !succeeded,
        step is StopProcess || step is ReleaseResources,
{
}

/// Where host and guest share a filesystem no termination message is copied.
pub proof fn shared_fs_needs_no_copy(config: TomlConfig, spec: OciSpec)
    requires
        shared_fs_configured(config),
    ensures
        termination_path(config, spec) is None,
{
}

/// The `i`-th mount is the first that ends at `path`.
pub open spec fn first_mounted(mounts: Seq<Mount>, path: Seq<char>, i: int) -> bool {
    &&& 0 <= i < mounts.len()
    &&& mounted_at(mounts[i], path)
    &&& forall|k: int| 0 <= k < i ==> !mounted_at(#[trigger] mounts[k], path)
}

/// The file of the host is the source of the first mount that ends at the path.
pub proof fn first_mount_gives_the_source(mounts: Seq<Mount>, path: Seq<char>, i: int)
    requires
        first_mounted(mounts, path, i),
    ensures
        mount_source(mounts, path) == mounts[i].source,
    decreases mounts.len(),
{
    if i > 0 {
        let rest = mounts.drop_first();
        assert(!mounted_at(mounts[0], path));
        assert forall|k: int| 0 <= k < i - 1 implies !mounted_at(#[trigger] rest[k], path) by {
            assert(rest[k] == mounts[k + 1]);
        }
        first_mount_gives_the_source(rest, path, i - 1);
    }
}

/// Where no mount ends at the path there is no file of the host.
pub proof fn no_mount_gives_no_source(mounts: Seq<Mount>, path: Seq<char>)
    requires
        forall|i: int| 0 <= i < mounts.len() ==> !mounted_at(#[trigger] mounts[i], path),
    ensures
        mount_source(mounts, path) is None,
    decreases mounts.len(),
{
    if mounts.len() > 0 {
        let rest = mounts.drop_first();
        assert forall|i: int| 0 <= i < rest.len() implies !mounted_at(#[trigger] rest[i], path) by {
            assert(rest[i] == mounts[i + 1]);
        }
        no_mount_gives_no_source(rest, path);
    }
}

} // verus!
