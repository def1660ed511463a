//! In which order the outside work of a stop is done, and where termination messages go.

use vstd::prelude::*;

use crate::config::TomlConfig;
use crate::container::Container;
use crate::path::{same_path_spec, FsPath};
use crate::process::{ContainerProcess, ProcessType};
use crate::stop::{termination_message, GetDiagnosticDataRequest, StopStep, TerminationLog};

verus! {

/// The message of a container is copied before the container is stopped; an added process is just
/// stopped.
pub proof fn message_is_copied_first(
    container: &Container,
    process: &ContainerProcess,
    r: StopStep,
)
    requires
        call_ensures(Container::stop_process, (container, process), r),
    ensures
        process.process_type == ProcessType::Container ==> r == StopStep::CopyTerminationLog,
        process.process_type == ProcessType::Exec ==> r == StopStep::StopProcess,
{
}

/// After its message, whatever became of it, a container is stopped, and then its resources are
/// given back; an added process has none to give back. A stop succeeds when the last of these
/// has, and fails when one of these fails.
pub proof fn stop_succeeds_with_its_last_step(
    container: &Container,
    process: &ContainerProcess,
    step: StopStep,
    succeeded: bool,
    r: StopStep,
)
    requires
        call_ensures(Container::stop_next, (container, process, step, succeeded), r),
    ensures
        step == StopStep::CopyTerminationLog ==> r == StopStep::StopProcess,
        r == StopStep::StopProcess ==> step == StopStep::CopyTerminationLog,
        r == StopStep::ReleaseResources <==> step == StopStep::StopProcess && succeeded
            && process.process_type == ProcessType::Container,
        r == StopStep::Done <==> {
            ||| step == StopStep::ReleaseResources && succeeded
            ||| step == StopStep::StopProcess && succeeded && process.process_type
                == ProcessType::Exec
            ||| step == StopStep::Done
        },
        r == StopStep::Failed <==> {
            ||| step == StopStep::StopProcess && !succeeded
            ||| step == StopStep::ReleaseResources && !succeeded
            ||| step == StopStep::Failed
        },
        r != StopStep::CopyTerminationLog,
{
}

/// No termination message is copied where host and guest share a filesystem, where the policy of the
/// container is not `File`, or where no path is given.
pub proof fn message_needs_policy_and_path(
    container: &Container,
    toml_config: &TomlConfig,
    r: TerminationLog,
)
    requires
        call_ensures(Container::copy_termination_log, (container, toml_config), r),
    ensures
        ({
            let name = toml_config.runtime.hypervisor_name@;
            let shared = toml_config.hypervisor@.contains_key(name)
                && toml_config.hypervisor@[name].shared_fs is Some;
            let policy = "io.kubernetes.container.terminationMessagePolicy"@;
            let path = "io.kubernetes.container.terminationMessagePath"@;
            let given = container.spec.annotations->0@;
            r is Skip <==> {
                ||| shared
                ||| container.spec.annotations is None
                ||| !given.contains_key(policy)
                ||| given[policy]@ != "File"@
                ||| !given.contains_key(path)
                ||| given[path]@.len() == 0
            }
        }),
{
}

/// A message that is copied goes to the source of the first mount that ends at its path: mount `i`
/// is the first whose destination is the same path. Where that has no source, there is no place.
pub proof fn message_goes_to_the_first_mount_there(
    container: &Container,
    toml_config: &TomlConfig,
    r: TerminationLog,
    i: int,
)
    requires
        call_ensures(Container::copy_termination_log, (container, toml_config), r),
        !(r is Skip),
        container.spec.mounts is Some,
        0 <= i < container.spec.mounts->0@.len(),
        ({
            let path = container.spec.annotations->0@[
                "io.kubernetes.container.terminationMessagePath"@
            ]@;
            let mounts = container.spec.mounts->0@;
            &&& mounts[i].destination is Text
            &&& same_path_spec(mounts[i].destination->Text_0@, path)
            &&& forall|k: int|
                0 <= k < i ==> !((#[trigger] mounts[k]).destination is Text && same_path_spec(
                    mounts[k].destination->Text_0@,
                    path,
                ))
        }),
    ensures
        container.spec.mounts->0@[i].source matches Some(source) ==> (
        r matches TerminationLog::Fetch { host_path } && *host_path == source),
        container.spec.mounts->0@[i].source is None ==> r is NoHostMount,
{
    let path = container.spec.annotations->0@["io.kubernetes.container.terminationMessagePath"@]@;
    let mounts = container.spec.mounts->0@;
    assert(crate::stop::mounted_at(mounts[i], path));
    assert forall|k: int| 0 <= k < i implies !crate::stop::mounted_at(
        #[trigger] mounts[k],
        path,
    ) by {}
    crate::stop::first_mount_gives_the_source(mounts, path, i);
}

/// A message for which no mount ends at its path has no place on the host.
pub proof fn message_without_a_mount_has_no_place(
    container: &Container,
    toml_config: &TomlConfig,
    r: TerminationLog,
)
    requires
        call_ensures(Container::copy_termination_log, (container, toml_config), r),
        !(r is Skip),
        container.spec.mounts is Some ==> forall|k: int|
            0 <= k < container.spec.mounts->0@.len() ==> !((
            #[trigger] container.spec.mounts->0@[k]).destination is Text && same_path_spec(
                container.spec.mounts->0@[k].destination->Text_0@,
                container.spec.annotations->0@[
                    "io.kubernetes.container.terminationMessagePath"@
                ]@,
            )),
    ensures
        r is NoHostMount,
{
    let path = container.spec.annotations->0@["io.kubernetes.container.terminationMessagePath"@]@;
    match container.spec.mounts {
        Some(mounts) => {
            assert forall|k: int| 0 <= k < mounts@.len() implies !crate::stop::mounted_at(
                #[trigger] mounts@[k],
                path,
            ) by {
                assert(container.spec.mounts->0@[k] == mounts@[k]);
            }
            crate::stop::no_mount_gives_no_source(mounts@, path);
        },
        None => {},
    }
}

/// The agent is asked for the termination log of the container.
pub proof fn message_is_fetched_for_the_container(
    container: &Container,
    r: GetDiagnosticDataRequest,
)
    requires
        call_ensures(Container::termination_log_request, (container,), r),
    ensures
        r.log_type@ == "termination_log"@,
        r.container_id@ == container.container_id.container_id@,
{
}

/// What the agent sent is written as it came, unless it is empty or there was an error.
pub proof fn message_is_written_as_it_came<E>(answer: Result<String, E>, r: Option<String>)
    requires
        call_ensures(termination_message::<E>, (answer,), r),
    ensures
        r is Some <==> answer is Ok && answer->Ok_0@.len() > 0,
        r is Some ==> r->0 == answer->Ok_0,
{
}

} // verus!
