//! What requests to a container read and change.

use vstd::prelude::*;

use crate::config::{
    find_rootfs_upperdir, get_disable_guest_selinux, has_shared_fs, ContainerConfig, RootfsMount,
    TomlConfig,
};
use crate::container::{
    is_termination_signal, AgentCall, Container, ContainerInner, KillAction, ResizeAction,
};
use crate::error::Error;
use crate::oci::{OciProcess, OciSpec};
use crate::process::{
    ContainerID, ContainerProcess, Exec, PassfdIo, ProcessRecord, ProcessStatus, ProcessType,
};

verus! {

/// The selected hypervisor says whether SELinux is off in the guest; where the file does not
/// describe it, SELinux is off.
pub proof fn selected_hypervisor_decides_on_selinux(toml_config: &TomlConfig, r: bool)
    requires
        call_ensures(get_disable_guest_selinux, (toml_config,), r),
    ensures
        ({
            let name = toml_config.runtime.hypervisor_name@;
            &&& toml_config.hypervisor@.contains_key(name) ==> r
                == toml_config.hypervisor@[name].disable_guest_selinux
            &&& !toml_config.hypervisor@.contains_key(name) ==> r
        }),
{
}

/// Host and guest share a filesystem if and only if the file describes the selected hypervisor with
/// one.
pub proof fn selected_hypervisor_decides_on_sharing(toml_config: &TomlConfig, r: bool)
    requires
        call_ensures(has_shared_fs, (toml_config,), r),
    ensures
        ({
            let name = toml_config.runtime.hypervisor_name@;
            r <==> toml_config.hypervisor@.contains_key(name)
                && toml_config.hypervisor@[name].shared_fs is Some
        }),
{
}

/// The upper directory is what follows `upperdir=` in the first option that begins so: in option
/// `j` of mount `i`, if no option of an earlier mount and none before it does.
pub proof fn upperdir_is_what_the_first_option_names(
    mounts: &Vec<RootfsMount>,
    r: Option<String>,
    i: int,
    j: int,
)
    requires
        call_ensures(find_rootfs_upperdir, (mounts,), r),
        0 <= i < mounts@.len(),
        0 <= j < mounts@[i].options@.len(),
        "upperdir="@.is_prefix_of(mounts@[i].options@[j]@),
        forall|k: int, l: int|
            #![trigger mounts@[k].options@[l]]
            (0 <= k < i && 0 <= l < mounts@[k].options@.len()) || (k == i && 0 <= l < j)
                ==> !"upperdir="@.is_prefix_of(mounts@[k].options@[l]@),
    ensures
        r matches Some(upper) && "upperdir="@ + upper@ == mounts@[i].options@[j]@,
{
    crate::config::first_option_names_the_upperdir(mounts@);
    assert(crate::config::names_upperdir(mounts@, i, j));
    let upper = crate::config::upperdir_of(mounts@)->0;
    let (k, l) = choose|k: int, l: int|
        {
            &&& #[trigger] crate::config::names_upperdir(mounts@, k, l)
            &&& mounts@[k].options@[l]@ == "upperdir="@ + upper
            &&& forall|m: int, n: int|
                m < k || m == k && n < l ==> !#[trigger] crate::config::names_upperdir(
                    mounts@,
                    m,
                    n,
                )
        };
    assert(k == i && l == j) by {
        if k < i || k == i && l < j {
            assert("upperdir="@.is_prefix_of(mounts@[k].options@[l]@));
        }
    }
}

/// Where no option begins with `upperdir=` there is no upper directory, and where there is one an
/// option names it.
pub proof fn no_option_names_no_upperdir(mounts: &Vec<RootfsMount>, r: Option<String>)
    requires
        call_ensures(find_rootfs_upperdir, (mounts,), r),
    ensures
        r is None <==> forall|k: int, l: int|
            #![trigger mounts@[k].options@[l]]
            0 <= k < mounts@.len() && 0 <= l < mounts@[k].options@.len()
                ==> !"upperdir="@.is_prefix_of(mounts@[k].options@[l]@),
{
    crate::config::first_option_names_the_upperdir(mounts@);
    if r is None {
        assert forall|k: int, l: int|
            #![trigger mounts@[k].options@[l]]
            0 <= k < mounts@.len() && 0 <= l
                < mounts@[k].options@.len() implies !"upperdir="@.is_prefix_of(
            mounts@[k].options@[l]@,
        ) by {
            assert(!crate::config::names_upperdir(mounts@, k, l));
        }
    } else {
        let upper = crate::config::upperdir_of(mounts@)->0;
        let (k, l) = choose|k: int, l: int|
            {
                &&& #[trigger] crate::config::names_upperdir(mounts@, k, l)
                &&& mounts@[k].options@[l]@ == "upperdir="@ + upper
            };
        assert("upperdir="@.is_prefix_of(mounts@[k].options@[l]@));
    }
}

/// The upper directory of a container is that of its mounts.
pub proof fn upperdir_is_that_of_the_mounts(
    container: &Container,
    r: Option<String>,
    of_mounts: Option<String>,
)
    requires
        call_ensures(Container::rootfs_upperdir, (container,), r),
        call_ensures(find_rootfs_upperdir, (&container.config.rootfs_mounts,), of_mounts),
    ensures
        r is Some <==> of_mounts is Some,
        r is Some ==> r->0@ == of_mounts->0@,
{
    assert(r.deep_view() == of_mounts.deep_view());
}

/// A record of a process that has not been started holds what it was made with, no size and no
/// connections.
pub proof fn new_record_holds_what_it_was_made_with(
    process: &ContainerProcess,
    pid: u32,
    bundle: &str,
    stdin: Option<String>,
    stdout: Option<String>,
    stderr: Option<String>,
    terminal: bool,
    r: ProcessRecord,
)
    requires
        call_ensures(
            ProcessRecord::new,
            (process, pid, bundle, stdin, stdout, stderr, terminal),
            r,
        ),
    ensures
        r.process == *process,
        r.pid == pid,
        r.bundle@ == bundle@,
        r.stdin == stdin,
        r.stdout == stdout,
        r.stderr == stderr,
        r.terminal == terminal,
        r.height == 0,
        r.width == 0,
        r.status == ProcessStatus::Created,
        r.passfd_io is None,
{
}

/// A new container holds what it was asked for, one process that has not been started, with the
/// streams it was asked for with, and the limits of its specification. Its id and the name of its
/// process are what the checks gave for the id that was asked for.
pub proof fn new_container_holds_what_it_was_asked_for<
    E,
    I: FnOnce(&str) -> Result<ContainerID, E>,
    P: FnOnce(&str, &str) -> Result<ContainerProcess, E>,
>(
    pid: u32,
    config: ContainerConfig,
    spec: OciSpec,
    passfd_listener_addr: Option<(String, u32)>,
    new_container_id: I,
    new_container_process: P,
    r: Result<Container, E>,
)
    requires
        call_ensures(
            Container::new::<E, I, P>,
            (pid, config, spec, passfd_listener_addr, new_container_id, new_container_process),
            r,
        ),
    ensures
        r matches Ok(container) ==> {
            let init = container.inner.init_process;
            let limits = container.inner.linux_resources;
            &&& container.pid == pid
            &&& container.config == config
            &&& container.spec == spec
            &&& container.passfd_listener_addr == passfd_listener_addr
            &&& init.pid == pid
            &&& init.bundle@ == config.bundle@
            &&& init.stdin == config.stdin
            &&& init.stdout == config.stdout
            &&& init.stderr == config.stderr
            &&& init.terminal == config.terminal
            &&& init.height == 0
            &&& init.width == 0
            &&& init.status == ProcessStatus::Created
            &&& init.passfd_io is None
            &&& forall|exec_id: Seq<char>| !container.inner.exec_processes@.contains_key(exec_id)
            &&& limits is Some <==> spec.linux is Some && spec.linux->0.resources is Some
            &&& limits matches Some(copy) ==> {
                let given = spec.linux->0.resources->0;
                &&& copy.block_io == given.block_io
                &&& copy.devices is Some <==> given.devices is Some
                &&& copy.devices is Some ==> copy.devices->0@ == given.devices->0@
                &&& copy.network == given.network
                &&& copy.pids == given.pids
                &&& copy.rest == given.rest
            }
            &&& exists|id: &str|
                id@ == config.container_id@ && #[trigger] call_ensures(
                    new_container_id,
                    (id,),
                    Ok(container.container_id),
                )
            &&& exists|id: &str, exec_id: &str|
                id@ == config.container_id@ && exec_id@.len() == 0 && #[trigger] call_ensures(
                    new_container_process,
                    (id, exec_id),
                    Ok(init.process),
                )
        },
        r matches Err(error) ==> {
            ||| exists|id: &str|
                id@ == config.container_id@ && #[trigger] call_ensures(
                    new_container_id,
                    (id,),
                    Err(error),
                )
            ||| exists|id: &str, exec_id: &str|
                id@ == config.container_id@ && exec_id@.len() == 0 && #[trigger] call_ensures(
                    new_container_process,
                    (id, exec_id),
                    Err(error),
                )
        },
{
    reveal_strlit("");
}

/// A container gives out the request and the specification that it holds.
pub proof fn container_gives_out_what_it_holds(
    container: &Container,
    config: &ContainerConfig,
    spec: &OciSpec,
)
    requires
        call_ensures(Container::config, (container,), config),
        call_ensures(Container::spec, (container,), spec),
    ensures
        *config == container.config,
        *spec == container.spec,
{
}

/// Setting a status sets that of the first process, and changes nothing else.
pub proof fn status_is_set_on_the_first_process(container: &mut Container, status: ProcessStatus)
    requires
        call_ensures(Container::set_state, (container, status), ()),
    ensures
        final(container).inner.init_process == (ProcessRecord {
            status,
            ..old(container).inner.init_process
        }),
        final(container).inner.exec_processes == old(container).inner.exec_processes,
        final(container).inner.linux_resources == old(container).inner.linux_resources,
        final(container).pid == old(container).pid,
        final(container).container_id == old(container).container_id,
        final(container).config == old(container).config,
        final(container).spec == old(container).spec,
        final(container).passfd_listener_addr == old(container).passfd_listener_addr,
{
}

/// The state that is reported is that of the first process, or of the added process of the exec id,
/// by the type of the process; only an added process can be unknown.
pub proof fn state_is_that_of_the_process(
    container: &Container,
    process: &ContainerProcess,
    r: Result<&ProcessRecord, Error>,
)
    requires
        call_ensures(Container::state_process, (container, process), r),
    ensures
        process.process_type == ProcessType::Container ==> (r matches Ok(record) && *record
            == container.inner.init_process),
        process.process_type == ProcessType::Exec ==> {
            let known = container.inner.exec_processes@.contains_key(process.exec_id@);
            &&& known ==> (r matches Ok(record) && *record
                == container.inner.exec_processes@[process.exec_id@].process)
            &&& !known ==> r == Err::<&ProcessRecord, Error>(Error::ProcessNotFound)
        },
{
}

/// Signals 9 and 15 end a process, and no others.
pub proof fn kill_and_term_end_a_process(signal: u32, r: bool)
    requires
        call_ensures(is_termination_signal, (signal,), r),
    ensures
        r <==> signal == 9 || signal == 15,
{
}

/// A kill of the first process sends nothing if and only if that process has stopped and the signal
/// is 9 or 15. In every other status, and with every other signal, the signal is sent as it was
/// asked for.
pub proof fn first_process_is_killed_by_its_status(
    container: &Container,
    process: &ContainerProcess,
    signal: u32,
    all: bool,
    r: KillAction,
)
    requires
        call_ensures(Container::kill_process, (container, process, signal, all), r),
        process.exec_id@.len() == 0,
    ensures
        r == KillAction::AlreadyStopped <==> container.inner.init_process.status
            == ProcessStatus::Stopped && (signal == 9 || signal == 15),
        r != KillAction::AlreadyStopped ==> r == (KillAction::Signal { signal, all }),
{
}

/// A kill of an added process sends nothing if and only if the container knows the process, it has
/// stopped and the signal is 9 or 15. Otherwise the signal is sent as it was asked for, also to a
/// process that the container does not know.
pub proof fn added_process_is_killed_by_its_status(
    container: &Container,
    process: &ContainerProcess,
    signal: u32,
    all: bool,
    r: KillAction,
)
    requires
        call_ensures(Container::kill_process, (container, process, signal, all), r),
        process.exec_id@.len() > 0,
    ensures
        r == KillAction::AlreadyStopped <==> {
            &&& container.inner.exec_processes@.contains_key(process.exec_id@)
            &&& container.inner.exec_processes@[process.exec_id@].process.status
                == ProcessStatus::Stopped
            &&& signal == 9 || signal == 15
        },
        r != KillAction::AlreadyStopped ==> r == (KillAction::Signal { signal, all }),
{
}

/// An added process is kept under its exec id with what it was asked for with, in place of any other
/// there, not started and without a size; its label stays if and only if SELinux is on in the guest.
/// Every other process stays, and nothing else changes.
pub proof fn added_process_holds_what_it_was_asked_for(
    container: &mut Container,
    toml_config: &TomlConfig,
    process: &ContainerProcess,
    stdin: Option<String>,
    stdout: Option<String>,
    stderr: Option<String>,
    terminal: bool,
    oci_process: OciProcess,
    other_id: Seq<char>,
)
    requires
        call_ensures(
            Container::exec_process,
            (container, toml_config, process, stdin, stdout, stderr, terminal, oci_process),
            (),
        ),
        other_id != process.exec_id@,
    ensures
        final(container).inner.exec_processes@.contains_key(process.exec_id@),
        ({
            let added = final(container).inner.exec_processes@[process.exec_id@];
            let name = toml_config.runtime.hypervisor_name@;
            let selinux = toml_config.hypervisor@.contains_key(name)
                && !toml_config.hypervisor@[name].disable_guest_selinux;
            &&& added.process.process == *process
            &&& added.process.pid == old(container).pid
            &&& added.process.bundle@ == old(container).config.bundle@
            &&& added.process.stdin == stdin
            &&& added.process.stdout == stdout
            &&& added.process.stderr == stderr
            &&& added.process.terminal == terminal
            &&& added.process.height == 0
            &&& added.process.width == 0
            &&& added.process.status == ProcessStatus::Created
            &&& added.process.passfd_io is None
            &&& added.oci_process.rest == oci_process.rest
            &&& selinux ==> added.oci_process.selinux_label == oci_process.selinux_label
            &&& !selinux ==> added.oci_process.selinux_label is None
        }),
        final(container).inner.exec_processes@.contains_key(other_id) <==> old(container).inner.exec_processes@.contains_key(other_id),
        old(container).inner.exec_processes@.contains_key(other_id) ==> final(container).inner.exec_processes@[other_id] == old(container).inner.exec_processes@[other_id],
        final(container).inner.init_process == old(container).inner.init_process,
        final(container).inner.linux_resources == old(container).inner.linux_resources,
        final(container).pid == old(container).pid,
        final(container).container_id == old(container).container_id,
        final(container).config == old(container).config,
        final(container).spec == old(container).spec,
        final(container).passfd_listener_addr == old(container).passfd_listener_addr,
{
}

/// Deleting a process takes it out and no other, and succeeds if and only if it was there.
pub proof fn delete_takes_out_the_process(
    container: &mut Container,
    process: &ContainerProcess,
    r: Result<(), Error>,
    other_id: Seq<char>,
)
    requires
        call_ensures(Container::delete_exec_process, (container, process), r),
        other_id != process.exec_id@,
    ensures
        r is Ok <==> old(container).inner.exec_processes@.contains_key(process.exec_id@),
        r is Err ==> r == Err::<(), Error>(Error::ProcessNotFound),
        !final(container).inner.exec_processes@.contains_key(process.exec_id@),
        final(container).inner.exec_processes@.contains_key(other_id) <==> old(container).inner.exec_processes@.contains_key(other_id),
        old(container).inner.exec_processes@.contains_key(other_id) ==> final(container).inner.exec_processes@[other_id] == old(container).inner.exec_processes@[other_id],
        final(container).inner.init_process == old(container).inner.init_process,
        final(container).inner.linux_resources == old(container).inner.linux_resources,
        final(container).pid == old(container).pid,
        final(container).container_id == old(container).container_id,
        final(container).config == old(container).config,
        final(container).spec == old(container).spec,
        final(container).passfd_listener_addr == old(container).passfd_listener_addr,
{
}

/// The agent is called to pause a container if and only if its first process is running, and to
/// resume one if and only if it is paused.
pub proof fn pause_needs_running_and_resume_needs_paused(
    container: &Container,
    pause: AgentCall,
    resume: AgentCall,
)
    requires
        call_ensures(Container::pause, (container,), pause),
        call_ensures(Container::resume, (container,), resume),
    ensures
        pause == AgentCall::Call <==> container.inner.init_process.status == ProcessStatus::Running,
        resume == AgentCall::Call <==> container.inner.init_process.status == ProcessStatus::Paused,
{
}

/// A pause that the agent agreed to makes the first process paused; one that it refused changes
/// nothing.
pub proof fn pause_makes_paused(container: &mut Container, succeeded: bool)
    requires
        call_ensures(Container::pause_answered, (container, succeeded), ()),
    ensures
        !succeeded ==> *final(container) == *old(container),
        succeeded ==> final(container).inner.init_process.status == ProcessStatus::Paused,
        *final(container) == (Container {
            inner: ContainerInner {
                init_process: ProcessRecord {
                    status: final(container).inner.init_process.status,
                    ..old(container).inner.init_process
                },
                ..old(container).inner
            },
            ..*old(container)
        }),
{
}

/// A resume that the agent agreed to makes the first process running; one that it refused changes
/// nothing.
pub proof fn resume_makes_running(container: &mut Container, succeeded: bool)
    requires
        call_ensures(Container::resume_answered, (container, succeeded), ()),
    ensures
        !succeeded ==> *final(container) == *old(container),
        succeeded ==> final(container).inner.init_process.status == ProcessStatus::Running,
        *final(container) == (Container {
            inner: ContainerInner {
                init_process: ProcessRecord {
                    status: final(container).inner.init_process.status,
                    ..old(container).inner.init_process
                },
                ..old(container).inner
            },
            ..*old(container)
        }),
{
}

/// A new size is ignored while the first process does not run.
pub proof fn resize_needs_a_running_container(
    container: &mut Container,
    process: &ContainerProcess,
    width: u32,
    height: u32,
    r: Result<ResizeAction, Error>,
)
    requires
        call_ensures(Container::resize_pty, (container, process, width, height), r),
        old(container).inner.init_process.status != ProcessStatus::Running,
    ensures
        r == Ok::<ResizeAction, Error>(ResizeAction::Skip),
        *final(container) == *old(container),
{
}

/// While the first process runs, a new size for it is kept and asked of the agent.
pub proof fn first_process_is_resized(
    container: &mut Container,
    process: &ContainerProcess,
    width: u32,
    height: u32,
    r: Result<ResizeAction, Error>,
)
    requires
        call_ensures(Container::resize_pty, (container, process, width, height), r),
        old(container).inner.init_process.status == ProcessStatus::Running,
        process.exec_id@.len() == 0,
    ensures
        r == Ok::<ResizeAction, Error>(ResizeAction::Resize { height, width }),
        final(container).inner.init_process == (ProcessRecord {
            height,
            width,
            ..old(container).inner.init_process
        }),
        *final(container) == (Container {
            inner: ContainerInner {
                init_process: final(container).inner.init_process,
                ..old(container).inner
            },
            ..*old(container)
        }),
{
}

/// While the first process runs, a new size for an added process is kept with it, and asked of the
/// agent if and only if that process runs. A size for a process that the container does not know is
/// refused. No other process changes, and nothing but the size.
pub proof fn added_process_is_resized(
    container: &mut Container,
    process: &ContainerProcess,
    width: u32,
    height: u32,
    r: Result<ResizeAction, Error>,
    other_id: Seq<char>,
)
    requires
        call_ensures(Container::resize_pty, (container, process, width, height), r),
        old(container).inner.init_process.status == ProcessStatus::Running,
        process.exec_id@.len() > 0,
        other_id != process.exec_id@,
    ensures
        ({
            let before = old(container).inner.exec_processes@;
            let after = final(container).inner.exec_processes@;
            let id = process.exec_id@;
            &&& !before.contains_key(id) ==> r == Err::<ResizeAction, Error>(
                Error::ProcessNotFound,
            ) && !after.contains_key(id)
            &&& before.contains_key(id) ==> {
                &&& r matches Ok(action)
                &&& before[id].process.status == ProcessStatus::Running ==> action == (
                ResizeAction::Resize { height, width })
                &&& before[id].process.status != ProcessStatus::Running ==> action
                    == ResizeAction::Skip
                &&& after.contains_key(id)
                &&& after[id] == (Exec {
                    process: ProcessRecord { height, width, ..before[id].process },
                    ..before[id]
                })
            }
            &&& after.contains_key(other_id) <==> before.contains_key(other_id)
            &&& before.contains_key(other_id) ==> after[other_id] == before[other_id]
        }),
        final(container).inner.init_process == old(container).inner.init_process,
        final(container).inner.linux_resources == old(container).inner.linux_resources,
        final(container).pid == old(container).pid,
        final(container).container_id == old(container).container_id,
        final(container).config == old(container).config,
        final(container).spec == old(container).spec,
        final(container).passfd_listener_addr == old(container).passfd_listener_addr,
{
}

/// The streams of the first process are handed over if and only if the container has a listener
/// address, and there.
pub proof fn first_streams_go_to_the_listener(container: &Container, r: Option<(&String, u32)>)
    requires
        call_ensures(Container::first_streams, (container,), r),
    ensures
        r is Some <==> container.passfd_listener_addr is Some,
        r matches Some(address) ==> {
            &&& container.passfd_listener_addr matches Some(listener)
            &&& *address.0 == listener.0
            &&& address.1 == listener.1
        },
{
}

/// Connections are kept with the process that they belong to, and with no other.
pub proof fn connections_stay_with_their_process(
    container: &mut Container,
    process: &ContainerProcess,
    io: PassfdIo,
    r: Result<(), Error>,
    other_id: Seq<char>,
)
    requires
        call_ensures(Container::streams_handed_over, (container, process, io), r),
        other_id != process.exec_id@,
    ensures
        ({
            let before = old(container).inner.exec_processes@;
            let after = final(container).inner.exec_processes@;
            let id = process.exec_id@;
            let added = process.process_type == ProcessType::Exec;
            &&& r is Ok <==> !added || before.contains_key(id)
            &&& r is Err ==> r == Err::<(), Error>(Error::ProcessNotFound)
            &&& added ==> final(container).inner.init_process == old(container).inner.init_process
            &&& !added ==> final(container).inner.init_process == (ProcessRecord {
                passfd_io: Some(io),
                ..old(container).inner.init_process
            })
            &&& after.contains_key(id) <==> before.contains_key(id)
            &&& before.contains_key(id) && added ==> after[id] == (Exec {
                process: ProcessRecord { passfd_io: Some(io), ..before[id].process },
                ..before[id]
            })
            &&& before.contains_key(id) && !added ==> after[id] == before[id]
            &&& after.contains_key(other_id) <==> before.contains_key(other_id)
            &&& before.contains_key(other_id) ==> after[other_id] == before[other_id]
        }),
        final(container).inner.linux_resources == old(container).inner.linux_resources,
        final(container).pid == old(container).pid,
        final(container).container_id == old(container).container_id,
        final(container).config == old(container).config,
        final(container).spec == old(container).spec,
        final(container).passfd_listener_addr == old(container).passfd_listener_addr,
{
}

} // verus!
