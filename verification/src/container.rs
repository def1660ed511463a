//! A container: what the runtime keeps of it, and what each request changes or asks for.
//!
//! Requests that need work outside this library (the guest agent, the resource manager, the host's
//! filesystem) say what is to be done; what comes back is handed to the next call.

use vstd::prelude::*;

use crate::config::{
    find_rootfs_upperdir, get_disable_guest_selinux, ContainerConfig, TomlConfig,
};
use crate::config::{guest_selinux_disabled, upperdir_of};
use crate::error::Error;
use crate::oci::resources_view;
use crate::oci::{OciProcess, OciResources, OciResourcesView, OciSpec};
use crate::process::{
    ContainerID, ContainerProcess, Exec, PassfdIo, ProcessRecord, ProcessStatus, ProcessType,
};
use crate::string_map::StringMap;

verus! {

/// A container.
pub struct Container {
    pub pid: u32,
    pub container_id: ContainerID,
    pub config: ContainerConfig,
    pub spec: OciSpec,
    pub inner: ContainerInner,
    /// Where streams are handed over as file descriptors, if they are.
    pub passfd_listener_addr: Option<(String, u32)>,
}

/// The part of a container that changes while it lives.
pub struct ContainerInner {
    pub init_process: ProcessRecord,
    /// The processes that were added, under their exec ids.
    pub exec_processes: StringMap<Exec>,
    /// The resource limits that were last asked for.
    pub linux_resources: Option<OciResources>,
}

/// Whether the agent is to be called.
#[derive(Clone, Copy, Debug, PartialEq, Eq, Structural)]
pub enum AgentCall {
    /// The request is answered with success and nothing is done.
    Skip,
    /// The agent is called.
    Call,
}

/// What a kill request leads to.
#[derive(Clone, Copy, Debug, PartialEq, Eq, Structural)]
pub enum KillAction {
    /// The process has stopped already: success.
    AlreadyStopped,
    /// The signal goes to the process, or to all processes of the container.
    Signal { signal: u32, all: bool },
}

/// What a request for a new window size leads to.
#[derive(Clone, Copy, Debug, PartialEq, Eq, Structural)]
pub enum ResizeAction {
    /// Success, with nothing for the agent to do now.
    Skip,
    /// The agent is to resize the window.
    Resize { height: u32, width: u32 },
}

pub const SIGKILL: u32 = 9;

pub const SIGTERM: u32 = 15;

/// Whether a signal ends a process: `SIGKILL` or `SIGTERM`.
pub fn is_termination_signal(signal: u32) -> (r: bool)
    ensures
        r == (signal == SIGKILL || signal == SIGTERM),
{
    signal == SIGKILL || signal == SIGTERM
}

/// The limits that a specification gives.
pub open spec fn spec_resources(spec: OciSpec) -> Option<OciResourcesView> {
    match spec.linux {
        Some(linux) => resources_view(linux.resources),
        None => None,
    }
}

fn copy_spec_resources(spec: &OciSpec) -> (r: Option<OciResources>)
    ensures
        resources_view(r) == spec_resources(*spec),
{
    match &spec.linux {
        Some(linux) => match &linux.resources {
            Some(resources) => Some(resources.clone()),
            None => None,
        },
        None => None,
    }
}

/// `answer` is one that `new_container_id` may give for the id `id`.
pub open spec fn id_answer<E, I: FnOnce(&str) -> Result<ContainerID, E>>(
    new_container_id: I,
    id: Seq<char>,
    answer: Result<ContainerID, E>,
) -> bool {
    exists|s: &str| s@ == id && #[trigger] call_ensures(new_container_id, (s,), answer)
}

/// `answer` is one that `new_container_process` may give for the ids `id` and `exec_id`.
pub open spec fn process_answer<E, P: FnOnce(&str, &str) -> Result<ContainerProcess, E>>(
    new_container_process: P,
    id: Seq<char>,
    exec_id: Seq<char>,
    answer: Result<ContainerProcess, E>,
) -> bool {
    exists|s: &str, e: &str|
        s@ == id && e@ == exec_id && #[trigger] call_ensures(
            new_container_process,
            (s, e),
            answer,
        )
}

impl ContainerInner {
    /// The added process of the given exec id.
    pub open spec fn exec_of(self, exec_id: Seq<char>) -> Option<Exec> {
        if self.exec_processes@.contains_key(exec_id) {
            Some(self.exec_processes@[exec_id])
        } else {
            None
        }
    }

    /// The status of the process with the given exec id, the first process of the container where
    /// the id is empty. Of a process that the container does not know it is `Unknown`.
    pub open spec fn status_of(self, exec_id: Seq<char>) -> ProcessStatus {
        if exec_id.len() == 0 {
            self.init_process.status
        } else {
            match self.exec_of(exec_id) {
                Some(exec) => exec.process.status,
                None => ProcessStatus::Unknown,
            }
        }
    }

    /// Every added process is kept under its own exec id.
    pub open spec fn filed_by_exec_id(self) -> bool {
        forall|exec_id: Seq<char>| #[trigger]
            self.exec_processes@.contains_key(exec_id)
                ==> self.exec_processes@[exec_id].process.process.exec_id@ == exec_id
    }
}

impl Container {
    /// This container with its first process in the given status.
    pub open spec fn with_status(self, status: ProcessStatus) -> Container {
        Container {
            inner: ContainerInner {
                init_process: ProcessRecord { status, ..self.inner.init_process },
                ..self.inner
            },
            ..self
        }
    }

    /// This container as it was created: what it was asked for, one process that has not been
    /// started, and the limits of its specification.
    pub open spec fn is_new(
        self,
        pid: u32,
        config: ContainerConfig,
        spec: OciSpec,
        passfd_listener_addr: Option<(String, u32)>,
    ) -> bool {
        &&& self.pid == pid
        &&& self.config == config
        &&& self.spec == spec
        &&& self.passfd_listener_addr == passfd_listener_addr
        &&& self.inner.init_process.is_new(
            self.inner.init_process.process,
            pid,
            config.bundle@,
            config.stdin,
            config.stdout,
            config.stderr,
            config.terminal,
        )
        &&& self.inner.exec_processes@ == Map::<Seq<char>, Exec>::empty()
        &&& resources_view(self.inner.linux_resources) == spec_resources(spec)
    }

    /// Creates a container that has not been started.
    ///
    /// `new_container_id` checks the id of the container, `new_container_process` names its first
    /// process, which has the empty exec id. An error of either is the error of this function.
    pub fn new<
        E,
        I: FnOnce(&str) -> Result<ContainerID, E>,
        P: FnOnce(&str, &str) -> Result<ContainerProcess, E>,
    >(
        pid: u32,
        config: ContainerConfig,
        spec: OciSpec,
        passfd_listener_addr: Option<(String, u32)>,
        new_container_id: I,
        new_container_process: P,
    ) -> (r: Result<Container, E>)
        requires
            forall|id: &str| call_requires(new_container_id, (id,)),
            forall|id: &str, exec_id: &str| call_requires(new_container_process, (id, exec_id)),
        ensures
            r matches Ok(container) ==> {
                &&& container.is_new(pid, config, spec, passfd_listener_addr)
                &&& id_answer(
                    new_container_id,
                    config.container_id@,
                    Ok(container.container_id),
                )
                &&& process_answer(
                    new_container_process,
                    config.container_id@,
                    ""@,
                    Ok(container.inner.init_process.process),
                )
            },
            r matches Err(error) ==> {
                ||| id_answer(new_container_id, config.container_id@, Err(error))
                ||| {
                    &&& exists|id: ContainerID| #[trigger]
                        id_answer(new_container_id, config.container_id@, Ok(id))
                    &&& process_answer(
                        new_container_process,
                        config.container_id@,
                        ""@,
                        Err(error),
                    )
                }
            },
    {
        let id = config.container_id.as_str();
        let id_result = new_container_id(id);
        assert(id_answer(new_container_id, config.container_id@, id_result));
        let container_id = match id_result {
            Ok(container_id) => container_id,
            Err(error) => return Err(error),
        };
        assert(id_answer(new_container_id, config.container_id@, Ok(container_id)));
        let process_result = new_container_process(id, "");
        assert(process_answer(new_container_process, config.container_id@, ""@, process_result));
        let process = match process_result {
            Ok(process) => process,
            Err(error) => return Err(error),
        };
        let init_process = ProcessRecord::new(
            &process,
            pid,
            config.bundle.as_str(),
            config.stdin.clone(),
            config.stdout.clone(),
            config.stderr.clone(),
            config.terminal,
        );
        let linux_resources = copy_spec_resources(&spec);
        Ok(
            Container {
                pid,
                container_id,
                config,
                spec,
                inner: ContainerInner {
                    init_process,
                    exec_processes: StringMap::new(),
                    linux_resources,
                },
                passfd_listener_addr,
            },
        )
    }

    /// The request that the container was created for.
    pub fn config(&self) -> (r: &ContainerConfig)
        ensures
            *r == self.config,
    {
        &self.config
    }

    /// The specification that the container was created with.
    pub fn spec(&self) -> (r: &OciSpec)
        ensures
            *r == self.spec,
    {
        &self.spec
    }

    /// The host directory that takes the changes to the container's root filesystem.
    pub fn rootfs_upperdir(&self) -> (r: Option<String>)
        ensures
            r.deep_view() == upperdir_of(self.config.rootfs_mounts@),
    {
        find_rootfs_upperdir(&self.config.rootfs_mounts)
    }

    /// Sets the status of the first process.
    pub fn set_state(&mut self, status: ProcessStatus)
        ensures
            *final(self) == old(self).with_status(status),
    {
        self.inner.init_process.status = status;
    }

    /// The process whose state is to be reported.
    pub fn state_process(&self, container_process: &ContainerProcess) -> (r: Result<
        &ProcessRecord,
        Error,
    >)
        ensures
            r == (match container_process.process_type {
                ProcessType::Container => Ok::<&ProcessRecord, Error>(&self.inner.init_process),
                ProcessType::Exec => match self.inner.exec_of(container_process.exec_id@) {
                    Some(exec) => Ok(&exec.process),
                    None => Err(Error::ProcessNotFound),
                },
            }),
    {
        match container_process.process_type {
            ProcessType::Container => Ok(&self.inner.init_process),
            ProcessType::Exec => match self.inner.exec_processes.get(
                container_process.exec_id.as_str(),
            ) {
                Some(exec) => Ok(&exec.process),
                None => Err(Error::ProcessNotFound),
            },
        }
    }

    /// What a kill request for the process with the given exec id leads to.
    pub open spec fn kill_action(self, exec_id: Seq<char>, signal: u32, all: bool) -> KillAction {
        if (signal == SIGKILL || signal == SIGTERM) && self.inner.status_of(exec_id)
            == ProcessStatus::Stopped {
            KillAction::AlreadyStopped
        } else {
            KillAction::Signal { signal, all }
        }
    }

    /// What a kill request leads to.
    ///
    /// A signal that ends a process is not sent to one that has stopped: the request succeeds, so
    /// that a container can be cleaned up after its machine has died.
    pub fn kill_process(
        &self,
        container_process: &ContainerProcess,
        signal: u32,
        all: bool,
    ) -> (r: KillAction)
        ensures
            r == self.kill_action(container_process.exec_id@, signal, all),
    {
        let exec_id = container_process.exec_id.as_str();
        let status = if exec_id.is_empty() {
            self.inner.init_process.status
        } else {
            match self.inner.exec_processes.get(exec_id) {
                Some(exec) => exec.process.status,
                None => ProcessStatus::Unknown,
            }
        };
        if is_termination_signal(signal) && status == ProcessStatus::Stopped {
            KillAction::AlreadyStopped
        } else {
            KillAction::Signal { signal, all }
        }
    }

    /// `after` is this container with another map of added processes.
    pub open spec fn same_but_processes(self, after: Container) -> bool {
        after == (Container {
            inner: ContainerInner { exec_processes: after.inner.exec_processes, ..self.inner },
            ..self
        })
    }

    /// `after` is this container with the process added that `exec` describes, in place of any
    /// other of the same exec id.
    pub open spec fn exec_added(self, exec_id: Seq<char>, exec: Exec, after: Container) -> bool {
        &&& self.same_but_processes(after)
        &&& after.inner.exec_processes@ == self.inner.exec_processes@.insert(exec_id, exec)
    }

    /// `after` is this container without the added process of the given exec id.
    pub open spec fn exec_deleted(self, exec_id: Seq<char>, after: Container) -> bool {
        &&& self.same_but_processes(after)
        &&& after.inner.exec_processes@ == self.inner.exec_processes@.remove(exec_id)
    }

    /// The description of an added process, without its label where SELinux is off in the guest.
    pub open spec fn exec_description(toml_config: TomlConfig, oci_process: OciProcess) -> OciProcess {
        OciProcess {
            selinux_label: if guest_selinux_disabled(toml_config) {
                None
            } else {
                oci_process.selinux_label
            },
            ..oci_process
        }
    }

    /// Adds a process that has not been started, in place of any other of the same exec id. Where
    /// SELinux is off in the guest, the process loses its label.
    pub fn exec_process(
        &mut self,
        toml_config: &TomlConfig,
        container_process: &ContainerProcess,
        stdin: Option<String>,
        stdout: Option<String>,
        stderr: Option<String>,
        terminal: bool,
        oci_process: OciProcess,
    )
        ensures
            exists|process: ProcessRecord|
                {
                    &&& #[trigger] process.is_new(
                        *container_process,
                        old(self).pid,
                        old(self).config.bundle@,
                        stdin,
                        stdout,
                        stderr,
                        terminal,
                    )
                    &&& old(self).exec_added(
                        container_process.exec_id@,
                        Exec {
                            process,
                            oci_process: Container::exec_description(*toml_config, oci_process),
                        },
                        *final(self),
                    )
                },
    {
        let mut oci_process = oci_process;
        if get_disable_guest_selinux(toml_config) {
            oci_process.selinux_label = None;
        }
        let process = ProcessRecord::new(
            container_process,
            self.pid,
            self.config.bundle.as_str(),
            stdin,
            stdout,
            stderr,
            terminal,
        );
        let exec = Exec { process, oci_process };
        self.inner.exec_processes.insert(container_process.exec_id.clone(), exec);
    }

    /// Forgets an added process.
    pub fn delete_exec_process(&mut self, container_process: &ContainerProcess) -> (r: Result<
        (),
        Error,
    >)
        ensures
            r == (match old(self).inner.exec_of(container_process.exec_id@) {
                Some(_) => Ok::<(), Error>(()),
                None => Err(Error::ProcessNotFound),
            }),
            old(self).exec_deleted(container_process.exec_id@, *final(self)),
    {
        match self.inner.exec_processes.remove(container_process.exec_id.as_str()) {
            Some(_) => Ok(()),
            None => Err(Error::ProcessNotFound),
        }
    }

    /// A pause calls the agent if the container runs.
    pub open spec fn pause_call(self) -> AgentCall {
        if self.inner.init_process.status == ProcessStatus::Running {
            AgentCall::Call
        } else {
            AgentCall::Skip
        }
    }

    /// A resume calls the agent if the container is paused.
    pub open spec fn resume_call(self) -> AgentCall {
        if self.inner.init_process.status == ProcessStatus::Paused {
            AgentCall::Call
        } else {
            AgentCall::Skip
        }
    }

    /// Whether the agent is to pause the container: only a running one is paused.
    pub fn pause(&self) -> (r: AgentCall)
        ensures
            r == self.pause_call(),
    {
        if self.inner.init_process.status != ProcessStatus::Running {
            AgentCall::Skip
        } else {
            AgentCall::Call
        }
    }

    /// This container after the agent has answered a pause.
    pub open spec fn after_pause(self, succeeded: bool) -> Container {
        if succeeded {
            self.with_status(ProcessStatus::Paused)
        } else {
            self
        }
    }

    /// This container after the agent has answered a resume.
    pub open spec fn after_resume(self, succeeded: bool) -> Container {
        if succeeded {
            self.with_status(ProcessStatus::Running)
        } else {
            self
        }
    }

    /// Takes note of the agent's answer to a pause.
    pub fn pause_answered(&mut self, succeeded: bool)
        ensures
            *final(self) == old(self).after_pause(succeeded),
    {
        if succeeded {
            self.set_state(ProcessStatus::Paused);
        }
    }

    /// Whether the agent is to resume the container: only a paused one is resumed.
    pub fn resume(&self) -> (r: AgentCall)
        ensures
            r == self.resume_call(),
    {
        if self.inner.init_process.status != ProcessStatus::Paused {
            AgentCall::Skip
        } else {
            AgentCall::Call
        }
    }

    /// Takes note of the agent's answer to a resume.
    pub fn resume_answered(&mut self, succeeded: bool)
        ensures
            *final(self) == old(self).after_resume(succeeded),
    {
        if succeeded {
            self.set_state(ProcessStatus::Running);
        }
    }

    /// This container after a request for a window of the given size for the process of `exec_id`.
    pub open spec fn resized(self, exec_id: Seq<char>, width: u32, height: u32, after: Container) -> bool {
        if self.inner.init_process.status != ProcessStatus::Running {
            after == self
        } else if exec_id.len() == 0 {
            after == (Container {
                inner: ContainerInner {
                    init_process: ProcessRecord { height, width, ..self.inner.init_process },
                    ..self.inner
                },
                ..self
            })
        } else {
            &&& after == (Container {
                inner: ContainerInner {
                    exec_processes: after.inner.exec_processes,
                    ..self.inner
                },
                ..self
            })
            &&& after.inner.exec_processes@ == (match self.inner.exec_of(exec_id) {
                Some(exec) => self.inner.exec_processes@.insert(
                    exec_id,
                    Exec {
                        process: ProcessRecord { height, width, ..exec.process },
                        ..exec
                    },
                ),
                None => self.inner.exec_processes@,
            })
        }
    }

    /// What a request for a window of the given size for the process of `exec_id` leads to.
    pub open spec fn resize_result(self, exec_id: Seq<char>, width: u32, height: u32) -> Result<
        ResizeAction,
        Error,
    > {
        if self.inner.init_process.status != ProcessStatus::Running {
            Ok(ResizeAction::Skip)
        } else if exec_id.len() == 0 {
            Ok(ResizeAction::Resize { height, width })
        } else {
            match self.inner.exec_of(exec_id) {
                Some(exec) => if exec.process.status == ProcessStatus::Running {
                    Ok(ResizeAction::Resize { height, width })
                } else {
                    Ok(ResizeAction::Skip)
                },
                None => Err(Error::ProcessNotFound),
            }
        }
    }

    /// Takes note of the window size of a process, and says whether the agent is to resize it now.
    ///
    /// While the container does not run the request is ignored. The size of a process that has not
    /// been started is kept, for the start to apply.
    pub fn resize_pty(&mut self, process: &ContainerProcess, width: u32, height: u32) -> (r: Result<
        ResizeAction,
        Error,
    >)
        ensures
            old(self).resized(process.exec_id@, width, height, *final(self)),
            r == old(self).resize_result(process.exec_id@, width, height),
    {
        if self.inner.init_process.status != ProcessStatus::Running {
            return Ok(ResizeAction::Skip);
        }
        if process.exec_id.as_str().is_empty() {
            self.inner.init_process.height = height;
            self.inner.init_process.width = width;
            return Ok(ResizeAction::Resize { height, width });
        }
        match self.inner.exec_processes.remove(process.exec_id.as_str()) {
            Some(exec) => {
                let mut exec = exec;
                exec.process.height = height;
                exec.process.width = width;
                let status = exec.process.status;
                self.inner.exec_processes.insert(process.exec_id.clone(), exec);
                assert(self.inner.exec_processes@ =~= old(self).inner.exec_processes@.insert(
                    process.exec_id@,
                    exec,
                ));
                if status != ProcessStatus::Running {
                    Ok(ResizeAction::Skip)
                } else {
                    Ok(ResizeAction::Resize { height, width })
                }
            },
            None => {
                assert(self.inner.exec_processes@ =~= old(self).inner.exec_processes@);
                Err(Error::ProcessNotFound)
            },
        }
    }

    /// Where the streams of the first process are handed over, if they are: before the agent is
    /// asked to create the container.
    pub fn first_streams(&self) -> (r: Option<(&String, u32)>)
        ensures
            r == (match self.passfd_listener_addr {
                Some(address) => Some((&address.0, address.1)),
                None => None,
            }),
    {
        match &self.passfd_listener_addr {
            Some(address) => Some((&address.0, address.1)),
            None => None,
        }
    }

    /// `after` is this container with the streams of `process` on the connections `io`.
    pub open spec fn with_streams(
        self,
        process: ContainerProcess,
        io: PassfdIo,
        after: Container,
    ) -> bool {
        match process.process_type {
            ProcessType::Container => after == self.with_first_streams(io),
            ProcessType::Exec => {
                &&& self.same_but_processes(after)
                &&& after.inner.exec_processes@ == (match self.inner.exec_of(process.exec_id@) {
                    Some(exec) => self.inner.exec_processes@.insert(
                        process.exec_id@,
                        Exec {
                            process: ProcessRecord { passfd_io: Some(io), ..exec.process },
                            ..exec
                        },
                    ),
                    None => self.inner.exec_processes@,
                })
            },
        }
    }

    /// This container with the streams of its first process on the connections `io`.
    pub open spec fn with_first_streams(self, io: PassfdIo) -> Container {
        Container {
            inner: ContainerInner {
                init_process: ProcessRecord { passfd_io: Some(io), ..self.inner.init_process },
                ..self.inner
            },
            ..self
        }
    }

    /// Takes note of the connections that the streams of a process were handed over to.
    pub fn streams_handed_over(&mut self, process: &ContainerProcess, io: PassfdIo) -> (r: Result<
        (),
        Error,
    >)
        ensures
            old(self).with_streams(*process, io, *final(self)),
            r == (if process.process_type == ProcessType::Exec && old(self).inner.exec_of(
                process.exec_id@,
            ) is None {
                Err::<(), Error>(Error::ProcessNotFound)
            } else {
                Ok(())
            }),
    {
        match process.process_type {
            ProcessType::Container => {
                self.inner.init_process.passfd_io = Some(io);
                Ok(())
            },
            ProcessType::Exec => match self.inner.exec_processes.remove(process.exec_id.as_str()) {
                Some(exec) => {
                    let mut exec = exec;
                    exec.process.passfd_io = Some(io);
                    self.inner.exec_processes.insert(process.exec_id.clone(), exec);
                    assert(self.inner.exec_processes@ =~= old(self).inner.exec_processes@.insert(
                        process.exec_id@,
                        exec,
                    ));
                    Ok(())
                },
                None => {
                    assert(self.inner.exec_processes@ =~= old(self).inner.exec_processes@);
                    Err(Error::ProcessNotFound)
                },
            },
        }
    }
}

/// A resume undoes a pause. A container that was paused is not paused again, and one that runs is
/// not resumed.
pub proof fn resume_undoes_pause(container: Container)
    requires
        container.pause_call() == AgentCall::Call,
    ensures
        container.resume_call() == AgentCall::Skip,
        container.after_pause(true).pause_call() == AgentCall::Skip,
        container.after_pause(true).resume_call() == AgentCall::Call,
        container.after_pause(true).after_resume(true) == container,
{
}

/// Where the agent refuses to pause or to resume, nothing changes, and the request may be made
/// again.
pub proof fn refusal_changes_nothing(container: Container)
    ensures
        container.after_pause(false) == container,
        container.after_resume(false) == container,
{
}

/// Killing a process that has stopped succeeds and sends nothing. Any other signal is sent, and a
/// process that has not stopped gets every signal.
pub proof fn stopped_process_can_be_killed(
    container: Container,
    exec_id: Seq<char>,
    signal: u32,
    all: bool,
)
    ensures
        container.with_status(ProcessStatus::Stopped).kill_action(""@, SIGKILL, all)
            == KillAction::AlreadyStopped,
        container.with_status(ProcessStatus::Stopped).kill_action(""@, SIGTERM, all)
            == KillAction::AlreadyStopped,
        container.kill_action(exec_id, signal, all) == KillAction::AlreadyStopped
            <==> container.inner.status_of(exec_id) == ProcessStatus::Stopped && (signal == SIGKILL
            || signal == SIGTERM),
        container.kill_action(exec_id, signal, all) != KillAction::AlreadyStopped
            ==> container.kill_action(exec_id, signal, all) == (KillAction::Signal { signal, all }),
{
    reveal_strlit("");
}

/// A process that was added is found under its exec id, and no other process is touched.
pub proof fn added_process_is_found(
    before: Container,
    after: Container,
    exec_id: Seq<char>,
    other_id: Seq<char>,
    exec: Exec,
)
    requires
        before.exec_added(exec_id, exec, after),
        other_id != exec_id,
    ensures
        after.inner.exec_of(exec_id) == Some(exec),
        after.inner.exec_of(other_id) == before.inner.exec_of(other_id),
        after.inner.init_process == before.inner.init_process,
        exec_id.len() > 0 ==> after.inner.status_of(exec_id) == exec.process.status,
{
}

/// Deleting a process undoes its addition, and deletes no other.
pub proof fn delete_undoes_exec(
    before: Container,
    added: Container,
    after: Container,
    exec_id: Seq<char>,
    exec: Exec,
)
    requires
        before.inner.exec_of(exec_id) is None,
        before.exec_added(exec_id, exec, added),
        added.exec_deleted(exec_id, after),
    ensures
        before.same_but_processes(after),
        after.inner.exec_processes@ == before.inner.exec_processes@,
        after.inner.exec_of(exec_id) is None,
{
    assert(after.inner.exec_processes@ =~= before.inner.exec_processes@);
}

/// A new size changes nothing but the size: no process changes its status, and the same size asked
/// for again leads to the same.
pub proof fn resize_changes_only_the_size(
    before: Container,
    after: Container,
    again: Container,
    exec_id: Seq<char>,
    other_id: Seq<char>,
    width: u32,
    height: u32,
)
    requires
        before.resized(exec_id, width, height, after),
        after.resized(exec_id, width, height, again),
    ensures
        after.inner.status_of(other_id) == before.inner.status_of(other_id),
        after.resize_result(exec_id, width, height) == before.resize_result(
            exec_id,
            width,
            height,
        ),
        before.resize_result(exec_id, width, height) is Err ==> after.inner.exec_processes@
            == before.inner.exec_processes@,
        after.same_but_processes(again),
        again.inner.exec_processes@ == after.inner.exec_processes@,
{
    assert(again.inner.exec_processes@ =~= after.inner.exec_processes@);
}

/// Every added process is kept under its own exec id, from the creation of a container on and
/// whatever is added, deleted, resized or handed over.
pub proof fn processes_stay_filed(
    before: Container,
    after: Container,
    exec_id: Seq<char>,
    exec: Exec,
    process: ContainerProcess,
    io: PassfdIo,
    width: u32,
    height: u32,
    status: ProcessStatus,
)
    requires
        before.inner.filed_by_exec_id(),
        ({
            ||| before.exec_added(exec_id, exec, after) && exec.process.process.exec_id@ == exec_id
            ||| before.exec_deleted(exec_id, after)
            ||| before.resized(exec_id, width, height, after)
            ||| before.with_streams(process, io, after)
            ||| after == before.with_status(status)
        }),
    ensures
        after.inner.filed_by_exec_id(),
{
    assert forall|id: Seq<char>| #[trigger]
        after.inner.exec_processes@.contains_key(id) implies after.inner.exec_processes@[id].process.process.exec_id@
        == id by {
        assert(before.inner.exec_processes@.contains_key(id) || id == exec_id);
    }
}

/// A new container has no added process, and is neither paused nor resumed.
pub proof fn new_container_is_idle(
    container: Container,
    pid: u32,
    config: ContainerConfig,
    spec: OciSpec,
    passfd_listener_addr: Option<(String, u32)>,
)
    requires
        container.is_new(pid, config, spec, passfd_listener_addr),
    ensures
        container.inner.filed_by_exec_id(),
        container.pause_call() == AgentCall::Skip,
        container.resume_call() == AgentCall::Skip,
{
}

} // verus!
