//! Containers and the processes in them, by name and by what is known of each.

use vstd::prelude::*;

use crate::oci::OciProcess;

verus! {

/// The name of a container.
pub struct ContainerID {
    pub container_id: String,
}

impl Clone for ContainerID {
    fn clone(&self) -> (r: Self)
        ensures
            r == *self,
    {
        ContainerID { container_id: self.container_id.clone() }
    }
}

/// The first process of a container, or one that was added to it.
#[derive(Clone, Copy, Debug, PartialEq, Eq, Structural)]
pub enum ProcessType {
    Container,
    Exec,
}

/// The name of a process.
pub struct ContainerProcess {
    pub container_id: ContainerID,
    /// Empty for the first process of a container.
    pub exec_id: String,
    pub process_type: ProcessType,
}

impl Clone for ContainerProcess {
    fn clone(&self) -> (r: Self)
        ensures
            r == *self,
    {
        ContainerProcess {
            container_id: self.container_id.clone(),
            exec_id: self.exec_id.clone(),
            process_type: self.process_type,
        }
    }
}

/// How far a process has come.
#[derive(Clone, Copy, Debug, PartialEq, Eq, Structural)]
pub enum ProcessStatus {
    Unknown,
    Created,
    Running,
    Stopped,
    Paused,
    Pausing,
}

/// The connections that carry the streams of a process.
#[derive(Clone, Copy, Debug, PartialEq, Eq, Structural)]
pub struct PassfdIo {
    pub stdin_port: Option<u32>,
    pub stdout_port: Option<u32>,
    pub stderr_port: Option<u32>,
}

/// What is known of a process.
pub struct ProcessRecord {
    pub process: ContainerProcess,
    pub pid: u32,
    pub bundle: String,
    pub stdin: Option<String>,
    pub stdout: Option<String>,
    pub stderr: Option<String>,
    pub terminal: bool,
    /// The size of the terminal window; zero until one is asked for.
    pub height: u32,
    pub width: u32,
    pub status: ProcessStatus,
    pub passfd_io: Option<PassfdIo>,
}

impl ProcessRecord {
    /// A process that has not been started.
    pub fn new(
        process: &ContainerProcess,
        pid: u32,
        bundle: &str,
        stdin: Option<String>,
        stdout: Option<String>,
        stderr: Option<String>,
        terminal: bool,
    ) -> (r: Self)
        ensures
            r.is_new(*process, pid, bundle@, stdin, stdout, stderr, terminal),
    {
        ProcessRecord {
            process: process.clone(),
            pid,
            bundle: bundle.to_owned(),
            stdin,
            stdout,
            stderr,
            terminal,
            height: 0,
            width: 0,
            status: ProcessStatus::Created,
            passfd_io: None,
        }
    }

    /// The record of a process that has not been started, whose window has no size yet.
    pub open spec fn is_new(
        self,
        process: ContainerProcess,
        pid: u32,
        bundle: Seq<char>,
        stdin: Option<String>,
        stdout: Option<String>,
        stderr: Option<String>,
        terminal: bool,
    ) -> bool {
        &&& self.bundle@ == bundle
        &&& self == ProcessRecord {
            process,
            pid,
            bundle: self.bundle,
            stdin,
            stdout,
            stderr,
            terminal,
            height: 0,
            width: 0,
            status: ProcessStatus::Created,
            passfd_io: None,
        }
    }
}

/// A process that was added to a container.
pub struct Exec {
    pub process: ProcessRecord,
    pub oci_process: OciProcess,
}

} // verus!
