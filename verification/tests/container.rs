//! What requests change in a container, and what they lead to.

use oci_spec::runtime as oci;
use virt_container::config::{
    ContainerConfig, HypervisorConfig, RootfsMount, RuntimeConfig, TomlConfig,
};
use virt_container::container::{
    is_termination_signal, AgentCall, Container, KillAction, ResizeAction,
};
use virt_container::error::Error;
use virt_container::limits::{ResourceUpdateOp, UpdateStep};
use virt_container::oci::{OciLinux, OciProcess, OciResources, OciSpec};
use virt_container::process::{ContainerID, ContainerProcess, PassfdIo, ProcessStatus, ProcessType};
use virt_container::string_map::StringMap;

fn container_id(id: &str) -> Result<ContainerID, String> {
    if id.is_empty() {
        return Err("empty id".to_owned());
    }
    Ok(ContainerID { container_id: id.to_owned() })
}

fn process(id: &str, exec_id: &str) -> Result<ContainerProcess, String> {
    Ok(ContainerProcess {
        container_id: container_id(id)?,
        exec_id: exec_id.to_owned(),
        process_type: if exec_id.is_empty() {
            ProcessType::Container
        } else {
            ProcessType::Exec
        },
    })
}

fn config() -> ContainerConfig {
    ContainerConfig {
        container_id: "c1".to_owned(),
        bundle: "/bundle".to_owned(),
        rootfs_mounts: vec![],
        terminal: true,
        options: None,
        stdin: Some("in".to_owned()),
        stdout: None,
        stderr: Some("err".to_owned()),
        checkpoint: None,
    }
}

fn limits() -> OciResources {
    let pids = oci::LinuxPidsBuilder::default().limit(17i64).build().unwrap();
    let rule = oci::LinuxDeviceCgroupBuilder::default()
        .allow(true)
        .access("rwm".to_owned())
        .build()
        .unwrap();
    let block_io = oci::LinuxBlockIoBuilder::default().weight(5u16).build().unwrap();
    let network = oci::LinuxNetworkBuilder::default().class_id(3u32).build().unwrap();
    let cpu = oci::LinuxCpuBuilder::default().shares(1024u64).build().unwrap();
    OciResources {
        block_io: Some(block_io),
        devices: Some(vec![rule]),
        network: Some(network),
        pids: Some(pids),
        rest: oci::LinuxResourcesBuilder::default().cpu(cpu).build().unwrap(),
    }
}

fn spec(resources: Option<OciResources>) -> OciSpec {
    OciSpec {
        annotations: None,
        hooks: None,
        linux: Some(OciLinux {
            devices: None,
            mount_label: None,
            namespaces: None,
            resources,
            seccomp: None,
            rest: oci::Linux::default(),
        }),
        mounts: None,
        process: None,
        root: None,
        rest: oci::Spec::default(),
    }
}

fn container() -> Container {
    Container::new(7, config(), spec(Some(limits())), None, container_id, process).unwrap()
}

fn toml(disable_guest_selinux: bool) -> TomlConfig {
    let mut hypervisor = StringMap::new();
    hypervisor.insert(
        "qemu".to_owned(),
        HypervisorConfig { disable_guest_selinux, shared_fs: None },
    );
    TomlConfig {
        runtime: RuntimeConfig {
            hypervisor_name: "qemu".to_owned(),
            disable_guest_seccomp: false,
            disable_guest_empty_dir: false,
            emptydir_mode: "shared-fs".to_owned(),
            vfio_mode: "guest-kernel".to_owned(),
            shared_mounts: vec![],
        },
        hypervisor,
    }
}

fn oci_process() -> OciProcess {
    OciProcess {
        selinux_label: Some("label".to_owned()),
        rest: oci::ProcessBuilder::default().cwd("/work").build().unwrap(),
    }
}

fn add(container: &mut Container, exec_id: &str, disable_guest_selinux: bool) -> ContainerProcess {
    let added = process("c1", exec_id).unwrap();
    container.exec_process(
        &toml(disable_guest_selinux),
        &added,
        None,
        Some("out".to_owned()),
        None,
        false,
        oci_process(),
    );
    added
}

fn same_limits(a: &OciResources, b: &OciResources) -> bool {
    a.block_io == b.block_io
        && a.devices == b.devices
        && a.network == b.network
        && a.pids == b.pids
        && a.rest == b.rest
}

#[test]
fn a_new_container_has_one_process_and_the_limits_of_its_specification() {
    let container = container();
    assert_eq!(container.container_id.container_id, "c1");
    assert_eq!(container.pid, 7);
    assert_eq!(container.config().bundle, "/bundle");
    assert!(container.spec().linux.is_some());
    let init = &container.inner.init_process;
    assert_eq!(init.process.container_id.container_id, "c1");
    assert_eq!(init.process.exec_id, "");
    assert_eq!(init.pid, 7);
    assert_eq!(init.bundle, "/bundle");
    assert_eq!(init.stdin, Some("in".to_owned()));
    assert_eq!(init.stdout, None);
    assert_eq!(init.stderr, Some("err".to_owned()));
    assert!(init.terminal);
    assert_eq!((init.height, init.width), (0, 0));
    assert_eq!(init.status, ProcessStatus::Created);
    assert_eq!(init.passfd_io, None);
    assert!(!container.inner.exec_processes.contains_key(""));
    // a copy of each limit, not a default
    assert!(same_limits(container.inner.linux_resources.as_ref().unwrap(), &limits()));
}

#[test]
fn a_specification_without_limits_gives_none() {
    let new = |spec| Container::new(7, config(), spec, None, container_id, process).unwrap();
    assert!(new(spec(None)).inner.linux_resources.is_none());
    let mut bare = spec(Some(limits()));
    bare.linux = None;
    assert!(new(bare).inner.linux_resources.is_none());
}

#[test]
fn a_container_needs_a_valid_id_and_process() {
    let mut unnamed = config();
    unnamed.container_id = String::new();
    let refused = Container::new(7, unnamed, spec(None), None, container_id, process);
    assert_eq!(refused.err(), Some("empty id".to_owned()));
    let refused = Container::new(7, config(), spec(None), None, container_id, |_: &str, _: &str| {
        Err("no process".to_owned())
    });
    assert_eq!(refused.err(), Some("no process".to_owned()));
}

#[test]
fn the_first_upperdir_option_is_the_upperdir() {
    let mount = |options: &[&str]| RootfsMount {
        options: options.iter().map(|o| o.to_string()).collect(),
    };
    let upperdir = |mounts: Vec<RootfsMount>| {
        let mut config = config();
        config.rootfs_mounts = mounts;
        Container::new(7, config, spec(None), None, container_id, process)
            .unwrap()
            .rootfs_upperdir()
    };
    assert_eq!(upperdir(vec![]), None);
    assert_eq!(upperdir(vec![mount(&["lowerdir=/l", " upperdir=/no"])]), None);
    assert_eq!(
        upperdir(vec![
            mount(&["ro"]),
            mount(&["lowerdir=/l", "upperdir=/u", "upperdir=/v"]),
            mount(&["upperdir=/w"]),
        ]),
        Some("/u".to_owned())
    );
    assert_eq!(upperdir(vec![mount(&["upperdir="])]), Some(String::new()));
}

#[test]
fn termination_signals_are_kill_and_term() {
    for signal in 0..65 {
        assert_eq!(is_termination_signal(signal), signal == 9 || signal == 15);
    }
}

#[test]
fn a_stopped_process_is_not_signalled_to_end() {
    let mut container = container();
    let init = process("c1", "").unwrap();
    assert_eq!(
        container.kill_process(&init, 9, true),
        KillAction::Signal { signal: 9, all: true }
    );
    container.set_state(ProcessStatus::Stopped);
    assert_eq!(container.kill_process(&init, 9, true), KillAction::AlreadyStopped);
    assert_eq!(container.kill_process(&init, 15, false), KillAction::AlreadyStopped);
    assert_eq!(
        container.kill_process(&init, 10, false),
        KillAction::Signal { signal: 10, all: false }
    );
}

#[test]
fn an_added_process_is_killed_by_its_own_status() {
    let mut container = container();
    container.set_state(ProcessStatus::Stopped);
    let added = add(&mut container, "e1", false);
    assert_eq!(
        container.kill_process(&added, 9, false),
        KillAction::Signal { signal: 9, all: false }
    );
    let mut exec = container.inner.exec_processes.remove("e1").unwrap();
    exec.process.status = ProcessStatus::Stopped;
    container.inner.exec_processes.insert("e1".to_owned(), exec);
    assert_eq!(container.kill_process(&added, 15, false), KillAction::AlreadyStopped);
    // an unknown process is signalled: it is for the agent to refuse
    let unknown = process("c1", "e2").unwrap();
    assert_eq!(
        container.kill_process(&unknown, 9, false),
        KillAction::Signal { signal: 9, all: false }
    );
}

#[test]
fn an_added_process_is_found_until_it_is_deleted() {
    let mut container = container();
    let added = process("c1", "e1").unwrap();
    assert_eq!(container.state_process(&added).err(), Some(Error::ProcessNotFound));
    assert_eq!(container.delete_exec_process(&added), Err(Error::ProcessNotFound));

    let other = add(&mut container, "e0", false);
    add(&mut container, "e1", false);
    let record = container.state_process(&added).ok().unwrap();
    assert_eq!(record.status, ProcessStatus::Created);
    assert_eq!(record.pid, 7);
    assert_eq!(record.bundle, "/bundle");
    assert_eq!(record.process.exec_id, "e1");
    assert_eq!(record.stdout, Some("out".to_owned()));
    assert!(!record.terminal);

    assert_eq!(container.delete_exec_process(&added), Ok(()));
    assert_eq!(container.state_process(&added).err(), Some(Error::ProcessNotFound));
    assert_eq!(container.delete_exec_process(&added), Err(Error::ProcessNotFound));
    assert!(container.state_process(&other).is_ok());
}

#[test]
fn the_type_of_a_process_says_which_state_is_meant() {
    let mut container = container();
    container.set_state(ProcessStatus::Running);
    let init = process("c1", "").unwrap();
    assert_eq!(container.state_process(&init).ok().unwrap().status, ProcessStatus::Running);
}

#[test]
fn an_added_process_has_a_label_only_with_selinux() {
    let mut container = container();
    add(&mut container, "off", true);
    add(&mut container, "on", false);
    let off = container.inner.exec_processes.get("off").unwrap();
    assert_eq!(off.oci_process.selinux_label, None);
    assert_eq!(off.oci_process.rest, oci_process().rest);
    let on = container.inner.exec_processes.get("on").unwrap();
    assert_eq!(on.oci_process.selinux_label, Some("label".to_owned()));

    // the settings of an unknown hypervisor are the default ones
    let mut settings = toml(false);
    settings.runtime.hypervisor_name = "other".to_owned();
    let added = process("c1", "on").unwrap();
    container.exec_process(&settings, &added, None, None, None, true, oci_process());
    let replaced = container.inner.exec_processes.get("on").unwrap();
    assert_eq!(replaced.oci_process.selinux_label, None);
    assert!(replaced.process.terminal);
}

#[test]
fn only_a_running_container_is_paused_and_only_a_paused_one_resumed() {
    let mut container = container();
    assert_eq!(container.pause(), AgentCall::Skip);
    assert_eq!(container.resume(), AgentCall::Skip);
    container.set_state(ProcessStatus::Running);
    assert_eq!(container.resume(), AgentCall::Skip);
    assert_eq!(container.pause(), AgentCall::Call);

    container.pause_answered(false);
    assert_eq!(container.inner.init_process.status, ProcessStatus::Running);
    container.pause_answered(true);
    assert_eq!(container.inner.init_process.status, ProcessStatus::Paused);
    assert_eq!(container.pause(), AgentCall::Skip);
    assert_eq!(container.resume(), AgentCall::Call);

    container.resume_answered(false);
    assert_eq!(container.inner.init_process.status, ProcessStatus::Paused);
    container.resume_answered(true);
    assert_eq!(container.inner.init_process.status, ProcessStatus::Running);
    assert_eq!(container.pause(), AgentCall::Call);
}

#[test]
fn a_window_is_resized_when_its_process_runs() {
    let mut container = container();
    let init = process("c1", "").unwrap();
    let added = add(&mut container, "e1", false);

    // nothing runs
    assert_eq!(container.resize_pty(&init, 80, 25), Ok(ResizeAction::Skip));
    assert_eq!(container.inner.init_process.width, 0);

    container.set_state(ProcessStatus::Running);
    assert_eq!(
        container.resize_pty(&init, 80, 25),
        Ok(ResizeAction::Resize { height: 25, width: 80 })
    );
    assert_eq!(container.inner.init_process.width, 80);
    assert_eq!(container.inner.init_process.height, 25);

    // the size of a process that has not been started is kept
    assert_eq!(container.resize_pty(&added, 100, 40), Ok(ResizeAction::Skip));
    let mut exec = container.inner.exec_processes.remove("e1").unwrap();
    assert_eq!((exec.process.width, exec.process.height), (100, 40));
    exec.process.status = ProcessStatus::Running;
    container.inner.exec_processes.insert("e1".to_owned(), exec);
    assert_eq!(
        container.resize_pty(&added, 101, 41),
        Ok(ResizeAction::Resize { height: 41, width: 101 })
    );
    assert_eq!(container.inner.init_process.width, 80);

    let unknown = process("c1", "e2").unwrap();
    assert_eq!(container.resize_pty(&unknown, 1, 1), Err(Error::ProcessNotFound));
}

#[test]
fn new_limits_are_noted_and_told_as_an_update() {
    let mut container =
        Container::new(7, config(), spec(None), None, container_id, process).unwrap();
    let told = container.limits_to_add();
    assert_eq!(told.container_id, "c1");
    assert!(told.resources.is_none());
    assert_eq!(told.op, ResourceUpdateOp::Add);

    container.update(&limits());
    let told = container.limits_to_update();
    assert_eq!(told.container_id, "c1");
    assert!(same_limits(told.resources.unwrap(), &limits()));
    assert_eq!(told.op, ResourceUpdateOp::Update);
}

#[test]
fn the_agent_gets_the_limits_that_were_settled_on() {
    let mut container = container();
    container.update(&limits());
    let mut settled = limits();
    settled.pids = None;
    match container.update_resources_answered(Ok::<_, String>(Some(settled))) {
        UpdateStep::AskAgent { request } => {
            assert_eq!(request.container_id, "c1");
            assert!(request.resources.as_ref().unwrap().pids.is_none());
            assert!(request.mounts.is_empty());
        }
        _ => panic!("the agent is not asked"),
    }
    match container.update_resources_answered(Ok::<_, String>(None)) {
        UpdateStep::AskAgent { request } => assert!(request.resources.is_none()),
        _ => panic!("the agent is not asked"),
    }
    assert!(matches!(
        container.update_resources_answered(Err("no".to_owned())),
        UpdateStep::Failed { error } if error == "no"
    ));
    assert!(matches!(container.update_agent_answered(Ok::<(), String>(())), UpdateStep::Done));
    assert!(matches!(
        container.update_agent_answered(Err("late".to_owned())),
        UpdateStep::Failed { error } if error == "late"
    ));
}

#[test]
fn a_stop_gives_back_the_limits_last_asked_for() {
    let mut container = container();
    let told = container.limits_to_give_back();
    assert!(same_limits(told.resources.unwrap(), &limits()));

    let mut other = limits();
    other.network = None;
    container.update(&other);
    // the update fails, and other requests come between
    container.update_resources_answered(Err::<Option<OciResources>, u8>(1));
    container.set_state(ProcessStatus::Running);
    let added = add(&mut container, "e1", false);
    container.resize_pty(&added, 1, 2).unwrap();
    container.delete_exec_process(&added).unwrap();
    container.set_state(ProcessStatus::Stopped);

    let told = container.limits_to_give_back();
    assert_eq!(told.container_id, "c1");
    assert!(same_limits(told.resources.unwrap(), &other));
    assert_eq!(told.op, ResourceUpdateOp::Del);
}

#[test]
fn streams_that_were_handed_over_are_kept_with_their_process() {
    let io = |port| PassfdIo { stdin_port: Some(port), stdout_port: None, stderr_port: Some(3) };
    let mut container = container();
    assert!(container.first_streams().is_none());
    container.passfd_listener_addr = Some(("/uds".to_owned(), 1027));
    assert_eq!(container.first_streams(), Some((&"/uds".to_owned(), 1027)));

    let init = process("c1", "").unwrap();
    let added = add(&mut container, "e1", false);
    add(&mut container, "e2", false);
    assert_eq!(container.streams_handed_over(&init, io(1)), Ok(()));
    assert_eq!(container.streams_handed_over(&added, io(2)), Ok(()));
    assert_eq!(container.inner.init_process.passfd_io, Some(io(1)));
    assert_eq!(container.state_process(&added).ok().unwrap().passfd_io, Some(io(2)));
    let other = process("c1", "e2").unwrap();
    assert_eq!(container.state_process(&other).ok().unwrap().passfd_io, None);

    let unknown = process("c1", "e3").unwrap();
    assert_eq!(
        container.streams_handed_over(&unknown, io(4)),
        Err(Error::ProcessNotFound)
    );
    assert_eq!(container.inner.init_process.passfd_io, Some(io(1)));
}
