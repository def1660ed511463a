//! The order of the outside work that starts, stops and checkpoints a container.

use oci_spec::runtime as oci;
use virt_container::checkpoint::{copy_dir_contents, CheckpointStep};
use virt_container::config::{
    has_shared_fs, ContainerConfig, HypervisorConfig, RootfsMount, RuntimeConfig, TomlConfig,
};
use virt_container::container::{Container, ResizeAction};
use virt_container::oci::{Mount, OciProcess, OciSpec};
use virt_container::path::FsPath;
use virt_container::process::{ContainerID, ContainerProcess, ProcessStatus, ProcessType};
use virt_container::start::{StartError, StartFailure, StartStep};
use virt_container::stop::{termination_message, StopStep, TerminationLog};
use virt_container::string_map::StringMap;

fn process(exec_id: &str) -> ContainerProcess {
    ContainerProcess {
        container_id: ContainerID { container_id: "c1".to_owned() },
        exec_id: exec_id.to_owned(),
        process_type: if exec_id.is_empty() {
            ProcessType::Container
        } else {
            ProcessType::Exec
        },
    }
}

fn container(checkpoint: Option<&str>, upperdir: bool, passfd: bool) -> Container {
    let config = ContainerConfig {
        container_id: "c1".to_owned(),
        bundle: "/bundle".to_owned(),
        rootfs_mounts: if upperdir {
            vec![RootfsMount { options: vec!["upperdir=/upper".to_owned()] }]
        } else {
            vec![]
        },
        terminal: false,
        options: None,
        stdin: None,
        stdout: None,
        stderr: None,
        checkpoint: checkpoint.map(|path| path.to_owned()),
    };
    let spec = OciSpec {
        annotations: None,
        hooks: None,
        linux: None,
        mounts: None,
        process: None,
        root: None,
        rest: oci::Spec::default(),
    };
    let id = |id: &str| Ok::<_, ()>(ContainerID { container_id: id.to_owned() });
    let first = |_: &str, exec_id: &str| Ok(process(exec_id));
    let address = if passfd {
        Some(("/uds".to_owned(), 1027))
    } else {
        None
    };
    Container::new(1, config, spec, address, id, first).unwrap()
}

fn toml(shared_fs: Option<&str>) -> TomlConfig {
    let mut hypervisor = StringMap::new();
    hypervisor.insert(
        "qemu".to_owned(),
        HypervisorConfig {
            disable_guest_selinux: true,
            shared_fs: shared_fs.map(|fs| fs.to_owned()),
        },
    );
    TomlConfig {
        runtime: RuntimeConfig {
            hypervisor_name: "qemu".to_owned(),
            disable_guest_seccomp: false,
            disable_guest_empty_dir: false,
            emptydir_mode: "shared-fs".to_owned(),
            vfio_mode: String::new(),
            shared_mounts: vec![],
        },
        hypervisor,
    }
}

fn add(container: &mut Container, exec_id: &str) -> ContainerProcess {
    let added = process(exec_id);
    let description = OciProcess { selinux_label: None, rest: oci::Process::default() };
    container.exec_process(&toml(None), &added, None, None, None, false, description);
    added
}

/// The steps of a start, given which of them fail.
fn start(
    container: &mut Container,
    process: &ContainerProcess,
    fails: impl Fn(StartStep) -> bool,
) -> Vec<StartStep> {
    let mut steps = vec![container.start(process)];
    while !matches!(steps[steps.len() - 1], StartStep::Done | StartStep::Failed(_)) {
        let step = steps[steps.len() - 1];
        steps.push(container.start_next(process, step, !fails(step)));
        assert!(steps.len() <= 6);
    }
    steps
}

#[test]
fn a_container_is_started_and_its_streams_are_copied() {
    let mut container = container(None, true, false);
    assert_eq!(
        start(&mut container, &process(""), |_| false),
        vec![
            StartStep::StartContainer,
            StartStep::OpenContainerIo,
            StartStep::WatchContainerIo,
            StartStep::Done,
        ]
    );
    assert_eq!(
        start(&mut container, &process(""), |step| step == StartStep::OpenContainerIo),
        vec![
            StartStep::StartContainer,
            StartStep::OpenContainerIo,
            StartStep::Failed(StartFailure::Outside),
        ]
    );
}

#[test]
fn a_container_whose_streams_are_handed_over_is_only_watched() {
    let mut container = container(None, true, true);
    assert_eq!(
        start(&mut container, &process(""), |_| false),
        vec![
            StartStep::StartContainer,
            StartStep::WatchContainerPassfd,
            StartStep::Done,
        ]
    );
}

#[test]
fn what_cannot_be_started_is_stopped() {
    let mut container = container(None, true, false);
    let added = add(&mut container, "e1");
    for stop_fails in [true, false] {
        assert_eq!(
            start(&mut container, &process(""), |step| step == StartStep::StartContainer
                || stop_fails),
            vec![
                StartStep::StartContainer,
                StartStep::StopContainer,
                StartStep::Failed(StartFailure::Outside),
            ]
        );
        assert_eq!(
            start(&mut container, &added, |step| step == StartStep::StartExec || stop_fails),
            vec![
                StartStep::StartExec,
                StartStep::StopExec,
                StartStep::Failed(StartFailure::Outside),
            ]
        );
    }
}

#[test]
fn a_failed_start_reports_why_it_failed() {
    let mut container = container(None, true, false);
    let added = add(&mut container, "e1");
    for (process, start, stop) in [
        (&process(""), StartStep::StartContainer, StartStep::StopContainer),
        (&added, StartStep::StartExec, StartStep::StopExec),
    ] {
        for stopped in [Ok(()), Err("not stopped")] {
            let run = container.start_run(process);
            assert_eq!(run.step(), start);
            let run = container.start_answered(process, run, Err("not started"));
            assert_eq!(run.step(), stop);
            let run = container.start_answered(process, run, stopped);
            assert_eq!(run.step(), StartStep::Failed(StartFailure::Outside));
            // nothing that comes later counts
            let run = container.start_answered(process, run, Err("too late"));
            assert!(matches!(
                run.result(),
                Some(Err(StartError::Outside("not started")))
            ));
        }
    }
}

#[test]
fn a_start_reports_the_step_that_failed() {
    let mut plain = container(None, true, false);
    let init = process("");
    let run = plain.start_run(&init);
    let run = plain.start_answered(&init, run, Ok(()));
    let run = plain.start_answered(&init, run, Err("no streams"));
    assert!(matches!(run.result(), Some(Err(StartError::Outside("no streams")))));

    // a checkpoint that is not on the host is no error, one that cannot be restored is
    let mut restored = container(Some("/images"), true, false);
    let run = restored.start_run(&init);
    let run = restored.start_answered(&init, run, Err("no images"));
    assert_eq!(run.step(), StartStep::Restore);
    let run = restored.start_answered(&init, run, Err("not restored"));
    assert!(matches!(run.result(), Some(Err(StartError::Outside("not restored")))));

    let mut good = container(Some("/images"), true, false);
    let run = good.start_run(&init);
    let run = good.start_answered(&init, run, Err("no images"));
    let run = good.start_answered(&init, run, Ok(()));
    assert_eq!(good.inner.init_process.status, ProcessStatus::Running);
    let run = good.start_answered(&init, run, Ok(()));
    assert!(matches!(run.result(), Some(Ok(()))));

    let passfd = container(None, true, true);
    let run = passfd.start_run::<u8>(&process("e1"));
    assert!(matches!(run.result(), Some(Err(StartError::ProcessNotFound))));
    let run = passfd.start_run::<u8>(&init);
    assert!(run.result().is_none());
}

#[test]
fn an_added_process_is_started() {
    let mut legacy = container(None, true, false);
    let added = add(&mut legacy, "e1");
    assert_eq!(
        start(&mut legacy, &added, |_| false),
        vec![
            StartStep::StartExec,
            StartStep::OpenExecIo,
            StartStep::WatchExecIo,
            StartStep::Done,
        ]
    );
    let mut passfd = container(None, true, true);
    let added = add(&mut passfd, "e1");
    assert_eq!(
        start(&mut passfd, &added, |_| false),
        vec![
            StartStep::InitExecPassfd,
            StartStep::StartExec,
            StartStep::WatchExecPassfd,
            StartStep::Done,
        ]
    );
    assert_eq!(
        start(&mut passfd, &added, |_| true),
        vec![StartStep::InitExecPassfd, StartStep::Failed(StartFailure::Outside)]
    );
}

#[test]
fn an_unknown_process_is_not_started() {
    let mut passfd = container(None, true, true);
    assert_eq!(
        passfd.start(&process("e1")),
        StartStep::Failed(StartFailure::ProcessNotFound)
    );
    // without streams to hand over, the agent is asked first
    let mut legacy = container(None, true, false);
    assert_eq!(
        start(&mut legacy, &process("e1"), |_| false),
        vec![StartStep::StartExec, StartStep::Failed(StartFailure::ProcessNotFound)]
    );
    assert_eq!(
        legacy.start_next(&process("e1"), StartStep::OpenExecIo, true),
        StartStep::Failed(StartFailure::ProcessNotFound)
    );
}

#[test]
fn a_size_asked_for_before_the_start_is_applied_by_it() {
    let mut container = container(None, true, false);
    let added = add(&mut container, "e1");
    container.set_state(ProcessStatus::Running);
    assert_eq!(container.resize_pty(&added, 80, 25), Ok(ResizeAction::Skip));
    assert_eq!(
        start(&mut container, &added, |_| false),
        vec![
            StartStep::StartExec,
            StartStep::ResizeExec { height: 25, width: 80 },
            StartStep::OpenExecIo,
            StartStep::WatchExecIo,
            StartStep::Done,
        ]
    );
    // a size without height or width is none
    assert_eq!(container.resize_pty(&added, 80, 0), Ok(ResizeAction::Skip));
    assert_eq!(
        container.start_next(&added, StartStep::StartExec, true),
        StartStep::OpenExecIo
    );
}

#[test]
fn a_container_with_a_checkpoint_is_restored() {
    let mut staged = container(Some("/images"), true, false);
    assert_eq!(
        start(&mut staged, &process(""), |_| false),
        vec![
            StartStep::ProbeCheckpoint,
            StartStep::CreateStagingDir,
            StartStep::StageImages,
            StartStep::Restore,
            StartStep::WatchRestored,
            StartStep::Done,
        ]
    );
    assert_eq!(staged.inner.init_process.status, ProcessStatus::Running);

    // no images on the host, no place for them, or no path to them: the root filesystem has them
    let restore = vec![StartStep::Restore, StartStep::WatchRestored, StartStep::Done];
    let mut missing = container(Some("/images"), true, false);
    let steps = start(&mut missing, &process(""), |step| step == StartStep::ProbeCheckpoint);
    assert_eq!(steps[0], StartStep::ProbeCheckpoint);
    assert_eq!(steps[1..], restore);
    let mut placeless = container(Some("/images"), false, false);
    let steps = start(&mut placeless, &process(""), |_| false);
    assert_eq!(steps[0], StartStep::ProbeCheckpoint);
    assert_eq!(steps[1..], restore);
    let mut pathless = container(Some(""), true, true);
    assert_eq!(start(&mut pathless, &process(""), |_| false), restore);
}

#[test]
fn a_failed_restore_leaves_the_container_as_it_was() {
    let mut container = container(Some("/images"), true, false);
    let steps = start(&mut container, &process(""), |step| step == StartStep::Restore);
    assert_eq!(steps[steps.len() - 1], StartStep::Failed(StartFailure::Outside));
    assert_eq!(container.inner.init_process.status, ProcessStatus::Created);
    // an added process of such a container is started
    let added = add(&mut container, "e1");
    assert_eq!(container.start(&added), StartStep::StartExec);
}

#[test]
fn images_have_their_places() {
    let known = container(None, true, false);
    assert_eq!(known.guest_image_path(), "/run/kata-containers/c1/rootfs/.kata-cr");
    assert_eq!(known.host_image_path(), Some("/upper/.kata-cr".to_owned()));
    assert_eq!(
        known.cri_dir(),
        "/var/lib/containerd/io.containerd.grpc.v1.cri/containers/c1"
    );
    assert_eq!(container(None, false, false).host_image_path(), None);

    let request = known.checkpoint_request();
    assert_eq!(request.container_id, "c1");
    assert_eq!(request.image_path, "/run/kata-containers/c1/rootfs/.kata-cr");
    // a start restores from where a checkpoint is dumped to
    let request = known.start_restore_request();
    assert_eq!(request.container_id, "c1");
    assert_eq!(request.image_path, known.checkpoint_request().image_path);
    let request = known.restore("/somewhere");
    assert_eq!(request.container_id, "c1");
    assert_eq!(request.image_path, "/somewhere");
}

#[test]
fn images_are_staged_from_the_checkpoint() {
    assert_eq!(
        container(Some("/images"), true, false).staging_paths(),
        Some(("/images".to_owned(), "/upper/.kata-cr".to_owned()))
    );
    assert_eq!(container(Some("/images"), false, false).staging_paths(), None);
    assert_eq!(container(Some(""), true, false).staging_paths(), None);
    assert_eq!(container(None, true, false).staging_paths(), None);
}

/// The steps of a checkpoint, given which of them fail.
fn checkpoint(
    container: &Container,
    path: &str,
    fails: impl Fn(CheckpointStep) -> bool,
) -> Vec<CheckpointStep> {
    let mut steps = vec![container.checkpoint()];
    loop {
        let step = steps[steps.len() - 1];
        match step {
            CheckpointStep::Done | CheckpointStep::DoneInRootfs | CheckpointStep::Failed => {
                return steps;
            }
            _ => steps.push(container.checkpoint_next(path, step, !fails(step))),
        }
        assert!(steps.len() <= 8);
    }
}

#[test]
fn images_are_copied_to_every_target() {
    let container = container(None, true, false);
    assert_eq!(
        checkpoint(&container, "/ckpt", |_| false),
        vec![
            CheckpointStep::Dump,
            CheckpointStep::ProbeImages,
            CheckpointStep::ProbeCriDir,
            CheckpointStep::CreateTarget { cri: true, index: 0 },
            CheckpointStep::CopyToTarget { cri: true, index: 0 },
            CheckpointStep::CreateTarget { cri: true, index: 1 },
            CheckpointStep::CopyToTarget { cri: true, index: 1 },
            CheckpointStep::Done,
        ]
    );
    assert_eq!(
        checkpoint(&container, "/ckpt", |step| step == CheckpointStep::ProbeCriDir)[3..],
        [
            CheckpointStep::CreateTarget { cri: false, index: 0 },
            CheckpointStep::CopyToTarget { cri: false, index: 0 },
            CheckpointStep::Done,
        ]
    );
    assert_eq!(
        checkpoint(&container, "", |step| step == CheckpointStep::ProbeCriDir)[3..],
        [CheckpointStep::Done]
    );
    let cri = container.cri_dir();
    assert_eq!(
        container.checkpoint_targets("/ckpt", true),
        vec!["/ckpt".to_owned(), cri.clone()]
    );
    assert_eq!(container.checkpoint_targets("/ckpt", false), vec!["/ckpt".to_owned()]);
    assert_eq!(container.checkpoint_targets("", true), vec![cri]);
    assert!(container.checkpoint_targets("", false).is_empty());
}

#[test]
fn images_that_are_not_on_the_host_stay_in_the_guest() {
    let unknown = container(None, false, false);
    assert_eq!(
        checkpoint(&unknown, "/ckpt", |_| false),
        vec![CheckpointStep::Dump, CheckpointStep::DoneInRootfs]
    );
    let known = container(None, true, false);
    assert_eq!(
        checkpoint(&known, "/ckpt", |step| step == CheckpointStep::ProbeImages),
        vec![
            CheckpointStep::Dump,
            CheckpointStep::ProbeImages,
            CheckpointStep::Done,
        ]
    );
}

#[test]
fn a_checkpoint_fails_with_its_work() {
    let container = container(None, true, false);
    for failing in [
        CheckpointStep::Dump,
        CheckpointStep::CreateTarget { cri: true, index: 0 },
        CheckpointStep::CopyToTarget { cri: true, index: 1 },
    ] {
        let steps = checkpoint(&container, "/ckpt", |step| step == failing);
        assert_eq!(steps[steps.len() - 2], failing);
        assert_eq!(steps[steps.len() - 1], CheckpointStep::Failed);
    }
}

#[test]
fn contents_are_copied_with_their_attributes() {
    assert_eq!(copy_dir_contents("/from", "/to"), vec!["-a", "/from/.", "/to/"]);
    assert_eq!(copy_dir_contents("", "x/"), vec!["-a", "/.", "x//"]);
}

#[test]
fn a_container_is_stopped_between_its_message_and_its_resources() {
    let container = container(None, true, false);
    let init = process("");
    assert_eq!(container.stop_process(&init), StopStep::CopyTerminationLog);
    for copied in [true, false] {
        assert_eq!(
            container.stop_next(&init, StopStep::CopyTerminationLog, copied),
            StopStep::StopProcess
        );
    }
    assert_eq!(
        container.stop_next(&init, StopStep::StopProcess, true),
        StopStep::ReleaseResources
    );
    assert_eq!(container.stop_next(&init, StopStep::StopProcess, false), StopStep::Failed);
    assert_eq!(container.stop_next(&init, StopStep::ReleaseResources, true), StopStep::Done);
    assert_eq!(container.stop_next(&init, StopStep::ReleaseResources, false), StopStep::Failed);
    assert_eq!(container.stop_next(&init, StopStep::Done, false), StopStep::Done);
    assert_eq!(container.stop_next(&init, StopStep::Failed, true), StopStep::Failed);
}

#[test]
fn an_added_process_is_just_stopped() {
    let container = container(None, true, false);
    let added = process("e1");
    assert_eq!(container.stop_process(&added), StopStep::StopProcess);
    assert_eq!(container.stop_next(&added, StopStep::StopProcess, true), StopStep::Done);
    assert_eq!(container.stop_next(&added, StopStep::StopProcess, false), StopStep::Failed);
}

fn with_message(policy: Option<&str>, path: Option<&str>, mounts: Vec<(&str, Option<&str>)>) -> Container {
    let mut container = container(None, true, false);
    let mut annotations = StringMap::new();
    if let Some(policy) = policy {
        annotations.insert(
            "io.kubernetes.container.terminationMessagePolicy".to_owned(),
            policy.to_owned(),
        );
    }
    if let Some(path) = path {
        annotations.insert(
            "io.kubernetes.container.terminationMessagePath".to_owned(),
            path.to_owned(),
        );
    }
    container.spec.annotations = Some(annotations);
    container.spec.mounts = Some(
        mounts
            .into_iter()
            .map(|(destination, source)| Mount {
                destination: FsPath::Text(destination.to_owned()),
                typ: None,
                source: source.map(|source| FsPath::Text(source.to_owned())),
                options: None,
            })
            .collect(),
    );
    container
}

#[test]
fn a_termination_message_goes_to_the_mounted_file() {
    let container = with_message(
        Some("File"),
        Some("/dev/termination-log"),
        vec![
            ("/etc/hosts", Some("/host/hosts")),
            ("/dev//termination-log/", Some("/host/message")),
            ("/dev/termination-log", Some("/host/other")),
        ],
    );
    match container.copy_termination_log(&toml(None)) {
        TerminationLog::Fetch { host_path: FsPath::Text(path) } => {
            assert_eq!(path, "/host/message");
        }
        _ => panic!("the message is not fetched"),
    }
    assert!(matches!(
        container.copy_termination_log(&toml(Some("virtio-fs"))),
        TerminationLog::Skip
    ));
    let request = container.termination_log_request();
    assert_eq!(request.log_type, "termination_log");
    assert_eq!(request.container_id, "c1");
}

#[test]
fn a_termination_message_without_a_file_is_not_copied() {
    let path = Some("/dev/termination-log");
    let mounts = vec![("/dev/termination-log", Some("/host/message"))];
    for (policy, path) in [
        (None, path),
        (Some("FallbackToLogsOnError"), path),
        (Some("file"), path),
        (Some("File"), None),
        (Some("File"), Some("")),
    ] {
        let container = with_message(policy, path, mounts.clone());
        assert!(matches!(container.copy_termination_log(&toml(None)), TerminationLog::Skip));
    }
    let mut bare = container(None, true, false);
    assert!(matches!(bare.copy_termination_log(&toml(None)), TerminationLog::Skip));

    bare = with_message(Some("File"), path, vec![("/dev", Some("/host/dev"))]);
    assert!(matches!(bare.copy_termination_log(&toml(None)), TerminationLog::NoHostMount));
    // the first mount there counts, even where it has no source
    bare = with_message(
        Some("File"),
        path,
        vec![("/dev/termination-log", None), ("/dev/termination-log", Some("/host/message"))],
    );
    assert!(matches!(bare.copy_termination_log(&toml(None)), TerminationLog::NoHostMount));
    bare.spec.mounts = None;
    assert!(matches!(bare.copy_termination_log(&toml(None)), TerminationLog::NoHostMount));
}

#[test]
fn an_unknown_hypervisor_shares_no_filesystem() {
    let mut settings = toml(Some("virtio-fs"));
    assert!(has_shared_fs(&settings));
    settings.runtime.hypervisor_name = "other".to_owned();
    assert!(!has_shared_fs(&settings));
    assert!(!has_shared_fs(&toml(None)));
}

#[test]
fn only_a_message_with_content_is_written() {
    assert_eq!(
        termination_message(Ok::<String, u8>("bye".to_owned())),
        Some("bye".to_owned())
    );
    assert_eq!(termination_message(Ok::<String, u8>(String::new())), None);
    assert_eq!(termination_message(Err::<String, u8>(1)), None);
}
