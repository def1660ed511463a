//! The way from a specification to the request that has the agent create a container.

use oci_spec::runtime as oci;
use virt_container::amend::is_pid_namespace_enabled;
use virt_container::config::{
    ContainerConfig, HypervisorConfig, RuntimeConfig, SharedMount, TomlConfig,
};
use virt_container::container::Container;
use virt_container::create::{
    create_answered, keeps_rootfs, kept_volumes, AnnotationNames, CreateContainerRequest,
    CreateEnd, CreateFailure, DevicesPending, RequestPending, RootfsParts, StreamsStep, VolumeParts, VolumesPending,
};
use virt_container::error::Error;
use virt_container::oci::{
    LinuxDevice, LinuxDeviceType, LinuxNamespace, LinuxNamespaceType, Mount, OciLinux, OciProcess,
    OciResources, OciSpec, Root,
};
use virt_container::path::FsPath;
use virt_container::process::{ContainerID, ContainerProcess, PassfdIo, ProcessType};
use virt_container::string_map::StringMap;

fn names() -> AnnotationNames {
    AnnotationNames {
        container_type_key: "type".to_owned(),
        pod_container: "pod_container".to_owned(),
        pod_sandbox: "pod_sandbox".to_owned(),
        bundle_path_key: "bundle".to_owned(),
        init_data_key: "init_data".to_owned(),
    }
}

fn update_annotations(
    annotations: &StringMap<String>,
    removed: &Vec<String>,
    added: &Vec<(String, String)>,
) -> StringMap<String> {
    let mut updated = annotations.duplicate();
    for key in removed {
        updated.remove(key);
    }
    for (key, value) in added {
        updated.insert(key.clone(), value.clone());
    }
    updated
}

fn no_ephemeral_volumes(_: &mut OciSpec, _: bool, _: &str) {}

fn container() -> Container {
    let config = ContainerConfig {
        container_id: "c1".to_owned(),
        bundle: "/bundle".to_owned(),
        rootfs_mounts: vec![],
        terminal: false,
        options: None,
        stdin: None,
        stdout: None,
        stderr: None,
        checkpoint: None,
    };
    let id = |id: &str| Ok::<_, ()>(ContainerID { container_id: id.to_owned() });
    let process = |id: &str, exec_id: &str| {
        Ok(ContainerProcess {
            container_id: ContainerID { container_id: id.to_owned() },
            exec_id: exec_id.to_owned(),
            process_type: ProcessType::Container,
        })
    };
    Container::new(1, config, spec(), None, id, process).unwrap()
}

fn text(path: &str) -> FsPath {
    FsPath::Text(path.to_owned())
}

fn device(path: &str) -> LinuxDevice {
    LinuxDevice {
        path: text(path),
        typ: LinuxDeviceType::C,
        major: 1,
        minor: 2,
        file_mode: None,
        uid: None,
        gid: None,
    }
}

fn mount(destination: &str) -> Mount {
    Mount { destination: text(destination), typ: None, source: None, options: None }
}

fn spec() -> OciSpec {
    let mut annotations = StringMap::new();
    annotations.insert("init_data".to_owned(), "secret".to_owned());
    annotations.insert("kept".to_owned(), "value".to_owned());
    OciSpec {
        annotations: Some(annotations),
        hooks: None,
        linux: Some(OciLinux {
            devices: None,
            mount_label: Some("label".to_owned()),
            namespaces: Some(vec![LinuxNamespace {
                typ: LinuxNamespaceType::Pid,
                path: Some(text("/proc/1/ns/pid")),
            }]),
            resources: None,
            seccomp: Some(oci::LinuxSeccomp::default()),
            rest: oci::Linux::default(),
        }),
        mounts: Some(vec![mount("/own")]),
        process: Some(OciProcess {
            selinux_label: Some("label".to_owned()),
            rest: oci::Process::default(),
        }),
        root: Some(Root { path: text("rootfs"), readonly: Some(true) }),
        rest: oci::Spec::default(),
    }
}

fn shared(name: &str, dst_ctr: &str) -> SharedMount {
    SharedMount {
        name: name.to_owned(),
        src_ctr: "source".to_owned(),
        src_path: "/from".to_owned(),
        dst_ctr: dst_ctr.to_owned(),
        dst_path: "/to".to_owned(),
    }
}

fn toml() -> TomlConfig {
    let mut hypervisor = StringMap::new();
    hypervisor.insert(
        "qemu".to_owned(),
        HypervisorConfig { disable_guest_selinux: false, shared_fs: None },
    );
    TomlConfig {
        runtime: RuntimeConfig {
            hypervisor_name: "qemu".to_owned(),
            disable_guest_seccomp: true,
            disable_guest_empty_dir: true,
            emptydir_mode: "mode".to_owned(),
            vfio_mode: "guest-kernel".to_owned(),
            shared_mounts: vec![
                shared("one", "web"),
                shared("two", "db"),
                shared("three", "web"),
            ],
        },
        hypervisor,
    }
}

fn limits() -> OciResources {
    OciResources {
        block_io: Some(oci::LinuxBlockIo::default()),
        devices: Some(vec![oci::LinuxDeviceCgroup::default()]),
        network: Some(oci::LinuxNetwork::default()),
        pids: Some(oci::LinuxPids::default()),
        rest: oci::LinuxResourcesBuilder::default()
            .cpu(oci::LinuxCpuBuilder::default().shares(9u64).build().unwrap())
            .build()
            .unwrap(),
    }
}

type Failure = &'static str;

fn begin(container: &Container, toml: &TomlConfig, spec: OciSpec) -> VolumesPending<&'static str> {
    container
        .create(spec, toml, &names(), |_: &OciSpec| true, update_annotations, no_ephemeral_volumes)
        .ok()
        .unwrap()
        .rootfs_handled(Ok::<_, Failure>(RootfsParts {
            guest_path: Ok("/guest/rootfs".to_owned()),
            storage: Some(vec!["rootfs"]),
        }))
        .ok()
        .unwrap()
}

fn to_devices(container: &Container, toml: &TomlConfig) -> DevicesPending<&'static str> {
    let volumes = vec![
        VolumeParts { mounts: Ok(vec![mount("/a"), mount("/b")]), storages: Ok(vec!["first"]) },
        VolumeParts { mounts: Ok(vec![]), storages: Ok(vec![]) },
        VolumeParts { mounts: Ok(vec![mount("/c")]), storages: Ok(vec!["second", "third"]) },
    ];
    begin(container, toml, spec()).volumes_handled(Ok::<_, Failure>(volumes)).ok().unwrap()
}

fn write_devices(spec: &mut OciSpec, found: Vec<u8>) -> Result<Vec<u8>, Failure> {
    if let Some(linux) = &mut spec.linux {
        linux.devices =
            Some(vec![device("/dev/vfio/1"), device("/dev/null"), device("/dev/vfio/2")]);
    }
    Ok(found)
}

fn name(_: &OciSpec) -> String {
    "web".to_owned()
}

/// Creates a container, with devices that the device stage writes into the specification.
fn create(
    container: &mut Container,
    toml: &TomlConfig,
    limits: Option<OciResources>,
    io: Option<PassfdIo>,
) -> CreateContainerRequest<&'static str, u8> {
    let step = to_devices(container, toml)
        .devices_handled(Ok::<_, Failure>(vec![4u8, 5]), write_devices)
        .ok()
        .unwrap()
        .resources_handled(Ok::<_, Failure>(limits), toml)
        .ok()
        .unwrap()
        .streams(container);
    let pending: RequestPending<&'static str, u8> = match step {
        StreamsStep::HandOver { uds_path, port, streams } => {
            assert_eq!((uds_path.as_str(), port), ("/uds", 1027));
            streams
                .streams_handled(container, Ok::<_, Failure>(io.unwrap()))
                .ok()
                .unwrap()
        }
        StreamsStep::Ready { pending } => {
            assert!(io.is_none());
            pending
        }
    };
    pending.request(container, toml, name)
}

fn texts<'a>(paths: impl Iterator<Item = &'a FsPath>) -> Vec<String> {
    paths
        .map(|path| match path {
            FsPath::Text(text) => text.clone(),
            FsPath::Raw(_) => String::new(),
        })
        .collect()
}

#[test]
fn the_specification_is_annotated_and_amended_first() {
    let container = container();
    let pending = container
        .create(
            spec(),
            &toml(),
            &names(),
            |_: &OciSpec| true,
            update_annotations,
            |_: &mut OciSpec, disable, mode: &str| {
                assert!(disable);
                assert_eq!(mode, "mode");
            },
        )
        .ok()
        .unwrap();
    // read before the namespaces are dropped
    assert!(pending.sandbox_pidns);
    let linux = pending.spec.linux.as_ref().unwrap();
    assert!(linux.namespaces.is_none());
    assert!(linux.seccomp.is_none());
    assert_eq!(linux.mount_label, Some("label".to_owned()));
    for annotations in [&pending.annotations, pending.spec.annotations.as_ref().unwrap()] {
        assert_eq!(annotations.get("type").unwrap(), "pod_container");
        assert_eq!(annotations.get("bundle").unwrap(), "/bundle");
        assert_eq!(annotations.get("kept").unwrap(), "value");
        assert!(!annotations.contains_key("init_data"));
    }
}

#[test]
fn a_container_outside_a_pod_is_a_sandbox() {
    let mut bare = spec();
    bare.annotations = None;
    let pending = container()
        .create(bare, &toml(), &names(), |_: &OciSpec| false, update_annotations, no_ephemeral_volumes)
        .ok()
        .unwrap();
    assert_eq!(pending.annotations.get("type").unwrap(), "pod_sandbox");
    assert!(!pending.annotations.contains_key("kept"));
}

#[test]
fn labels_go_where_selinux_is_off() {
    let mut settings = toml();
    settings.runtime.hypervisor_name = "unknown".to_owned();
    let pending = container()
        .create(spec(), &settings, &names(), |_: &OciSpec| true, update_annotations, no_ephemeral_volumes)
        .ok()
        .unwrap();
    assert_eq!(pending.spec.linux.unwrap().mount_label, None);
    assert_eq!(pending.spec.process.unwrap().selinux_label, None);
}

#[test]
fn a_specification_needs_a_root() {
    let mut bare = spec();
    bare.root = None;
    let refused = container().create(
        bare,
        &toml(),
        &names(),
        |_: &OciSpec| true,
        update_annotations,
        no_ephemeral_volumes,
    );
    assert_eq!(refused.err(), Some(Error::MissingRoot));
}

#[test]
fn a_specification_needs_a_linux_part() {
    let mut bare = spec();
    bare.linux = None;
    let pending = begin(&container(), &toml(), bare);
    assert!(!pending.sandbox_pidns);
    assert!(matches!(
        pending.volumes_handled(Ok::<_, Failure>(vec![])).err(),
        Some(CreateFailure::Refused(Error::MissingLinux))
    ));
}

#[test]
fn the_root_filesystem_is_the_guests() {
    let pending = begin(&container(), &toml(), spec());
    let root = pending.spec.root.unwrap();
    assert!(matches!(root.path, FsPath::Text(path) if path == "/guest/rootfs"));
    assert_eq!(root.readonly, Some(true));
    assert_eq!(pending.storages, vec!["rootfs"]);

    let pending = container()
        .create(spec(), &toml(), &names(), |_: &OciSpec| true, update_annotations, no_ephemeral_volumes)
        .ok()
        .unwrap()
        .rootfs_handled(Ok::<_, Failure>(RootfsParts::<u8, Failure> {
            guest_path: Ok("/guest".to_owned()),
            storage: None,
        }))
        .ok()
        .unwrap();
    assert!(pending.storages.is_empty());
}

#[test]
fn a_failed_root_filesystem_ends_the_creation() {
    let rootfs = || {
        container()
            .create(spec(), &toml(), &names(), |_: &OciSpec| true, update_annotations, no_ephemeral_volumes)
            .ok()
            .unwrap()
    };
    let failed = rootfs().rootfs_handled(Err::<RootfsParts<u8, Failure>, _>("no rootfs"));
    assert_eq!(failed.err(), Some("no rootfs"));
    let failed = rootfs().rootfs_handled(Ok(RootfsParts::<u8, Failure> {
        guest_path: Err("no path"),
        storage: Some(vec![1]),
    }));
    assert_eq!(failed.err(), Some("no path"));
}

#[test]
fn the_first_failed_part_of_the_volumes_ends_the_creation() {
    let fails = |volumes| match begin(&container(), &toml(), spec()).volumes_handled(volumes) {
        Err(CreateFailure::Outside(error)) => error,
        _ => "nothing",
    };
    let good = || VolumeParts { mounts: Ok(vec![mount("/a")]), storages: Ok(vec!["a"]) };
    assert_eq!(fails(Err("no volumes")), "no volumes");
    assert_eq!(
        fails(Ok(vec![
            good(),
            VolumeParts { mounts: Err("mounts"), storages: Err("storages") },
            VolumeParts { mounts: Err("later"), storages: Ok(vec![]) },
        ])),
        "mounts"
    );
    assert_eq!(
        fails(Ok(vec![
            good(),
            VolumeParts { mounts: Ok(vec![]), storages: Err("storages") },
            VolumeParts { mounts: Err("later"), storages: Ok(vec![]) },
        ])),
        "storages"
    );
    assert_eq!(fails(Ok(vec![good()])), "nothing");

    // work that fails comes before a missing Linux part
    let mut bare = spec();
    bare.linux = None;
    assert!(matches!(
        begin(&container(), &toml(), bare).volumes_handled(Err("no volumes")),
        Err(CreateFailure::Outside("no volumes"))
    ));
}

#[test]
fn what_was_set_up_before_a_failure_is_kept() {
    let good = || VolumeParts { mounts: Ok(vec![mount("/a")]), storages: Ok(vec![1u8]) };
    let no_mounts = || VolumeParts { mounts: Err("mounts"), storages: Ok(vec![]) };
    let no_storages = || VolumeParts { mounts: Ok(vec![]), storages: Err("storages") };
    assert_eq!(kept_volumes::<u8, Failure>(&vec![]), 0);
    assert_eq!(kept_volumes(&vec![good(), good()]), 2);
    assert_eq!(kept_volumes(&vec![good(), no_mounts(), good()]), 1);
    assert_eq!(kept_volumes(&vec![good(), good(), no_storages()]), 2);
    assert_eq!(kept_volumes(&vec![no_storages(), good()]), 0);

    let parts = |guest_path| Ok(RootfsParts::<u8, Failure> { guest_path, storage: None });
    assert!(keeps_rootfs(&parts(Ok("/guest".to_owned()))));
    assert!(!keeps_rootfs(&parts(Err("no path"))));
    assert!(!keeps_rootfs(&Err::<RootfsParts<u8, Failure>, _>("no rootfs")));
}

#[test]
fn failed_devices_and_limits_end_the_creation() {
    let devices = || to_devices(&container(), &toml());
    let failed = devices().devices_handled(Err("no devices"), write_devices);
    assert_eq!(failed.err(), Some("no devices"));
    let failed = devices().devices_handled(Ok(vec![1u8]), |_: &mut OciSpec, _: Vec<u8>| {
        Err::<Vec<u8>, Failure>("not annotated")
    });
    assert_eq!(failed.err(), Some("not annotated"));
    let failed = devices()
        .devices_handled(Ok(vec![1u8]), write_devices)
        .ok()
        .unwrap()
        .resources_handled(Err("no limits"), &toml());
    assert_eq!(failed.err(), Some("no limits"));
}

#[test]
fn the_devices_are_written_into_what_was_settled() {
    let pending = to_devices(&container(), &toml())
        .devices_handled(Ok::<_, Failure>(vec![1u8, 2]), |spec: &mut OciSpec, found: Vec<u8>| {
            assert_eq!(found, vec![1, 2]);
            let mounts = spec.mounts.as_ref().unwrap();
            assert_eq!(texts(mounts.iter().map(|m| &m.destination)), vec!["/a", "/b", "/c"]);
            assert!(spec.linux.as_ref().unwrap().namespaces.is_none());
            spec.process = None;
            Ok::<Vec<u8>, Failure>(vec![9])
        })
        .ok()
        .unwrap();
    assert!(pending.spec.process.is_none());
    assert_eq!(pending.devices, vec![9]);
}

#[test]
fn failed_streams_end_the_creation() {
    let mut container = container();
    container.passfd_listener_addr = Some(("/uds".to_owned(), 1027));
    let step = to_devices(&container, &toml())
        .devices_handled(Ok::<_, Failure>(vec![1u8]), write_devices)
        .ok()
        .unwrap()
        .resources_handled(Ok::<_, Failure>(None), &toml())
        .ok()
        .unwrap()
        .streams(&container);
    match step {
        StreamsStep::HandOver { streams, .. } => {
            let failed = streams.streams_handled(&mut container, Err("no streams"));
            assert_eq!(failed.err(), Some("no streams"));
            assert_eq!(container.inner.init_process.passfd_io, None);
        }
        StreamsStep::Ready { .. } => panic!("the streams are not handed over"),
    }
}

#[test]
fn resources_are_dumped_after_success_only() {
    assert!(matches!(create_answered(Ok::<(), Failure>(())), CreateEnd::Dump));
    assert!(matches!(
        create_answered(Err("refused")),
        CreateEnd::Failed { error: "refused" }
    ));
}

#[test]
fn the_request_holds_what_was_settled() {
    let mut container = container();
    let request = create(&mut container, &toml(), Some(limits()), None);
    assert_eq!(request.process_id.container_id, "c1");
    assert_eq!(request.process_id.exec_id, "");
    assert!(request.sandbox_pidns);
    // while the specification for the guest shares nothing
    assert!(!is_pid_namespace_enabled(&request.oci));
    assert!(request.oci.linux.as_ref().unwrap().namespaces.is_none());
    assert_eq!(request.storages, vec!["rootfs", "first", "second", "third"]);
    assert_eq!(request.devices, vec![4, 5]);
    let mounts = request.oci.mounts.as_ref().unwrap();
    assert_eq!(texts(mounts.iter().map(|m| &m.destination)), vec!["/a", "/b", "/c"]);
    let names: Vec<&str> = request.shared_mounts.iter().map(|m| m.name.as_str()).collect();
    assert_eq!(names, vec!["one", "three"]);
    let first = &request.shared_mounts[0];
    assert_eq!(first.src_ctr, "source");
    assert_eq!(first.src_path, "/from");
    assert_eq!(first.dst_ctr, "web");
    assert_eq!(first.dst_path, "/to");
    assert_eq!(request.stdin_port, None);
    assert_eq!(request.stdout_port, None);
    assert_eq!(request.stderr_port, None);
}

#[test]
fn the_guest_gets_supported_limits_only() {
    let mut container = container();
    let request = create(&mut container, &toml(), Some(limits()), None);
    let resources = request.oci.linux.unwrap().resources.unwrap();
    assert!(resources.block_io.is_none());
    assert!(resources.devices.is_none());
    assert!(resources.network.is_none());
    assert!(resources.pids.is_none());
    assert_eq!(resources.rest, limits().rest);

    let request = create(&mut container, &toml(), None, None);
    assert!(request.oci.linux.unwrap().resources.is_none());
}

#[test]
fn vfio_devices_reach_the_guest_in_vfio_mode_only() {
    let mut settings = toml();
    let devices = |settings: &TomlConfig| {
        let linux = create(&mut container(), settings, None, None).oci.linux.unwrap();
        texts(linux.devices.unwrap().iter().map(|d| &d.path))
    };
    assert_eq!(devices(&settings), vec!["/dev/null"]);
    settings.runtime.vfio_mode = "vfio".to_owned();
    assert_eq!(devices(&settings), vec!["/dev/vfio/1", "/dev/null", "/dev/vfio/2"]);
    settings.runtime.vfio_mode = String::new();
    assert_eq!(devices(&settings), vec!["/dev/null"]);
}

#[test]
fn a_specification_that_lost_its_linux_part_gets_no_limits() {
    let container = container();
    let step = to_devices(&container, &toml())
        .devices_handled(Ok::<_, Failure>(vec![1u8]), |spec: &mut OciSpec, _: Vec<u8>| {
            spec.linux = None;
            Ok::<Vec<u8>, Failure>(vec![])
        })
        .ok()
        .unwrap()
        .resources_handled(Ok::<_, Failure>(Some(limits())), &toml())
        .ok()
        .unwrap()
        .streams(&container);
    match step {
        StreamsStep::Ready { pending } => {
            let request = pending.request(&container, &toml(), |_: &OciSpec| "nobody".to_owned());
            assert!(request.oci.linux.is_none());
            assert!(request.shared_mounts.is_empty());
        }
        StreamsStep::HandOver { .. } => panic!("there is nowhere to hand streams over"),
    }
}

#[test]
fn the_request_names_the_connections_of_streams_that_were_handed_over() {
    let mut container = container();
    container.passfd_listener_addr = Some(("/uds".to_owned(), 1027));
    let io = PassfdIo { stdin_port: None, stdout_port: Some(1002), stderr_port: Some(1003) };
    let request = create(&mut container, &toml(), None, Some(io));
    assert_eq!(request.stdin_port, None);
    assert_eq!(request.stdout_port, Some(1002));
    assert_eq!(request.stderr_port, Some(1003));
    assert_eq!(container.inner.init_process.passfd_io, Some(io));
}
