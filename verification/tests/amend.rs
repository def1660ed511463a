//! The specification of a container as it is rewritten for the guest.

use std::path::Path;

use oci_spec::runtime as oci;
use virt_container::amend::{amend_spec, filter_vfio_devices, is_pid_namespace_enabled};
use virt_container::oci::{
    Hooks, LinuxDevice, LinuxDeviceType, LinuxNamespace, LinuxNamespaceType, Mount, OciLinux,
    OciProcess, OciSpec, Root,
};
use virt_container::path::FsPath;

fn path(path: &Path) -> FsPath {
    FsPath::Text(path.to_str().unwrap().to_owned())
}

fn namespace(namespace: &oci::LinuxNamespace) -> LinuxNamespace {
    LinuxNamespace {
        typ: match namespace.typ() {
            oci::LinuxNamespaceType::Mount => LinuxNamespaceType::Mount,
            oci::LinuxNamespaceType::Cgroup => LinuxNamespaceType::Cgroup,
            oci::LinuxNamespaceType::Uts => LinuxNamespaceType::Uts,
            oci::LinuxNamespaceType::Ipc => LinuxNamespaceType::Ipc,
            oci::LinuxNamespaceType::User => LinuxNamespaceType::User,
            oci::LinuxNamespaceType::Pid => LinuxNamespaceType::Pid,
            oci::LinuxNamespaceType::Network => LinuxNamespaceType::Network,
            oci::LinuxNamespaceType::Time => LinuxNamespaceType::Time,
        },
        path: namespace.path().as_ref().map(|p| path(p)),
    }
}

fn device(device: &oci::LinuxDevice) -> LinuxDevice {
    LinuxDevice {
        path: path(device.path()),
        typ: match device.typ() {
            oci::LinuxDeviceType::A => LinuxDeviceType::A,
            oci::LinuxDeviceType::B => LinuxDeviceType::B,
            oci::LinuxDeviceType::C => LinuxDeviceType::C,
            oci::LinuxDeviceType::U => LinuxDeviceType::U,
            oci::LinuxDeviceType::P => LinuxDeviceType::P,
        },
        major: device.major(),
        minor: device.minor(),
        file_mode: device.file_mode(),
        uid: device.uid(),
        gid: device.gid(),
    }
}

fn linux(linux: oci::Linux) -> OciLinux {
    OciLinux {
        devices: linux.devices().as_ref().map(|l| l.iter().map(device).collect()),
        mount_label: linux.mount_label().clone(),
        namespaces: linux.namespaces().as_ref().map(|l| l.iter().map(namespace).collect()),
        resources: None,
        seccomp: linux.seccomp().clone(),
        rest: linux,
    }
}

fn spec(spec: oci::Spec) -> OciSpec {
    OciSpec {
        annotations: None,
        hooks: spec.hooks().as_ref().map(|h| Hooks {
            prestart: None,
            create_runtime: h.create_runtime().clone(),
            create_container: h.create_container().clone(),
            start_container: h.start_container().clone(),
            poststart: h.poststart().clone(),
            poststop: h.poststop().clone(),
        }),
        linux: spec.linux().clone().map(linux),
        mounts: None,
        process: spec.process().as_ref().map(|p| OciProcess {
            selinux_label: p.selinux_label().clone(),
            rest: p.clone(),
        }),
        root: spec.root().as_ref().map(|r| Root {
            path: path(r.path()),
            readonly: r.readonly(),
        }),
        rest: spec,
    }
}

/// Leaves the mounts as they are.
fn no_ephemeral_volumes(_: &mut OciSpec, _: bool, _: &str) {}

#[test]
fn test_amend_spec_disable_guest_seccomp() {
    let mut oci_spec = oci::Spec::default();
    let mut oci_linux = oci::Linux::default();
    oci_linux.set_seccomp(Some(oci::LinuxSeccomp::default()));
    oci_spec.set_linux(Some(oci_linux));
    let mut spec = spec(oci_spec);

    assert!(spec.linux.as_ref().unwrap().seccomp.is_some());

    // disable_guest_seccomp = false
    amend_spec(&mut spec, false, false, false, "shared-fs", no_ephemeral_volumes).unwrap();
    assert!(spec.linux.as_ref().unwrap().seccomp.is_some());

    // disable_guest_seccomp = true
    amend_spec(&mut spec, true, false, false, "shared-fs", no_ephemeral_volumes).unwrap();
    assert!(spec.linux.as_ref().unwrap().seccomp.is_none());
}

#[test]
fn test_amend_spec_disable_guest_selinux() {
    let mut spec = spec(
        oci::SpecBuilder::default()
            .process(
                oci::ProcessBuilder::default()
                    .selinux_label("xxx".to_owned())
                    .build()
                    .unwrap(),
            )
            .linux(
                oci::LinuxBuilder::default()
                    .mount_label("yyy".to_owned())
                    .build()
                    .unwrap(),
            )
            .build()
            .unwrap(),
    );

    // disable_guest_selinux = false, selinux labels are left alone
    amend_spec(&mut spec, false, false, false, "shared-fs", no_ephemeral_volumes).unwrap();
    assert!(spec.process.as_ref().unwrap().selinux_label == Some("xxx".to_owned()));
    assert!(spec.linux.as_ref().unwrap().mount_label == Some("yyy".to_owned()));

    // disable_guest_selinux = true, selinux labels are reset
    amend_spec(&mut spec, false, true, false, "shared-fs", no_ephemeral_volumes).unwrap();
    assert!(spec.process.as_ref().unwrap().selinux_label.is_none());
    assert!(spec.linux.as_ref().unwrap().mount_label.is_none());
}

#[test]
fn test_is_pid_namespace_enabled() {
    struct TestData<'a> {
        desc: &'a str,
        namespaces: Vec<oci::LinuxNamespace>,
        result: bool,
    }

    let tests = &[
        TestData {
            desc: "no pid namespace",
            namespaces: vec![oci::LinuxNamespaceBuilder::default()
                .typ(oci::LinuxNamespaceType::Network)
                .path("/dev/null")
                .build()
                .unwrap()],
            result: false,
        },
        TestData {
            desc: "empty pid namespace path",
            namespaces: vec![
                oci::LinuxNamespaceBuilder::default()
                    .typ(oci::LinuxNamespaceType::Network)
                    .build()
                    .unwrap(),
                oci::LinuxNamespaceBuilder::default()
                    .typ(oci::LinuxNamespaceType::Pid)
                    .build()
                    .unwrap(),
            ],
            result: false,
        },
        TestData {
            desc: "pid namespace is set",
            namespaces: vec![
                oci::LinuxNamespaceBuilder::default()
                    .typ(oci::LinuxNamespaceType::Network)
                    .path("/some/path")
                    .build()
                    .unwrap(),
                oci::LinuxNamespaceBuilder::default()
                    .typ(oci::LinuxNamespaceType::Pid)
                    .path("/dev/null")
                    .build()
                    .unwrap(),
            ],
            result: true,
        },
    ];

    let mut oci_spec = oci::Spec::default();

    for (i, d) in tests.iter().enumerate() {
        oci_spec.set_linux(Some(
            oci::LinuxBuilder::default()
                .namespaces(d.namespaces.clone())
                .build()
                .unwrap(),
        ));

        assert_eq!(
            d.result,
            is_pid_namespace_enabled(&spec(oci_spec.clone())),
            "test[{}]: {:?}",
            i,
            d.desc
        );
    }
}

#[test]
fn test_filter_vfio_devices_guest_kernel_mode() {
    // Test that VFIO devices are filtered out in guest-kernel mode
    let vfio_device = oci::LinuxDeviceBuilder::default()
        .path("/dev/vfio/1")
        .typ(oci::LinuxDeviceType::C)
        .major(10)
        .minor(196)
        .build()
        .unwrap();

    let non_vfio_device = oci::LinuxDeviceBuilder::default()
        .path("/dev/null")
        .typ(oci::LinuxDeviceType::C)
        .major(1)
        .minor(3)
        .build()
        .unwrap();

    let mut linux = linux(
        oci::LinuxBuilder::default()
            .devices(vec![vfio_device, non_vfio_device.clone()])
            .build()
            .unwrap(),
    );

    filter_vfio_devices(&mut linux, "guest-kernel");

    let devices = linux.devices.as_ref().unwrap();
    assert_eq!(devices.len(), 1, "Should have only 1 device after filtering");
    assert_eq!(
        text(&devices[0].path),
        non_vfio_device.path().to_str(),
        "Non-VFIO device should be preserved"
    );
}

fn text(path: &FsPath) -> Option<&str> {
    match path {
        FsPath::Text(text) => Some(text.as_str()),
        FsPath::Raw(_) => None,
    }
}

#[test]
fn test_filter_vfio_devices_vfio_mode() {
    // Test that VFIO devices are preserved in vfio mode
    let vfio_device = oci::LinuxDeviceBuilder::default()
        .path("/dev/vfio/1")
        .typ(oci::LinuxDeviceType::C)
        .major(10)
        .minor(196)
        .build()
        .unwrap();

    let non_vfio_device = oci::LinuxDeviceBuilder::default()
        .path("/dev/null")
        .typ(oci::LinuxDeviceType::C)
        .major(1)
        .minor(3)
        .build()
        .unwrap();

    let mut linux = linux(
        oci::LinuxBuilder::default()
            .devices(vec![vfio_device, non_vfio_device])
            .build()
            .unwrap(),
    );

    filter_vfio_devices(&mut linux, "vfio");

    let devices = linux.devices.as_ref().unwrap();
    assert_eq!(devices.len(), 2, "Should have both devices in vfio mode");
}

#[test]
fn test_filter_vfio_devices_only_vfio_filtered() {
    // Test that only /dev/vfio/* devices are filtered in guest-kernel mode
    let vfio_device = oci::LinuxDeviceBuilder::default()
        .path("/dev/vfio/1")
        .typ(oci::LinuxDeviceType::C)
        .major(10)
        .minor(196)
        .build()
        .unwrap();

    let vfio_container = oci::LinuxDeviceBuilder::default()
        .path("/dev/vfio/vfio")
        .typ(oci::LinuxDeviceType::C)
        .major(10)
        .minor(196)
        .build()
        .unwrap();

    let similar_path = oci::LinuxDeviceBuilder::default()
        .path("/dev/vfio-test")
        .typ(oci::LinuxDeviceType::C)
        .major(1)
        .minor(1)
        .build()
        .unwrap();

    let mut linux = linux(
        oci::LinuxBuilder::default()
            .devices(vec![vfio_device, vfio_container, similar_path.clone()])
            .build()
            .unwrap(),
    );

    filter_vfio_devices(&mut linux, "guest-kernel");

    let devices = linux.devices.as_ref().unwrap();
    assert_eq!(
        devices.len(),
        1,
        "Should only filter devices starting with /dev/vfio/"
    );
    assert_eq!(
        text(&devices[0].path),
        similar_path.path().to_str(),
        "Device with similar but different path should be preserved"
    );
}

#[test]
fn test_filter_vfio_devices_empty_mode() {
    // Test default/empty mode behavior (should filter /dev/vfio/* like guest-kernel mode)
    let vfio_device = oci::LinuxDeviceBuilder::default()
        .path("/dev/vfio/1")
        .typ(oci::LinuxDeviceType::C)
        .major(10)
        .minor(196)
        .build()
        .unwrap();

    let mut linux = linux(
        oci::LinuxBuilder::default()
            .devices(vec![vfio_device])
            .build()
            .unwrap(),
    );

    filter_vfio_devices(&mut linux, "");

    assert!(linux.devices.is_none(), "Should filter out VFIO device with empty mode");
}

#[test]
fn test_filter_vfio_devices_no_devices() {
    // Test that filtering works when there are no devices
    let mut linux = linux(oci::LinuxBuilder::default().build().unwrap());

    filter_vfio_devices(&mut linux, "guest-kernel");

    assert!(linux.devices.is_none(), "Should remain None when no devices");
}

#[test]
fn only_character_devices_with_a_text_path_are_vfio_devices() {
    let block = oci::LinuxDeviceBuilder::default()
        .path("/dev/vfio/1")
        .typ(oci::LinuxDeviceType::B)
        .major(7)
        .build()
        .unwrap();
    let raw = oci::LinuxDeviceBuilder::default()
        .path("/dev/vfio/2")
        .typ(oci::LinuxDeviceType::C)
        .major(8)
        .build()
        .unwrap();
    let directory = oci::LinuxDeviceBuilder::default()
        .path("/dev/vfio/")
        .typ(oci::LinuxDeviceType::C)
        .major(9)
        .build()
        .unwrap();
    let mut linux = linux(
        oci::LinuxBuilder::default()
            .devices(vec![directory, block, raw])
            .build()
            .unwrap(),
    );
    linux.devices.as_mut().unwrap()[2].path = FsPath::Raw(b"/dev/vfio/\xff".to_vec());

    filter_vfio_devices(&mut linux, "guest-kernel");
    let majors: Vec<i64> = linux.devices.as_ref().unwrap().iter().map(|d| d.major).collect();
    assert_eq!(majors, vec![7, 8]);

    // once more: nothing is left to take out
    filter_vfio_devices(&mut linux, "VFIO");
    let majors: Vec<i64> = linux.devices.as_ref().unwrap().iter().map(|d| d.major).collect();
    assert_eq!(majors, vec![7, 8]);
}

#[test]
fn an_empty_device_list_is_dropped_unless_in_vfio_mode() {
    let mut linux = linux(oci::LinuxBuilder::default().build().unwrap());
    linux.devices = Some(vec![]);
    filter_vfio_devices(&mut linux, "vfio");
    assert!(linux.devices.is_some());
    filter_vfio_devices(&mut linux, "guest-kernel");
    assert!(linux.devices.is_none());
}

#[test]
fn the_first_pid_namespace_decides() {
    let pid = |p: Option<&str>| LinuxNamespace {
        typ: LinuxNamespaceType::Pid,
        path: p.map(|p| FsPath::Text(p.to_owned())),
    };
    let mut spec = spec(oci::Spec::default());
    spec.linux.as_mut().unwrap().namespaces = Some(vec![pid(None), pid(Some("/proc/1/ns/pid"))]);
    assert!(!is_pid_namespace_enabled(&spec));
    spec.linux.as_mut().unwrap().namespaces = Some(vec![pid(Some("/proc/1/ns/pid")), pid(None)]);
    assert!(is_pid_namespace_enabled(&spec));
    spec.linux.as_mut().unwrap().namespaces = None;
    assert!(!is_pid_namespace_enabled(&spec));
    spec.linux = None;
    assert!(!is_pid_namespace_enabled(&spec));
}

#[test]
fn only_start_container_hooks_are_kept() {
    let hook = |p: &str| oci::HookBuilder::default().path(p).build().unwrap();
    let mut oci_spec = oci::Spec::default();
    let mut hooks = oci::Hooks::default();
    hooks.set_create_runtime(Some(vec![hook("/a")]));
    hooks.set_create_container(Some(vec![hook("/b")]));
    hooks.set_start_container(Some(vec![hook("/c"), hook("/d")]));
    hooks.set_poststart(Some(vec![hook("/e")]));
    hooks.set_poststop(Some(vec![hook("/f")]));
    oci_spec.set_hooks(Some(hooks));
    let mut spec = spec(oci_spec);

    amend_spec(&mut spec, false, false, false, "shared-fs", no_ephemeral_volumes).unwrap();

    let hooks = spec.hooks.unwrap();
    assert!(hooks.prestart.is_none());
    assert!(hooks.create_runtime.is_none());
    assert!(hooks.create_container.is_none());
    assert_eq!(hooks.start_container, Some(vec![hook("/c"), hook("/d")]));
    assert!(hooks.poststart.is_none());
    assert!(hooks.poststop.is_none());
}

#[test]
fn guest_namespaces_have_no_path_and_no_pid_or_network_namespace() {
    let at = |typ, p: &str| LinuxNamespace {
        typ,
        path: Some(FsPath::Text(p.to_owned())),
    };
    let mut spec = spec(oci::Spec::default());
    spec.linux.as_mut().unwrap().namespaces = Some(vec![
        at(LinuxNamespaceType::Ipc, "/ipc"),
        at(LinuxNamespaceType::Pid, "/pid"),
        at(LinuxNamespaceType::Mount, "/mount"),
        at(LinuxNamespaceType::Network, "/network"),
        at(LinuxNamespaceType::Ipc, "/ipc"),
    ]);
    assert!(is_pid_namespace_enabled(&spec));

    for _ in 0..2 {
        amend_spec(&mut spec, false, false, false, "shared-fs", no_ephemeral_volumes).unwrap();
        let namespaces = spec.linux.as_ref().unwrap().namespaces.as_ref().unwrap();
        let types: Vec<LinuxNamespaceType> = namespaces.iter().map(|n| n.typ).collect();
        assert_eq!(
            types,
            vec![
                LinuxNamespaceType::Ipc,
                LinuxNamespaceType::Mount,
                LinuxNamespaceType::Ipc
            ]
        );
        assert!(namespaces.iter().all(|n| n.path.is_none()));
        assert!(!is_pid_namespace_enabled(&spec));
    }

    spec.linux.as_mut().unwrap().namespaces = Some(vec![at(LinuxNamespaceType::Pid, "/pid")]);
    amend_spec(&mut spec, false, false, false, "shared-fs", no_ephemeral_volumes).unwrap();
    assert!(spec.linux.as_ref().unwrap().namespaces.is_none());
}

#[test]
fn ephemeral_volumes_are_retyped_between_hooks_and_namespaces() {
    let mut oci_spec = oci::Spec::default();
    oci_spec.set_hooks(Some(oci::Hooks::default()));
    let mut spec = spec(oci_spec);
    amend_spec(&mut spec, false, false, true, "block", |spec: &mut OciSpec, disable, mode: &str| {
        assert!(disable);
        assert_eq!(mode, "block");
        assert!(spec.hooks.is_some());
        // what is set here is still amended
        spec.linux.as_mut().unwrap().namespaces = Some(vec![LinuxNamespace {
            typ: LinuxNamespaceType::Uts,
            path: Some(FsPath::Text("/uts".to_owned())),
        }]);
        spec.root = None;
    })
    .unwrap();
    assert!(spec.root.is_none());
    let namespaces = spec.linux.as_ref().unwrap().namespaces.as_ref().unwrap();
    assert_eq!(namespaces.len(), 1);
    assert!(namespaces[0].path.is_none());
}

#[test]
fn amending_again_changes_mounts_at_most() {
    // retypes the first mount that was not retyped yet
    fn retype(spec: &mut OciSpec, _: bool, _: &str) {
        for mount in spec.mounts.iter_mut().flatten() {
            if mount.typ.is_none() {
                mount.typ = Some("ephemeral".to_owned());
                return;
            }
        }
    }
    let plain = |p: &str| Mount {
        destination: FsPath::Text(p.to_owned()),
        typ: None,
        source: None,
        options: None,
    };
    let mut oci_spec = oci::Spec::default();
    oci_spec.set_hooks(Some(oci::Hooks::default()));
    let mut spec = spec(oci_spec);
    spec.mounts = Some(vec![plain("/a"), plain("/b")]);
    for retyped in [1, 2] {
        amend_spec(&mut spec, true, true, false, "shared-fs", retype).unwrap();
        let mounts = spec.mounts.as_ref().unwrap();
        assert_eq!(mounts.iter().filter(|m| m.typ.is_some()).count(), retyped);
        let linux = spec.linux.as_ref().unwrap();
        let types: Vec<LinuxNamespaceType> =
            linux.namespaces.as_ref().unwrap().iter().map(|n| n.typ).collect();
        assert!(types.contains(&LinuxNamespaceType::Ipc));
        assert!(!types.contains(&LinuxNamespaceType::Pid));
        assert!(linux.seccomp.is_none());
        assert!(spec.process.as_ref().unwrap().selinux_label.is_none());
        assert!(spec.hooks.is_some());
    }
}

#[test]
fn a_specification_without_linux_part_or_process_can_be_amended() {
    let mut spec = spec(oci::Spec::default());
    spec.linux = None;
    spec.process = None;
    amend_spec(&mut spec, true, true, false, "shared-fs", no_ephemeral_volumes).unwrap();
    assert!(spec.linux.is_none());
    assert!(spec.process.is_none());
    assert!(spec.hooks.is_none());
}
