//! How the specification of a container is rewritten for the guest.

use vstd::prelude::*;

use crate::error::Error;
use crate::lists::{lemma_filter_holds, lemma_filter_keeps_all};
use crate::oci::{
    Hooks, LinuxDevice, LinuxDeviceType, LinuxNamespace, LinuxNamespaceType, OciLinux, OciProcess,
    OciSpec,
};
use crate::oci::{items_of, listed};
use crate::path::FsPath;
use crate::text::{starts_with, str_eq};

verus! {

/// The directory of the VFIO device nodes.
pub const VFIO_PATH: &'static str = "/dev/vfio/";

/// The `i`-th namespace is the first PID namespace of the list.
pub open spec fn first_pid_namespace(namespaces: Seq<LinuxNamespace>, i: int) -> bool {
    &&& 0 <= i < namespaces.len()
    &&& namespaces[i].typ == LinuxNamespaceType::Pid
    &&& forall|j: int| 0 <= j < i ==> (#[trigger] namespaces[j]).typ != LinuxNamespaceType::Pid
}

/// The first PID namespace that a specification lists has a path.
pub open spec fn pid_namespace_shared(spec: OciSpec) -> bool {
    spec.linux matches Some(linux) && exists|i: int| #[trigger]
        first_pid_namespace(items_of(linux.namespaces), i) && items_of(linux.namespaces)[i].path
            is Some
}

/// Whether the container shares the PID namespace of its sandbox: its first PID namespace, if it
/// lists one, is one to join.
pub fn is_pid_namespace_enabled(spec: &OciSpec) -> (r: bool)
    ensures
        r == pid_namespace_shared(*spec),
{
    if let Some(linux) = &spec.linux {
        if let Some(namespaces) = &linux.namespaces {
            let mut i: usize = 0;
            while i < namespaces.len()
                invariant
                    i <= namespaces@.len(),
                    spec.linux is Some,
                    items_of(spec.linux->0.namespaces) == namespaces@,
                    forall|j: int|
                        0 <= j < i ==> (#[trigger] namespaces@[j]).typ != LinuxNamespaceType::Pid,
                decreases namespaces@.len() - i,
            {
                if namespaces[i].typ == LinuxNamespaceType::Pid {
                    assert(first_pid_namespace(namespaces@, i as int));
                    assert forall|k: int| #[trigger] first_pid_namespace(namespaces@, k) implies k
                        == i by {
                        if k < i {
                            assert(namespaces@[k].typ != LinuxNamespaceType::Pid);
                        } else if i < k {
                            assert(namespaces@[i as int].typ != LinuxNamespaceType::Pid);
                        }
                    }
                    return namespaces[i].path.is_some();
                }
                i = i + 1;
            }
        }
    }
    false
}

/// A VFIO character device.
pub open spec fn is_vfio_device(device: LinuxDevice) -> bool {
    &&& device.typ == LinuxDeviceType::C
    &&& device.path matches FsPath::Text(path) && VFIO_PATH@.is_prefix_of(path@)
}

/// The devices that are left of a list when the guest kernel drives the VFIO devices. A list
/// with nothing left in it is no list.
pub open spec fn without_vfio_devices(devices: Option<Seq<LinuxDevice>>) -> Option<
    Seq<LinuxDevice>,
> {
    match devices {
        Some(all) => {
            let kept = all.filter(|device: LinuxDevice| !is_vfio_device(device));
            if kept.len() == 0 {
                None
            } else {
                Some(kept)
            }
        },
        None => None,
    }
}

fn check_vfio_device(device: &LinuxDevice) -> (r: bool)
    ensures
        r == is_vfio_device(*device),
{
    match &device.path {
        FsPath::Text(path) => device.typ == LinuxDeviceType::C && starts_with(
            path.as_str(),
            VFIO_PATH,
        ),
        FsPath::Raw(_) => false,
    }
}

/// Leaves the VFIO devices out of the device list, unless `vfio_mode` is `vfio`.
///
/// In mode `vfio` the devices appear in the container as character devices, so they stay. In every
/// other mode, the empty one included, the guest kernel drives them.
pub fn filter_vfio_devices(linux: &mut OciLinux, vfio_mode: &str)
    ensures
        vfio_mode@ == "vfio"@ ==> *final(linux) == *old(linux),
        vfio_mode@ != "vfio"@ ==> {
            &&& *final(linux) == (OciLinux { devices: final(linux).devices, ..*old(linux) })
            &&& listed(final(linux).devices) == without_vfio_devices(listed(old(linux).devices))
        },
{
    if str_eq(vfio_mode, "vfio") {
        return ;
    }
    let ghost keep = |device: LinuxDevice| !is_vfio_device(device);
    match linux.devices.take() {
        Some(devices) => {
            let ghost all = devices@;
            let mut kept: Vec<LinuxDevice> = Vec::new();
            reveal(Seq::filter);
            assert(kept@ =~= all.take(0).filter(keep));
            for device in it: devices
                invariant
                    it.seq() == all,
                    keep == (|device: LinuxDevice| !is_vfio_device(device)),
                    kept@ == all.take(it.index()).filter(keep),
            {
                proof {
                    let i = it.index();
                    assert(all.take(i + 1).drop_last() =~= all.take(i));
                    reveal(Seq::filter);
                }
                if !check_vfio_device(&device) {
                    kept.push(device);
                }
            }
            assert(all.take(all.len() as int) =~= all);
            if !kept.is_empty() {
                linux.devices = Some(kept);
            }
        },
        None => {},
    }
}

/// A namespace that the guest sets up for a container: the PID and network namespaces are those of
/// the sandbox.
pub open spec fn is_guest_namespace(namespace: LinuxNamespace) -> bool {
    namespace.typ != LinuxNamespaceType::Pid && namespace.typ != LinuxNamespaceType::Network
}

/// The namespaces that the guest sets up, each as a fresh one without a host path. A list with
/// nothing left in it is no list.
pub open spec fn guest_namespaces(namespaces: Seq<LinuxNamespace>) -> Option<Seq<LinuxNamespace>> {
    let kept = namespaces.filter(
        |namespace: LinuxNamespace| is_guest_namespace(namespace),
    ).map_values(|namespace: LinuxNamespace| LinuxNamespace { typ: namespace.typ, path: None });
    if kept.len() == 0 {
        None
    } else {
        Some(kept)
    }
}

/// `after` is `before` with no hooks but those of the `StartContainer` stage.
pub open spec fn only_start_hooks(before: OciSpec, after: OciSpec) -> bool {
    &&& after == (OciSpec { hooks: after.hooks, ..before })
    &&& match before.hooks {
        Some(hooks) => after.hooks == Some(
            Hooks {
                prestart: None,
                create_runtime: None,
                create_container: None,
                start_container: hooks.start_container,
                poststart: None,
                poststop: None,
            },
        ),
        None => after.hooks is None,
    }
}

/// `after` is the Linux part `before` as the guest is to see it.
pub open spec fn linux_for_guest(
    before: OciLinux,
    after: OciLinux,
    disable_guest_seccomp: bool,
    disable_guest_selinux: bool,
) -> bool {
    &&& after == (OciLinux {
        seccomp: if disable_guest_seccomp {
            None
        } else {
            before.seccomp
        },
        namespaces: after.namespaces,
        mount_label: if disable_guest_selinux {
            None
        } else {
            before.mount_label
        },
        ..before
    })
    &&& listed(after.namespaces) == guest_namespaces(items_of(before.namespaces))
}

/// `after` is `before` with the Linux part and the security labels as the guest is to see them.
pub open spec fn spec_for_guest(
    before: OciSpec,
    after: OciSpec,
    disable_guest_seccomp: bool,
    disable_guest_selinux: bool,
) -> bool {
    &&& after == (OciSpec { linux: after.linux, process: after.process, ..before })
    &&& match before.linux {
        Some(linux) => after.linux matches Some(amended) && linux_for_guest(
            linux,
            amended,
            disable_guest_seccomp,
            disable_guest_selinux,
        ),
        None => after.linux is None,
    }
    &&& match before.process {
        Some(process) => after.process == Some(
            OciProcess {
                selinux_label: if disable_guest_selinux {
                    None
                } else {
                    process.selinux_label
                },
                ..process
            },
        ),
        None => after.process is None,
    }
}

/// Keeps the namespaces that the guest sets up.
fn keep_guest_namespaces(namespaces: Option<Vec<LinuxNamespace>>) -> (r: Option<
    Vec<LinuxNamespace>,
>)
    ensures
        listed(r) == guest_namespaces(items_of(namespaces)),
{
    let ghost keep = |namespace: LinuxNamespace| is_guest_namespace(namespace);
    let ghost fresh = |namespace: LinuxNamespace|
        LinuxNamespace { typ: namespace.typ, path: None };
    let ghost all = items_of(namespaces);
    let mut kept: Vec<LinuxNamespace> = Vec::new();
    reveal(Seq::filter);
    match namespaces {
        Some(list) => {
            assert(kept@ =~= all.take(0).filter(keep).map_values(fresh));
            for namespace in it: list
                invariant
                    it.seq() == all,
                    keep == (|namespace: LinuxNamespace| is_guest_namespace(namespace)),
                    fresh == (|namespace: LinuxNamespace|
                        LinuxNamespace { typ: namespace.typ, path: None }),
                    kept@ == all.take(it.index()).filter(keep).map_values(fresh),
            {
                proof {
                    let i = it.index();
                    assert(all.take(i + 1).drop_last() =~= all.take(i));
                    reveal(Seq::filter);
                }
                if namespace.typ != LinuxNamespaceType::Pid && namespace.typ
                    != LinuxNamespaceType::Network {
                    kept.push(LinuxNamespace { typ: namespace.typ, path: None });
                    proof {
                        let i = it.index();
                        assert(all.take(i + 1).filter(keep) == all.take(i).filter(keep).push(
                            namespace,
                        ));
                        assert(kept@ =~= all.take(i + 1).filter(keep).map_values(fresh));
                    }
                }
            }
            assert(all.take(all.len() as int) =~= all);
        },
        None => {
            assert(all.filter(keep).map_values(fresh) =~= Seq::empty());
        },
    }
    if kept.is_empty() {
        None
    } else {
        Some(kept)
    }
}

/// Keeps only the hooks that run in the guest.
fn keep_start_hooks(spec: &mut OciSpec)
    ensures
        only_start_hooks(*old(spec), *final(spec)),
{
    match spec.hooks.take() {
        Some(hooks) => {
            spec.hooks = Some(
                Hooks {
                    prestart: None,
                    create_runtime: None,
                    create_container: None,
                    start_container: hooks.start_container,
                    poststart: None,
                    poststop: None,
                },
            );
        },
        None => {},
    }
}

/// Applies the guest's security settings and namespaces.
fn adapt_to_guest(spec: &mut OciSpec, disable_guest_seccomp: bool, disable_guest_selinux: bool)
    ensures
        spec_for_guest(*old(spec), *final(spec), disable_guest_seccomp, disable_guest_selinux),
{
    match spec.linux.take() {
        Some(linux) => {
            let mut linux = linux;
            if disable_guest_seccomp {
                linux.seccomp = None;
            }
            linux.namespaces = keep_guest_namespaces(linux.namespaces.take());
            if disable_guest_selinux {
                linux.mount_label = None;
            }
            spec.linux = Some(linux);
        },
        None => {},
    }
    if disable_guest_selinux {
        match spec.process.take() {
            Some(process) => {
                let mut process = process;
                process.selinux_label = None;
                spec.process = Some(process);
            },
            None => {},
        }
    }
}

/// Rewrites a specification for the guest.
///
/// The hooks are cut down to those that run in the guest. Then `update_ephemeral_storage_type`
/// gets the specification, `disable_guest_empty_dir` and `emptydir_mode`, and retypes the mounts
/// of ephemeral volumes. What it leaves is given the guest's namespaces, without seccomp and
/// without SELinux labels where these are disabled.
pub fn amend_spec<F: FnOnce(&mut OciSpec, bool, &str)>(
    spec: &mut OciSpec,
    disable_guest_seccomp: bool,
    disable_guest_selinux: bool,
    disable_guest_empty_dir: bool,
    emptydir_mode: &str,
    update_ephemeral_storage_type: F,
) -> (r: Result<(), Error>)
    requires
        forall|s: &mut OciSpec|
            call_requires(
                update_ephemeral_storage_type,
                (s, disable_guest_empty_dir, emptydir_mode),
            ),
    ensures
        r is Ok,
        exists|s: &mut OciSpec|
            {
                &&& only_start_hooks(*old(spec), *s)
                &&& #[trigger] call_ensures(
                    update_ephemeral_storage_type,
                    (s, disable_guest_empty_dir, emptydir_mode),
                    (),
                )
                &&& spec_for_guest(
                    *final(s),
                    *final(spec),
                    disable_guest_seccomp,
                    disable_guest_selinux,
                )
            },
{
    keep_start_hooks(spec);
    update_ephemeral_storage_type(&mut *spec, disable_guest_empty_dir, emptydir_mode);
    adapt_to_guest(spec, disable_guest_seccomp, disable_guest_selinux);
    Ok(())
}

/// A list that was filtered holds the devices of the list before that are not VFIO devices, and no
/// others; it is left out where there are none.
pub proof fn filtering_takes_out_vfio_devices(before: Seq<LinuxDevice>)
    ensures
        match without_vfio_devices(Some(before)) {
            Some(after) => {
                &&& after.len() > 0
                &&& forall|device: LinuxDevice| #[trigger]
                    after.contains(device) <==> before.contains(device) && !is_vfio_device(device)
            },
            None => forall|i: int| 0 <= i < before.len() ==> is_vfio_device(#[trigger] before[i]),
        },
        without_vfio_devices(None) is None,
{
    let keep = |device: LinuxDevice| !is_vfio_device(device);
    let kept = before.filter(keep);
    lemma_filter_holds(before, keep);
    if kept.len() > 0 {
        assert forall|device: LinuxDevice| #[trigger] kept.contains(device) <==> before.contains(
            device,
        ) && !is_vfio_device(device) by {
            assert(keep(device) == !is_vfio_device(device));
        }
    }
    if kept.len() == 0 {
        assert forall|i: int| 0 <= i < before.len() implies is_vfio_device(
            #[trigger] before[i],
        ) by {
            if !is_vfio_device(before[i]) {
                assert(before.contains(before[i]));
                assert(kept.contains(before[i]));
            }
        }
    }
}

/// Filtering a second time changes nothing.
pub proof fn filtering_again_changes_nothing(before: Option<Seq<LinuxDevice>>)
    ensures
        without_vfio_devices(without_vfio_devices(before)) == without_vfio_devices(before),
{
    match before {
        Some(all) => {
            let keep = |device: LinuxDevice| !is_vfio_device(device);
            lemma_filter_keeps_all(all.filter(keep), keep);
        },
        None => {},
    }
}

/// The guest's namespaces have no host path, and neither a PID nor a network namespace is among
/// them.
proof fn lemma_guest_namespaces(before: Seq<LinuxNamespace>)
    ensures
        guest_namespaces(before) matches Some(after) ==> after.len() > 0 && forall|i: int|
            0 <= i < after.len() ==> is_guest_namespace(#[trigger] after[i]) && after[i].path
                is None,
{
    let keep = |namespace: LinuxNamespace| is_guest_namespace(namespace);
    let kept = before.filter(keep);
    assert forall|i: int| 0 <= i < kept.len() implies is_guest_namespace(#[trigger] kept[i]) by {
        assert(keep(kept[i]));
    }
}

/// A specification for the guest names no PID and no network namespace, and no host path of any
/// namespace, so it does not share the PID namespace of the sandbox.
pub proof fn guest_joins_no_namespace(
    before: OciSpec,
    after: OciSpec,
    disable_guest_seccomp: bool,
    disable_guest_selinux: bool,
)
    requires
        spec_for_guest(before, after, disable_guest_seccomp, disable_guest_selinux),
    ensures
        after.linux matches Some(linux) ==> forall|i: int|
            0 <= i < items_of(linux.namespaces).len() ==> is_guest_namespace(
                #[trigger] items_of(linux.namespaces)[i],
            ) && items_of(linux.namespaces)[i].path is None,
        !pid_namespace_shared(after),
{
    match before.linux {
        Some(linux) => {
            lemma_guest_namespaces(items_of(linux.namespaces));
        },
        None => {},
    }
}

/// A specification for the guest has seccomp and the SELinux labels of the one before, except
/// where they are disabled: there it has none.
pub proof fn security_follows_the_settings(
    before: OciSpec,
    after: OciSpec,
    disable_guest_seccomp: bool,
    disable_guest_selinux: bool,
)
    requires
        spec_for_guest(before, after, disable_guest_seccomp, disable_guest_selinux),
    ensures
        before.linux is Some <==> after.linux is Some,
        before.process is Some <==> after.process is Some,
        after.linux matches Some(linux) ==> {
            &&& disable_guest_seccomp ==> linux.seccomp is None
            &&& !disable_guest_seccomp ==> linux.seccomp == before.linux->0.seccomp
            &&& disable_guest_selinux ==> linux.mount_label is None
            &&& !disable_guest_selinux ==> linux.mount_label == before.linux->0.mount_label
        },
        after.process matches Some(process) ==> {
            &&& disable_guest_selinux ==> process.selinux_label is None
            &&& !disable_guest_selinux ==> process.selinux_label
                == before.process->0.selinux_label
        },
{
}

/// `after` is `before` but for its annotations, mounts, root filesystem and remaining fields.
pub open spec fn keeps_guest_parts(before: OciSpec, after: OciSpec) -> bool {
    &&& after.hooks == before.hooks
    &&& after.process == before.process
    &&& after.linux == before.linux
}

/// `after` has the hooks, the process and the Linux part of `before`; the namespaces are the same
/// ones in the same order.
pub open spec fn same_for_guest(before: OciSpec, after: OciSpec) -> bool {
    &&& after.hooks == before.hooks
    &&& after.process == before.process
    &&& match before.linux {
        Some(linux) => after.linux matches Some(again) && again == (OciLinux {
            namespaces: again.namespaces,
            ..linux
        }) && listed(again.namespaces) == listed(linux.namespaces),
        None => after.linux is None,
    }
}

/// What was rewritten for the guest is not rewritten again, whatever became of the mounts in
/// between.
proof fn lemma_amending_again(
    before: OciSpec,
    hooked: OciSpec,
    retyped: OciSpec,
    once: OciSpec,
    hooked_again: OciSpec,
    retyped_again: OciSpec,
    twice: OciSpec,
    disable_guest_seccomp: bool,
    disable_guest_selinux: bool,
)
    requires
        only_start_hooks(before, hooked),
        keeps_guest_parts(hooked, retyped),
        spec_for_guest(retyped, once, disable_guest_seccomp, disable_guest_selinux),
        only_start_hooks(once, hooked_again),
        keeps_guest_parts(hooked_again, retyped_again),
        spec_for_guest(retyped_again, twice, disable_guest_seccomp, disable_guest_selinux),
    ensures
        same_for_guest(once, twice),
{
    match retyped.linux {
        Some(linux) => {
            let all = items_of(linux.namespaces);
            let keep = |namespace: LinuxNamespace| is_guest_namespace(namespace);
            let fresh = |namespace: LinuxNamespace|
                LinuxNamespace { typ: namespace.typ, path: None };
            lemma_guest_namespaces(all);
            let kept = items_of(once.linux->0.namespaces);
            lemma_filter_keeps_all(kept, keep);
            assert(kept.filter(keep).map_values(fresh) =~= kept);
        },
        None => {},
    }
}

/// Amending a specification a second time with the same settings changes neither its hooks nor its
/// process nor its Linux part, if what retypes the mounts of ephemeral volumes leaves these alone.
///
/// `once` is `before` after `amend_spec`, and `twice` is `once` after it.
pub proof fn amended_parts_are_not_amended_again<F: FnOnce(&mut OciSpec, bool, &str)>(
    before: OciSpec,
    once: OciSpec,
    twice: OciSpec,
    disable_guest_seccomp: bool,
    disable_guest_selinux: bool,
    disable_guest_empty_dir: bool,
    emptydir_mode: &str,
    update_ephemeral_storage_type: F,
)
    requires
        forall|s: &mut OciSpec| #[trigger]
            call_ensures(
                update_ephemeral_storage_type,
                (s, disable_guest_empty_dir, emptydir_mode),
                (),
            ) ==> keeps_guest_parts(*s, *final(s)),
        exists|s: &mut OciSpec|
            {
                &&& only_start_hooks(before, *s)
                &&& #[trigger] call_ensures(
                    update_ephemeral_storage_type,
                    (s, disable_guest_empty_dir, emptydir_mode),
                    (),
                )
                &&& spec_for_guest(*final(s), once, disable_guest_seccomp, disable_guest_selinux)
            },
        exists|s: &mut OciSpec|
            {
                &&& only_start_hooks(once, *s)
                &&& #[trigger] call_ensures(
                    update_ephemeral_storage_type,
                    (s, disable_guest_empty_dir, emptydir_mode),
                    (),
                )
                &&& spec_for_guest(*final(s), twice, disable_guest_seccomp, disable_guest_selinux)
            },
    ensures
        same_for_guest(once, twice),
{
    let first = choose|s: &mut OciSpec|
        {
            &&& only_start_hooks(before, *s)
            &&& #[trigger] call_ensures(
                update_ephemeral_storage_type,
                (s, disable_guest_empty_dir, emptydir_mode),
                (),
            )
            &&& spec_for_guest(*final(s), once, disable_guest_seccomp, disable_guest_selinux)
        };
    let second = choose|s: &mut OciSpec|
        {
            &&& only_start_hooks(once, *s)
            &&& #[trigger] call_ensures(
                update_ephemeral_storage_type,
                (s, disable_guest_empty_dir, emptydir_mode),
                (),
            )
            &&& spec_for_guest(*final(s), twice, disable_guest_seccomp, disable_guest_selinux)
        };
    lemma_amending_again(
        before,
        *first,
        *final(first),
        once,
        *second,
        *final(second),
        twice,
        disable_guest_seccomp,
        disable_guest_selinux,
    );
}

} // verus!
