//! What becomes of a specification on its way to the guest.

use vstd::prelude::*;

use crate::amend::{amend_spec, filter_vfio_devices, is_pid_namespace_enabled};
use crate::error::Error;
use crate::lists::lemma_filter_holds;
use crate::oci::{
    LinuxDevice, LinuxDeviceType, LinuxNamespace, LinuxNamespaceType, OciLinux, OciSpec,
};

verus! {

/// The first PID namespace decides whether a container shares the one of its sandbox: it does if
/// that namespace has a path. A container that lists no PID namespace shares none.
pub proof fn first_pid_namespace_decides(spec: &OciSpec, r: bool, i: int)
    requires
        call_ensures(is_pid_namespace_enabled, (spec,), r),
    ensures
        spec.linux is None ==> !r,
        spec.linux matches Some(linux) ==> {
            &&& linux.namespaces is None ==> !r
            &&& linux.namespaces matches Some(namespaces) ==> {
                &&& (forall|j: int|
                    0 <= j < namespaces@.len() ==> (#[trigger] namespaces@[j]).typ
                        != LinuxNamespaceType::Pid) ==> !r
                &&& ({
                    &&& 0 <= i < namespaces@.len()
                    &&& namespaces@[i].typ == LinuxNamespaceType::Pid
                    &&& forall|j: int|
                        0 <= j < i ==> (#[trigger] namespaces@[j]).typ != LinuxNamespaceType::Pid
                }) ==> r == (namespaces@[i].path is Some)
            }
        },
{
    match spec.linux {
        Some(linux) => match linux.namespaces {
            Some(namespaces) => {
                if 0 <= i < namespaces@.len() && namespaces@[i].typ == LinuxNamespaceType::Pid && (
                forall|j: int|
                    0 <= j < i ==> (#[trigger] namespaces@[j]).typ != LinuxNamespaceType::Pid) {
                    assert(crate::amend::first_pid_namespace(namespaces@, i));
                    assert forall|k: int| #[trigger]
                        crate::amend::first_pid_namespace(namespaces@, k) implies k == i by {
                        if k < i {
                            assert(namespaces@[k].typ != LinuxNamespaceType::Pid);
                        } else if i < k {
                            assert(namespaces@[i].typ != LinuxNamespaceType::Pid);
                        }
                    }
                }
            },
            None => {},
        },
        None => {},
    }
}

/// In mode `vfio` filtering changes nothing.
pub proof fn vfio_mode_keeps_every_device(linux: &mut OciLinux, vfio_mode: &str)
    requires
        call_ensures(filter_vfio_devices, (linux, vfio_mode), ()),
        vfio_mode@ == "vfio"@,
    ensures
        *final(linux) == *old(linux),
{
}

/// In every other mode a device stays if and only if it is not a character device whose path is
/// valid text and begins with `/dev/vfio/`. Those that stay keep their order, and a list of which
/// none stays is dropped. Nothing but the list changes.
pub proof fn other_modes_drop_vfio_devices(linux: &mut OciLinux, vfio_mode: &str, device: LinuxDevice)
    requires
        call_ensures(filter_vfio_devices, (linux, vfio_mode), ()),
        vfio_mode@ != "vfio"@,
    ensures
        final(linux).mount_label == old(linux).mount_label,
        final(linux).namespaces == old(linux).namespaces,
        final(linux).resources == old(linux).resources,
        final(linux).seccomp == old(linux).seccomp,
        final(linux).rest == old(linux).rest,
        old(linux).devices is None ==> final(linux).devices is None,
        final(linux).devices matches Some(after) ==> {
            &&& after@.len() > 0
            &&& old(linux).devices matches Some(before)
            &&& after@ == before@.filter(
                |d: LinuxDevice|
                    !(d.typ == LinuxDeviceType::C && d.path is Text
                        && "/dev/vfio/"@.is_prefix_of(d.path->Text_0@)),
            )
            &&& after@.contains(device) <==> before@.contains(device) && !(device.typ
                == LinuxDeviceType::C && device.path is Text && "/dev/vfio/"@.is_prefix_of(
                device.path->Text_0@,
            ))
        },
        final(linux).devices is None ==> (old(linux).devices matches Some(before)
            ==> before@.contains(device) ==> device.typ == LinuxDeviceType::C && device.path is Text
            && "/dev/vfio/"@.is_prefix_of(device.path->Text_0@)),
{
    let keep = |d: LinuxDevice|
        !(d.typ == LinuxDeviceType::C && d.path is Text && "/dev/vfio/"@.is_prefix_of(
            d.path->Text_0@,
        ));
    assert(keep =~= (|device: LinuxDevice| !crate::amend::is_vfio_device(device)));
    match old(linux).devices {
        Some(before) => {
            lemma_filter_holds(before@, keep);
            let kept = before@.filter(keep);
            assert(kept.contains(device) <==> before@.contains(device) && keep(device));
        },
        None => {},
    }
}

/// What the retyping of mounts gets, and what it leaves.
///
/// It gets the specification with no hooks but those of the `StartContainer` stage, else unchanged.
/// What it leaves comes out unchanged but for three things: seccomp and the SELinux labels go where
/// they are disabled, and of the namespaces those stay, in order and without their paths, that are
/// neither PID nor network namespaces.
pub proof fn amending_touches_hooks_security_and_namespaces_only<
    F: FnOnce(&mut OciSpec, bool, &str),
>(
    spec: &mut OciSpec,
    disable_guest_seccomp: bool,
    disable_guest_selinux: bool,
    disable_guest_empty_dir: bool,
    emptydir_mode: &str,
    retype: F,
    r: Result<(), Error>,
)
    requires
        call_ensures(
            amend_spec::<F>,
            (
                spec,
                disable_guest_seccomp,
                disable_guest_selinux,
                disable_guest_empty_dir,
                emptydir_mode,
                retype,
            ),
            r,
        ),
    ensures
        r is Ok,
        exists|s: &mut OciSpec|
            {
                &&& #[trigger] call_ensures(
                    retype,
                    (s, disable_guest_empty_dir, emptydir_mode),
                    (),
                )
                &&& s.annotations == old(spec).annotations
                &&& s.linux == old(spec).linux
                &&& s.mounts == old(spec).mounts
                &&& s.process == old(spec).process
                &&& s.root == old(spec).root
                &&& s.rest == old(spec).rest
                &&& s.hooks is Some <==> old(spec).hooks is Some
                &&& s.hooks matches Some(hooks) ==> {
                    &&& hooks.prestart is None
                    &&& hooks.create_runtime is None
                    &&& hooks.create_container is None
                    &&& hooks.start_container == old(spec).hooks->0.start_container
                    &&& hooks.poststart is None
                    &&& hooks.poststop is None
                }
                &&& final(spec).annotations == final(s).annotations
                &&& final(spec).hooks == final(s).hooks
                &&& final(spec).mounts == final(s).mounts
                &&& final(spec).root == final(s).root
                &&& final(spec).rest == final(s).rest
                &&& final(spec).process is Some <==> final(s).process is Some
                &&& final(spec).process matches Some(process) ==> {
                    &&& process.rest == final(s).process->0.rest
                    &&& disable_guest_selinux ==> process.selinux_label is None
                    &&& !disable_guest_selinux ==> process.selinux_label
                        == final(s).process->0.selinux_label
                }
                &&& final(spec).linux is Some <==> final(s).linux is Some
                &&& final(spec).linux matches Some(linux) ==> {
                    &&& linux.devices == final(s).linux->0.devices
                    &&& linux.resources == final(s).linux->0.resources
                    &&& linux.rest == final(s).linux->0.rest
                    &&& disable_guest_seccomp ==> linux.seccomp is None
                    &&& !disable_guest_seccomp ==> linux.seccomp == final(s).linux->0.seccomp
                    &&& disable_guest_selinux ==> linux.mount_label is None
                    &&& !disable_guest_selinux ==> linux.mount_label
                        == final(s).linux->0.mount_label
                    &&& linux.namespaces matches Some(after) ==> {
                        &&& after@.len() > 0
                        &&& final(s).linux->0.namespaces matches Some(before)
                        &&& after@ == before@.filter(
                            |n: LinuxNamespace|
                                n.typ != LinuxNamespaceType::Pid && n.typ
                                    != LinuxNamespaceType::Network,
                        ).map_values(
                            |n: LinuxNamespace| LinuxNamespace { typ: n.typ, path: None },
                        )
                    }
                    &&& linux.namespaces is None ==> (final(s).linux->0.namespaces matches Some(
                        before,
                    ) ==> forall|i: int|
                        0 <= i < before@.len() ==> (#[trigger] before@[i]).typ
                            == LinuxNamespaceType::Pid || before@[i].typ
                            == LinuxNamespaceType::Network)
                }
            },
{
    let s = choose|s: &mut OciSpec|
        {
            &&& crate::amend::only_start_hooks(*old(spec), *s)
            &&& #[trigger] call_ensures(retype, (s, disable_guest_empty_dir, emptydir_mode), ())
            &&& crate::amend::spec_for_guest(
                *final(s),
                *final(spec),
                disable_guest_seccomp,
                disable_guest_selinux,
            )
        };
    match final(s).linux {
        Some(linux) => match linux.namespaces {
            Some(before) => {
                let keep = |n: LinuxNamespace|
                    n.typ != LinuxNamespaceType::Pid && n.typ != LinuxNamespaceType::Network;
                let fresh = |n: LinuxNamespace| LinuxNamespace { typ: n.typ, path: None };
                assert(keep =~= (|namespace: LinuxNamespace|
                    crate::amend::is_guest_namespace(namespace)));
                assert(fresh =~= (|namespace: LinuxNamespace|
                    LinuxNamespace { typ: namespace.typ, path: None }));
                lemma_filter_holds(before@, keep);
                let kept = before@.filter(keep);
                assert forall|i: int| 0 <= i < before@.len() && kept.len() == 0 implies (
                #[trigger] before@[i]).typ == LinuxNamespaceType::Pid || before@[i].typ
                    == LinuxNamespaceType::Network by {
                    assert(before@.contains(before@[i]));
                    assert(!kept.contains(before@[i]));
                    assert(!keep(before@[i]));
                }
            },
            None => {
                reveal(Seq::filter);
            },
        },
        None => {},
    }
    assert(call_ensures(retype, (s, disable_guest_empty_dir, emptydir_mode), ()));
}

/// An amended specification holds no hook of the stages `prestart`, `createRuntime`,
/// `createContainer`, `poststart` and `poststop`, whatever hooks it had, and its `StartContainer`
/// hooks are those it had, if the retyping of mounts leaves hooks alone.
pub proof fn amended_spec_has_start_hooks_only<F: FnOnce(&mut OciSpec, bool, &str)>(
    spec: &mut OciSpec,
    disable_guest_seccomp: bool,
    disable_guest_selinux: bool,
    disable_guest_empty_dir: bool,
    emptydir_mode: &str,
    retype: F,
    r: Result<(), Error>,
)
    requires
        call_ensures(
            amend_spec::<F>,
            (
                spec,
                disable_guest_seccomp,
                disable_guest_selinux,
                disable_guest_empty_dir,
                emptydir_mode,
                retype,
            ),
            r,
        ),
        forall|s: &mut OciSpec| #[trigger]
            call_ensures(retype, (s, disable_guest_empty_dir, emptydir_mode), ())
                ==> final(s).hooks == s.hooks,
    ensures
        final(spec).hooks is Some <==> old(spec).hooks is Some,
        final(spec).hooks matches Some(hooks) ==> {
            &&& hooks.prestart is None
            &&& hooks.create_runtime is None
            &&& hooks.create_container is None
            &&& hooks.poststart is None
            &&& hooks.poststop is None
            &&& hooks.start_container == old(spec).hooks->0.start_container
        },
{
    amending_touches_hooks_security_and_namespaces_only(
        spec,
        disable_guest_seccomp,
        disable_guest_selinux,
        disable_guest_empty_dir,
        emptydir_mode,
        retype,
        r,
    );
}

} // verus!
