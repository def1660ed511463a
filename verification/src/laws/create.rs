//! What becomes of a specification and of what was set up on the way to the agent's request.

use vstd::prelude::*;

use crate::config::{SharedMount, TomlConfig};
use crate::container::Container;
use crate::create::{
    create_answered, keeps_rootfs, kept_volumes, AnnotationNames, CreateContainerRequest,
    CreateEnd, CreateFailure, DevicesPending, HandOverPending, RequestPending, ResourcesPending,
    RootfsParts, RootfsPending, StreamsPending, StreamsStep, VolumeParts, VolumesPending,
};
use crate::error::Error;
use crate::lists::lemma_filter_holds;
use crate::oci::{LinuxDevice, LinuxDeviceType, LinuxNamespaceType};
use crate::oci::{OciResources, OciSpec};
use crate::process::{PassfdIo, ProcessRecord};
use crate::string_map::StringMap;

verus! {

/// What a creation hands out first, and what it keeps of the answers.
///
/// The type of the container is told from the specification that it was asked for with. The update
/// of the annotations gets those of that specification, is to take out the key of the init data, and
/// is to add the type of the container and its bundle. The retyping of mounts gets the specification
/// with the updated annotations and no hooks but the `StartContainer` ones, and the settings on
/// empty directories.
pub proof fn creation_begins_with_annotations_and_hooks<
    C: FnOnce(&OciSpec) -> bool,
    U: FnOnce(&StringMap<String>, &Vec<String>, &Vec<(String, String)>) -> StringMap<String>,
    F: FnOnce(&mut OciSpec, bool, &str),
>(
    container: &Container,
    spec: OciSpec,
    toml_config: &TomlConfig,
    names: &AnnotationNames,
    is_pod_container: C,
    update_annotations: U,
    retype: F,
    r: Result<RootfsPending, Error>,
)
    requires
        call_ensures(
            Container::create::<C, U, F>,
            (container, spec, toml_config, names, is_pod_container, update_annotations, retype),
            r,
        ),
    ensures
        exists|
            pod: bool,
            given: &StringMap<String>,
            removed: &Vec<String>,
            added: &Vec<(String, String)>,
            updated: StringMap<String>,
            s: &mut OciSpec,
            mode: &str,
        |
            {
                &&& #[trigger] call_ensures(is_pod_container, (&spec,), pod)
                &&& #[trigger] call_ensures(update_annotations, (given, removed, added), updated)
                &&& #[trigger] call_ensures(
                    retype,
                    (s, toml_config.runtime.disable_guest_empty_dir, mode),
                    (),
                )
                &&& given@ == (match spec.annotations {
                    Some(annotations) => annotations@,
                    None => Map::<Seq<char>, String>::empty(),
                })
                &&& removed@.len() == 1 && removed@[0]@ == names.init_data_key@
                &&& added@.len() == 2
                &&& added@[0].0@ == names.container_type_key@
                &&& pod ==> added@[0].1@ == names.pod_container@
                &&& !pod ==> added@[0].1@ == names.pod_sandbox@
                &&& added@[1].0@ == names.bundle_path_key@
                &&& added@[1].1@ == container.config.bundle@
                &&& mode@ == toml_config.runtime.emptydir_mode@
                &&& s.annotations is Some && s.annotations->0@ == updated@
                &&& s.linux == spec.linux
                &&& s.mounts == spec.mounts
                &&& s.process == spec.process
                &&& s.root == spec.root
                &&& s.rest == spec.rest
                &&& s.hooks is Some <==> spec.hooks is Some
                &&& s.hooks matches Some(hooks) ==> {
                    &&& hooks.prestart is None
                    &&& hooks.create_runtime is None
                    &&& hooks.create_container is None
                    &&& hooks.start_container == spec.hooks->0.start_container
                    &&& hooks.poststart is None
                    &&& hooks.poststop is None
                }
                &&& r is Ok <==> final(s).root is Some
                &&& r is Err ==> r == Err::<RootfsPending, Error>(Error::MissingRoot)
                &&& r matches Ok(next) ==> {
                    &&& next.annotations == updated
                    &&& next.spec.annotations == final(s).annotations
                    &&& next.spec.hooks == final(s).hooks
                    &&& next.spec.mounts == final(s).mounts
                    &&& next.spec.root == final(s).root
                    &&& next.spec.rest == final(s).rest
                    &&& next.spec.process is Some <==> final(s).process is Some
                    &&& next.spec.process is Some ==> next.spec.process->0.rest
                        == final(s).process->0.rest
                    &&& next.spec.linux is Some <==> final(s).linux is Some
                    &&& next.spec.linux matches Some(linux) ==> {
                        &&& linux.devices == final(s).linux->0.devices
                        &&& linux.resources == final(s).linux->0.resources
                        &&& linux.rest == final(s).linux->0.rest
                    }
                }
            },
{
    let (pod, updated, s, mode) = choose|
        pod: bool,
        updated: StringMap<String>,
        s: &mut OciSpec,
        mode: &str,
    |
        {
            &&& call_ensures(is_pod_container, (&spec,), pod)
            &&& #[trigger] crate::create::annotations_answer(
                update_annotations,
                crate::create::annotations_of(spec),
                seq![names.init_data_key@],
                crate::create::new_annotations(*names, pod, container.config.bundle@),
                updated,
            )
            &&& crate::create::annotated(spec, updated@, *s)
            &&& mode@ == toml_config.runtime.emptydir_mode@
            &&& #[trigger] call_ensures(
                retype,
                (s, toml_config.runtime.disable_guest_empty_dir, mode),
                (),
            )
            &&& match r {
                Ok(next) => {
                    &&& crate::amend::spec_for_guest(
                        *final(s),
                        next.spec,
                        toml_config.runtime.disable_guest_seccomp,
                        crate::config::guest_selinux_disabled(*toml_config),
                    )
                    &&& next.spec.root is Some
                    &&& next.annotations == updated
                    &&& next.sandbox_pidns == crate::amend::pid_namespace_shared(spec)
                },
                Err(error) => error == Error::MissingRoot && final(s).root is None,
            }
        };
    let (given, removed, added) = choose|
        a: &StringMap<String>,
        k: &Vec<String>,
        n: &Vec<(String, String)>,
    |
        {
            &&& a@ == crate::create::annotations_of(spec)
            &&& k.deep_view() == seq![names.init_data_key@]
            &&& n.deep_view() == crate::create::new_annotations(
                *names,
                pod,
                container.config.bundle@,
            )
            &&& #[trigger] call_ensures(update_annotations, (a, k, n), updated)
        };
    assert(removed@.len() == removed.deep_view().len());
    assert(added@.len() == added.deep_view().len());
    assert(removed@[0]@ == removed.deep_view()[0]);
    assert(added.deep_view()[0] == (added@[0].0@, added@[0].1@));
    assert(added.deep_view()[1] == (added@[1].0@, added@[1].1@));
    assert(call_ensures(is_pod_container, (&spec,), pod));
    assert(call_ensures(update_annotations, (given, removed, added), updated));
    assert(call_ensures(
        retype,
        (s, toml_config.runtime.disable_guest_empty_dir, mode),
        (),
    ));
}

/// A creation that has begun gives the guest no namespace to join, tells whether the specification
/// that it was asked for with shares the PID namespace of the sandbox, and goes by the settings on
/// seccomp and SELinux. `i` is the place of the first PID namespace of that specification.
pub proof fn creation_begins_with_namespaces_and_security<
    C: FnOnce(&OciSpec) -> bool,
    U: FnOnce(&StringMap<String>, &Vec<String>, &Vec<(String, String)>) -> StringMap<String>,
    F: FnOnce(&mut OciSpec, bool, &str),
>(
    container: &Container,
    spec: OciSpec,
    toml_config: &TomlConfig,
    names: &AnnotationNames,
    is_pod_container: C,
    update_annotations: U,
    retype: F,
    next: RootfsPending,
    i: int,
)
    requires
        call_ensures(
            Container::create::<C, U, F>,
            (container, spec, toml_config, names, is_pod_container, update_annotations, retype),
            Ok(next),
        ),
        forall|s: &mut OciSpec, empty_dir: bool, mode: &str| #[trigger]
            call_ensures(retype, (s, empty_dir, mode), ()) ==> final(s).linux == s.linux
                && final(s).process == s.process,
    ensures
        ({
            let name = toml_config.runtime.hypervisor_name@;
            let selinux = toml_config.hypervisor@.contains_key(name)
                && !toml_config.hypervisor@[name].disable_guest_selinux;
            &&& next.spec.process is Some <==> spec.process is Some
            &&& next.spec.process matches Some(process) ==> {
                &&& selinux ==> process.selinux_label == spec.process->0.selinux_label
                &&& !selinux ==> process.selinux_label is None
            }
            &&& next.spec.linux is Some <==> spec.linux is Some
            &&& next.spec.linux matches Some(linux) ==> {
                &&& selinux ==> linux.mount_label == spec.linux->0.mount_label
                &&& !selinux ==> linux.mount_label is None
                &&& toml_config.runtime.disable_guest_seccomp ==> linux.seccomp is None
                &&& !toml_config.runtime.disable_guest_seccomp ==> linux.seccomp
                    == spec.linux->0.seccomp
                &&& linux.namespaces matches Some(namespaces) ==> forall|j: int|
                    0 <= j < namespaces@.len() ==> {
                        &&& (#[trigger] namespaces@[j]).path is None
                        &&& namespaces@[j].typ != LinuxNamespaceType::Pid
                        &&& namespaces@[j].typ != LinuxNamespaceType::Network
                    }
            }
        }),
        spec.linux is None || spec.linux->0.namespaces is None ==> !next.sandbox_pidns,
        spec.linux is Some && spec.linux->0.namespaces is Some ==> {
            let namespaces = spec.linux->0.namespaces->0@;
            &&& (forall|j: int|
                0 <= j < namespaces.len() ==> (#[trigger] namespaces[j]).typ
                    != LinuxNamespaceType::Pid) ==> !next.sandbox_pidns
            &&& ({
                &&& 0 <= i < namespaces.len()
                &&& namespaces[i].typ == LinuxNamespaceType::Pid
                &&& forall|j: int|
                    0 <= j < i ==> (#[trigger] namespaces[j]).typ != LinuxNamespaceType::Pid
            }) ==> next.sandbox_pidns == (namespaces[i].path is Some)
        },
{
    let (pod, updated, s, mode) = choose|
        pod: bool,
        updated: StringMap<String>,
        s: &mut OciSpec,
        mode: &str,
    |
        {
            &&& call_ensures(is_pod_container, (&spec,), pod)
            &&& #[trigger] crate::create::annotations_answer(
                update_annotations,
                crate::create::annotations_of(spec),
                seq![names.init_data_key@],
                crate::create::new_annotations(*names, pod, container.config.bundle@),
                updated,
            )
            &&& crate::create::annotated(spec, updated@, *s)
            &&& mode@ == toml_config.runtime.emptydir_mode@
            &&& #[trigger] call_ensures(
                retype,
                (s, toml_config.runtime.disable_guest_empty_dir, mode),
                (),
            )
            &&& crate::amend::spec_for_guest(
                *final(s),
                next.spec,
                toml_config.runtime.disable_guest_seccomp,
                crate::config::guest_selinux_disabled(*toml_config),
            )
            &&& next.sandbox_pidns == crate::amend::pid_namespace_shared(spec)
        };
    crate::amend::guest_joins_no_namespace(
        *final(s),
        next.spec,
        toml_config.runtime.disable_guest_seccomp,
        crate::config::guest_selinux_disabled(*toml_config),
    );
    match next.spec.linux {
        Some(linux) => match linux.namespaces {
            Some(namespaces) => {
                assert forall|j: int| 0 <= j < namespaces@.len() implies {
                    &&& (#[trigger] namespaces@[j]).path is None
                    &&& namespaces@[j].typ != LinuxNamespaceType::Pid
                    &&& namespaces@[j].typ != LinuxNamespaceType::Network
                } by {
                    assert(crate::amend::is_guest_namespace(
                        crate::oci::items_of(linux.namespaces)[j],
                    ));
                }
            },
            None => {},
        },
        None => {},
    }
    if spec.linux is Some && spec.linux->0.namespaces is Some {
        let namespaces = spec.linux->0.namespaces->0@;
        if 0 <= i < namespaces.len() && namespaces[i].typ == LinuxNamespaceType::Pid && (forall|
            j: int,
        |
            0 <= j < i ==> (#[trigger] namespaces[j]).typ != LinuxNamespaceType::Pid) {
            assert(crate::amend::first_pid_namespace(namespaces, i));
            assert forall|k: int| #[trigger]
                crate::amend::first_pid_namespace(namespaces, k) implies k == i by {
                if k < i {
                    assert(namespaces[k].typ != LinuxNamespaceType::Pid);
                } else if i < k {
                    assert(namespaces[i].typ != LinuxNamespaceType::Pid);
                }
            }
        }
    }
}

/// Of the root filesystem of a specification nothing but the path changes: it is the guest's, and
/// the container may write to it if and only if it was asked for so. Nothing else of the
/// specification changes. What is to be set up is what came back with the root filesystem, and an
/// error that came back in place of it is handed on.
pub proof fn only_the_path_of_the_root_changes<S, E>(
    before: RootfsPending,
    rootfs: Result<RootfsParts<S, E>, E>,
    r: Result<VolumesPending<S>, E>,
)
    requires
        call_ensures(RootfsPending::rootfs_handled::<S, E>, (before, rootfs), r),
    ensures
        rootfs matches Err(error) ==> r == Err::<VolumesPending<S>, E>(error),
        rootfs matches Ok(parts) ==> {
            &&& parts.guest_path matches Err(error) ==> r == Err::<VolumesPending<S>, E>(error)
            &&& parts.guest_path matches Ok(guest_path) ==> {
                &&& r matches Ok(next)
                &&& next.spec.root is Some <==> before.spec.root is Some
                &&& next.spec.root is Some ==> {
                    &&& next.spec.root->0.readonly == before.spec.root->0.readonly
                    &&& next.spec.root->0.path is Text
                    &&& next.spec.root->0.path->Text_0@ == guest_path@
                }
                &&& next.spec.annotations == before.spec.annotations
                &&& next.spec.hooks == before.spec.hooks
                &&& next.spec.linux == before.spec.linux
                &&& next.spec.mounts == before.spec.mounts
                &&& next.spec.process == before.spec.process
                &&& next.spec.rest == before.spec.rest
                &&& next.sandbox_pidns == before.sandbox_pidns
                &&& parts.storage is Some ==> next.storages@ == parts.storage->0@
                &&& parts.storage is None ==> next.storages@.len() == 0
            }
        },
{
}

/// A root filesystem is kept if and only if the creation goes on with it.
pub proof fn rootfs_is_kept_if_the_creation_goes_on<S, E>(
    before: RootfsPending,
    rootfs: Result<RootfsParts<S, E>, E>,
    r: Result<VolumesPending<S>, E>,
    kept: bool,
)
    requires
        call_ensures(RootfsPending::rootfs_handled::<S, E>, (before, rootfs), r),
        call_ensures(keeps_rootfs::<S, E>, (&rootfs,), kept),
    ensures
        kept <==> r is Ok,
        kept <==> rootfs is Ok && rootfs->Ok_0.guest_path is Ok,
{
}

/// The first volume that is not complete ends the creation: with the error in place of its mounts,
/// or else with the one in place of what is to be set up. The volumes before it are kept.
pub proof fn first_incomplete_volume_ends_the_creation<S, E>(
    before: VolumesPending<S>,
    volumes: Vec<VolumeParts<S, E>>,
    r: Result<DevicesPending<S>, CreateFailure<E>>,
    kept: usize,
    i: int,
)
    requires
        call_ensures(VolumesPending::<S>::volumes_handled::<E>, (before, Ok(volumes)), r),
        call_ensures(kept_volumes::<S, E>, (&volumes,), kept),
        0 <= i < volumes@.len(),
        volumes@[i].mounts is Err || volumes@[i].storages is Err,
        forall|j: int|
            0 <= j < i ==> (#[trigger] volumes@[j]).mounts is Ok && volumes@[j].storages is Ok,
    ensures
        kept == i,
        volumes@[i].mounts matches Err(error) ==> r == Err::<DevicesPending<S>, CreateFailure<E>>(
            CreateFailure::Outside(error),
        ),
        volumes@[i].mounts is Ok ==> (volumes@[i].storages matches Err(error) ==> r == Err::<
            DevicesPending<S>,
            CreateFailure<E>,
        >(CreateFailure::Outside(error))),
{
    lemma_first_incomplete(volumes@, i);
    if kept < i {
        assert(volumes@[kept as int].mounts is Ok);
    } else if i < kept {
        assert(crate::create::is_complete(volumes@[i]));
    }
}

proof fn lemma_first_incomplete<S, E>(volumes: Seq<VolumeParts<S, E>>, i: int)
    requires
        0 <= i < volumes.len(),
        volumes[i].mounts is Err || volumes[i].storages is Err,
        forall|j: int|
            0 <= j < i ==> (#[trigger] volumes[j]).mounts is Ok && volumes[j].storages is Ok,
    ensures
        crate::create::first_part_error(volumes) == (if volumes[i].mounts is Err {
            Some(volumes[i].mounts->Err_0)
        } else {
            Some(volumes[i].storages->Err_0)
        }),
    decreases volumes.len(),
{
    if i > 0 {
        let others = volumes.drop_first();
        assert(volumes[0].mounts is Ok);
        assert forall|j: int| 0 <= j < i - 1 implies (#[trigger] others[j]).mounts is Ok
            && others[j].storages is Ok by {
            assert(others[j] == volumes[j + 1]);
        }
        assert(others[i - 1] == volumes[i]);
        lemma_first_incomplete(others, i - 1);
    }
}

/// Volumes that could not be set up end the creation with their error.
pub proof fn failed_volumes_end_the_creation<S, E>(
    before: VolumesPending<S>,
    error: E,
    r: Result<DevicesPending<S>, CreateFailure<E>>,
)
    requires
        call_ensures(VolumesPending::<S>::volumes_handled::<E>, (before, Err(error)), r),
    ensures
        r == Err::<DevicesPending<S>, CreateFailure<E>>(CreateFailure::Outside(error)),
{
}

/// Where every volume is complete, the mounts of the specification are theirs, one volume after the
/// other, and what is to be set up for them follows what was to be set up before. Nothing else of
/// the specification changes. A specification without a Linux part is refused. Every volume is kept.
pub proof fn complete_volumes_give_the_mounts<S, E>(
    before: VolumesPending<S>,
    volumes: Vec<VolumeParts<S, E>>,
    r: Result<DevicesPending<S>, CreateFailure<E>>,
    kept: usize,
)
    requires
        call_ensures(VolumesPending::<S>::volumes_handled::<E>, (before, Ok(volumes)), r),
        call_ensures(kept_volumes::<S, E>, (&volumes,), kept),
        forall|j: int|
            0 <= j < volumes@.len() ==> (#[trigger] volumes@[j]).mounts is Ok
                && volumes@[j].storages is Ok,
    ensures
        kept == volumes@.len(),
        before.spec.linux is None ==> r == Err::<DevicesPending<S>, CreateFailure<E>>(
            CreateFailure::Refused(Error::MissingLinux),
        ),
        before.spec.linux is Some ==> {
            &&& r matches Ok(next)
            &&& next.spec.mounts is Some
            &&& next.spec.mounts->0@ == volumes@.map_values(
                |v: VolumeParts<S, E>| v.mounts->Ok_0@,
            ).flatten()
            &&& next.storages@ == before.storages@ + volumes@.map_values(
                |v: VolumeParts<S, E>| v.storages->Ok_0@,
            ).flatten()
            &&& next.spec.annotations == before.spec.annotations
            &&& next.spec.hooks == before.spec.hooks
            &&& next.spec.linux == before.spec.linux
            &&& next.spec.process == before.spec.process
            &&& next.spec.root == before.spec.root
            &&& next.spec.rest == before.spec.rest
            &&& next.sandbox_pidns == before.sandbox_pidns
        },
{
    assert forall|j: int| 0 <= j < volumes@.len() implies crate::create::is_complete(
        #[trigger] volumes@[j],
    ) by {}
    crate::create::every_part_counts(volumes@);
    assert(volumes@.map_values(|v: VolumeParts<S, E>| v.mounts->Ok_0@) =~= volumes@.map_values(
        |volume: VolumeParts<S, E>| crate::create::mounts_of(volume),
    ));
    assert(volumes@.map_values(|v: VolumeParts<S, E>| v.storages->Ok_0@) =~= volumes@.map_values(
        |volume: VolumeParts<S, E>| crate::create::storages_of(volume),
    ));
}

/// The device step gets the specification as it is settled and the devices that were found; what it
/// leaves of the specification is what goes on, with the devices that it gives for the agent.
/// Nothing else changes. An error of it, or one that came back in place of the devices, is handed
/// on.
pub proof fn device_step_gets_what_was_settled<
    S,
    C,
    D,
    E,
    A: FnOnce(&mut OciSpec, Vec<C>) -> Result<Vec<D>, E>,
>(
    before: DevicesPending<S>,
    found: Result<Vec<C>, E>,
    annotate: A,
    r: Result<ResourcesPending<S, D>, E>,
)
    requires
        call_ensures(
            DevicesPending::<S>::devices_handled::<C, D, E, A>,
            (before, found, annotate),
            r,
        ),
    ensures
        found matches Err(error) ==> r == Err::<ResourcesPending<S, D>, E>(error),
        found matches Ok(devices) ==> exists|s: &mut OciSpec, answer: Result<Vec<D>, E>|
            {
                &&& #[trigger] call_ensures(annotate, (s, devices), answer)
                &&& *s == before.spec
                &&& answer matches Err(error) ==> r == Err::<ResourcesPending<S, D>, E>(error)
                &&& answer matches Ok(agent_devices) ==> {
                    &&& r matches Ok(next)
                    &&& next.spec == *final(s)
                    &&& next.devices == agent_devices
                    &&& next.storages == before.storages
                    &&& next.sandbox_pidns == before.sandbox_pidns
                }
            },
{
}

/// The guest gets the limits that were settled on, without those on block devices, on the network
/// and on processes and without device rules, and no others; a specification without a Linux part
/// gets none. Nothing else changes but the list of devices. An error that came back in place of the
/// limits is handed on.
pub proof fn guest_gets_the_limits_settled_on<S, D, E>(
    before: ResourcesPending<S, D>,
    resources: Result<Option<OciResources>, E>,
    toml_config: &TomlConfig,
    r: Result<StreamsPending<S, D>, E>,
)
    requires
        call_ensures(
            ResourcesPending::<S, D>::resources_handled::<E>,
            (before, resources, toml_config),
            r,
        ),
    ensures
        resources matches Err(error) ==> r == Err::<StreamsPending<S, D>, E>(error),
        resources matches Ok(limits) ==> {
            &&& r matches Ok(next)
            &&& next.spec.linux is Some <==> before.spec.linux is Some
            &&& next.spec.linux matches Some(linux) ==> {
                &&& linux.resources is Some <==> limits is Some
                &&& linux.resources is Some ==> {
                    &&& linux.resources->0.block_io is None
                    &&& linux.resources->0.devices is None
                    &&& linux.resources->0.network is None
                    &&& linux.resources->0.pids is None
                    &&& linux.resources->0.rest == limits->0.rest
                }
                &&& linux.mount_label == before.spec.linux->0.mount_label
                &&& linux.namespaces == before.spec.linux->0.namespaces
                &&& linux.seccomp == before.spec.linux->0.seccomp
                &&& linux.rest == before.spec.linux->0.rest
                &&& toml_config.runtime.vfio_mode@ == "vfio"@ ==> linux.devices
                    == before.spec.linux->0.devices
            }
            &&& next.spec.annotations == before.spec.annotations
            &&& next.spec.hooks == before.spec.hooks
            &&& next.spec.mounts == before.spec.mounts
            &&& next.spec.process == before.spec.process
            &&& next.spec.root == before.spec.root
            &&& next.spec.rest == before.spec.rest
            &&& next.sandbox_pidns == before.sandbox_pidns
            &&& next.storages == before.storages
            &&& next.devices == before.devices
        },
{
}

/// Unless the configured mode is `vfio`, the devices of the specification are those before it that
/// are not character devices under `/dev/vfio/`, in order; there is no list where none stays.
pub proof fn guest_gets_no_vfio_device<S, D, E>(
    before: ResourcesPending<S, D>,
    resources: Option<OciResources>,
    toml_config: &TomlConfig,
    next: StreamsPending<S, D>,
)
    requires
        call_ensures(
            ResourcesPending::<S, D>::resources_handled::<E>,
            (before, Ok(resources), toml_config),
            Ok(next),
        ),
        toml_config.runtime.vfio_mode@ != "vfio"@,
        before.spec.linux is Some,
    ensures
        next.spec.linux is Some,
        ({
            let given = before.spec.linux->0.devices;
            let kept = next.spec.linux->0.devices;
            let stays = |d: LinuxDevice|
                !(d.typ == LinuxDeviceType::C && d.path is Text && "/dev/vfio/"@.is_prefix_of(
                    d.path->Text_0@,
                ));
            &&& given is None ==> kept is None
            &&& given is Some && given->0@.filter(stays).len() == 0 ==> kept is None
            &&& given is Some && given->0@.filter(stays).len() > 0 ==> kept is Some && kept->0@
                == given->0@.filter(stays)
        }),
{
    let stays = |d: LinuxDevice|
        !(d.typ == LinuxDeviceType::C && d.path is Text && "/dev/vfio/"@.is_prefix_of(
            d.path->Text_0@,
        ));
    assert(stays =~= (|device: LinuxDevice| !crate::amend::is_vfio_device(device)));
}

/// The streams of the first process are handed over if and only if the container has a listener
/// address, and there. What was settled goes on.
pub proof fn streams_go_to_the_listener<S, D>(
    before: StreamsPending<S, D>,
    container: &Container,
    r: StreamsStep<S, D>,
)
    requires
        call_ensures(StreamsPending::<S, D>::streams, (before, container), r),
    ensures
        container.passfd_listener_addr is None ==> {
            &&& r matches StreamsStep::Ready { pending }
            &&& pending.spec == before.spec
            &&& pending.sandbox_pidns == before.sandbox_pidns
            &&& pending.storages == before.storages
            &&& pending.devices == before.devices
        },
        container.passfd_listener_addr matches Some(address) ==> {
            &&& r matches StreamsStep::HandOver { uds_path, port, streams }
            &&& uds_path@ == address.0@
            &&& port == address.1
            &&& streams.spec == before.spec
            &&& streams.sandbox_pidns == before.sandbox_pidns
            &&& streams.storages == before.storages
            &&& streams.devices == before.devices
        },
{
}

/// The connections that streams were handed over to are kept with the first process; nothing else
/// of the container changes, and what was settled goes on. An error is handed on and changes
/// nothing.
pub proof fn connections_are_kept_with_the_first_process<S, D, E>(
    before: HandOverPending<S, D>,
    container: &mut Container,
    answer: Result<PassfdIo, E>,
    r: Result<RequestPending<S, D>, E>,
)
    requires
        call_ensures(
            HandOverPending::<S, D>::streams_handled::<E>,
            (before, container, answer),
            r,
        ),
    ensures
        answer matches Err(error) ==> {
            &&& r == Err::<RequestPending<S, D>, E>(error)
            &&& *final(container) == *old(container)
        },
        answer matches Ok(io) ==> {
            &&& r matches Ok(next)
            &&& next.spec == before.spec
            &&& next.sandbox_pidns == before.sandbox_pidns
            &&& next.storages == before.storages
            &&& next.devices == before.devices
            &&& final(container).inner.init_process == (ProcessRecord {
                passfd_io: Some(io),
                ..old(container).inner.init_process
            })
            &&& final(container).inner.exec_processes == old(container).inner.exec_processes
            &&& final(container).inner.linux_resources == old(container).inner.linux_resources
            &&& final(container).pid == old(container).pid
            &&& final(container).container_id == old(container).container_id
            &&& final(container).config == old(container).config
            &&& final(container).spec == old(container).spec
            &&& final(container).passfd_listener_addr == old(container).passfd_listener_addr
        },
{
}

/// The request names the container that was asked for and its first process, holds what was
/// settled, the connections of the first process, and, in order, the shared mounts that end in the
/// container of the name that its specification gives.
pub proof fn request_is_for_the_container<S, D, N: FnOnce(&OciSpec) -> String>(
    before: RequestPending<S, D>,
    container: &Container,
    toml_config: &TomlConfig,
    container_name: N,
    r: CreateContainerRequest<S, D>,
)
    requires
        call_ensures(
            RequestPending::<S, D>::request::<N>,
            (before, container, toml_config, container_name),
            r,
        ),
    ensures
        r.process_id.container_id@ == container.config.container_id@,
        r.process_id.exec_id@.len() == 0,
        r.oci == before.spec,
        r.sandbox_pidns == before.sandbox_pidns,
        r.storages == before.storages,
        r.devices == before.devices,
        container.inner.init_process.passfd_io is None ==> r.stdin_port is None && r.stdout_port
            is None && r.stderr_port is None,
        container.inner.init_process.passfd_io matches Some(io) ==> r.stdin_port == io.stdin_port
            && r.stdout_port == io.stdout_port && r.stderr_port == io.stderr_port,
        exists|name: String|
            {
                &&& #[trigger] call_ensures(container_name, (&before.spec,), name)
                &&& r.shared_mounts@ == toml_config.runtime.shared_mounts@.filter(
                    |m: SharedMount| m.dst_ctr@ == name@,
                )
                &&& forall|m: SharedMount| #[trigger]
                    r.shared_mounts@.contains(m) <==> toml_config.runtime.shared_mounts@.contains(m)
                        && m.dst_ctr@ == name@
            },
{
    reveal_strlit("");
    let name = choose|name: String|
        {
            &&& #[trigger] call_ensures(container_name, (&before.spec,), name)
            &&& before.is_request(*container, *toml_config, name@, r)
        };
    let ends_here = |m: SharedMount| m.dst_ctr@ == name@;
    assert(ends_here =~= crate::create::ends_in(name@));
    lemma_filter_holds(toml_config.runtime.shared_mounts@, ends_here);
    assert forall|m: SharedMount| #[trigger]
        r.shared_mounts@.contains(m) <==> toml_config.runtime.shared_mounts@.contains(m)
            && m.dst_ctr@ == name@ by {
        assert(ends_here(m) == (m.dst_ctr@ == name@));
    }
    assert(call_ensures(container_name, (&before.spec,), name));
}

/// The resource manager dumps what it holds if and only if the agent agreed; its refusal is handed
/// on.
pub proof fn dump_follows_success<E>(answer: Result<(), E>, r: CreateEnd<E>)
    requires
        call_ensures(create_answered::<E>, (answer,), r),
    ensures
        r is Dump <==> answer is Ok,
        answer matches Err(error) ==> r == (CreateEnd::Failed { error }),
{
}

/// From the specification that a container was asked for with to the agent's request: the guest
/// mounts its root filesystem where it has it, for writing if and only if the container was asked
/// for so, if the outside steps leave the root filesystem alone.
pub proof fn request_keeps_the_root_writable<
    C: FnOnce(&OciSpec) -> bool,
    U: FnOnce(&StringMap<String>, &Vec<String>, &Vec<(String, String)>) -> StringMap<String>,
    F: FnOnce(&mut OciSpec, bool, &str),
    S,
    V,
    D,
    E,
    A: FnOnce(&mut OciSpec, Vec<V>) -> Result<Vec<D>, E>,
    N: FnOnce(&OciSpec) -> String,
>(
    container: &Container,
    given: OciSpec,
    toml_config: &TomlConfig,
    names: &AnnotationNames,
    is_pod_container: C,
    update_annotations: U,
    retype: F,
    rootfs: RootfsPending,
    guest_path: String,
    storage: Option<Vec<S>>,
    volumes: VolumesPending<S>,
    parts: Result<Vec<VolumeParts<S, E>>, E>,
    devices: DevicesPending<S>,
    found: Vec<V>,
    annotate: A,
    resources: ResourcesPending<S, D>,
    limits: Option<OciResources>,
    streams: StreamsPending<S, D>,
    later: &Container,
    pending: RequestPending<S, D>,
    container_name: N,
    request: CreateContainerRequest<S, D>,
)
    requires
        call_ensures(
            Container::create::<C, U, F>,
            (container, given, toml_config, names, is_pod_container, update_annotations, retype),
            Ok(rootfs),
        ),
        forall|s: &mut OciSpec, empty_dir: bool, mode: &str| #[trigger]
            call_ensures(retype, (s, empty_dir, mode), ()) ==> final(s).root == s.root,
        call_ensures(
            RootfsPending::rootfs_handled::<S, E>,
            (rootfs, Ok(RootfsParts { guest_path: Ok(guest_path), storage })),
            Ok(volumes),
        ),
        call_ensures(VolumesPending::<S>::volumes_handled::<E>, (volumes, parts), Ok(devices)),
        call_ensures(
            DevicesPending::<S>::devices_handled::<V, D, E, A>,
            (devices, Ok(found), annotate),
            Ok(resources),
        ),
        forall|s: &mut OciSpec, answer: Result<Vec<D>, E>| #[trigger]
            call_ensures(annotate, (s, found), answer) ==> final(s).root == s.root,
        call_ensures(
            ResourcesPending::<S, D>::resources_handled::<E>,
            (resources, Ok(limits), toml_config),
            Ok(streams),
        ),
        pending.spec == streams.spec,
        call_ensures(
            RequestPending::<S, D>::request::<N>,
            (pending, later, toml_config, container_name),
            request,
        ),
    ensures
        given.root is Some,
        request.oci.root is Some,
        request.oci.root->0.readonly == given.root->0.readonly,
        request.oci.root->0.path is Text,
        request.oci.root->0.path->Text_0@ == guest_path@,
{
    creation_begins_with_annotations_and_hooks(
        container,
        given,
        toml_config,
        names,
        is_pod_container,
        update_annotations,
        retype,
        Ok(rootfs),
    );
    device_step_gets_what_was_settled(devices, Ok(found), annotate, Ok(resources));
}

} // verus!
