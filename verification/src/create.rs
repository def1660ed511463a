//! How a container is created in the guest.
//!
//! Creating a container alternates with the resource manager: each stage holds what is settled so
//! far, and turns what came back into the next stage. Outside work that fails ends the creation
//! with its error: there is no next stage, so the agent is not asked. The last stage gives the
//! request to the agent.

use vstd::prelude::*;
use vstd::seq_lib::lemma_flatten_concat;

use crate::amend::{filtering_takes_out_vfio_devices, is_vfio_device, pid_namespace_shared};
use crate::amend::{amend_spec, filter_vfio_devices, is_pid_namespace_enabled};
use crate::amend::{guest_joins_no_namespace, is_guest_namespace};
use crate::amend::{only_start_hooks, spec_for_guest, without_vfio_devices};
use crate::config::guest_selinux_disabled;
use crate::config::{get_disable_guest_selinux, SharedMount, TomlConfig};
use crate::container::Container;
use crate::error::Error;
use crate::lists::lemma_filter_holds;
use crate::oci::{items_of, listed};
use crate::oci::{LinuxDevice, LinuxNamespace, Mount, OciLinux, OciResources, OciSpec, Root};
use crate::path::FsPath;
use crate::process::PassfdIo;
use crate::string_map::StringMap;
use crate::text::str_eq;

verus! {

/// The annotations that tell the guest about a container.
pub struct AnnotationNames {
    /// The key for the type of the container.
    pub container_type_key: String,
    /// The type of a container in a pod.
    pub pod_container: String,
    /// The type of every other container.
    pub pod_sandbox: String,
    /// The key for the bundle of the container.
    pub bundle_path_key: String,
    /// The key of the annotation that the guest does not get.
    pub init_data_key: String,
}

/// The root filesystem is next: the specification is the guest's, and has a root.
pub struct RootfsPending {
    pub spec: OciSpec,
    /// The annotations that the container is created with.
    pub annotations: StringMap<String>,
    /// The container shares the PID namespace of its sandbox.
    pub sandbox_pidns: bool,
}

/// The volumes are next.
pub struct VolumesPending<S> {
    pub spec: OciSpec,
    pub sandbox_pidns: bool,
    /// What the guest has to set up before it mounts anything.
    pub storages: Vec<S>,
}

/// The devices are next: the specification has a Linux part.
pub struct DevicesPending<S> {
    pub spec: OciSpec,
    pub sandbox_pidns: bool,
    pub storages: Vec<S>,
}

/// The resource limits are next.
pub struct ResourcesPending<S, D> {
    pub spec: OciSpec,
    pub sandbox_pidns: bool,
    pub storages: Vec<S>,
    pub devices: Vec<D>,
}

/// The streams of the first process are next: the specification is complete.
pub struct StreamsPending<S, D> {
    pub spec: OciSpec,
    pub sandbox_pidns: bool,
    pub storages: Vec<S>,
    pub devices: Vec<D>,
}

/// The streams of the first process are being handed over.
pub struct HandOverPending<S, D> {
    pub spec: OciSpec,
    pub sandbox_pidns: bool,
    pub storages: Vec<S>,
    pub devices: Vec<D>,
}

/// What becomes of the streams of the first process.
pub enum StreamsStep<S, D> {
    /// They are handed over at the given address.
    HandOver { uds_path: String, port: u32, streams: HandOverPending<S, D> },
    /// They are not handed over.
    Ready { pending: RequestPending<S, D> },
}

/// The request is next.
pub struct RequestPending<S, D> {
    pub spec: OciSpec,
    pub sandbox_pidns: bool,
    pub storages: Vec<S>,
    pub devices: Vec<D>,
}

/// A process as the agent names it.
pub struct ContainerProcessID {
    pub container_id: String,
    pub exec_id: String,
}

/// The request to the agent to create a container.
pub struct CreateContainerRequest<S, D> {
    pub process_id: ContainerProcessID,
    pub storages: Vec<S>,
    pub oci: OciSpec,
    pub sandbox_pidns: bool,
    pub devices: Vec<D>,
    pub shared_mounts: Vec<SharedMount>,
    pub stdin_port: Option<u32>,
    pub stdout_port: Option<u32>,
    pub stderr_port: Option<u32>,
}

/// What came back for a root filesystem that was set up: its path in the guest, and what the guest
/// has to set up for it.
pub struct RootfsParts<S, E> {
    pub guest_path: Result<String, E>,
    pub storage: Option<Vec<S>>,
}

/// What came back for a volume that was set up: its mounts, and what the guest has to set up for
/// them.
pub struct VolumeParts<S, E> {
    pub mounts: Result<Vec<Mount>, E>,
    pub storages: Result<Vec<S>, E>,
}

/// Why a creation ended.
pub enum CreateFailure<E> {
    /// The request itself cannot be met.
    Refused(Error),
    /// Outside work failed.
    Outside(E),
}

/// How a creation ends.
pub enum CreateEnd<E> {
    /// The container was created: the resource manager is to dump what it holds.
    Dump,
    /// The agent refused.
    Failed { error: E },
}

/// The annotations of a specification.
pub open spec fn annotations_of(spec: OciSpec) -> Map<Seq<char>, String> {
    match spec.annotations {
        Some(annotations) => annotations@,
        None => Map::empty(),
    }
}

/// The annotations that a container gets: its type and its bundle.
pub open spec fn new_annotations(names: AnnotationNames, is_pod_container: bool, bundle: Seq<char>) -> Seq<
    (Seq<char>, Seq<char>),
> {
    seq![
        (
            names.container_type_key@,
            if is_pod_container {
                names.pod_container@
            } else {
                names.pod_sandbox@
            },
        ),
        (names.bundle_path_key@, bundle),
    ]
}

/// `updated` is one that `update_annotations` may give when it is to take the keys `removed` out
/// of `before` and to add the pairs `added`.
pub open spec fn annotations_answer<
    U: FnOnce(&StringMap<String>, &Vec<String>, &Vec<(String, String)>) -> StringMap<String>,
>(
    update_annotations: U,
    before: Map<Seq<char>, String>,
    removed: Seq<Seq<char>>,
    added: Seq<(Seq<char>, Seq<char>)>,
    updated: StringMap<String>,
) -> bool {
    exists|a: &StringMap<String>, r: &Vec<String>, n: &Vec<(String, String)>|
        {
            &&& a@ == before
            &&& r.deep_view() == removed
            &&& n.deep_view() == added
            &&& #[trigger] call_ensures(update_annotations, (a, r, n), updated)
        }
}

/// `after` is `before` with the annotations `annotations` and only the hooks that run in the
/// guest.
pub open spec fn annotated(
    before: OciSpec,
    annotations: Map<Seq<char>, String>,
    after: OciSpec,
) -> bool {
    &&& after.annotations matches Some(given) && given@ == annotations
    &&& only_start_hooks(OciSpec { annotations: after.annotations, ..before }, after)
}

impl Container {
    /// Begins to create the container in the guest.
    ///
    /// `is_pod_container` tells the type of the container from its specification.
    /// `update_annotations` gets the annotations of the specification, the keys to take out and the
    /// pairs to add. `update_ephemeral_storage_type` retypes the mounts of ephemeral volumes. The
    /// specification that results has to have a root filesystem.
    pub fn create<
        C: FnOnce(&OciSpec) -> bool,
        U: FnOnce(&StringMap<String>, &Vec<String>, &Vec<(String, String)>) -> StringMap<String>,
        F: FnOnce(&mut OciSpec, bool, &str),
    >(
        &self,
        spec: OciSpec,
        toml_config: &TomlConfig,
        names: &AnnotationNames,
        is_pod_container: C,
        update_annotations: U,
        update_ephemeral_storage_type: F,
    ) -> (r: Result<RootfsPending, Error>)
        requires
            forall|s: &OciSpec| call_requires(is_pod_container, (s,)),
            forall|a: &StringMap<String>, k: &Vec<String>, n: &Vec<(String, String)>|
                call_requires(update_annotations, (a, k, n)),
            forall|s: &mut OciSpec, b: bool, m: &str|
                call_requires(update_ephemeral_storage_type, (s, b, m)),
        ensures
            exists|pod: bool, updated: StringMap<String>, s: &mut OciSpec, mode: &str|
                {
                    &&& call_ensures(is_pod_container, (&spec,), pod)
                    &&& #[trigger] annotations_answer(
                        update_annotations,
                        annotations_of(spec),
                        seq![names.init_data_key@],
                        new_annotations(*names, pod, self.config.bundle@),
                        updated,
                    )
                    &&& annotated(spec, updated@, *s)
                    &&& mode@ == toml_config.runtime.emptydir_mode@
                    &&& #[trigger] call_ensures(
                        update_ephemeral_storage_type,
                        (s, toml_config.runtime.disable_guest_empty_dir, mode),
                        (),
                    )
                    &&& match r {
                        Ok(next) => {
                            &&& spec_for_guest(
                                *final(s),
                                next.spec,
                                toml_config.runtime.disable_guest_seccomp,
                                guest_selinux_disabled(*toml_config),
                            )
                            &&& next.spec.root is Some
                            &&& next.annotations == updated
                            &&& next.sandbox_pidns == pid_namespace_shared(spec)
                        },
                        Err(error) => error == Error::MissingRoot && final(s).root is None,
                    }
                },
    {
        let mut spec = spec;
        let ghost given = spec;
        let sandbox_pidns = is_pid_namespace_enabled(&spec);
        let disable_guest_selinux = get_disable_guest_selinux(toml_config);
        let pod = is_pod_container(&spec);
        let typ = if pod {
            names.pod_container.clone()
        } else {
            names.pod_sandbox.clone()
        };
        let mut removed: Vec<String> = Vec::new();
        removed.push(names.init_data_key.clone());
        let mut added: Vec<(String, String)> = Vec::new();
        added.push((names.container_type_key.clone(), typ));
        added.push((names.bundle_path_key.clone(), self.config.bundle.clone()));
        assert(removed.deep_view() =~= seq![names.init_data_key@]);
        assert(added.deep_view() =~= new_annotations(*names, pod, self.config.bundle@));
        let updated = match &spec.annotations {
            Some(annotations) => update_annotations(annotations, &removed, &added),
            None => {
                let none: StringMap<String> = StringMap::new();
                update_annotations(&none, &removed, &added)
            },
        };
        assert(annotations_answer(
            update_annotations,
            annotations_of(given),
            seq![names.init_data_key@],
            new_annotations(*names, pod, self.config.bundle@),
            updated,
        ));
        spec.annotations = Some(updated.duplicate());
        let amended = amend_spec(
            &mut spec,
            toml_config.runtime.disable_guest_seccomp,
            disable_guest_selinux,
            toml_config.runtime.disable_guest_empty_dir,
            toml_config.runtime.emptydir_mode.as_str(),
            update_ephemeral_storage_type,
        );
        if let Err(error) = amended {
            return Err(error);
        }
        if spec.root.is_none() {
            return Err(Error::MissingRoot);
        }
        Ok(RootfsPending { spec, annotations: updated, sandbox_pidns })
    }
}

/// `after` is `before` with its root filesystem at `path`, if it has one.
pub open spec fn rooted_at(before: OciSpec, path: Seq<char>, after: OciSpec) -> bool {
    &&& after == (OciSpec { root: after.root, ..before })
    &&& match before.root {
        Some(root) => after.root matches Some(moved) && moved.path matches FsPath::Text(text)
            && text@ == path && moved.readonly == root.readonly,
        None => after.root is None,
    }
}

/// The mounts of a volume.
pub open spec fn mounts_of<S, E>(volume: VolumeParts<S, E>) -> Seq<Mount> {
    match volume.mounts {
        Ok(mounts) => mounts@,
        Err(_) => Seq::empty(),
    }
}

/// What is to be set up for a volume.
pub open spec fn storages_of<S, E>(volume: VolumeParts<S, E>) -> Seq<S> {
    match volume.storages {
        Ok(storages) => storages@,
        Err(_) => Seq::empty(),
    }
}

/// The mounts of all volumes, one volume after the other.
pub open spec fn volume_mounts<S, E>(volumes: Seq<VolumeParts<S, E>>) -> Seq<Mount> {
    volumes.map_values(|volume: VolumeParts<S, E>| mounts_of(volume)).flatten()
}

/// What is to be set up for all volumes, one volume after the other.
pub open spec fn volume_storages<S, E>(volumes: Seq<VolumeParts<S, E>>) -> Seq<S> {
    volumes.map_values(|volume: VolumeParts<S, E>| storages_of(volume)).flatten()
}

/// The error of a root filesystem, if there is one.
pub open spec fn rootfs_error<S, E>(rootfs: Result<RootfsParts<S, E>, E>) -> Option<E> {
    match rootfs {
        Ok(parts) => match parts.guest_path {
            Ok(_) => None,
            Err(error) => Some(error),
        },
        Err(error) => Some(error),
    }
}

/// The first error among the parts of volumes, if there is one: volume by volume, the mounts of each
/// before its storages.
pub open spec fn first_part_error<S, E>(volumes: Seq<VolumeParts<S, E>>) -> Option<E>
    decreases volumes.len(),
{
    if volumes.len() == 0 {
        None
    } else {
        match (volumes[0].mounts, volumes[0].storages) {
            (Err(error), _) => Some(error),
            (Ok(_), Err(error)) => Some(error),
            (Ok(_), Ok(_)) => first_part_error(volumes.drop_first()),
        }
    }
}

/// The error of volumes, if there is one.
pub open spec fn volumes_error<S, E>(volumes: Result<Vec<VolumeParts<S, E>>, E>) -> Option<E> {
    match volumes {
        Ok(parts) => first_part_error(parts@),
        Err(error) => Some(error),
    }
}

/// The Linux part `after` is `before` with the limits `resources`, cut down to those that the
/// guest supports, and with the devices that `vfio_mode` lets through.
pub open spec fn limited(
    before: OciLinux,
    resources: Option<OciResources>,
    vfio_mode: Seq<char>,
    after: OciLinux,
) -> bool {
    &&& after == (OciLinux {
        resources: match resources {
            Some(limits) => Some(
                OciResources { block_io: None, devices: None, network: None, pids: None, ..limits },
            ),
            None => None,
        },
        devices: after.devices,
        ..before
    })
    &&& if vfio_mode == "vfio"@ {
        after.devices == before.devices
    } else {
        listed(after.devices) == without_vfio_devices(listed(before.devices))
    }
}

/// The test whether a shared mount ends in the container called `name`.
pub open spec fn ends_in(name: Seq<char>) -> spec_fn(SharedMount) -> bool {
    |mount: SharedMount| mount.dst_ctr@ == name
}

/// The shared mounts that end in the container called `name`.
pub open spec fn mounts_shared_with(mounts: Seq<SharedMount>, name: Seq<char>) -> Seq<SharedMount> {
    mounts.filter(ends_in(name))
}

/// A volume whose parts have all come back.
pub open spec fn is_complete<S, E>(volume: VolumeParts<S, E>) -> bool {
    volume.mounts is Ok && volume.storages is Ok
}

/// Whether a creation keeps the root filesystem that was set up, to clean it up later: once its
/// path in the guest is known.
pub fn keeps_rootfs<S, E>(rootfs: &Result<RootfsParts<S, E>, E>) -> (r: bool)
    ensures
        r == (rootfs_error(*rootfs) is None),
{
    match rootfs {
        Ok(parts) => parts.guest_path.is_ok(),
        Err(_) => false,
    }
}

/// How many of the volumes that were set up a creation keeps, to clean them up later: those before
/// the first that is not complete, even where the creation fails there.
pub fn kept_volumes<S, E>(volumes: &Vec<VolumeParts<S, E>>) -> (r: usize)
    ensures
        r <= volumes@.len(),
        forall|i: int| 0 <= i < r ==> is_complete(#[trigger] volumes@[i]),
        r < volumes@.len() ==> !is_complete(volumes@[r as int]),
        r == volumes@.len() <==> first_part_error(volumes@) is None,
{
    proof {
        every_part_counts(volumes@);
    }
    let mut i: usize = 0;
    while i < volumes.len()
        invariant
            i <= volumes@.len(),
            forall|j: int| 0 <= j < i ==> is_complete(#[trigger] volumes@[j]),
            first_part_error(volumes@) is None <==> forall|j: int|
                0 <= j < volumes@.len() ==> is_complete(#[trigger] volumes@[j]),
        decreases volumes@.len() - i,
    {
        if volumes[i].mounts.is_err() || volumes[i].storages.is_err() {
            assert(!is_complete(volumes@[i as int]));
            return i;
        }
        i = i + 1;
    }
    i
}

impl RootfsPending {
    /// `next` is what follows when the guest has the root filesystem at `guest_path` and has to
    /// set up `storage` for it.
    pub open spec fn with_rootfs<S>(
        self,
        guest_path: Seq<char>,
        storage: Option<Vec<S>>,
        next: VolumesPending<S>,
    ) -> bool {
        &&& rooted_at(self.spec, guest_path, next.spec)
        &&& next.sandbox_pidns == self.sandbox_pidns
        &&& next.storages@ == items_of(storage)
    }

    /// `result` is what follows when `rootfs` came back.
    pub open spec fn rootfs_outcome<S, E>(
        self,
        rootfs: Result<RootfsParts<S, E>, E>,
        result: Result<VolumesPending<S>, E>,
    ) -> bool {
        match rootfs_error(rootfs) {
            Some(error) => result == Err::<VolumesPending<S>, E>(error),
            None => result matches Ok(next) && self.with_rootfs(
                rootfs->Ok_0.guest_path->Ok_0@,
                rootfs->Ok_0.storage,
                next,
            ),
        }
    }

    /// Puts the root filesystem where the guest has it, with what the guest has to set up for it.
    pub fn rootfs_handled<S, E>(self, rootfs: Result<RootfsParts<S, E>, E>) -> (r: Result<
        VolumesPending<S>,
        E,
    >)
        ensures
            self.rootfs_outcome(rootfs, r),
    {
        let parts = match rootfs {
            Ok(parts) => parts,
            Err(error) => return Err(error),
        };
        let guest_path = match parts.guest_path {
            Ok(guest_path) => guest_path,
            Err(error) => return Err(error),
        };
        let mut spec = self.spec;
        match spec.root.take() {
            Some(root) => {
                spec.root = Some(
                    Root { path: FsPath::Text(guest_path), readonly: root.readonly },
                );
            },
            None => {},
        }
        let storages = match parts.storage {
            Some(items) => items,
            None => Vec::new(),
        };
        Ok(VolumesPending { spec, sandbox_pidns: self.sandbox_pidns, storages })
    }
}

impl<S> VolumesPending<S> {
    /// `next` is what follows when `volumes` were set up.
    pub open spec fn with_volumes<E>(
        self,
        volumes: Seq<VolumeParts<S, E>>,
        next: DevicesPending<S>,
    ) -> bool {
        &&& next.spec == (OciSpec { mounts: next.spec.mounts, ..self.spec })
        &&& listed(next.spec.mounts) == Some(volume_mounts(volumes))
        &&& next.sandbox_pidns == self.sandbox_pidns
        &&& next.storages@ == self.storages@ + volume_storages(volumes)
    }

    /// `result` is what follows when `volumes` came back.
    pub open spec fn volumes_outcome<E>(
        self,
        volumes: Result<Vec<VolumeParts<S, E>>, E>,
        result: Result<DevicesPending<S>, CreateFailure<E>>,
    ) -> bool {
        match volumes_error(volumes) {
            Some(error) => result == Err::<DevicesPending<S>, CreateFailure<E>>(
                CreateFailure::Outside(error),
            ),
            None => if self.spec.linux is None {
                result == Err::<DevicesPending<S>, CreateFailure<E>>(
                    CreateFailure::Refused(Error::MissingLinux),
                )
            } else {
                result matches Ok(next) && self.with_volumes(volumes->Ok_0@, next)
            },
        }
    }

    /// Gives the specification the mounts of the volumes in place of its own, with what the guest
    /// has to set up for them. The specification has to have a Linux part.
    pub fn volumes_handled<E>(self, volumes: Result<Vec<VolumeParts<S, E>>, E>) -> (r: Result<
        DevicesPending<S>,
        CreateFailure<E>,
    >)
        ensures
            self.volumes_outcome(volumes, r),
    {
        let parts = match volumes {
            Ok(parts) => parts,
            Err(error) => return Err(CreateFailure::Outside(error)),
        };
        let ghost all = parts@;
        let ghost mounts_in = |volume: VolumeParts<S, E>| mounts_of(volume);
        let ghost storages_in = |volume: VolumeParts<S, E>| storages_of(volume);
        let mut mounts: Vec<Mount> = Vec::new();
        let mut storages = self.storages;
        proof {
            assert(all.take(0).map_values(mounts_in) =~= Seq::empty());
            assert(all.take(0).map_values(storages_in) =~= Seq::empty());
            assert(storages@ =~= self.storages@ + Seq::<S>::empty());
            assert(all.skip(0) =~= all);
        }
        for volume in it: parts
            invariant
                it.seq() == all,
                volumes_error(volumes) == first_part_error(all),
                first_part_error(all) == first_part_error(all.skip(it.index())),
                mounts_in == (|volume: VolumeParts<S, E>| mounts_of(volume)),
                storages_in == (|volume: VolumeParts<S, E>| storages_of(volume)),
                mounts@ == all.take(it.index()).map_values(mounts_in).flatten(),
                storages@ == self.storages@ + all.take(it.index()).map_values(
                    storages_in,
                ).flatten(),
        {
            let ghost i = it.index();
            proof {
                assert(all.skip(i)[0] == volume);
                assert(all.skip(i).drop_first() =~= all.skip(i + 1));
                let before_mounts = all.take(i).map_values(mounts_in);
                let before_storages = all.take(i).map_values(storages_in);
                assert(all.take(i + 1).map_values(mounts_in) =~= before_mounts.push(
                    mounts_of(volume),
                ));
                assert(all.take(i + 1).map_values(storages_in) =~= before_storages.push(
                    storages_of(volume),
                ));
                Seq::lemma_flatten_push(before_mounts, mounts_of(volume));
                Seq::lemma_flatten_push(before_storages, storages_of(volume));
            }
            let mut new_mounts = match volume.mounts {
                Ok(new_mounts) => new_mounts,
                Err(error) => return Err(CreateFailure::Outside(error)),
            };
            let mut new_storages = match volume.storages {
                Ok(new_storages) => new_storages,
                Err(error) => return Err(CreateFailure::Outside(error)),
            };
            mounts.append(&mut new_mounts);
            storages.append(&mut new_storages);
            assert(storages@ =~= self.storages@ + all.take(i + 1).map_values(
                storages_in,
            ).flatten());
        }
        assert(all.take(all.len() as int) =~= all);
        let mut spec = self.spec;
        spec.mounts = Some(mounts);
        if spec.linux.is_none() {
            return Err(CreateFailure::Refused(Error::MissingLinux));
        }
        Ok(DevicesPending { spec, sandbox_pidns: self.sandbox_pidns, storages })
    }
}

impl<S> DevicesPending<S> {
    /// `next` is what follows when the devices were written into the specification, which is now
    /// `spec`, and `devices` are left for the agent.
    pub open spec fn with_devices<D>(
        self,
        spec: OciSpec,
        devices: Vec<D>,
        next: ResourcesPending<S, D>,
    ) -> bool {
        &&& next.spec == spec
        &&& next.devices == devices
        &&& next.sandbox_pidns == self.sandbox_pidns
        &&& next.storages == self.storages
    }

    /// Has the devices that were found written into the specification.
    ///
    /// `annotate_container_devices` gets the specification as it is settled so far and the devices
    /// that were found, and gives the devices for the agent.
    pub fn devices_handled<
        C,
        D,
        E,
        A: FnOnce(&mut OciSpec, Vec<C>) -> Result<Vec<D>, E>,
    >(self, found: Result<Vec<C>, E>, annotate_container_devices: A) -> (r: Result<
        ResourcesPending<S, D>,
        E,
    >)
        requires
            forall|s: &mut OciSpec, devices: Vec<C>|
                call_requires(annotate_container_devices, (s, devices)),
        ensures
            found matches Err(error) ==> r == Err::<ResourcesPending<S, D>, E>(error),
            found matches Ok(devices) ==> exists|s: &mut OciSpec, answer: Result<Vec<D>, E>|
                {
                    &&& *s == self.spec
                    &&& #[trigger] call_ensures(annotate_container_devices, (s, devices), answer)
                    &&& match answer {
                        Ok(agent_devices) => r matches Ok(next) && self.with_devices(
                            *final(s),
                            agent_devices,
                            next,
                        ),
                        Err(error) => r == Err::<ResourcesPending<S, D>, E>(error),
                    }
                },
    {
        let found = match found {
            Ok(found) => found,
            Err(error) => return Err(error),
        };
        let mut spec = self.spec;
        match annotate_container_devices(&mut spec, found) {
            Ok(devices) => Ok(
                ResourcesPending {
                    spec,
                    sandbox_pidns: self.sandbox_pidns,
                    storages: self.storages,
                    devices,
                },
            ),
            Err(error) => Err(error),
        }
    }
}

impl<S, D> ResourcesPending<S, D> {
    /// `next` is what follows when the resource manager has settled on `resources`.
    pub open spec fn with_resources(
        self,
        resources: Option<OciResources>,
        vfio_mode: Seq<char>,
        next: StreamsPending<S, D>,
    ) -> bool {
        &&& next.sandbox_pidns == self.sandbox_pidns
        &&& next.storages == self.storages
        &&& next.devices == self.devices
        &&& next.spec == (OciSpec { linux: next.spec.linux, ..self.spec })
        &&& match self.spec.linux {
            Some(linux) => next.spec.linux matches Some(after) && limited(
                linux,
                resources,
                vfio_mode,
                after,
            ),
            None => next.spec.linux is None,
        }
    }

    /// `result` is what follows when the resource manager has answered.
    pub open spec fn resources_outcome<E>(
        self,
        resources: Result<Option<OciResources>, E>,
        vfio_mode: Seq<char>,
        result: Result<StreamsPending<S, D>, E>,
    ) -> bool {
        match resources {
            Ok(limits) => result matches Ok(next) && self.with_resources(limits, vfio_mode, next),
            Err(error) => result == Err::<StreamsPending<S, D>, E>(error),
        }
    }

    /// Gives the specification the limits that the resource manager has settled on.
    ///
    /// The guest has no use for limits on block devices, on the network and on processes, nor for
    /// device rules, so it does not get them. It gets all others: those on CPU and memory, and also
    /// those on huge pages and RDMA and the unified ones. Unless the configured mode is `vfio`, it
    /// does not get the VFIO devices either.
    pub fn resources_handled<E>(
        self,
        resources: Result<Option<OciResources>, E>,
        toml_config: &TomlConfig,
    ) -> (r: Result<StreamsPending<S, D>, E>)
        ensures
            self.resources_outcome(resources, toml_config.runtime.vfio_mode@, r),
    {
        let resources = match resources {
            Ok(resources) => resources,
            Err(error) => return Err(error),
        };
        let mut spec = self.spec;
        match spec.linux.take() {
            Some(linux) => {
                let mut linux = linux;
                linux.resources = match resources {
                    Some(limits) => {
                        let mut limits = limits;
                        limits.devices = None;
                        limits.pids = None;
                        limits.block_io = None;
                        limits.network = None;
                        Some(limits)
                    },
                    None => None,
                };
                filter_vfio_devices(&mut linux, toml_config.runtime.vfio_mode.as_str());
                spec.linux = Some(linux);
            },
            None => {},
        }
        Ok(
            StreamsPending {
                spec,
                sandbox_pidns: self.sandbox_pidns,
                storages: self.storages,
                devices: self.devices,
            },
        )
    }
}

impl<S, D> StreamsPending<S, D> {
    /// `next` holds what was settled so far.
    pub open spec fn settled(self, next: RequestPending<S, D>) -> bool {
        &&& next.spec == self.spec
        &&& next.sandbox_pidns == self.sandbox_pidns
        &&& next.storages == self.storages
        &&& next.devices == self.devices
    }

    /// `step` hands the streams of the first process over if and only if the container has an
    /// address for that, and there.
    pub open spec fn is_streams_step(self, container: Container, step: StreamsStep<S, D>) -> bool {
        match container.passfd_listener_addr {
            Some(address) => {
                &&& step matches StreamsStep::HandOver { uds_path, port, streams }
                &&& uds_path@ == address.0@
                &&& port == address.1
                &&& streams == (HandOverPending {
                    spec: self.spec,
                    sandbox_pidns: self.sandbox_pidns,
                    storages: self.storages,
                    devices: self.devices,
                })
            },
            None => step matches StreamsStep::Ready { pending } && self.settled(pending),
        }
    }

    /// What becomes of the streams of the first process: they are handed over before the agent is
    /// asked, if the container has an address for that.
    pub fn streams(self, container: &Container) -> (r: StreamsStep<S, D>)
        ensures
            self.is_streams_step(*container, r),
    {
        match container.first_streams() {
            Some((uds_path, port)) => StreamsStep::HandOver {
                uds_path: uds_path.clone(),
                port,
                streams: HandOverPending {
                    spec: self.spec,
                    sandbox_pidns: self.sandbox_pidns,
                    storages: self.storages,
                    devices: self.devices,
                },
            },
            None => StreamsStep::Ready {
                pending: RequestPending {
                    spec: self.spec,
                    sandbox_pidns: self.sandbox_pidns,
                    storages: self.storages,
                    devices: self.devices,
                },
            },
        }
    }
}

impl<S, D> HandOverPending<S, D> {
    /// `result` is what follows, and `after` the container, when `answer` came back.
    pub open spec fn streams_outcome<E>(
        self,
        before: Container,
        answer: Result<PassfdIo, E>,
        after: Container,
        result: Result<RequestPending<S, D>, E>,
    ) -> bool {
        match answer {
            Ok(io) => {
                &&& after == before.with_first_streams(io)
                &&& result == Ok::<RequestPending<S, D>, E>(
                    RequestPending {
                        spec: self.spec,
                        sandbox_pidns: self.sandbox_pidns,
                        storages: self.storages,
                        devices: self.devices,
                    },
                )
            },
            Err(error) => {
                &&& after == before
                &&& result == Err::<RequestPending<S, D>, E>(error)
            },
        }
    }

    /// Takes note of the connections that the streams of the first process were handed over to.
    pub fn streams_handled<E>(self, container: &mut Container, answer: Result<PassfdIo, E>) -> (r:
        Result<RequestPending<S, D>, E>)
        ensures
            self.streams_outcome(*old(container), answer, *final(container), r),
    {
        match answer {
            Ok(io) => {
                container.inner.init_process.passfd_io = Some(io);
                Ok(
                    RequestPending {
                        spec: self.spec,
                        sandbox_pidns: self.sandbox_pidns,
                        storages: self.storages,
                        devices: self.devices,
                    },
                )
            },
            Err(error) => Err(error),
        }
    }
}

/// The shared mounts that end in the container called `name`.
fn find_shared_mounts(mounts: &Vec<SharedMount>, name: &str) -> (r: Vec<SharedMount>)
    ensures
        r@ == mounts_shared_with(mounts@, name@),
{
    let ghost ends_here = ends_in(name@);
    let mut found: Vec<SharedMount> = Vec::new();
    let mut i: usize = 0;
    reveal(Seq::filter);
    assert(found@ =~= mounts@.take(0).filter(ends_here));
    while i < mounts.len()
        invariant
            i <= mounts@.len(),
            ends_here == ends_in(name@),
            found@ == mounts@.take(i as int).filter(ends_here),
        decreases mounts@.len() - i,
    {
        proof {
            assert(mounts@.take(i + 1).drop_last() =~= mounts@.take(i as int));
            reveal(Seq::filter);
        }
        if str_eq(mounts[i].dst_ctr.as_str(), name) {
            found.push(mounts[i].clone());
        }
        i = i + 1;
    }
    assert(mounts@.take(mounts@.len() as int) =~= mounts@);
    found
}

/// The connection of a stream of the first process, if its streams were handed over.
pub open spec fn stream_port(
    passfd_io: Option<PassfdIo>,
    port: spec_fn(PassfdIo) -> Option<u32>,
) -> Option<u32> {
    match passfd_io {
        Some(io) => port(io),
        None => None,
    }
}

impl<S, D> RequestPending<S, D> {
    /// `request` has the agent create the container called `container_name`.
    pub open spec fn is_request(
        self,
        container: Container,
        toml_config: TomlConfig,
        container_name: Seq<char>,
        request: CreateContainerRequest<S, D>,
    ) -> bool {
        let passfd_io = container.inner.init_process.passfd_io;
        &&& request.process_id.container_id@ == container.config.container_id@
        &&& request.process_id.exec_id@ == ""@
        &&& request.storages == self.storages
        &&& request.oci == self.spec
        &&& request.sandbox_pidns == self.sandbox_pidns
        &&& request.devices == self.devices
        &&& request.shared_mounts@ == mounts_shared_with(
            toml_config.runtime.shared_mounts@,
            container_name,
        )
        &&& request.stdin_port == stream_port(passfd_io, |io: PassfdIo| io.stdin_port)
        &&& request.stdout_port == stream_port(passfd_io, |io: PassfdIo| io.stdout_port)
        &&& request.stderr_port == stream_port(passfd_io, |io: PassfdIo| io.stderr_port)
    }

    /// The request that has the agent create the container.
    ///
    /// `container_name` tells the name of the container from its specification; of the shared
    /// mounts the container gets those that end there.
    pub fn request<N: FnOnce(&OciSpec) -> String>(
        self,
        container: &Container,
        toml_config: &TomlConfig,
        container_name: N,
    ) -> (r: CreateContainerRequest<S, D>)
        requires
            forall|s: &OciSpec| call_requires(container_name, (s,)),
        ensures
            exists|name: String|
                {
                    &&& #[trigger] call_ensures(container_name, (&self.spec,), name)
                    &&& self.is_request(*container, *toml_config, name@, r)
                },
    {
        let name = container_name(&self.spec);
        let (stdin_port, stdout_port, stderr_port) = match &container.inner.init_process.passfd_io {
            Some(io) => (io.stdin_port, io.stdout_port, io.stderr_port),
            None => (None, None, None),
        };
        CreateContainerRequest {
            process_id: ContainerProcessID {
                container_id: container.config.container_id.clone(),
                exec_id: "".to_owned(),
            },
            storages: self.storages,
            oci: self.spec,
            sandbox_pidns: self.sandbox_pidns,
            devices: self.devices,
            shared_mounts: find_shared_mounts(
                &toml_config.runtime.shared_mounts,
                name.as_str(),
            ),
            stdin_port,
            stdout_port,
            stderr_port,
        }
    }
}

/// How a creation ends after the agent has answered.
pub fn create_answered<E>(answer: Result<(), E>) -> (r: CreateEnd<E>)
    ensures
        r == (match answer {
            Ok(_) => CreateEnd::Dump,
            Err(error) => CreateEnd::Failed { error },
        }),
{
    match answer {
        Ok(_) => CreateEnd::Dump,
        Err(error) => CreateEnd::Failed { error },
    }
}

/// Whatever the resource manager settled on, the guest gets no limits on block devices, on the
/// network or on processes and no device rules. All other limits it gets as they were settled on,
/// and where there are none it gets none.
pub proof fn guest_gets_supported_limits_only(
    before: OciLinux,
    resources: Option<OciResources>,
    vfio_mode: Seq<char>,
    after: OciLinux,
)
    requires
        limited(before, resources, vfio_mode, after),
    ensures
        after.resources is Some <==> resources is Some,
        after.resources matches Some(limits) ==> {
            &&& limits.block_io is None
            &&& limits.devices is None
            &&& limits.network is None
            &&& limits.pids is None
            &&& limits.rest == resources->0.rest
        },
{
}

/// Unless the mode is `vfio`, the guest gets no VFIO device, whatever devices were written into the
/// specification, and it gets every other one. In mode `vfio` it gets them all.
pub proof fn guest_gets_devices_by_mode(
    before: OciLinux,
    resources: Option<OciResources>,
    vfio_mode: Seq<char>,
    after: OciLinux,
    device: LinuxDevice,
)
    requires
        limited(before, resources, vfio_mode, after),
    ensures
        items_of(after.devices).contains(device) <==> items_of(before.devices).contains(device) && (
        vfio_mode == "vfio"@ || !is_vfio_device(device)),
{
    match before.devices {
        Some(devices) => {
            filtering_takes_out_vfio_devices(devices@);
            if vfio_mode != "vfio"@ {
                match listed(after.devices) {
                    Some(kept) => {
                        assert(kept.contains(device) <==> devices@.contains(device)
                            && !is_vfio_device(device));
                    },
                    None => {},
                }
            }
        },
        None => {},
    }
}

/// The volumes bring their parts one after the other: those of the first ones come before those of
/// the others.
pub proof fn volumes_add_up<S, E>(first: Seq<VolumeParts<S, E>>, others: Seq<VolumeParts<S, E>>)
    ensures
        volume_mounts(first + others) == volume_mounts(first) + volume_mounts(others),
        volume_storages(first + others) == volume_storages(first) + volume_storages(others),
{
    let mounts_in = |volume: VolumeParts<S, E>| mounts_of(volume);
    let storages_in = |volume: VolumeParts<S, E>| storages_of(volume);
    assert((first + others).map_values(mounts_in) =~= first.map_values(mounts_in)
        + others.map_values(mounts_in));
    assert((first + others).map_values(storages_in) =~= first.map_values(storages_in)
        + others.map_values(storages_in));
    lemma_flatten_concat(first.map_values(mounts_in), others.map_values(mounts_in));
    lemma_flatten_concat(first.map_values(storages_in), others.map_values(storages_in));
}

/// The parts of one volume.
proof fn lemma_one_volume<S, E>(volume: VolumeParts<S, E>)
    ensures
        volume_mounts(seq![volume]) == mounts_of(volume),
        volume_storages(seq![volume]) == storages_of(volume),
{
    let mounts = seq![volume].map_values(|volume: VolumeParts<S, E>| mounts_of(volume));
    let storages = seq![volume].map_values(|volume: VolumeParts<S, E>| storages_of(volume));
    assert(mounts =~= seq![mounts_of(volume)]);
    assert(storages =~= seq![storages_of(volume)]);
    mounts.lemma_flatten_one_element();
    storages.lemma_flatten_one_element();
}

/// Every part of every volume reaches the guest: what a volume brings lies between what those
/// before it and those after it bring.
pub proof fn every_volume_is_handled<S, E>(volumes: Seq<VolumeParts<S, E>>, i: int)
    requires
        0 <= i < volumes.len(),
    ensures
        volume_mounts(volumes) == volume_mounts(volumes.take(i)) + mounts_of(volumes[i])
            + volume_mounts(volumes.skip(i + 1)),
        volume_storages(volumes) == volume_storages(volumes.take(i)) + storages_of(volumes[i])
            + volume_storages(volumes.skip(i + 1)),
{
    assert(volumes =~= volumes.take(i) + seq![volumes[i]] + volumes.skip(i + 1));
    volumes_add_up(volumes.take(i) + seq![volumes[i]], volumes.skip(i + 1));
    volumes_add_up(volumes.take(i), seq![volumes[i]]);
    lemma_one_volume(volumes[i]);
}

/// Volumes have an error if and only if one of their parts has.
pub proof fn every_part_counts<S, E>(volumes: Seq<VolumeParts<S, E>>)
    ensures
        first_part_error(volumes) is None <==> forall|i: int|
            0 <= i < volumes.len() ==> is_complete(#[trigger] volumes[i]),
    decreases volumes.len(),
{
    if volumes.len() > 0 {
        let others = volumes.drop_first();
        every_part_counts(others);
        assert forall|i: int| 0 < i < volumes.len() implies #[trigger] volumes[i] == others[i
            - 1] by {}
        if first_part_error(volumes) is None {
            assert forall|i: int| 0 <= i < volumes.len() implies is_complete(
                #[trigger] volumes[i],
            ) by {
                if i > 0 {
                    assert(volumes[i] == others[i - 1]);
                }
            }
        } else if is_complete(volumes[0]) {
            let i = choose|i: int| 0 <= i < others.len() && !is_complete(#[trigger] others[i]);
            assert(volumes[i + 1] == others[i]);
        } else {
            assert(!is_complete(volumes[0]));
        }
    }
}

/// A container gets the shared mounts that end in it, and no others.
pub proof fn shared_mounts_end_in_the_container(
    mounts: Seq<SharedMount>,
    name: Seq<char>,
    shared: SharedMount,
)
    ensures
        mounts_shared_with(mounts, name).contains(shared) <==> mounts.contains(shared)
            && shared.dst_ctr@ == name,
{
    lemma_filter_holds(mounts, ends_in(name));
}

/// The stages of a creation that came to a request.
pub ghost struct Creation<S, D, E> {
    pub rootfs: RootfsPending,
    pub guest_path: Seq<char>,
    pub storage: Option<Vec<S>>,
    pub volumes: VolumesPending<S>,
    pub parts: Seq<VolumeParts<S, E>>,
    pub devices: DevicesPending<S>,
    /// The specification that the devices were written into.
    pub annotated: OciSpec,
    pub agent_devices: Vec<D>,
    pub resources: ResourcesPending<S, D>,
    pub limits: Option<OciResources>,
    pub streams: StreamsPending<S, D>,
    pub pending: RequestPending<S, D>,
    pub container_name: Seq<char>,
    pub request: CreateContainerRequest<S, D>,
}

impl<S, D, E> Creation<S, D, E> {
    /// Each stage follows from the one before.
    pub open spec fn holds(self, container: Container, toml_config: TomlConfig) -> bool {
        &&& self.rootfs.with_rootfs(self.guest_path, self.storage, self.volumes)
        &&& self.volumes.with_volumes(self.parts, self.devices)
        &&& self.devices.with_devices(self.annotated, self.agent_devices, self.resources)
        &&& self.resources.with_resources(
            self.limits,
            toml_config.runtime.vfio_mode@,
            self.streams,
        )
        &&& self.streams.settled(self.pending)
        &&& self.pending.is_request(container, toml_config, self.container_name, self.request)
    }
}

/// The request holds what each stage has settled, whatever the stages after it did: whether the PID
/// namespace is shared, what is set up, first for the root filesystem and then for the volumes, and
/// the devices for the agent. Unless the device stage changes them, the mounts are those of the
/// volumes and the root filesystem is the guest's.
pub proof fn request_holds_what_was_settled<S, D, E>(
    creation: Creation<S, D, E>,
    container: Container,
    toml_config: TomlConfig,
)
    requires
        creation.holds(container, toml_config),
    ensures
        creation.request.sandbox_pidns == creation.rootfs.sandbox_pidns,
        creation.request.storages@ == items_of(creation.storage) + volume_storages(creation.parts),
        creation.request.devices == creation.agent_devices,
        creation.annotated.mounts == creation.devices.spec.mounts ==> listed(
            creation.request.oci.mounts,
        ) == Some(volume_mounts(creation.parts)),
        creation.annotated.root == creation.devices.spec.root && creation.rootfs.spec.root is Some
            ==> {
            &&& creation.request.oci.root matches Some(root)
            &&& root.path matches FsPath::Text(path)
            &&& path@ == creation.guest_path
        },
        creation.annotated.linux matches Some(linux) ==> {
            &&& creation.request.oci.linux matches Some(after)
            &&& limited(linux, creation.limits, toml_config.runtime.vfio_mode@, after)
        },
{
}

/// The namespaces of a specification, none where it has no Linux part.
pub open spec fn namespaces_of(spec: OciSpec) -> Seq<LinuxNamespace> {
    match spec.linux {
        Some(linux) => items_of(linux.namespaces),
        None => Seq::empty(),
    }
}

/// Every namespace of `after` is one of `before` or one for the guest to set up: none is joined
/// that was not joined before.
pub open spec fn joins_no_other_namespace(before: OciSpec, after: OciSpec) -> bool {
    forall|i: int|
        0 <= i < namespaces_of(after).len() ==> {
            ||| namespaces_of(before).contains(#[trigger] namespaces_of(after)[i])
            ||| is_guest_namespace(namespaces_of(after)[i]) && namespaces_of(after)[i].path is None
        }
}

/// The request tells whether the specification that the container was asked for with shares the PID
/// namespace of the sandbox, while the specification in the request names no PID and no network
/// namespace and no host path of any, unless the device stage brings one in.
///
/// `given` is the specification that the container was asked for with, and `retyped` what was made
/// the guest's.
pub proof fn request_joins_no_namespace<S, D, E>(
    creation: Creation<S, D, E>,
    container: Container,
    toml_config: TomlConfig,
    given: OciSpec,
    retyped: OciSpec,
)
    requires
        creation.rootfs.sandbox_pidns == pid_namespace_shared(given),
        spec_for_guest(
            retyped,
            creation.rootfs.spec,
            toml_config.runtime.disable_guest_seccomp,
            guest_selinux_disabled(toml_config),
        ),
        creation.holds(container, toml_config),
        joins_no_other_namespace(creation.devices.spec, creation.annotated),
    ensures
        creation.request.sandbox_pidns == pid_namespace_shared(given),
        forall|i: int|
            0 <= i < namespaces_of(creation.request.oci).len() ==> is_guest_namespace(
                #[trigger] namespaces_of(creation.request.oci)[i],
            ) && namespaces_of(creation.request.oci)[i].path is None,
        !pid_namespace_shared(creation.request.oci),
{
    guest_joins_no_namespace(
        retyped,
        creation.rootfs.spec,
        toml_config.runtime.disable_guest_seccomp,
        guest_selinux_disabled(toml_config),
    );
    let for_guest = namespaces_of(creation.rootfs.spec);
    let named = namespaces_of(creation.request.oci);
    assert(for_guest == namespaces_of(creation.devices.spec));
    assert(named == namespaces_of(creation.annotated));
    assert forall|i: int| 0 <= i < named.len() implies is_guest_namespace(#[trigger] named[i])
        && named[i].path is None by {
        if for_guest.contains(named[i]) {
            let j = choose|j: int| 0 <= j < for_guest.len() && for_guest[j] == named[i];
            assert(is_guest_namespace(for_guest[j]));
        }
    }
}

/// Any outside work that fails ends the creation before the agent is asked, and where nothing fails
/// the agent is asked, provided the specification has a Linux part. The resource manager dumps what
/// it holds if and only if the agent, once asked, agrees.
///
/// A stage is only reached where the one before did not fail. `annotated` is what the device stage
/// has given for the devices that were found.
pub proof fn failed_work_ends_the_creation<S, C, D, E>(
    rootfs: RootfsPending,
    rootfs_answer: Result<RootfsParts<S, E>, E>,
    volumes: Result<VolumesPending<S>, E>,
    volumes_answer: Result<Vec<VolumeParts<S, E>>, E>,
    devices: Result<DevicesPending<S>, CreateFailure<E>>,
    found: Result<Vec<C>, E>,
    annotated: Result<Vec<D>, E>,
    resources: Result<ResourcesPending<S, D>, E>,
    limits: Result<Option<OciResources>, E>,
    vfio_mode: Seq<char>,
    streams: Result<StreamsPending<S, D>, E>,
    before: Container,
    after: Container,
    step: StreamsStep<S, D>,
    handed_over: Result<PassfdIo, E>,
    pending: Result<RequestPending<S, D>, E>,
    answer: Result<(), E>,
    end: CreateEnd<E>,
)
    requires
        rootfs.rootfs_outcome(rootfs_answer, volumes),
        volumes matches Ok(stage) ==> stage.volumes_outcome(volumes_answer, devices),
        devices is Ok ==> (resources is Ok <==> found is Ok && annotated is Ok),
        resources matches Ok(stage) ==> stage.resources_outcome(limits, vfio_mode, streams),
        streams matches Ok(stage) ==> {
            &&& stage.is_streams_step(before, step)
            &&& step matches StreamsStep::HandOver { uds_path, port, streams: stage }
                ==> stage.streams_outcome(before, handed_over, after, pending)
            &&& step matches StreamsStep::Ready { pending: stage } ==> pending == Ok::<
                RequestPending<S, D>,
                E,
            >(stage)
        },
        end == (match answer {
            Ok(_) => CreateEnd::Dump,
            Err(error) => CreateEnd::Failed { error },
        }),
    ensures
        ({
            let asked = volumes is Ok && devices is Ok && resources is Ok && streams is Ok
                && pending is Ok;
            &&& asked <==> {
                &&& rootfs_error(rootfs_answer) is None
                &&& volumes_error(volumes_answer) is None
                &&& rootfs.spec.linux is Some
                &&& found is Ok
                &&& annotated is Ok
                &&& limits is Ok
                &&& before.passfd_listener_addr is Some ==> handed_over is Ok
            }
            &&& end is Dump <==> answer is Ok
        }),
{
}

/// Where streams are handed over, the request names the connections that they were handed over to.
/// Where they are not, it names none, if the first process had none before.
pub proof fn ports_follow_the_listener<S, D, E>(
    streams: StreamsPending<S, D>,
    before: Container,
    after: Container,
    step: StreamsStep<S, D>,
    handed_over: Result<PassfdIo, E>,
    pending: Result<RequestPending<S, D>, E>,
    toml_config: TomlConfig,
    container_name: Seq<char>,
    request: CreateContainerRequest<S, D>,
)
    requires
        before.inner.init_process.passfd_io is None,
        streams.is_streams_step(before, step),
        step matches StreamsStep::HandOver { uds_path, port, streams: stage }
            ==> stage.streams_outcome(before, handed_over, after, pending),
        step matches StreamsStep::Ready { pending: stage } ==> after == before && pending == Ok::<
            RequestPending<S, D>,
            E,
        >(stage),
        pending matches Ok(stage) && stage.is_request(after, toml_config, container_name, request),
    ensures
        before.passfd_listener_addr is Some ==> {
            &&& handed_over matches Ok(io)
            &&& request.stdin_port == io.stdin_port
            &&& request.stdout_port == io.stdout_port
            &&& request.stderr_port == io.stderr_port
        },
        before.passfd_listener_addr is None ==> {
            &&& request.stdin_port is None
            &&& request.stdout_port is None
            &&& request.stderr_port is None
        },
{
}

} // verus!
