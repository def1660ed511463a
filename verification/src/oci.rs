//! The parts of an OCI runtime specification that the runtime reads or rewrites.
//!
//! Each type holds the fields that some rule looks at as plain values. What no rule looks into
//! is carried along in `rest`, a value of `oci_spec`. Whatever `rest` has in the place of a field
//! that stands beside it counts for nothing: the field is what is meant.

use oci_spec::runtime as oci_rt;
use vstd::prelude::*;

use crate::path::FsPath;
use crate::string_map::StringMap;

verus! {

/// `oci_spec::runtime::Spec`, carried along: nothing is claimed of what it holds.
#[verifier::external_type_specification]
#[verifier::external_body]
pub struct ExSpec(oci_spec::runtime::Spec);

/// `oci_spec::runtime::Linux`, carried along: nothing is claimed of what it holds.
#[verifier::external_type_specification]
#[verifier::external_body]
pub struct ExLinux(oci_spec::runtime::Linux);

/// `oci_spec::runtime::Process`, carried along: nothing is claimed of what it holds.
#[verifier::external_type_specification]
#[verifier::external_body]
pub struct ExProcess(oci_spec::runtime::Process);

/// `oci_spec::runtime::Hook`, carried along: nothing is claimed of what it holds.
#[verifier::external_type_specification]
#[verifier::external_body]
pub struct ExHook(oci_spec::runtime::Hook);

/// `oci_spec::runtime::LinuxSeccomp`, carried along: nothing is claimed of what it holds.
#[verifier::external_type_specification]
#[verifier::external_body]
pub struct ExLinuxSeccomp(oci_spec::runtime::LinuxSeccomp);

/// `oci_spec::runtime::LinuxResources`, carried along and copied by its `clone`.
#[verifier::external_type_specification]
#[verifier::external_body]
pub struct ExLinuxResources(oci_spec::runtime::LinuxResources);

/// `oci_spec::runtime::LinuxDeviceCgroup`, carried along and copied by its `clone`.
#[verifier::external_type_specification]
#[verifier::external_body]
pub struct ExLinuxDeviceCgroup(oci_spec::runtime::LinuxDeviceCgroup);

/// `oci_spec::runtime::LinuxPids`, carried along and copied by its `clone`.
#[verifier::external_type_specification]
#[verifier::external_body]
pub struct ExLinuxPids(oci_spec::runtime::LinuxPids);

/// `oci_spec::runtime::LinuxBlockIo`, carried along and copied by its `clone`.
#[verifier::external_type_specification]
#[verifier::external_body]
pub struct ExLinuxBlockIo(oci_spec::runtime::LinuxBlockIo);

/// `oci_spec::runtime::LinuxNetwork`, carried along and copied by its `clone`.
#[verifier::external_type_specification]
#[verifier::external_body]
pub struct ExLinuxNetwork(oci_spec::runtime::LinuxNetwork);

/// `clone` of `oci_spec::runtime::LinuxResources`: the copy is the same value. The type derives
/// `Clone`, and each of its fields is plain data.
pub assume_specification[ <oci_spec::runtime::LinuxResources as Clone>::clone ](
    resources: &oci_spec::runtime::LinuxResources,
) -> (copy: oci_spec::runtime::LinuxResources)
    ensures
        copy == *resources,
;

/// `clone` of `oci_spec::runtime::LinuxDeviceCgroup`: the copy is the same value. The type derives
/// `Clone`, and each of its fields is plain data.
pub assume_specification[ <oci_spec::runtime::LinuxDeviceCgroup as Clone>::clone ](
    rule: &oci_spec::runtime::LinuxDeviceCgroup,
) -> (copy: oci_spec::runtime::LinuxDeviceCgroup)
    ensures
        copy == *rule,
;

/// `clone` of `oci_spec::runtime::LinuxPids`: the copy is the same value. The type derives `Clone`
/// and `Copy`; it holds one number.
pub assume_specification[ <oci_spec::runtime::LinuxPids as Clone>::clone ](
    pids: &oci_spec::runtime::LinuxPids,
) -> (copy: oci_spec::runtime::LinuxPids)
    ensures
        copy == *pids,
;

/// `clone` of `oci_spec::runtime::LinuxBlockIo`: the copy is the same value. The type derives
/// `Clone`, and each of its fields is plain data.
pub assume_specification[ <oci_spec::runtime::LinuxBlockIo as Clone>::clone ](
    block_io: &oci_spec::runtime::LinuxBlockIo,
) -> (copy: oci_spec::runtime::LinuxBlockIo)
    ensures
        copy == *block_io,
;

/// `clone` of `oci_spec::runtime::LinuxNetwork`: the copy is the same value. The type derives
/// `Clone`, and each of its fields is plain data.
pub assume_specification[ <oci_spec::runtime::LinuxNetwork as Clone>::clone ](
    network: &oci_spec::runtime::LinuxNetwork,
) -> (copy: oci_spec::runtime::LinuxNetwork)
    ensures
        copy == *network,
;

/// The specification of a container.
pub struct OciSpec {
    pub annotations: Option<StringMap<String>>,
    pub hooks: Option<Hooks>,
    pub linux: Option<OciLinux>,
    pub mounts: Option<Vec<Mount>>,
    pub process: Option<OciProcess>,
    pub root: Option<Root>,
    /// The remaining fields. It may hold other values for those above; they are not used.
    pub rest: oci_rt::Spec,
}

/// Programs to run at points of a container's life.
pub struct Hooks {
    pub prestart: Option<Vec<oci_rt::Hook>>,
    pub create_runtime: Option<Vec<oci_rt::Hook>>,
    pub create_container: Option<Vec<oci_rt::Hook>>,
    pub start_container: Option<Vec<oci_rt::Hook>>,
    pub poststart: Option<Vec<oci_rt::Hook>>,
    pub poststop: Option<Vec<oci_rt::Hook>>,
}

/// The root filesystem of a container.
pub struct Root {
    pub path: FsPath,
    pub readonly: Option<bool>,
}

/// A mount of a container.
pub struct Mount {
    pub destination: FsPath,
    pub typ: Option<String>,
    pub source: Option<FsPath>,
    pub options: Option<Vec<String>>,
}

/// A process to run in a container.
pub struct OciProcess {
    pub selinux_label: Option<String>,
    /// The remaining fields. It may hold another label; that is not used.
    pub rest: oci_rt::Process,
}

/// The Linux part of a specification.
pub struct OciLinux {
    pub devices: Option<Vec<LinuxDevice>>,
    pub mount_label: Option<String>,
    pub namespaces: Option<Vec<LinuxNamespace>>,
    pub resources: Option<OciResources>,
    pub seccomp: Option<oci_rt::LinuxSeccomp>,
    /// The remaining fields. It may hold other values for those above; they are not used.
    pub rest: oci_rt::Linux,
}

/// The kinds of Linux namespaces.
#[derive(Clone, Copy, Debug, PartialEq, Eq, Structural)]
pub enum LinuxNamespaceType {
    Mount,
    Cgroup,
    Uts,
    Ipc,
    User,
    Pid,
    Network,
    Time,
}

/// A namespace to create, or to join where it has a path.
pub struct LinuxNamespace {
    pub typ: LinuxNamespaceType,
    pub path: Option<FsPath>,
}

/// The kinds of device nodes.
#[derive(Clone, Copy, Debug, PartialEq, Eq, Structural)]
pub enum LinuxDeviceType {
    A,
    B,
    C,
    U,
    P,
}

/// A device node to create in a container.
pub struct LinuxDevice {
    pub path: FsPath,
    pub typ: LinuxDeviceType,
    pub major: i64,
    pub minor: i64,
    pub file_mode: Option<u32>,
    pub uid: Option<u32>,
    pub gid: Option<u32>,
}

/// Resource limits of a container.
pub struct OciResources {
    pub block_io: Option<oci_rt::LinuxBlockIo>,
    pub devices: Option<Vec<oci_rt::LinuxDeviceCgroup>>,
    pub network: Option<oci_rt::LinuxNetwork>,
    pub pids: Option<oci_rt::LinuxPids>,
    /// The remaining limits: on CPU, memory and huge pages, on RDMA, and the unified ones. It may
    /// hold other values for those above; they are not used.
    pub rest: oci_rt::LinuxResources,
}

/// The value of resource limits.
pub ghost struct OciResourcesView {
    pub block_io: Option<oci_rt::LinuxBlockIo>,
    pub devices: Option<Seq<oci_rt::LinuxDeviceCgroup>>,
    pub network: Option<oci_rt::LinuxNetwork>,
    pub pids: Option<oci_rt::LinuxPids>,
    pub rest: oci_rt::LinuxResources,
}

/// The elements of an optional list.
pub open spec fn listed<T>(list: Option<Vec<T>>) -> Option<Seq<T>> {
    match list {
        Some(items) => Some(items@),
        None => None,
    }
}

/// The elements of an optional list, none where there is no list.
pub open spec fn items_of<T>(list: Option<Vec<T>>) -> Seq<T> {
    match list {
        Some(items) => items@,
        None => Seq::empty(),
    }
}

impl View for OciResources {
    type V = OciResourcesView;

    open spec fn view(&self) -> OciResourcesView {
        OciResourcesView {
            block_io: self.block_io,
            devices: listed(self.devices),
            network: self.network,
            pids: self.pids,
            rest: self.rest,
        }
    }
}

/// The value of optional resource limits.
pub open spec fn resources_view(resources: Option<OciResources>) -> Option<OciResourcesView> {
    match resources {
        Some(limits) => Some(limits@),
        None => None,
    }
}

impl Clone for OciResources {
    fn clone(&self) -> (r: Self)
        ensures
            r@ == self@,
    {
        let devices = match &self.devices {
            Some(rules) => {
                let copy = rules.clone();
                assert(copy@ =~= rules@);
                Some(copy)
            },
            None => None,
        };
        OciResources {
            block_io: self.block_io.clone(),
            devices,
            network: self.network.clone(),
            pids: self.pids.clone(),
            rest: self.rest.clone(),
        }
    }
}

} // verus!
