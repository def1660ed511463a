//! The settings of the runtime and of one container.

use vstd::prelude::*;

use crate::string_map::StringMap;
use crate::text::strip_prefix;

verus! {

/// The configuration file of the runtime.
pub struct TomlConfig {
    pub runtime: RuntimeConfig,
    /// The settings of each hypervisor, under its name.
    pub hypervisor: StringMap<HypervisorConfig>,
}

/// The settings of the runtime itself.
pub struct RuntimeConfig {
    pub hypervisor_name: String,
    pub disable_guest_seccomp: bool,
    pub disable_guest_empty_dir: bool,
    pub emptydir_mode: String,
    pub vfio_mode: String,
    pub shared_mounts: Vec<SharedMount>,
}

/// The settings of a hypervisor.
pub struct HypervisorConfig {
    pub disable_guest_selinux: bool,
    /// The filesystem that host and guest share, if there is one.
    pub shared_fs: Option<String>,
}

/// A mount of one container that another one sees.
pub struct SharedMount {
    pub name: String,
    pub src_ctr: String,
    pub src_path: String,
    pub dst_ctr: String,
    pub dst_path: String,
}

impl Clone for SharedMount {
    fn clone(&self) -> (r: Self)
        ensures
            r == *self,
    {
        SharedMount {
            name: self.name.clone(),
            src_ctr: self.src_ctr.clone(),
            src_path: self.src_path.clone(),
            dst_ctr: self.dst_ctr.clone(),
            dst_path: self.dst_path.clone(),
        }
    }
}

/// The request for a container.
pub struct ContainerConfig {
    pub container_id: String,
    pub bundle: String,
    pub rootfs_mounts: Vec<RootfsMount>,
    pub terminal: bool,
    pub options: Option<Vec<u8>>,
    pub stdin: Option<String>,
    pub stdout: Option<String>,
    pub stderr: Option<String>,
    /// Where the images of a checkpoint lie that the container is to be restored from.
    pub checkpoint: Option<String>,
}

/// A mount that makes up the root filesystem.
pub struct RootfsMount {
    pub options: Vec<String>,
}

/// The hypervisor that the runtime is set to use, where the file describes it.
pub open spec fn selected_hypervisor(config: TomlConfig) -> Option<HypervisorConfig> {
    if config.hypervisor@.contains_key(config.runtime.hypervisor_name@) {
        Some(config.hypervisor@[config.runtime.hypervisor_name@])
    } else {
        None
    }
}

/// SELinux is off in the guest: the selected hypervisor says so, or the file does not describe it.
pub open spec fn guest_selinux_disabled(config: TomlConfig) -> bool {
    match selected_hypervisor(config) {
        Some(hypervisor) => hypervisor.disable_guest_selinux,
        None => true,
    }
}

/// Whether SELinux is off in the guest.
pub fn get_disable_guest_selinux(toml_config: &TomlConfig) -> (r: bool)
    ensures
        r == guest_selinux_disabled(*toml_config),
{
    match toml_config.hypervisor.get(toml_config.runtime.hypervisor_name.as_str()) {
        Some(hypervisor) => hypervisor.disable_guest_selinux,
        None => true,
    }
}

/// Host and guest share a filesystem.
pub open spec fn shared_fs_configured(config: TomlConfig) -> bool {
    selected_hypervisor(config) matches Some(hypervisor) && hypervisor.shared_fs is Some
}

/// Whether host and guest share a filesystem.
pub fn has_shared_fs(toml_config: &TomlConfig) -> (r: bool)
    ensures
        r == shared_fs_configured(*toml_config),
{
    match toml_config.hypervisor.get(toml_config.runtime.hypervisor_name.as_str()) {
        Some(hypervisor) => hypervisor.shared_fs.is_some(),
        None => false,
    }
}

/// What the mount option of an overlay's upper directory begins with.
pub const UPPERDIR_OPTION: &'static str = "upperdir=";

/// The upper directory that the first option of a list to name one names.
pub open spec fn upperdir_in(options: Seq<String>) -> Option<Seq<char>>
    decreases options.len(),
{
    if options.len() == 0 {
        None
    } else if UPPERDIR_OPTION@.is_prefix_of(options[0]@) {
        Some(options[0]@.skip(UPPERDIR_OPTION@.len() as int))
    } else {
        upperdir_in(options.drop_first())
    }
}

/// The upper directory that the first mount of a list to name one names.
pub open spec fn upperdir_of(mounts: Seq<RootfsMount>) -> Option<Seq<char>>
    decreases mounts.len(),
{
    if mounts.len() == 0 {
        None
    } else if upperdir_in(mounts[0].options@) is Some {
        upperdir_in(mounts[0].options@)
    } else {
        upperdir_of(mounts.drop_first())
    }
}

fn find_upperdir(options: &Vec<String>) -> (r: Option<String>)
    ensures
        r.deep_view() == upperdir_in(options@),
{
    let mut i: usize = 0;
    assert(options@.skip(0) =~= options@);
    while i < options.len()
        invariant
            i <= options@.len(),
            upperdir_in(options@) == upperdir_in(options@.skip(i as int)),
        decreases options@.len() - i,
    {
        let found = strip_prefix(options[i].as_str(), UPPERDIR_OPTION);
        assert(options@.skip(i as int)[0] == options@[i as int]);
        if found.is_some() {
            return found;
        }
        assert(options@.skip(i as int).drop_first() =~= options@.skip(i + 1));
        i = i + 1;
    }
    None
}

/// The host directory that takes the changes to a root filesystem, as the options of its mounts
/// give it.
pub fn find_rootfs_upperdir(mounts: &Vec<RootfsMount>) -> (r: Option<String>)
    ensures
        r.deep_view() == upperdir_of(mounts@),
{
    let mut i: usize = 0;
    assert(mounts@.skip(0) =~= mounts@);
    while i < mounts.len()
        invariant
            i <= mounts@.len(),
            upperdir_of(mounts@) == upperdir_of(mounts@.skip(i as int)),
        decreases mounts@.len() - i,
    {
        let found = find_upperdir(&mounts[i].options);
        assert(mounts@.skip(i as int)[0] == mounts@[i as int]);
        if found.is_some() {
            return found;
        }
        assert(mounts@.skip(i as int).drop_first() =~= mounts@.skip(i + 1));
        i = i + 1;
    }
    None
}

/// The `j`-th option of the `i`-th mount names an upper directory.
pub open spec fn names_upperdir(mounts: Seq<RootfsMount>, i: int, j: int) -> bool {
    &&& 0 <= i < mounts.len()
    &&& 0 <= j < mounts[i].options@.len()
    &&& UPPERDIR_OPTION@.is_prefix_of(mounts[i].options@[j]@)
}

proof fn lemma_upperdir_in(options: Seq<String>)
    ensures
        match upperdir_in(options) {
            Some(upper) => exists|j: int|
                0 <= j < options.len() && (#[trigger] options[j])@ == UPPERDIR_OPTION@ + upper
                    && forall|k: int|
                    0 <= k < j ==> !UPPERDIR_OPTION@.is_prefix_of((#[trigger] options[k])@),
            None => forall|j: int|
                0 <= j < options.len() ==> !UPPERDIR_OPTION@.is_prefix_of(
                    (#[trigger] options[j])@,
                ),
        },
    decreases options.len(),
{
    if options.len() > 0 {
        if UPPERDIR_OPTION@.is_prefix_of(options[0]@) {
            assert(options[0]@ =~= UPPERDIR_OPTION@ + options[0]@.skip(
                UPPERDIR_OPTION@.len() as int,
            ));
        } else {
            let rest = options.drop_first();
            lemma_upperdir_in(rest);
            assert forall|j: int| 0 < j < options.len() implies #[trigger] options[j] == rest[j
                - 1] by {}
            match upperdir_in(rest) {
                Some(upper) => {
                    let j = choose|j: int|
                        0 <= j < rest.len() && (#[trigger] rest[j])@ == UPPERDIR_OPTION@ + upper
                            && forall|k: int|
                            0 <= k < j ==> !UPPERDIR_OPTION@.is_prefix_of((#[trigger] rest[k])@);
                    assert(options[j + 1] == rest[j]);
                },
                None => {},
            }
        }
    }
}

/// The upper directory is what the first option to name one names, of all mounts in order; there is
/// none only where no option names one.
pub proof fn first_option_names_the_upperdir(mounts: Seq<RootfsMount>)
    ensures
        match upperdir_of(mounts) {
            Some(upper) => exists|i: int, j: int|
                {
                    &&& #[trigger] names_upperdir(mounts, i, j)
                    &&& mounts[i].options@[j]@ == UPPERDIR_OPTION@ + upper
                    &&& forall|k: int, l: int|
                        k < i || k == i && l < j ==> !#[trigger] names_upperdir(mounts, k, l)
                },
            None => forall|i: int, j: int| !#[trigger] names_upperdir(mounts, i, j),
        },
    decreases mounts.len(),
{
    if mounts.len() > 0 {
        let options = mounts[0].options@;
        lemma_upperdir_in(options);
        match upperdir_in(options) {
            Some(upper) => {
                let j = choose|j: int|
                    0 <= j < options.len() && (#[trigger] options[j])@ == UPPERDIR_OPTION@ + upper
                        && forall|k: int|
                        0 <= k < j ==> !UPPERDIR_OPTION@.is_prefix_of((#[trigger] options[k])@);
                assert(options[j]@.take(UPPERDIR_OPTION@.len() as int) =~= UPPERDIR_OPTION@);
                assert(names_upperdir(mounts, 0, j));
            },
            None => {
                let rest = mounts.drop_first();
                first_option_names_the_upperdir(rest);
                assert forall|i: int, j: int| #[trigger] names_upperdir(mounts, i, j) implies 0 < i
                    && names_upperdir(rest, i - 1, j) by {
                    if i > 0 {
                        assert(mounts[i] == rest[i - 1]);
                    }
                }
                match upperdir_of(rest) {
                    Some(upper) => {
                        let (i, j) = choose|i: int, j: int|
                            {
                                &&& #[trigger] names_upperdir(rest, i, j)
                                &&& rest[i].options@[j]@ == UPPERDIR_OPTION@ + upper
                                &&& forall|k: int, l: int|
                                    k < i || k == i && l < j ==> !#[trigger] names_upperdir(
                                        rest,
                                        k,
                                        l,
                                    )
                            };
                        assert(mounts[i + 1] == rest[i]);
                        assert(names_upperdir(mounts, i + 1, j));
                    },
                    None => {},
                }
            },
        }
    }
}

} // verus!
