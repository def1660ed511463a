//! In which order the outside work of a checkpoint is done, and where its images go.

use vstd::prelude::*;

use crate::checkpoint::{copy_dir_contents, CheckpointStep, ImageRequest};
use crate::container::Container;

verus! {

/// A checkpoint begins with the dump, and its images are then looked for on the host, if the root
/// filesystem has an upper directory. Where they are not there, there is nothing more to do.
pub proof fn images_are_looked_for_after_the_dump(
    container: &Container,
    first: CheckpointStep,
    checkpoint_path: &str,
    step: CheckpointStep,
    succeeded: bool,
    r: CheckpointStep,
    upperdir: Option<String>,
)
    requires
        call_ensures(Container::checkpoint, (container,), first),
        call_ensures(
            Container::checkpoint_next,
            (container, checkpoint_path, step, succeeded),
            r,
        ),
        call_ensures(Container::rootfs_upperdir, (container,), upperdir),
    ensures
        first == CheckpointStep::Dump,
        step == CheckpointStep::Dump ==> {
            &&& !succeeded ==> r == CheckpointStep::Failed
            &&& succeeded && upperdir is Some ==> r == CheckpointStep::ProbeImages
            &&& succeeded && upperdir is None ==> r == CheckpointStep::DoneInRootfs
        },
        step == CheckpointStep::ProbeImages ==> {
            &&& succeeded ==> r == CheckpointStep::ProbeCriDir
            &&& !succeeded ==> r == CheckpointStep::Done
        },
{
    assert(upperdir.deep_view() == crate::config::upperdir_of(container.config.rootfs_mounts@));
}

/// The targets of a checkpoint are taken in turn: for each a directory is made and then the images
/// are copied, and after the last the checkpoint is done. A failure at any of them ends it.
pub proof fn targets_are_taken_in_turn(
    container: &Container,
    checkpoint_path: &str,
    step: CheckpointStep,
    succeeded: bool,
    r: CheckpointStep,
    cri: bool,
    index: usize,
    targets: Vec<String>,
)
    requires
        call_ensures(
            Container::checkpoint_next,
            (container, checkpoint_path, step, succeeded),
            r,
        ),
        call_ensures(Container::checkpoint_targets, (container, checkpoint_path, cri), targets),
    ensures
        step == CheckpointStep::ProbeCriDir && succeeded == cri ==> {
            &&& targets@.len() > 0 ==> r == (CheckpointStep::CreateTarget { cri, index: 0 })
            &&& targets@.len() == 0 ==> r == CheckpointStep::Done
        },
        step == (CheckpointStep::CreateTarget { cri, index }) ==> {
            &&& succeeded ==> r == (CheckpointStep::CopyToTarget { cri, index })
            &&& !succeeded ==> r == CheckpointStep::Failed
        },
        step == (CheckpointStep::CopyToTarget { cri, index }) ==> {
            &&& !succeeded ==> r == CheckpointStep::Failed
            &&& succeeded && index + 1 < targets@.len() ==> {
                &&& r matches CheckpointStep::CreateTarget { cri: same, index: next }
                &&& same == cri
                &&& next == index + 1
            }
            &&& succeeded && index + 1 >= targets@.len() ==> r == CheckpointStep::Done
        },
        step == CheckpointStep::Done || step == CheckpointStep::DoneInRootfs || step
            == CheckpointStep::Failed ==> r == step,
{
    assert(targets@.len() == targets.deep_view().len());
}

/// The images go to the path that was asked for, if there is one, and then to the container's
/// directory in the state of containerd's CRI plugin, if there is one.
pub proof fn images_go_to_the_path_and_to_the_plugin(
    container: &Container,
    checkpoint_path: &str,
    cri: bool,
    targets: Vec<String>,
    cri_dir: String,
)
    requires
        call_ensures(Container::checkpoint_targets, (container, checkpoint_path, cri), targets),
        call_ensures(Container::cri_dir, (container,), cri_dir),
    ensures
        cri_dir@ == "/var/lib/containerd/io.containerd.grpc.v1.cri/containers/"@
            + container.container_id.container_id@,
        ({
            let asked: int = if checkpoint_path@.len() > 0 {
                1
            } else {
                0
            };
            let plugin: int = if cri {
                1
            } else {
                0
            };
            &&& targets@.len() == asked + plugin
            &&& checkpoint_path@.len() > 0 ==> targets@[0]@ == checkpoint_path@
            &&& cri ==> targets@[asked]@ == cri_dir@
        }),
{
    assert(targets@.len() == targets.deep_view().len());
    assert forall|i: int| 0 <= i < targets@.len() implies (#[trigger] targets@[i])@
        == targets.deep_view()[i] by {}
}

/// A restore names the container and the images that it was asked for with.
pub proof fn restore_names_the_images_asked_for(
    container: &Container,
    image_path: &str,
    r: ImageRequest,
)
    requires
        call_ensures(Container::restore, (container, image_path), r),
    ensures
        r.container_id@ == container.container_id.container_id@,
        r.image_path@ == image_path@,
{
}

/// What is in one directory is copied into another, with its attributes.
pub proof fn contents_are_copied_into_the_directory(src: &str, dst: &str, r: Vec<String>)
    requires
        call_ensures(copy_dir_contents, (src, dst), r),
    ensures
        r@.len() == 3,
        r@[0]@ == "-a"@,
        r@[1]@ == src@ + "/."@,
        r@[2]@ == dst@ + "/"@,
{
    assert(r@.len() == r.deep_view().len());
    assert forall|i: int| 0 <= i < r@.len() implies (#[trigger] r@[i])@ == r.deep_view()[i] by {}
}

} // verus!
