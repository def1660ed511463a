//! How a container is checkpointed and restored.

use vstd::prelude::*;

use crate::container::Container;
use crate::start::{GUEST_CONTAINERS, GUEST_IMAGES};
use crate::text::join;

verus! {

/// Where containerd's CRI plugin keeps the state of its containers.
pub const CRI_CONTAINERS: &'static str =
    "/var/lib/containerd/io.containerd.grpc.v1.cri/containers/";

/// The request to the agent to dump or to restore a container.
pub struct ImageRequest {
    pub container_id: String,
    pub image_path: String,
}

/// The outside work that a checkpoint is waiting for.
///
/// `cri` says whether containerd's CRI plugin has a directory for the container.
#[derive(Clone, Copy, Debug, PartialEq, Eq, Structural)]
pub enum CheckpointStep {
    /// Have the agent dump the container.
    Dump,
    /// Look whether the images are on the host; success says that they are.
    ProbeImages,
    /// Look whether the CRI plugin has a directory for the container; success says that it has.
    ProbeCriDir,
    /// Create a directory for the images.
    CreateTarget { cri: bool, index: usize },
    /// Copy the images there.
    CopyToTarget { cri: bool, index: usize },
    /// The images are where they are expected.
    Done,
    /// The images remain in the root filesystem, whose place on the host is not known.
    DoneInRootfs,
    /// Outside work failed: the step before this one.
    Failed,
}

/// The container's directory in the state of containerd's CRI plugin.
pub open spec fn cri_directory(container: Container) -> Seq<char> {
    CRI_CONTAINERS@ + container.container_id.container_id@
}

/// Where the images are expected: the path that was asked for, and the directory of the CRI plugin
/// where there is one.
pub open spec fn image_targets(container: Container, checkpoint_path: Seq<char>, cri: bool) -> Seq<
    Seq<char>,
> {
    (if checkpoint_path.len() > 0 {
        seq![checkpoint_path]
    } else {
        Seq::empty()
    }) + (if cri {
        seq![cri_directory(container)]
    } else {
        Seq::empty()
    })
}

/// The step that takes care of the `index`-th target.
pub open spec fn target_step(
    container: Container,
    checkpoint_path: Seq<char>,
    cri: bool,
    index: int,
) -> CheckpointStep {
    if index < image_targets(container, checkpoint_path, cri).len() {
        CheckpointStep::CreateTarget { cri, index: index as usize }
    } else {
        CheckpointStep::Done
    }
}

/// What follows a step of a checkpoint.
pub open spec fn checkpoint_step_after(
    container: Container,
    checkpoint_path: Seq<char>,
    step: CheckpointStep,
    succeeded: bool,
) -> CheckpointStep {
    match step {
        CheckpointStep::Dump => if !succeeded {
            CheckpointStep::Failed
        } else if container.host_images() is Some {
            CheckpointStep::ProbeImages
        } else {
            CheckpointStep::DoneInRootfs
        },
        CheckpointStep::ProbeImages => if succeeded {
            CheckpointStep::ProbeCriDir
        } else {
            CheckpointStep::Done
        },
        CheckpointStep::ProbeCriDir => target_step(container, checkpoint_path, succeeded, 0),
        CheckpointStep::CreateTarget { cri, index } => if succeeded {
            CheckpointStep::CopyToTarget { cri, index }
        } else {
            CheckpointStep::Failed
        },
        CheckpointStep::CopyToTarget { cri, index } => if succeeded {
            target_step(container, checkpoint_path, cri, index + 1)
        } else {
            CheckpointStep::Failed
        },
        CheckpointStep::Done => CheckpointStep::Done,
        CheckpointStep::DoneInRootfs => CheckpointStep::DoneInRootfs,
        CheckpointStep::Failed => CheckpointStep::Failed,
    }
}

/// The arguments of `cp` that copy what is in `src` into `dst`, with all attributes.
pub fn copy_dir_contents(src: &str, dst: &str) -> (r: Vec<String>)
    ensures
        r.deep_view() == seq!["-a"@, src@ + "/."@, dst@ + "/"@],
{
    let mut arguments: Vec<String> = Vec::new();
    arguments.push("-a".to_owned());
    arguments.push(join(src, "/."));
    arguments.push(join(dst, "/"));
    assert(arguments.deep_view() =~= seq!["-a"@, src@ + "/."@, dst@ + "/"@]);
    arguments
}

impl Container {
    /// What a checkpoint begins with.
    pub fn checkpoint(&self) -> (r: CheckpointStep)
        ensures
            r == CheckpointStep::Dump,
    {
        CheckpointStep::Dump
    }

    /// The request that has the agent dump the container. It goes on running.
    pub fn checkpoint_request(&self) -> (r: ImageRequest)
        ensures
            r.container_id@ == self.container_id.container_id@,
            r.image_path@ == self.guest_images(),
    {
        ImageRequest {
            container_id: self.container_id.container_id.clone(),
            image_path: self.guest_image_path(),
        }
    }

    /// The request that has the agent restore the container from the images at `image_path`.
    pub fn restore(&self, image_path: &str) -> (r: ImageRequest)
        ensures
            r.container_id@ == self.container_id.container_id@,
            r.image_path@ == image_path@,
    {
        ImageRequest {
            container_id: self.container_id.container_id.clone(),
            image_path: image_path.to_owned(),
        }
    }

    /// The container's directory in the state of containerd's CRI plugin.
    pub fn cri_dir(&self) -> (r: String)
        ensures
            r@ == cri_directory(*self),
    {
        join(CRI_CONTAINERS, self.container_id.container_id.as_str())
    }

    /// Where the images are expected, in the order in which they are copied.
    pub fn checkpoint_targets(&self, checkpoint_path: &str, cri: bool) -> (r: Vec<String>)
        ensures
            r.deep_view() == image_targets(*self, checkpoint_path@, cri),
    {
        let mut targets: Vec<String> = Vec::new();
        if !checkpoint_path.is_empty() {
            targets.push(checkpoint_path.to_owned());
        }
        if cri {
            targets.push(self.cri_dir());
        }
        assert(targets.deep_view() =~= image_targets(*self, checkpoint_path@, cri));
        targets
    }

    /// What follows a step of a checkpoint.
    pub fn checkpoint_next(
        &self,
        checkpoint_path: &str,
        step: CheckpointStep,
        succeeded: bool,
    ) -> (r: CheckpointStep)
        ensures
            r == checkpoint_step_after(*self, checkpoint_path@, step, succeeded),
    {
        match step {
            CheckpointStep::Dump => if !succeeded {
                CheckpointStep::Failed
            } else if self.rootfs_upperdir().is_some() {
                CheckpointStep::ProbeImages
            } else {
                CheckpointStep::DoneInRootfs
            },
            CheckpointStep::ProbeImages => if succeeded {
                CheckpointStep::ProbeCriDir
            } else {
                CheckpointStep::Done
            },
            CheckpointStep::ProbeCriDir => {
                let targets = self.checkpoint_targets(checkpoint_path, succeeded);
                assert(targets.deep_view().len() == targets@.len());
                if targets.len() > 0 {
                    CheckpointStep::CreateTarget { cri: succeeded, index: 0 }
                } else {
                    CheckpointStep::Done
                }
            },
            CheckpointStep::CreateTarget { cri, index } => if succeeded {
                CheckpointStep::CopyToTarget { cri, index }
            } else {
                CheckpointStep::Failed
            },
            CheckpointStep::CopyToTarget { cri, index } => if succeeded {
                let targets = self.checkpoint_targets(checkpoint_path, cri);
                assert(targets.deep_view().len() == targets@.len());
                if index < targets.len() && index + 1 < targets.len() {
                    CheckpointStep::CreateTarget { cri, index: index + 1 }
                } else {
                    CheckpointStep::Done
                }
            } else {
                CheckpointStep::Failed
            },
            CheckpointStep::Done => CheckpointStep::Done,
            CheckpointStep::DoneInRootfs => CheckpointStep::DoneInRootfs,
            CheckpointStep::Failed => CheckpointStep::Failed,
        }
    }
}

/// A checkpoint is over.
pub open spec fn checkpoint_ended(step: CheckpointStep) -> bool {
    step is Done || step is DoneInRootfs || step is Failed
}

/// A bound on the steps that a checkpoint still takes.
pub open spec fn checkpoint_steps_left(step: CheckpointStep) -> int {
    match step {
        CheckpointStep::Dump => 7,
        CheckpointStep::ProbeImages => 6,
        CheckpointStep::ProbeCriDir => 5,
        CheckpointStep::CreateTarget { index, .. } => if index == 0 {
            4
        } else {
            2
        },
        CheckpointStep::CopyToTarget { index, .. } => if index == 0 {
            3
        } else {
            1
        },
        _ => 0,
    }
}

/// Every checkpoint ends: it takes at most seven steps, whatever becomes of each.
pub proof fn checkpoint_ends(
    container: Container,
    checkpoint_path: Seq<char>,
    step: CheckpointStep,
    succeeded: bool,
)
    ensures
        checkpoint_ended(step) <==> checkpoint_steps_left(step) == 0,
        !checkpoint_ended(step) ==> 0 <= checkpoint_steps_left(
            checkpoint_step_after(container, checkpoint_path, step, succeeded),
        ) < checkpoint_steps_left(step),
        checkpoint_ended(step) ==> checkpoint_step_after(
            container,
            checkpoint_path,
            step,
            succeeded,
        ) == step,
{
}

/// Once the images are on the host, a checkpoint whose steps succeed copies them to every target
/// in turn, each after its directory was created, and ends after the last.
pub proof fn every_target_gets_the_images(
    container: Container,
    checkpoint_path: Seq<char>,
    cri: bool,
    index: int,
)
    requires
        0 <= index < image_targets(container, checkpoint_path, cri).len(),
    ensures
        ({
            let step = |s: CheckpointStep|
                checkpoint_step_after(container, checkpoint_path, s, true);
            let targets = image_targets(container, checkpoint_path, cri);
            let create = CheckpointStep::CreateTarget { cri, index: index as usize };
            let copy = CheckpointStep::CopyToTarget { cri, index: index as usize };
            &&& checkpoint_step_after(
                container,
                checkpoint_path,
                CheckpointStep::ProbeCriDir,
                cri,
            ) == (CheckpointStep::CreateTarget { cri, index: 0 })
            &&& step(create) == copy
            &&& index + 1 < targets.len() ==> step(copy) == (CheckpointStep::CreateTarget {
                cri,
                index: (index + 1) as usize,
            })
            &&& index + 1 == targets.len() ==> step(copy) == CheckpointStep::Done
        }),
{
}

/// A checkpoint that fails has failed to dump the container or to place its images.
pub proof fn checkpoint_fails_with_its_work(
    container: Container,
    checkpoint_path: Seq<char>,
    step: CheckpointStep,
    succeeded: bool,
)
    requires
        !checkpoint_ended(step),
        checkpoint_step_after(container, checkpoint_path, step, succeeded) is Failed,
    ensures
        !succeeded,
        step is Dump || step is CreateTarget || step is CopyToTarget,
{
}

/// No two containers share the place of their images in the guest.
pub proof fn images_are_kept_apart(a: Container, b: Container)
    requires
        a.guest_images() == b.guest_images(),
    ensures
        a.container_id.container_id@ == b.container_id.container_id@,
{
    let head = GUEST_CONTAINERS@.len() as int;
    let tail = GUEST_IMAGES@.len() as int;
    let id_a = a.container_id.container_id@;
    let id_b = b.container_id.container_id@;
    assert(a.guest_images().len() == head + id_a.len() + tail);
    assert(b.guest_images().len() == head + id_b.len() + tail);
    assert(a.guest_images().subrange(head, head + id_a.len()) =~= id_a);
    assert(b.guest_images().subrange(head, head + id_b.len()) =~= id_b);
}

} // verus!
