//! What a session of the control program does, step by step.

use vstd::prelude::*;

use crate::shim_ctl::{Action, ControlStep, Cycle, Session};

verus! {

/// A session has the mode and the images that it was given, and `cycle` and `/tmp/ckpt/xxx` where
/// it was given none.
pub proof fn session_is_what_it_was_given(
    mode: Option<String>,
    image_path: Option<String>,
    r: Session,
)
    requires
        call_ensures(Session::new, (mode, image_path), r),
    ensures
        mode is Some ==> r.mode@ == mode->0@,
        mode is None ==> r.mode@ == "cycle"@,
        image_path is Some ==> r.image_path@ == image_path->0@,
        image_path is None ==> r.image_path@ == "/tmp/ckpt/xxx"@,
{
}

/// Every checkpoint and every restore of a session names its container and the images that the
/// session was given.
pub proof fn requests_name_the_images_given(
    mode: Option<String>,
    image_path: Option<String>,
    session: Session,
    step: ControlStep,
    r: Action,
)
    requires
        call_ensures(Session::new, (mode, image_path), session),
        call_ensures(Session::action, (&session, step), r),
    ensures
        r matches Action::Checkpoint { request } ==> {
            &&& request.container_id@ == "xxx"@
            &&& image_path is Some ==> request.image_path@ == image_path->0@
            &&& image_path is None ==> request.image_path@ == "/tmp/ckpt/xxx"@
        },
        r matches Action::Restore { request } ==> {
            &&& request.container_id@ == "xxx"@
            &&& image_path is Some ==> request.image_path@ == image_path->0@
            &&& image_path is None ==> request.image_path@ == "/tmp/ckpt/xxx"@
        },
{
}

/// A restore reads from where a checkpoint wrote, in the same session and in any other on the same
/// images.
pub proof fn restore_reads_what_a_checkpoint_wrote(
    writer: &Session,
    written: ControlStep,
    checkpoint: Action,
    reader: &Session,
    read: ControlStep,
    restore: Action,
)
    requires
        writer.image_path@ == reader.image_path@,
        call_ensures(Session::action, (writer, written), checkpoint),
        call_ensures(Session::action, (reader, read), restore),
        checkpoint is Checkpoint,
        restore is Restore,
    ensures
        checkpoint matches Action::Checkpoint { request: dumped } && (
        restore matches Action::Restore { request: restored } && {
            &&& restored.container_id@ == dumped.container_id@
            &&& restored.image_path@ == dumped.image_path@
            &&& restored.image_path@ == writer.image_path@
        }),
{
}

/// What each step is for: two steps checkpoint and two restore, the waits have their lengths, and
/// only the last step does nothing.
pub proof fn steps_do_what_they_are_for(session: &Session, step: ControlStep, r: Action)
    requires
        call_ensures(Session::action, (session, step), r),
    ensures
        r is CreateContainer <==> step is CreateContainer,
        r is StartProcess <==> step is StartProcess,
        r is Checkpoint <==> step is Checkpoint || step is CheckpointInCycle,
        r is Restore <==> step is Restore || step is RestoreInCycle,
        r is Nothing <==> step is Done,
        r is Print <==> step is ReportMode || step is ReportCheckpoint || step is ReportRestore
            || step is AnnounceCycles || step is ReportCycle || step is ReportCycles,
        step is WaitBeforeCheckpoint ==> r == (Action::Sleep { seconds: 6 }),
        step is HoldForExport ==> r == (Action::Sleep { seconds: 25 }),
        step is WaitBeforeRestore ==> r == (Action::Sleep { seconds: 3 }),
        step is WaitInCycle ==> r == (Action::Sleep { seconds: 4 }),
        step is WaitAfterCycles ==> r == (Action::Sleep { seconds: 5 }),
        step is HoldForInspection ==> r == (Action::Sleep { seconds: 150 }),
{
}

/// The container of a session is called `xxx`, takes the working directory for its bundle and has
/// files for its output, and nothing else; its first process is started.
pub proof fn session_has_one_plain_container(session: &Session, step: ControlStep, r: Action)
    requires
        call_ensures(Session::action, (session, step), r),
    ensures
        r matches Action::CreateContainer { config } ==> {
            &&& config.container_id@ == "xxx"@
            &&& config.bundle@ == "."@
            &&& config.rootfs_mounts@.len() == 0
            &&& !config.terminal
            &&& config.options is None
            &&& config.stdin is None
            &&& config.stdout is Some && config.stdout->0@ == "/tmp/hello.stdout"@
            &&& config.stderr is Some && config.stderr->0@ == "/tmp/hello.stderr"@
            &&& config.checkpoint is None
        },
        r matches Action::StartProcess { container_id, exec_id } ==> {
            &&& container_id@ == "xxx"@
            &&& exec_id@.len() == 0
        },
{
    reveal_strlit("");
}

/// What is reported is what happened: the mode and the images of the session, `OK` for what
/// succeeded and `FAIL` for what did not, and the number of each cycle.
pub proof fn reports_say_what_happened(session: &Session, step: ControlStep, r: Action)
    requires
        call_ensures(Session::action, (session, step), r),
    ensures
        step is ReportMode ==> (r matches Action::Print { line } && line@
            == ">>> shim-ctl: mode="@ + session.mode@ + " image_path="@ + session.image_path@),
        step matches ControlStep::ReportCheckpoint { succeeded } ==> (
        r matches Action::Print { line } && line@ == ">>> shim-ctl: CHECKPOINT "@ + (
        if succeeded {
            "OK"@
        } else {
            "FAIL"@
        }) + " (-> "@ + session.image_path@ + ")"@),
        step matches ControlStep::ReportRestore { succeeded } ==> (r matches Action::Print { line }
            && line@ == ">>> shim-ctl: RESTORE "@ + (if succeeded {
            "OK"@
        } else {
            "FAIL"@
        }) + " (<- "@ + session.image_path@ + ")"@),
        step is AnnounceCycles ==> (r matches Action::Print { line } && line@
            == ">>> shim-ctl: 3 checkpoint/restore cycles"@),
        step matches ControlStep::ReportCycle { cycle, checkpointed, restored } ==> (
        r matches Action::Print { line } && line@ == ">>> shim-ctl: cycle "@ + (match cycle {
            Cycle::First => "1"@,
            Cycle::Second => "2"@,
            Cycle::Third => "3"@,
        }) + ": checkpoint="@ + (if checkpointed {
            "OK"@
        } else {
            "FAIL"@
        }) + " restore="@ + (if restored {
            "OK"@
        } else {
            "FAIL"@
        })),
        step is ReportCycles ==> (r matches Action::Print { line } && line@
            == ">>> shim-ctl: CYCLES DONE; holding 150s for inspection"@),
{
}

/// Every session creates its container, starts it and reports its mode; then the mode decides.
pub proof fn mode_decides_after_the_start(
    session: &Session,
    first: ControlStep,
    step: ControlStep,
    succeeded: bool,
    r: ControlStep,
)
    requires
        call_ensures(Session::first, (session,), first),
        call_ensures(Session::next, (session, step, succeeded), r),
    ensures
        first == ControlStep::CreateContainer,
        step is CreateContainer ==> r == ControlStep::StartProcess,
        step is StartProcess ==> r == ControlStep::ReportMode,
        step is ReportMode ==> {
            &&& session.mode@ == "checkpoint"@ ==> r == ControlStep::WaitBeforeCheckpoint
            &&& session.mode@ == "restore"@ ==> r == ControlStep::WaitBeforeRestore
            &&& session.mode@ != "checkpoint"@ && session.mode@ != "restore"@ ==> r
                == ControlStep::AnnounceCycles
        },
{
    reveal_strlit("checkpoint");
    reveal_strlit("restore");
    assert("checkpoint"@.len() != "restore"@.len());
}

/// A session that checkpoints or restores waits, does it once, reports what became of it, and holds.
pub proof fn one_request_is_made_reported_and_held(
    session: &Session,
    step: ControlStep,
    succeeded: bool,
    r: ControlStep,
)
    requires
        call_ensures(Session::next, (session, step, succeeded), r),
    ensures
        step is WaitBeforeCheckpoint ==> r == ControlStep::Checkpoint,
        step is Checkpoint ==> r == (ControlStep::ReportCheckpoint { succeeded }),
        step is ReportCheckpoint ==> r == ControlStep::HoldForExport,
        step is HoldForExport ==> r == ControlStep::Done,
        step is WaitBeforeRestore ==> r == ControlStep::Restore,
        step is Restore ==> r == (ControlStep::ReportRestore { succeeded }),
        step is ReportRestore ==> r == ControlStep::HoldForInspection,
        step is HoldForInspection ==> r == ControlStep::Done,
        step is Done ==> r == ControlStep::Done,
{
}

/// Each of three cycles waits, checkpoints, restores whatever became of the checkpoint, and reports
/// both outcomes as they were; after the third the session waits, says so, and holds.
pub proof fn three_cycles_checkpoint_and_restore(
    session: &Session,
    step: ControlStep,
    succeeded: bool,
    r: ControlStep,
)
    requires
        call_ensures(Session::next, (session, step, succeeded), r),
    ensures
        step is AnnounceCycles ==> r == (ControlStep::WaitInCycle { cycle: Cycle::First }),
        step matches ControlStep::WaitInCycle { cycle } ==> r == (ControlStep::CheckpointInCycle {
            cycle,
        }),
        step matches ControlStep::CheckpointInCycle { cycle } ==> r == (
        ControlStep::RestoreInCycle { cycle, checkpointed: succeeded }),
        step matches ControlStep::RestoreInCycle { cycle, checkpointed } ==> r == (
        ControlStep::ReportCycle { cycle, checkpointed, restored: succeeded }),
        step matches ControlStep::ReportCycle { cycle, checkpointed, restored } ==> {
            &&& cycle == Cycle::First ==> r == (ControlStep::WaitInCycle { cycle: Cycle::Second })
            &&& cycle == Cycle::Second ==> r == (ControlStep::WaitInCycle { cycle: Cycle::Third })
            &&& cycle == Cycle::Third ==> r == ControlStep::WaitAfterCycles
        },
        step is WaitAfterCycles ==> r == ControlStep::ReportCycles,
        step is ReportCycles ==> r == ControlStep::HoldForInspection,
{
}

} // verus!
