//! A session of the control program: one container is created and started, then checkpointed and
//! restored, within one machine or across two.
//!
//! The session is a sequence of steps. What each step does is an `Action`; none of them ends the
//! session when it fails.

use vstd::prelude::*;

use crate::checkpoint::ImageRequest;
use crate::config::ContainerConfig;
use crate::text::{join, str_eq};

verus! {

/// The container that a session works on.
pub const SESSION_CONTAINER: &'static str = "xxx";

/// The mode of a session that is given none.
pub const DEFAULT_MODE: &'static str = "cycle";

/// The place of the images of a session that is given none.
pub const DEFAULT_IMAGE_PATH: &'static str = "/tmp/ckpt/xxx";

/// What a session is to do.
pub struct Session {
    pub mode: String,
    /// Where the images of checkpoints are.
    pub image_path: String,
}

/// One of the three rounds of a session that both checkpoints and restores.
#[derive(Clone, Copy, Debug, PartialEq, Eq, Structural)]
pub enum Cycle {
    First,
    Second,
    Third,
}

/// How far a session has come: what is to be done next.
#[derive(Clone, Copy, Debug, PartialEq, Eq, Structural)]
pub enum ControlStep {
    CreateContainer,
    StartProcess,
    ReportMode,
    /// Let the process run before it is checkpointed.
    WaitBeforeCheckpoint,
    Checkpoint,
    ReportCheckpoint { succeeded: bool },
    /// Leave time to take the images elsewhere.
    HoldForExport,
    /// Let the fresh process run before it is replaced.
    WaitBeforeRestore,
    Restore,
    ReportRestore { succeeded: bool },
    AnnounceCycles,
    WaitInCycle { cycle: Cycle },
    CheckpointInCycle { cycle: Cycle },
    RestoreInCycle { cycle: Cycle, checkpointed: bool },
    ReportCycle { cycle: Cycle, checkpointed: bool, restored: bool },
    WaitAfterCycles,
    ReportCycles,
    /// Leave time to look at what was restored.
    HoldForInspection,
    Done,
}

/// What a step does.
pub enum Action {
    CreateContainer { config: ContainerConfig },
    StartProcess { container_id: String, exec_id: String },
    Checkpoint { request: ImageRequest },
    Restore { request: ImageRequest },
    Print { line: String },
    Sleep { seconds: u64 },
    Nothing,
}

/// How the outcome of a checkpoint or a restore is printed.
pub open spec fn outcome(succeeded: bool) -> Seq<char> {
    if succeeded {
        "OK"@
    } else {
        "FAIL"@
    }
}

fn outcome_text(succeeded: bool) -> (r: &'static str)
    ensures
        r@ == outcome(succeeded),
{
    if succeeded {
        "OK"
    } else {
        "FAIL"
    }
}

/// The number of a cycle, as it is printed.
pub open spec fn cycle_number(cycle: Cycle) -> Seq<char> {
    match cycle {
        Cycle::First => "1"@,
        Cycle::Second => "2"@,
        Cycle::Third => "3"@,
    }
}

fn cycle_text(cycle: Cycle) -> (r: &'static str)
    ensures
        r@ == cycle_number(cycle),
{
    match cycle {
        Cycle::First => "1",
        Cycle::Second => "2",
        Cycle::Third => "3",
    }
}

/// What is done after the container was started, by the mode of the session.
pub open spec fn first_step_of_mode(mode: Seq<char>) -> ControlStep {
    if mode == "checkpoint"@ {
        ControlStep::WaitBeforeCheckpoint
    } else if mode == "restore"@ {
        ControlStep::WaitBeforeRestore
    } else {
        ControlStep::AnnounceCycles
    }
}

/// What follows a step of a session.
pub open spec fn control_step_after(mode: Seq<char>, step: ControlStep, succeeded: bool) -> ControlStep {
    match step {
        ControlStep::CreateContainer => ControlStep::StartProcess,
        ControlStep::StartProcess => ControlStep::ReportMode,
        ControlStep::ReportMode => first_step_of_mode(mode),
        ControlStep::WaitBeforeCheckpoint => ControlStep::Checkpoint,
        ControlStep::Checkpoint => ControlStep::ReportCheckpoint { succeeded },
        ControlStep::ReportCheckpoint { .. } => ControlStep::HoldForExport,
        ControlStep::HoldForExport => ControlStep::Done,
        ControlStep::WaitBeforeRestore => ControlStep::Restore,
        ControlStep::Restore => ControlStep::ReportRestore { succeeded },
        ControlStep::ReportRestore { .. } => ControlStep::HoldForInspection,
        ControlStep::AnnounceCycles => ControlStep::WaitInCycle { cycle: Cycle::First },
        ControlStep::WaitInCycle { cycle } => ControlStep::CheckpointInCycle { cycle },
        ControlStep::CheckpointInCycle { cycle } => ControlStep::RestoreInCycle {
            cycle,
            checkpointed: succeeded,
        },
        ControlStep::RestoreInCycle { cycle, checkpointed } => ControlStep::ReportCycle {
            cycle,
            checkpointed,
            restored: succeeded,
        },
        ControlStep::ReportCycle { cycle, .. } => match cycle {
            Cycle::First => ControlStep::WaitInCycle { cycle: Cycle::Second },
            Cycle::Second => ControlStep::WaitInCycle { cycle: Cycle::Third },
            Cycle::Third => ControlStep::WaitAfterCycles,
        },
        ControlStep::WaitAfterCycles => ControlStep::ReportCycles,
        ControlStep::ReportCycles => ControlStep::HoldForInspection,
        ControlStep::HoldForInspection => ControlStep::Done,
        ControlStep::Done => ControlStep::Done,
    }
}

/// The line that a step prints.
pub open spec fn printed_line(session: Session, step: ControlStep) -> Option<Seq<char>> {
    match step {
        ControlStep::ReportMode => Some(
            ">>> shim-ctl: mode="@ + session.mode@ + " image_path="@ + session.image_path@,
        ),
        ControlStep::ReportCheckpoint { succeeded } => Some(
            ">>> shim-ctl: CHECKPOINT "@ + outcome(succeeded) + " (-> "@ + session.image_path@
                + ")"@,
        ),
        ControlStep::ReportRestore { succeeded } => Some(
            ">>> shim-ctl: RESTORE "@ + outcome(succeeded) + " (<- "@ + session.image_path@ + ")"@,
        ),
        ControlStep::AnnounceCycles => Some(">>> shim-ctl: 3 checkpoint/restore cycles"@),
        ControlStep::ReportCycle { cycle, checkpointed, restored } => Some(
            ">>> shim-ctl: cycle "@ + cycle_number(cycle) + ": checkpoint="@ + outcome(checkpointed)
                + " restore="@ + outcome(restored),
        ),
        ControlStep::ReportCycles => Some(
            ">>> shim-ctl: CYCLES DONE; holding 150s for inspection"@,
        ),
        _ => None,
    }
}

/// The seconds that a step waits.
pub open spec fn waiting_time(step: ControlStep) -> Option<u64> {
    match step {
        ControlStep::WaitBeforeCheckpoint => Some(6),
        ControlStep::HoldForExport => Some(25),
        ControlStep::WaitBeforeRestore => Some(3),
        ControlStep::WaitInCycle { .. } => Some(4),
        ControlStep::WaitAfterCycles => Some(5),
        ControlStep::HoldForInspection => Some(150),
        _ => None,
    }
}

/// The step dumps the container.
pub open spec fn dumps(step: ControlStep) -> bool {
    step is Checkpoint || step is CheckpointInCycle
}

/// The step restores the container.
pub open spec fn restores(step: ControlStep) -> bool {
    step is Restore || step is RestoreInCycle
}

/// The request for the container of a session: nothing but a name, the working directory as its
/// bundle, and files for its output.
pub open spec fn is_session_config(config: ContainerConfig) -> bool {
    &&& config.container_id@ == SESSION_CONTAINER@
    &&& config.bundle@ == "."@
    &&& config.rootfs_mounts@.len() == 0
    &&& !config.terminal
    &&& config.options is None
    &&& config.stdin is None
    &&& config.stdout matches Some(path) && path@ == "/tmp/hello.stdout"@
    &&& config.stderr matches Some(path) && path@ == "/tmp/hello.stderr"@
    &&& config.checkpoint is None
}

/// `action` is what a step of the session does.
pub open spec fn is_action(session: Session, step: ControlStep, action: Action) -> bool {
    &&& step is CreateContainer <==> action is CreateContainer
    &&& step is StartProcess <==> action is StartProcess
    &&& dumps(step) <==> action is Checkpoint
    &&& restores(step) <==> action is Restore
    &&& printed_line(session, step) is Some <==> action is Print
    &&& waiting_time(step) is Some <==> action is Sleep
    &&& step is Done <==> action is Nothing
    &&& match action {
        Action::CreateContainer { config } => is_session_config(config),
        Action::StartProcess { container_id, exec_id } => container_id@ == SESSION_CONTAINER@
            && exec_id@ == ""@,
        Action::Checkpoint { request } => request.container_id@ == SESSION_CONTAINER@
            && request.image_path@ == session.image_path@,
        Action::Restore { request } => request.container_id@ == SESSION_CONTAINER@
            && request.image_path@ == session.image_path@,
        Action::Print { line } => printed_line(session, step) == Some(line@),
        Action::Sleep { seconds } => waiting_time(step) == Some(seconds),
        Action::Nothing => true,
    }
}

/// The request for the container of a session.
fn session_config() -> (r: ContainerConfig)
    ensures
        is_session_config(r),
{
    ContainerConfig {
        container_id: SESSION_CONTAINER.to_owned(),
        bundle: ".".to_owned(),
        rootfs_mounts: Vec::new(),
        terminal: false,
        options: None,
        stdin: None,
        stdout: Some("/tmp/hello.stdout".to_owned()),
        stderr: Some("/tmp/hello.stderr".to_owned()),
        checkpoint: None,
    }
}

impl Session {
    /// A session of the given mode on the given images, each by its default where it is not given.
    pub fn new(mode: Option<String>, image_path: Option<String>) -> (r: Session)
        ensures
            r.mode@ == (match mode {
                Some(given) => given@,
                None => DEFAULT_MODE@,
            }),
            r.image_path@ == (match image_path {
                Some(given) => given@,
                None => DEFAULT_IMAGE_PATH@,
            }),
    {
        Session {
            mode: match mode {
                Some(given) => given,
                None => DEFAULT_MODE.to_owned(),
            },
            image_path: match image_path {
                Some(given) => given,
                None => DEFAULT_IMAGE_PATH.to_owned(),
            },
        }
    }

    /// What a session begins with.
    pub fn first(&self) -> (r: ControlStep)
        ensures
            r == ControlStep::CreateContainer,
    {
        ControlStep::CreateContainer
    }

    /// What follows a step.
    pub fn next(&self, step: ControlStep, succeeded: bool) -> (r: ControlStep)
        ensures
            r == control_step_after(self.mode@, step, succeeded),
    {
        match step {
            ControlStep::CreateContainer => ControlStep::StartProcess,
            ControlStep::StartProcess => ControlStep::ReportMode,
            ControlStep::ReportMode => if str_eq(self.mode.as_str(), "checkpoint") {
                ControlStep::WaitBeforeCheckpoint
            } else if str_eq(self.mode.as_str(), "restore") {
                ControlStep::WaitBeforeRestore
            } else {
                ControlStep::AnnounceCycles
            },
            ControlStep::WaitBeforeCheckpoint => ControlStep::Checkpoint,
            ControlStep::Checkpoint => ControlStep::ReportCheckpoint { succeeded },
            ControlStep::ReportCheckpoint { .. } => ControlStep::HoldForExport,
            ControlStep::HoldForExport => ControlStep::Done,
            ControlStep::WaitBeforeRestore => ControlStep::Restore,
            ControlStep::Restore => ControlStep::ReportRestore { succeeded },
            ControlStep::ReportRestore { .. } => ControlStep::HoldForInspection,
            ControlStep::AnnounceCycles => ControlStep::WaitInCycle { cycle: Cycle::First },
            ControlStep::WaitInCycle { cycle } => ControlStep::CheckpointInCycle { cycle },
            ControlStep::CheckpointInCycle { cycle } => ControlStep::RestoreInCycle {
                cycle,
                checkpointed: succeeded,
            },
            ControlStep::RestoreInCycle { cycle, checkpointed } => ControlStep::ReportCycle {
                cycle,
                checkpointed,
                restored: succeeded,
            },
            ControlStep::ReportCycle { cycle, .. } => match cycle {
                Cycle::First => ControlStep::WaitInCycle { cycle: Cycle::Second },
                Cycle::Second => ControlStep::WaitInCycle { cycle: Cycle::Third },
                Cycle::Third => ControlStep::WaitAfterCycles,
            },
            ControlStep::WaitAfterCycles => ControlStep::ReportCycles,
            ControlStep::ReportCycles => ControlStep::HoldForInspection,
            ControlStep::HoldForInspection => ControlStep::Done,
            ControlStep::Done => ControlStep::Done,
        }
    }

    fn image_request(&self) -> (r: ImageRequest)
        ensures
            r.container_id@ == SESSION_CONTAINER@,
            r.image_path@ == self.image_path@,
    {
        ImageRequest {
            container_id: SESSION_CONTAINER.to_owned(),
            image_path: self.image_path.clone(),
        }
    }

    /// What a step does.
    pub fn action(&self, step: ControlStep) -> (r: Action)
        ensures
            is_action(*self, step, r),
    {
        match step {
            ControlStep::CreateContainer => Action::CreateContainer { config: session_config() },
            ControlStep::StartProcess => Action::StartProcess {
                container_id: SESSION_CONTAINER.to_owned(),
                exec_id: "".to_owned(),
            },
            ControlStep::ReportMode => {
                let line = join(">>> shim-ctl: mode=", self.mode.as_str());
                let line = join(line.as_str(), " image_path=");
                Action::Print { line: join(line.as_str(), self.image_path.as_str()) }
            },
            ControlStep::WaitBeforeCheckpoint => Action::Sleep { seconds: 6 },
            ControlStep::Checkpoint => Action::Checkpoint { request: self.image_request() },
            ControlStep::ReportCheckpoint { succeeded } => {
                let line = join(">>> shim-ctl: CHECKPOINT ", outcome_text(succeeded));
                let line = join(line.as_str(), " (-> ");
                let line = join(line.as_str(), self.image_path.as_str());
                Action::Print { line: join(line.as_str(), ")") }
            },
            ControlStep::HoldForExport => Action::Sleep { seconds: 25 },
            ControlStep::WaitBeforeRestore => Action::Sleep { seconds: 3 },
            ControlStep::Restore => Action::Restore { request: self.image_request() },
            ControlStep::ReportRestore { succeeded } => {
                let line = join(">>> shim-ctl: RESTORE ", outcome_text(succeeded));
                let line = join(line.as_str(), " (<- ");
                let line = join(line.as_str(), self.image_path.as_str());
                Action::Print { line: join(line.as_str(), ")") }
            },
            ControlStep::AnnounceCycles => Action::Print {
                line: ">>> shim-ctl: 3 checkpoint/restore cycles".to_owned(),
            },
            ControlStep::WaitInCycle { .. } => Action::Sleep { seconds: 4 },
            ControlStep::CheckpointInCycle { .. } => Action::Checkpoint {
                request: self.image_request(),
            },
            ControlStep::RestoreInCycle { .. } => Action::Restore {
                request: self.image_request(),
            },
            ControlStep::ReportCycle { cycle, checkpointed, restored } => {
                let line = join(">>> shim-ctl: cycle ", cycle_text(cycle));
                let line = join(line.as_str(), ": checkpoint=");
                let line = join(line.as_str(), outcome_text(checkpointed));
                let line = join(line.as_str(), " restore=");
                Action::Print { line: join(line.as_str(), outcome_text(restored)) }
            },
            ControlStep::WaitAfterCycles => Action::Sleep { seconds: 5 },
            ControlStep::ReportCycles => Action::Print {
                line: ">>> shim-ctl: CYCLES DONE; holding 150s for inspection".to_owned(),
            },
            ControlStep::HoldForInspection => Action::Sleep { seconds: 150 },
            ControlStep::Done => Action::Nothing,
        }
    }
}

/// A bound on the steps that a session still takes.
pub open spec fn control_steps_left(step: ControlStep) -> nat {
    match step {
        ControlStep::CreateContainer => 19,
        ControlStep::StartProcess => 18,
        ControlStep::ReportMode => 17,
        ControlStep::AnnounceCycles => 16,
        ControlStep::WaitInCycle { cycle } => cycle_steps_left(cycle) + 4,
        ControlStep::CheckpointInCycle { cycle } => cycle_steps_left(cycle) + 3,
        ControlStep::RestoreInCycle { cycle, .. } => cycle_steps_left(cycle) + 2,
        ControlStep::ReportCycle { cycle, .. } => cycle_steps_left(cycle) + 1,
        ControlStep::WaitBeforeCheckpoint => 4,
        ControlStep::Checkpoint => 3,
        ControlStep::ReportCheckpoint { .. } => 2,
        ControlStep::HoldForExport => 1,
        ControlStep::WaitBeforeRestore => 4,
        ControlStep::Restore => 3,
        ControlStep::ReportRestore { .. } => 2,
        ControlStep::WaitAfterCycles => 3,
        ControlStep::ReportCycles => 2,
        ControlStep::HoldForInspection => 1,
        ControlStep::Done => 0,
    }
}

/// The steps that follow a cycle.
pub open spec fn cycle_steps_left(cycle: Cycle) -> nat {
    match cycle {
        Cycle::First => 11,
        Cycle::Second => 7,
        Cycle::Third => 3,
    }
}

/// Every session ends, whatever becomes of its steps.
pub proof fn session_ends(mode: Seq<char>, step: ControlStep, succeeded: bool)
    ensures
        step is Done <==> control_steps_left(step) == 0,
        !(step is Done) ==> control_steps_left(control_step_after(mode, step, succeeded))
            < control_steps_left(step),
        step is Done ==> control_step_after(mode, step, succeeded) is Done,
{
}

/// A step whose outcome is left out.
pub open spec fn without_outcome(step: ControlStep) -> ControlStep {
    match step {
        ControlStep::ReportCheckpoint { .. } => ControlStep::ReportCheckpoint { succeeded: true },
        ControlStep::ReportRestore { .. } => ControlStep::ReportRestore { succeeded: true },
        ControlStep::RestoreInCycle { cycle, .. } => ControlStep::RestoreInCycle {
            cycle,
            checkpointed: true,
        },
        ControlStep::ReportCycle { cycle, .. } => ControlStep::ReportCycle {
            cycle,
            checkpointed: true,
            restored: true,
        },
        _ => step,
    }
}

/// The outcome of a step changes what is reported and nothing else: two sessions of one mode do
/// the same, step by step, whatever becomes of their steps.
pub proof fn failure_changes_only_the_report(
    mode: Seq<char>,
    a: ControlStep,
    b: ControlStep,
    a_succeeded: bool,
    b_succeeded: bool,
)
    requires
        without_outcome(a) == without_outcome(b),
    ensures
        without_outcome(control_step_after(mode, a, a_succeeded)) == without_outcome(
            control_step_after(mode, b, b_succeeded),
        ),
        dumps(a) == dumps(b),
        restores(a) == restores(b),
        waiting_time(a) == waiting_time(b),
{
}

/// Any two modes that are neither `checkpoint` nor `restore` do the same: the same steps, and in
/// each of them the same request, for sessions on the same images.
pub proof fn other_modes_do_the_same(
    a: Session,
    b: Session,
    step: ControlStep,
    succeeded: bool,
    a_action: Action,
    b_action: Action,
)
    requires
        a.mode@ != "checkpoint"@ && a.mode@ != "restore"@,
        b.mode@ != "checkpoint"@ && b.mode@ != "restore"@,
        a.image_path@ == b.image_path@,
        is_action(a, step, a_action),
        is_action(b, step, b_action),
    ensures
        control_step_after(a.mode@, step, succeeded) == control_step_after(b.mode@, step, succeeded),
        a_action matches Action::Checkpoint { request: a_request } ==> {
            &&& b_action matches Action::Checkpoint { request: b_request }
            &&& b_request.container_id@ == a_request.container_id@
            &&& b_request.image_path@ == a_request.image_path@
        },
        a_action matches Action::Restore { request: a_request } ==> {
            &&& b_action matches Action::Restore { request: b_request }
            &&& b_request.container_id@ == a_request.container_id@
            &&& b_request.image_path@ == a_request.image_path@
        },
        a_action is CreateContainer <==> b_action is CreateContainer,
        a_action is StartProcess <==> b_action is StartProcess,
        a_action matches Action::Sleep { seconds: a_seconds } ==> {
            &&& b_action matches Action::Sleep { seconds: b_seconds }
            &&& a_seconds == b_seconds
        },
{
}

/// In each cycle a checkpoint is followed by a restore, even where the checkpoint failed, and both
/// outcomes are reported as they were.
pub proof fn cycle_reports_both_outcomes(
    mode: Seq<char>,
    cycle: Cycle,
    checkpointed: bool,
    restored: bool,
)
    ensures
        control_step_after(
            mode,
            control_step_after(mode, ControlStep::CheckpointInCycle { cycle }, checkpointed),
            restored,
        ) == (ControlStep::ReportCycle { cycle, checkpointed, restored }),
{
}

/// The step occurs in a session of the given mode.
pub open spec fn occurs(mode: Seq<char>, step: ControlStep) -> bool {
    match step {
        ControlStep::CreateContainer => true,
        ControlStep::StartProcess => true,
        ControlStep::ReportMode => true,
        ControlStep::WaitBeforeCheckpoint => mode == "checkpoint"@,
        ControlStep::Checkpoint => mode == "checkpoint"@,
        ControlStep::ReportCheckpoint { .. } => mode == "checkpoint"@,
        ControlStep::HoldForExport => mode == "checkpoint"@,
        ControlStep::WaitBeforeRestore => mode == "restore"@,
        ControlStep::Restore => mode == "restore"@,
        ControlStep::ReportRestore { .. } => mode == "restore"@,
        ControlStep::HoldForInspection => mode != "checkpoint"@,
        ControlStep::Done => true,
        _ => mode != "checkpoint"@ && mode != "restore"@,
    }
}

/// A session goes through the steps of its mode only: one that checkpoints never restores, one that
/// restores never checkpoints, and every other mode runs the cycles.
pub proof fn session_keeps_to_its_mode(mode: Seq<char>, step: ControlStep, succeeded: bool)
    requires
        occurs(mode, step),
    ensures
        occurs(mode, ControlStep::CreateContainer),
        occurs(mode, control_step_after(mode, step, succeeded)),
        mode == "checkpoint"@ ==> !restores(step),
        mode == "restore"@ ==> !dumps(step),
{
    reveal_strlit("checkpoint");
    reveal_strlit("restore");
    assert("checkpoint"@.len() != "restore"@.len());
}

} // verus!
