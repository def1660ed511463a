//! The sessions of the control program.

use virt_container::shim_ctl::{Action, ControlStep, Cycle, Session};

/// What a session does, one line for each action, given which of its steps fail.
fn transcript(session: &Session, fails: impl Fn(ControlStep) -> bool) -> Vec<String> {
    let mut lines = vec![];
    let mut step = session.first();
    loop {
        match session.action(step) {
            Action::CreateContainer { config } => {
                assert_eq!(config.container_id, "xxx");
                assert_eq!(config.bundle, ".");
                assert!(config.rootfs_mounts.is_empty());
                assert!(!config.terminal);
                assert_eq!(config.options, None);
                assert_eq!(config.stdin, None);
                assert_eq!(config.stdout, Some("/tmp/hello.stdout".to_owned()));
                assert_eq!(config.stderr, Some("/tmp/hello.stderr".to_owned()));
                assert_eq!(config.checkpoint, None);
                lines.push("create".to_owned());
            }
            Action::StartProcess { container_id, exec_id } => {
                lines.push(format!("start {container_id:?} {exec_id:?}"));
            }
            Action::Checkpoint { request } => {
                lines.push(format!("checkpoint {} {}", request.container_id, request.image_path));
            }
            Action::Restore { request } => {
                lines.push(format!("restore {} {}", request.container_id, request.image_path));
            }
            Action::Print { line } => lines.push(line),
            Action::Sleep { seconds } => lines.push(format!("sleep {seconds}")),
            Action::Nothing => return lines,
        }
        step = session.next(step, !fails(step));
    }
}

#[test]
fn a_session_runs_three_cycles_by_default() {
    let session = Session::new(None, None);
    let failing = |step| {
        matches!(
            step,
            ControlStep::CreateContainer
                | ControlStep::StartProcess
                | ControlStep::CheckpointInCycle { cycle: Cycle::Second }
        )
    };
    assert_eq!(
        transcript(&session, failing),
        vec![
            "create",
            "start \"xxx\" \"\"",
            ">>> shim-ctl: mode=cycle image_path=/tmp/ckpt/xxx",
            ">>> shim-ctl: 3 checkpoint/restore cycles",
            "sleep 4",
            "checkpoint xxx /tmp/ckpt/xxx",
            "restore xxx /tmp/ckpt/xxx",
            ">>> shim-ctl: cycle 1: checkpoint=OK restore=OK",
            "sleep 4",
            "checkpoint xxx /tmp/ckpt/xxx",
            "restore xxx /tmp/ckpt/xxx",
            ">>> shim-ctl: cycle 2: checkpoint=FAIL restore=OK",
            "sleep 4",
            "checkpoint xxx /tmp/ckpt/xxx",
            "restore xxx /tmp/ckpt/xxx",
            ">>> shim-ctl: cycle 3: checkpoint=OK restore=OK",
            "sleep 5",
            ">>> shim-ctl: CYCLES DONE; holding 150s for inspection",
            "sleep 150",
        ]
    );
}

#[test]
fn a_session_that_checkpoints_does_only_that() {
    let session = Session::new(Some("checkpoint".to_owned()), Some("/img".to_owned()));
    assert_eq!(
        transcript(&session, |_| false),
        vec![
            "create",
            "start \"xxx\" \"\"",
            ">>> shim-ctl: mode=checkpoint image_path=/img",
            "sleep 6",
            "checkpoint xxx /img",
            ">>> shim-ctl: CHECKPOINT OK (-> /img)",
            "sleep 25",
        ]
    );
    let lines = transcript(&session, |_| true);
    assert_eq!(lines[5], ">>> shim-ctl: CHECKPOINT FAIL (-> /img)");
    assert_eq!(lines.len(), 7);
}

#[test]
fn a_session_that_restores_does_only_that() {
    let session = Session::new(Some("restore".to_owned()), None);
    assert_eq!(
        transcript(&session, |_| true),
        vec![
            "create",
            "start \"xxx\" \"\"",
            ">>> shim-ctl: mode=restore image_path=/tmp/ckpt/xxx",
            "sleep 3",
            "restore xxx /tmp/ckpt/xxx",
            ">>> shim-ctl: RESTORE FAIL (<- /tmp/ckpt/xxx)",
            "sleep 150",
        ]
    );
    let lines = transcript(&session, |_| false);
    assert_eq!(lines[5], ">>> shim-ctl: RESTORE OK (<- /tmp/ckpt/xxx)");
}

#[test]
fn every_other_mode_runs_the_cycles() {
    for mode in ["", "Checkpoint", "restores", "cycle"] {
        let session = Session::new(Some(mode.to_owned()), None);
        let lines = transcript(&session, |_| true);
        assert_eq!(lines.len(), 19);
        assert_eq!(lines[2], format!(">>> shim-ctl: mode={mode} image_path=/tmp/ckpt/xxx"));
        assert_eq!(lines[7], ">>> shim-ctl: cycle 1: checkpoint=FAIL restore=FAIL");
    }
}
