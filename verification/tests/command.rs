use zbm_installer::command::{
    Command, CommandOutput, Executor, FailurePolicy, Operation, Outcome,
};
use zbm_installer::InstallerError;

fn exited(code: Option<i32>, stderr: &str) -> Outcome {
    Outcome::Exited(CommandOutput { code, stdout: String::new(), stderr: stderr.to_string() })
}

fn command() -> Command {
    Command::new("zpool").arg("create").arg("zroot")
}

#[test]
fn a_dry_run_simulates_every_step() {
    let dry = Executor::new(true);
    assert!(dry.dry_run);
    assert!(dry.run(command(), FailurePolicy::Zfs).simulated);
    assert!(dry.create_directory("/mnt").simulated);
    assert!(dry.write_file("/mnt/a", "b").simulated);
    assert!(dry.copy_file("/a", "/b").simulated);
    let real = Executor::new(false);
    assert!(!real.run(command(), FailurePolicy::Zfs).simulated);
    assert!(!real.create_directory("/mnt").simulated);
}

#[test]
fn steps_hold_what_they_were_built_from() {
    let executor = Executor::new(false);
    match executor.write_file("/etc/x.conf", "a=b\n").operation {
        Operation::WriteFile { path, content } => {
            assert_eq!(path, "/etc/x.conf");
            assert_eq!(content, "a=b\n");
        }
        other => panic!("expected a file, got {:?}", other),
    }
    match executor.copy_file("/a", "/b").operation {
        Operation::CopyFile { from, to } => {
            assert_eq!(from, "/a");
            assert_eq!(to, "/b");
        }
        other => panic!("expected a copy, got {:?}", other),
    }
    let step = executor.create_directory("/mnt/boot");
    let copy = step.duplicate();
    assert!(matches!(copy.operation, Operation::CreateDirectory { ref path } if path == "/mnt/boot"));
    assert_eq!(copy.simulated, step.simulated);
}

#[test]
fn a_simulated_step_succeeds_whatever_is_reported() {
    let step = Executor::new(true).run(command(), FailurePolicy::Disk);
    assert!(step.settle(&Outcome::Done).is_ok());
    assert!(step.settle(&exited(Some(1), "no")).is_ok());
    assert!(step.settle(&Outcome::Failed("no".to_string())).is_ok());
}

#[test]
fn the_synthetic_result_is_a_success() {
    let output = CommandOutput::synthetic();
    assert!(output.success());
    assert_eq!(output.code, Some(0));
    assert!(output.stdout.is_empty() && output.stderr.is_empty());
    assert!(!CommandOutput { code: None, stdout: String::new(), stderr: String::new() }.success());
    assert!(!CommandOutput { code: Some(2), stdout: String::new(), stderr: String::new() }.success());
}

#[test]
fn the_caller_decides_what_a_failure_means() {
    let executor = Executor::new(false);
    let line = "\"zpool\" \"create\" \"zroot\"";

    match executor.run(command(), FailurePolicy::Disk).settle(&exited(Some(3), "busy")) {
        Err(InstallerError::CommandFailed { cmd, code, stderr }) => {
            assert_eq!(cmd, line);
            assert_eq!(code, 3);
            assert_eq!(stderr, "busy");
        }
        other => panic!("expected a failed command, got {:?}", other),
    }
    match executor.run(command(), FailurePolicy::Disk).settle(&exited(None, "killed")) {
        Err(InstallerError::CommandFailed { code, .. }) => assert_eq!(code, -1),
        other => panic!("expected a failed command, got {:?}", other),
    }
    match executor.run(command(), FailurePolicy::Zfs).settle(&exited(Some(1), "busy")) {
        Err(InstallerError::ZfsError { operation, details }) => {
            assert_eq!(operation, line);
            assert_eq!(details, "busy");
        }
        other => panic!("expected a ZFS error, got {:?}", other),
    }
    match executor.run(command(), FailurePolicy::Bootloader).settle(&exited(Some(1), "busy")) {
        Err(InstallerError::BootloaderError(msg)) => {
            assert_eq!(msg, format!("Command failed: {}\nbusy", line))
        }
        other => panic!("expected a bootloader error, got {:?}", other),
    }
    match executor.run(command(), FailurePolicy::Package).settle(&exited(Some(1), "busy")) {
        Err(InstallerError::SystemError(msg)) => {
            assert_eq!(msg, format!("Package command failed: {}\nbusy", line))
        }
        other => panic!("expected a system error, got {:?}", other),
    }
    assert!(executor.run(command(), FailurePolicy::Tolerate).settle(&exited(Some(1), "busy")).is_ok());
}

#[test]
fn success_is_success_under_every_policy() {
    let executor = Executor::new(false);
    for policy in [
        FailurePolicy::Disk,
        FailurePolicy::Zfs,
        FailurePolicy::Bootloader,
        FailurePolicy::Package,
        FailurePolicy::Tolerate,
    ] {
        assert!(executor.run(command(), policy).settle(&exited(Some(0), "")).is_ok());
        assert!(executor.run(command(), policy).settle(&Outcome::Done).is_ok());
        match executor.run(command(), policy).settle(&Outcome::Failed("gone".to_string())) {
            Err(InstallerError::Io(msg)) => assert_eq!(msg, "gone"),
            other => panic!("expected an I/O error, got {:?}", other),
        }
    }
}
