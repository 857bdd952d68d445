use hdricalibrationtool::command::{
    exec_finished, exec_start, exec_stdin_opened, exec_stdout_created, CommandError, CommandOutput,
    CommandSpec, ExecAction, StdinSpec, StdoutSpec,
};
use std::cell::Cell;
use std::collections::HashSet;
use std::time::{SystemTime, UNIX_EPOCH};

struct FakeRunner {
    output: CommandOutput,
    call_count: Cell<usize>,
}

impl FakeRunner {
    fn new(output: CommandOutput) -> Self {
        Self {
            output,
            call_count: Cell::new(0),
        }
    }
}

/// A file system holding only the listed files and directories.
struct FakeFiles {
    files: HashSet<String>,
    dirs: HashSet<String>,
}

impl FakeFiles {
    fn empty() -> Self {
        let mut dirs = HashSet::new();
        dirs.insert("/tmp".to_string());
        Self { files: HashSet::new(), dirs }
    }

    fn open(&self, path: &str) -> Result<(), String> {
        if self.files.contains(path) {
            Ok(())
        } else {
            Err("No such file or directory (os error 2)".to_string())
        }
    }

    fn create(&self, path: &str) -> Result<(), String> {
        let parent = match path.rfind('/') {
            Some(i) => &path[..i],
            None => "",
        };
        if parent.is_empty() || self.dirs.contains(parent) {
            Ok(())
        } else {
            Err("No such file or directory (os error 2)".to_string())
        }
    }
}

/// Executes `spec` step by step against the fake file system and runner.
fn run_with_io(
    spec: &CommandSpec,
    files: &FakeFiles,
    runner: &FakeRunner,
) -> Result<CommandOutput, CommandError> {
    let mut action = exec_start(spec);
    loop {
        action = match action {
            ExecAction::OpenStdin(path) => exec_stdin_opened(spec, files.open(&path)),
            ExecAction::CreateStdout(path) => exec_stdout_created(spec, files.create(&path)),
            ExecAction::Launch { .. } => {
                runner.call_count.set(runner.call_count.get() + 1);
                return exec_finished(spec, Ok(runner.output.clone()));
            }
            ExecAction::Finish(result) => return result,
        };
    }
}

fn unique_temp_path(label: &str) -> String {
    let nanos = SystemTime::now()
        .duration_since(UNIX_EPOCH)
        .unwrap()
        .as_nanos();
    format!("/tmp/hdricalibrationtool-{label}-{nanos}")
}

#[test]
fn stdin_missing_returns_io_error() {
    let missing_path = unique_temp_path("missing-stdin");
    let spec = CommandSpec::new("fake").stdin_file(&missing_path);
    let runner = FakeRunner::new(CommandOutput {
        status_code: Some(0),
        stdout: String::new(),
        stderr: String::new(),
    });

    let result = run_with_io(&spec, &FakeFiles::empty(), &runner);
    assert!(matches!(result, Err(CommandError::Io { .. })));
    assert_eq!(runner.call_count.get(), 0);
}

#[test]
fn stdout_invalid_path_returns_io_error() {
    let invalid_path = format!("{}/out.hdr", unique_temp_path("missing-dir"));
    let spec = CommandSpec::new("fake").stdout_file(&invalid_path);
    let runner = FakeRunner::new(CommandOutput {
        status_code: Some(0),
        stdout: String::new(),
        stderr: String::new(),
    });

    let result = run_with_io(&spec, &FakeFiles::empty(), &runner);
    assert!(matches!(result, Err(CommandError::Io { .. })));
    assert_eq!(runner.call_count.get(), 0);
}

#[test]
fn non_zero_exit_returns_rich_error() {
    let spec = CommandSpec::new("fake").capture_stdout();
    let runner = FakeRunner::new(CommandOutput {
        status_code: Some(3),
        stdout: "stdout".to_string(),
        stderr: "stderr".to_string(),
    });

    let result = run_with_io(&spec, &FakeFiles::empty(), &runner);
    match result {
        Err(CommandError::NonZeroExit {
            status_code,
            stdout,
            stderr,
            ..
        }) => {
            assert_eq!(status_code, Some(3));
            assert_eq!(stdout, "stdout");
            assert_eq!(stderr, "stderr");
        }
        _ => panic!("expected NonZeroExit error"),
    }
    assert_eq!(runner.call_count.get(), 1);
}

#[test]
fn success_returns_output() {
    let spec = CommandSpec::new("fake").inherit_stdout();
    let runner = FakeRunner::new(CommandOutput {
        status_code: Some(0),
        stdout: "ok".to_string(),
        stderr: String::new(),
    });

    let result = run_with_io(&spec, &FakeFiles::empty(), &runner).expect("expected success");
    assert_eq!(result.status_code, Some(0));
    assert_eq!(result.stdout, "ok");
    assert_eq!(runner.call_count.get(), 1);
}

#[test]
fn io_error_names_operation_and_path() {
    let spec = CommandSpec::new("fake").stdin_file("/nowhere/in.hdr");
    let runner = FakeRunner::new(CommandOutput {
        status_code: Some(0),
        stdout: String::new(),
        stderr: String::new(),
    });
    match run_with_io(&spec, &FakeFiles::empty(), &runner) {
        Err(CommandError::Io { operation, path, message }) => {
            assert_eq!(operation, "open stdin");
            assert_eq!(path, "/nowhere/in.hdr");
            assert_eq!(message, "No such file or directory (os error 2)");
        }
        _ => panic!("expected Io error"),
    }
    let spec = CommandSpec::new("fake").stdout_file("/nowhere/out.hdr");
    match run_with_io(&spec, &FakeFiles::empty(), &runner) {
        Err(CommandError::Io { operation, path, .. }) => {
            assert_eq!(operation, "create stdout");
            assert_eq!(path, "/nowhere/out.hdr");
        }
        _ => panic!("expected Io error"),
    }
}

#[test]
fn existing_files_reach_the_runner() {
    let mut files = FakeFiles::empty();
    files.files.insert("/tmp/in.hdr".to_string());
    let spec = CommandSpec::new("getinfo")
        .stdin_file("/tmp/in.hdr")
        .stdout_file("/tmp/out.hdr");
    assert!(matches!(exec_start(&spec), ExecAction::OpenStdin(ref p) if p == "/tmp/in.hdr"));
    assert!(matches!(
        exec_stdin_opened(&spec, Ok(())),
        ExecAction::CreateStdout(ref p) if p == "/tmp/out.hdr"
    ));
    assert!(matches!(
        exec_stdout_created(&spec, Ok(())),
        ExecAction::Launch { capture_stdout: false }
    ));
    let runner = FakeRunner::new(CommandOutput {
        status_code: Some(0),
        stdout: String::new(),
        stderr: "note".to_string(),
    });
    let out = run_with_io(&spec, &files, &runner).expect("expected success");
    assert_eq!(out.stderr, "note");
    assert_eq!(runner.call_count.get(), 1);
}

#[test]
fn capture_launches_with_capture() {
    let spec = CommandSpec::new("evalglare").capture_stdout();
    assert!(matches!(
        exec_start(&spec),
        ExecAction::Launch { capture_stdout: true }
    ));
    let spec = CommandSpec::new("ra_xyze");
    assert!(matches!(
        exec_start(&spec),
        ExecAction::Launch { capture_stdout: false }
    ));
}

#[test]
fn absent_exit_code_is_non_zero_exit() {
    let spec = CommandSpec::new("fake").arg("-x");
    let result = exec_finished(
        &spec,
        Ok(CommandOutput {
            status_code: None,
            stdout: "partial".to_string(),
            stderr: "killed".to_string(),
        }),
    );
    match result {
        Err(CommandError::NonZeroExit { program, args, status_code, stdout, stderr }) => {
            assert_eq!(program, "fake");
            assert_eq!(args, vec!["-x".to_string()]);
            assert_eq!(status_code, None);
            assert_eq!(stdout, "partial");
            assert_eq!(stderr, "killed");
        }
        _ => panic!("expected NonZeroExit error"),
    }
}

#[test]
fn spawn_failure_carries_program_and_args() {
    let spec = CommandSpec::new("missing-tool").arg("-a").arg("-b");
    match exec_finished(&spec, Err("not found".to_string())) {
        Err(CommandError::Spawn { program, args, message }) => {
            assert_eq!(program, "missing-tool");
            assert_eq!(args, vec!["-a".to_string(), "-b".to_string()]);
            assert_eq!(message, "not found");
        }
        _ => panic!("expected Spawn error"),
    }
}

#[test]
fn builder_records_every_setting() {
    let spec = CommandSpec::new("prog")
        .arg("one")
        .args(vec!["two".to_string(), "three".to_string()])
        .env("K", "v1")
        .env("K", "v2")
        .working_dir("/work")
        .stdin_file("/in")
        .stdout_file("/out");
    assert_eq!(spec.program, "prog");
    assert_eq!(spec.args, vec!["one", "two", "three"]);
    assert_eq!(
        spec.env,
        vec![("K".to_string(), "v1".to_string()), ("K".to_string(), "v2".to_string())]
    );
    assert_eq!(spec.working_dir, Some("/work".to_string()));
    assert!(matches!(spec.stdin, StdinSpec::File(ref p) if p == "/in"));
    assert!(matches!(spec.stdout, StdoutSpec::File(ref p) if p == "/out"));
    let spec = spec.capture_stdout();
    assert!(matches!(spec.stdout, StdoutSpec::Capture));
    let spec = spec.inherit_stdout();
    assert!(matches!(spec.stdout, StdoutSpec::Inherit));
}
