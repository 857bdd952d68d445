//! Declarative descriptions of external commands and the decisions taken
//! while executing one: routing of standard input and output, and the
//! mapping of every failure to a typed error.
//!
//! Execution itself is split in steps. The caller performs each
//! [`ExecAction`] (opening a file, launching the process) and hands the
//! outcome to the next step function, until a [`ExecAction::Finish`] comes
//! back.

use vstd::prelude::*;
use crate::text::opt_seq;

verus! {

/// Where a command reads its standard input from.
#[derive(Debug, Clone)]
pub enum StdinSpec {
    /// Inherit stdin from the parent process.
    Inherit,
    /// Read stdin from the given file path.
    File(String),
}

/// Where a command writes its standard output to.
#[derive(Debug, Clone)]
pub enum StdoutSpec {
    /// Inherit stdout from the parent process.
    Inherit,
    /// Capture stdout into the command output.
    Capture,
    /// Write stdout to the given file path.
    File(String),
}

/// Mathematical model of a [`StdinSpec`].
pub enum InputRoute {
    Inherit,
    File(Seq<char>),
}

/// Mathematical model of a [`StdoutSpec`].
pub enum OutputRoute {
    Inherit,
    Capture,
    File(Seq<char>),
}

impl View for StdinSpec {
    type V = InputRoute;

    open spec fn view(&self) -> InputRoute {
        match self {
            StdinSpec::Inherit => InputRoute::Inherit,
            StdinSpec::File(p) => InputRoute::File(p@),
        }
    }
}

impl View for StdoutSpec {
    type V = OutputRoute;

    open spec fn view(&self) -> OutputRoute {
        match self {
            StdoutSpec::Inherit => OutputRoute::Inherit,
            StdoutSpec::Capture => OutputRoute::Capture,
            StdoutSpec::File(p) => OutputRoute::File(p@),
        }
    }
}

/// Description of one external invocation.
#[derive(Debug, Clone)]
pub struct CommandSpec {
    pub program: String,
    pub args: Vec<String>,
    pub env: Vec<(String, String)>,
    pub working_dir: Option<String>,
    pub stdin: StdinSpec,
    pub stdout: StdoutSpec,
}

/// Mathematical model of a [`CommandSpec`].
pub struct CommandModel {
    pub program: Seq<char>,
    pub args: Seq<Seq<char>>,
    pub env: Seq<(Seq<char>, Seq<char>)>,
    pub working_dir: Option<Seq<char>>,
    pub stdin: InputRoute,
    pub stdout: OutputRoute,
}

impl View for CommandSpec {
    type V = CommandModel;

    open spec fn view(&self) -> CommandModel {
        CommandModel {
            program: self.program@,
            args: self.args.deep_view(),
            env: self.env.deep_view(),
            working_dir: opt_seq(self.working_dir),
            stdin: self.stdin@,
            stdout: self.stdout@,
        }
    }
}

impl CommandSpec {
    /// A command running `program` with no arguments, no environment
    /// overrides, no working directory, and both streams inherited.
    pub fn new(program: &str) -> (r: Self)
        ensures
            r@ == (CommandModel {
                program: program@,
                args: seq![],
                env: seq![],
                working_dir: None,
                stdin: InputRoute::Inherit,
                stdout: OutputRoute::Inherit,
            }),
    {
        let r = CommandSpec {
            program: String::from_str(program),
            args: Vec::new(),
            env: Vec::new(),
            working_dir: None,
            stdin: StdinSpec::Inherit,
            stdout: StdoutSpec::Inherit,
        };
        assert(r.args.deep_view() =~= seq![]);
        assert(r.env.deep_view() =~= seq![]);
        r
    }

    /// Appends one argument.
    pub fn arg(self, arg: &str) -> (r: Self)
        ensures
            r@ == (CommandModel { args: self@.args.push(arg@), ..self@ }),
    {
        let mut s = self;
        s.args.push(String::from_str(arg));
        assert(s.args.deep_view() =~= self.args.deep_view().push(arg@));
        s
    }

    /// Appends every argument of `extra`, in order.
    pub fn args(self, extra: Vec<String>) -> (r: Self)
        ensures
            r@ == (CommandModel { args: self@.args + extra.deep_view(), ..self@ }),
    {
        let mut s = self;
        let mut i: usize = 0;
        while i < extra.len()
            invariant
                i <= extra.len(),
                s@ == (CommandModel {
                    args: self@.args + extra.deep_view().take(i as int),
                    ..self@
                }),
            decreases extra.len() - i,
        {
            let a = extra[i].clone();
            let ghost prev = s.args.deep_view();
            s.args.push(a);
            assert(s.args.deep_view() =~= prev.push(extra[i as int]@));
            assert(extra.deep_view().take(i + 1) =~= extra.deep_view().take(i as int).push(
                extra[i as int]@,
            ));
            assert(s.args.deep_view() =~= self@.args + extra.deep_view().take(i + 1));
            i = i + 1;
        }
        assert(extra.deep_view().take(i as int) =~= extra.deep_view());
        s
    }

    /// Adds one environment override; a later override of the same key
    /// shadows an earlier one.
    pub fn env(self, key: &str, value: &str) -> (r: Self)
        ensures
            r@ == (CommandModel { env: self@.env.push((key@, value@)), ..self@ }),
    {
        let mut s = self;
        s.env.push((String::from_str(key), String::from_str(value)));
        assert(s.env.deep_view() =~= self.env.deep_view().push((key@, value@)));
        s
    }

    /// Runs the command in `dir`.
    pub fn working_dir(self, dir: &str) -> (r: Self)
        ensures
            r@ == (CommandModel { working_dir: Some(dir@), ..self@ }),
    {
        let mut s = self;
        s.working_dir = Some(String::from_str(dir));
        s
    }

    /// Reads stdin from the file at `path`.
    pub fn stdin_file(self, path: &str) -> (r: Self)
        ensures
            r@ == (CommandModel { stdin: InputRoute::File(path@), ..self@ }),
    {
        let mut s = self;
        s.stdin = StdinSpec::File(String::from_str(path));
        s
    }

    /// Writes stdout to the file at `path`.
    pub fn stdout_file(self, path: &str) -> (r: Self)
        ensures
            r@ == (CommandModel { stdout: OutputRoute::File(path@), ..self@ }),
    {
        let mut s = self;
        s.stdout = StdoutSpec::File(String::from_str(path));
        s
    }

    /// Captures stdout into the command output.
    pub fn capture_stdout(self) -> (r: Self)
        ensures
            r@ == (CommandModel { stdout: OutputRoute::Capture, ..self@ }),
    {
        let mut s = self;
        s.stdout = StdoutSpec::Capture;
        s
    }

    /// Lets the command inherit stdout from the parent process.
    pub fn inherit_stdout(self) -> (r: Self)
        ensures
            r@ == (CommandModel { stdout: OutputRoute::Inherit, ..self@ }),
    {
        let mut s = self;
        s.stdout = StdoutSpec::Inherit;
        s
    }
}


/// What a finished process reported: its exit code (absent when it was
/// terminated abnormally) and its captured output streams.
#[derive(Debug, Clone)]
pub struct CommandOutput {
    pub status_code: Option<i32>,
    pub stdout: String,
    pub stderr: String,
}

/// Why executing a [`CommandSpec`] failed.
#[derive(Debug, Clone)]
pub enum CommandError {
    /// Opening stdin or creating stdout failed; the process was not started.
    Io { operation: String, path: String, message: String },
    /// The process could not be started.
    Spawn { program: String, args: Vec<String>, message: String },
    /// The process ran but did not exit with code 0.
    NonZeroExit {
        program: String,
        args: Vec<String>,
        status_code: Option<i32>,
        stdout: String,
        stderr: String,
    },
}

/// The runner that starts real operating-system processes.
pub struct SystemCommandRunner;

/// The next thing the caller must do while executing a command.
#[derive(Debug)]
pub enum ExecAction {
    /// Open this file as the process's stdin.
    OpenStdin(String),
    /// Create (or truncate) this file to receive the process's stdout.
    CreateStdout(String),
    /// Start the process with the streams prepared so far and wait for it;
    /// stdout is captured in memory when `capture_stdout` holds, and stderr
    /// is always captured.
    Launch { capture_stdout: bool },
    /// Execution is over with this result.
    Finish(Result<CommandOutput, CommandError>),
}

/// Mathematical model of a [`CommandOutput`].
pub struct OutputModel {
    pub status_code: Option<i32>,
    pub stdout: Seq<char>,
    pub stderr: Seq<char>,
}

impl View for CommandOutput {
    type V = OutputModel;

    open spec fn view(&self) -> OutputModel {
        OutputModel { status_code: self.status_code, stdout: self.stdout@, stderr: self.stderr@ }
    }
}

/// Mathematical model of a [`CommandError`].
pub enum ErrorModel {
    Io { operation: Seq<char>, path: Seq<char>, message: Seq<char> },
    Spawn { program: Seq<char>, args: Seq<Seq<char>>, message: Seq<char> },
    NonZeroExit {
        program: Seq<char>,
        args: Seq<Seq<char>>,
        status_code: Option<i32>,
        stdout: Seq<char>,
        stderr: Seq<char>,
    },
}

impl View for CommandError {
    type V = ErrorModel;

    open spec fn view(&self) -> ErrorModel {
        match self {
            CommandError::Io { operation, path, message } => ErrorModel::Io {
                operation: operation@,
                path: path@,
                message: message@,
            },
            CommandError::Spawn { program, args, message } => ErrorModel::Spawn {
                program: program@,
                args: args.deep_view(),
                message: message@,
            },
            CommandError::NonZeroExit { program, args, status_code, stdout, stderr } =>
                ErrorModel::NonZeroExit {
                program: program@,
                args: args.deep_view(),
                status_code: *status_code,
                stdout: stdout@,
                stderr: stderr@,
            },
        }
    }
}

/// Model of the result of an execution.
pub open spec fn result_view(r: Result<CommandOutput, CommandError>) -> Result<
    OutputModel,
    ErrorModel,
> {
    match r {
        Ok(o) => Ok(o@),
        Err(e) => Err(e@),
    }
}

/// Mathematical model of an [`ExecAction`].
pub enum ActionModel {
    OpenStdin(Seq<char>),
    CreateStdout(Seq<char>),
    Launch { capture_stdout: bool },
    Finish(Result<OutputModel, ErrorModel>),
}

impl View for ExecAction {
    type V = ActionModel;

    open spec fn view(&self) -> ActionModel {
        match self {
            ExecAction::OpenStdin(p) => ActionModel::OpenStdin(p@),
            ExecAction::CreateStdout(p) => ActionModel::CreateStdout(p@),
            ExecAction::Launch { capture_stdout } => ActionModel::Launch {
                capture_stdout: *capture_stdout,
            },
            ExecAction::Finish(r) => ActionModel::Finish(result_view(*r)),
        }
    }
}

/// Once stdin is ready: create the stdout file if there is one, else launch,
/// capturing stdout only when asked to.
pub open spec fn stdout_step(c: CommandModel) -> ActionModel {
    match c.stdout {
        OutputRoute::File(p) => ActionModel::CreateStdout(p),
        OutputRoute::Capture => ActionModel::Launch { capture_stdout: true },
        OutputRoute::Inherit => ActionModel::Launch { capture_stdout: false },
    }
}

/// First step: open the stdin file if there is one.
pub open spec fn start_step(c: CommandModel) -> ActionModel {
    match c.stdin {
        InputRoute::File(p) => ActionModel::OpenStdin(p),
        InputRoute::Inherit => stdout_step(c),
    }
}

/// The path of a file route, empty for the other routes.
pub open spec fn stdin_path(c: CommandModel) -> Seq<char> {
    match c.stdin {
        InputRoute::File(p) => p,
        InputRoute::Inherit => seq![],
    }
}

/// The path of a file route, empty for the other routes.
pub open spec fn stdout_path(c: CommandModel) -> Seq<char> {
    match c.stdout {
        OutputRoute::File(p) => p,
        _ => seq![],
    }
}

/// After opening stdin: a failure ends execution with an I/O error.
pub open spec fn stdin_step(c: CommandModel, opened: Result<(), Seq<char>>) -> ActionModel {
    match opened {
        Ok(_) => stdout_step(c),
        Err(m) => ActionModel::Finish(
            Err(ErrorModel::Io { operation: "open stdin"@, path: stdin_path(c), message: m }),
        ),
    }
}

/// After creating stdout: a failure ends execution with an I/O error.
pub open spec fn created_step(c: CommandModel, created: Result<(), Seq<char>>) -> ActionModel {
    match created {
        Ok(_) => ActionModel::Launch { capture_stdout: false },
        Err(m) => ActionModel::Finish(
            Err(ErrorModel::Io { operation: "create stdout"@, path: stdout_path(c), message: m }),
        ),
    }
}

/// After the launch: success exactly when the process exited with code 0;
/// any other or absent code gives a non-zero-exit error carrying the code
/// and both streams verbatim.
pub open spec fn finish_step(c: CommandModel, ran: Result<OutputModel, Seq<char>>) -> Result<
    OutputModel,
    ErrorModel,
> {
    match ran {
        Err(m) => Err(ErrorModel::Spawn { program: c.program, args: c.args, message: m }),
        Ok(out) => if out.status_code == Some(0i32) {
            Ok(out)
        } else {
            Err(
                ErrorModel::NonZeroExit {
                    program: c.program,
                    args: c.args,
                    status_code: out.status_code,
                    stdout: out.stdout,
                    stderr: out.stderr,
                },
            )
        },
    }
}

/// What the surroundings answer to each action of one execution: whether
/// the stdin file opens, whether the stdout file can be created, and what
/// launching the process gives.
pub struct ExecWorld {
    pub stdin_opens: Result<(), Seq<char>>,
    pub stdout_creates: Result<(), Seq<char>>,
    pub launch: Result<OutputModel, Seq<char>>,
}

/// The whole execution of `c` in `w`, step by step: whether the process
/// was launched, and the result.
pub open spec fn execution(c: CommandModel, w: ExecWorld) -> (bool, Result<OutputModel, ErrorModel>) {
    let a0 = start_step(c);
    let a1 = match a0 {
        ActionModel::OpenStdin(_) => stdin_step(c, w.stdin_opens),
        _ => a0,
    };
    let a2 = match a1 {
        ActionModel::CreateStdout(_) => created_step(c, w.stdout_creates),
        _ => a1,
    };
    match a2 {
        ActionModel::Finish(r) => (false, r),
        _ => (true, finish_step(c, w.launch)),
    }
}

fn next_after_stdin(spec: &CommandSpec) -> (a: ExecAction)
    ensures
        a@ == stdout_step(spec@),
{
    match &spec.stdout {
        StdoutSpec::File(p) => ExecAction::CreateStdout(p.clone()),
        StdoutSpec::Capture => ExecAction::Launch { capture_stdout: true },
        StdoutSpec::Inherit => ExecAction::Launch { capture_stdout: false },
    }
}

/// First step of executing `spec`.
pub fn exec_start(spec: &CommandSpec) -> (a: ExecAction)
    ensures
        a@ == start_step(spec@),
{
    match &spec.stdin {
        StdinSpec::File(p) => ExecAction::OpenStdin(p.clone()),
        StdinSpec::Inherit => next_after_stdin(spec),
    }
}

/// Step after the stdin file was opened (`Ok`) or could not be (`Err`
/// with the underlying message).
pub fn exec_stdin_opened(spec: &CommandSpec, opened: Result<(), String>) -> (a: ExecAction)
    ensures
        a@ == stdin_step(
            spec@,
            match opened {
                Ok(_) => Ok(()),
                Err(m) => Err(m@),
            },
        ),
{
    match opened {
        Ok(()) => next_after_stdin(spec),
        Err(m) => {
            let path = match &spec.stdin {
                StdinSpec::File(p) => p.clone(),
                StdinSpec::Inherit => String::new(),
            };
            ExecAction::Finish(
                Err(CommandError::Io { operation: String::from_str("open stdin"), path, message: m }),
            )
        },
    }
}

/// Step after the stdout file was created (`Ok`) or could not be (`Err`
/// with the underlying message).
pub fn exec_stdout_created(spec: &CommandSpec, created: Result<(), String>) -> (a: ExecAction)
    ensures
        a@ == created_step(
            spec@,
            match created {
                Ok(_) => Ok(()),
                Err(m) => Err(m@),
            },
        ),
{
    match created {
        Ok(()) => ExecAction::Launch { capture_stdout: false },
        Err(m) => {
            let path = match &spec.stdout {
                StdoutSpec::File(p) => p.clone(),
                _ => String::new(),
            };
            ExecAction::Finish(
                Err(
                    CommandError::Io {
                        operation: String::from_str("create stdout"),
                        path,
                        message: m,
                    },
                ),
            )
        },
    }
}

/// Last step, after the launch: the process could not be started (`Err`
/// with the underlying message), or it ran and reported `out`.
pub fn exec_finished(spec: &CommandSpec, ran: Result<CommandOutput, String>) -> (r: Result<
    CommandOutput,
    CommandError,
>)
    ensures
        result_view(r) == finish_step(
            spec@,
            match ran {
                Ok(o) => Ok(o@),
                Err(m) => Err(m@),
            },
        ),
{
    match ran {
        Err(m) => Err(
            CommandError::Spawn { program: spec.program.clone(), args: spec.args.clone(), message: m },
        ),
        Ok(out) => {
            if out.status_code == Some(0i32) {
                Ok(out)
            } else {
                Err(
                    CommandError::NonZeroExit {
                        program: spec.program.clone(),
                        args: spec.args.clone(),
                        status_code: out.status_code,
                        stdout: out.stdout,
                        stderr: out.stderr,
                    },
                )
            }
        },
    }
}

/// A command whose stdin file cannot be opened fails with an I/O error on
/// that file, and its process is never launched.
pub proof fn lemma_unopenable_stdin(c: CommandModel, w: ExecWorld)
    requires
        c.stdin matches InputRoute::File(_),
        w.stdin_opens is Err,
    ensures
        execution(c, w) == (false, Err::<OutputModel, ErrorModel>(
            ErrorModel::Io {
                operation: "open stdin"@,
                path: stdin_path(c),
                message: w.stdin_opens->Err_0,
            },
        )),
{
}

/// A command whose stdout file cannot be created (its directory is
/// missing, say) fails with an I/O error on that file, and its process is
/// never launched.
pub proof fn lemma_uncreatable_stdout(c: CommandModel, w: ExecWorld)
    requires
        c.stdout matches OutputRoute::File(_),
        w.stdout_creates is Err,
        c.stdin is Inherit || w.stdin_opens is Ok,
    ensures
        execution(c, w) == (false, Err::<OutputModel, ErrorModel>(
            ErrorModel::Io {
                operation: "create stdout"@,
                path: stdout_path(c),
                message: w.stdout_creates->Err_0,
            },
        )),
{
}

/// A launched process that exits with code 0 gives success carrying its
/// output verbatim.
pub proof fn lemma_zero_exit_succeeds(c: CommandModel, w: ExecWorld, out: OutputModel)
    requires
        execution(c, w).0,
        w.launch == Ok::<OutputModel, Seq<char>>(out),
        out.status_code == Some(0i32),
    ensures
        execution(c, w).1 == Ok::<OutputModel, ErrorModel>(out),
{
}

/// A launched process that exits with any other code, or none, gives a
/// non-zero-exit error carrying that code and both streams verbatim.
pub proof fn lemma_nonzero_exit_fails(c: CommandModel, w: ExecWorld, out: OutputModel)
    requires
        execution(c, w).0,
        w.launch == Ok::<OutputModel, Seq<char>>(out),
        out.status_code != Some(0i32),
    ensures
        execution(c, w).1 == Err::<OutputModel, ErrorModel>(
            ErrorModel::NonZeroExit {
                program: c.program,
                args: c.args,
                status_code: out.status_code,
                stdout: out.stdout,
                stderr: out.stderr,
            },
        ),
{
}

} // verus!
