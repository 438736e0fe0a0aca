//! The one place through which every external tool is invoked.
//!
//! A subsystem never starts a process itself. It describes each action as a
//! [`Step`], built by an [`Executor`] that knows whether the run is a dry
//! run, and it says through a [`FailurePolicy`] what a non-zero exit means
//! to it. Whoever performs the step reports an [`Outcome`], and
//! [`Step::settle`] turns that into success or a typed error.

use crate::error::{ErrorModel, InstallerError};
use crate::text::{chars_of, framed, views};
use vstd::prelude::*;
use vstd::string::*;

verus! {

/// A program and its arguments, in the order in which they are passed.
#[derive(Debug)]
pub struct Command {
    pub program: String,
    pub args: Vec<String>,
}

/// Mathematical model of a [`Command`].
pub ghost struct CommandModel {
    pub program: Seq<char>,
    pub args: Seq<Seq<char>>,
}

/// How a character is written between double quotes: a backslash stands
/// before a double quote and before a backslash, and line feed, carriage
/// return and tabulator are written as `\n`, `\r` and `\t`.
pub open spec fn escaped_char(c: char) -> Seq<char> {
    if c == '"' {
        seq!['\\', '"']
    } else if c == '\\' {
        seq!['\\', '\\']
    } else if c == '\n' {
        seq!['\\', 'n']
    } else if c == '\r' {
        seq!['\\', 'r']
    } else if c == '\t' {
        seq!['\\', 't']
    } else {
        seq![c]
    }
}

/// A text as it is written between double quotes.
pub open spec fn escaped(word: Seq<char>) -> Seq<char>
    decreases word.len(),
{
    if word.len() == 0 {
        Seq::empty()
    } else {
        escaped(word.drop_last()) + escaped_char(word.last())
    }
}

/// A word between double quotes.
pub open spec fn quoted(word: Seq<char>) -> Seq<char> {
    seq!['"'] + escaped(word) + seq!['"']
}

/// Every word of `words` between double quotes, each after a space.
pub open spec fn quoted_tail(words: Seq<Seq<char>>) -> Seq<char>
    decreases words.len(),
{
    if words.len() == 0 {
        Seq::empty()
    } else {
        quoted_tail(words.drop_last()) + seq![' '] + quoted(words.last())
    }
}

impl CommandModel {
    /// The command with no argument yet.
    pub open spec fn bare(program: Seq<char>) -> CommandModel {
        CommandModel { program, args: Seq::empty() }
    }

    /// The command with one more argument at the end.
    pub open spec fn with(self, arg: Seq<char>) -> CommandModel {
        CommandModel { program: self.program, args: self.args.push(arg) }
    }

    /// The text that stands for the command in logs and errors: the program
    /// and every argument between double quotes, separated by one space.
    pub open spec fn line(self) -> Seq<char> {
        quoted(self.program) + quoted_tail(self.args)
    }
}

impl View for Command {
    type V = CommandModel;

    open spec fn view(&self) -> CommandModel {
        CommandModel { program: self.program@, args: views(self.args@) }
    }
}

/// Appends `word` between double quotes to `out`.
fn append_quoted(out: &mut String, word: &str)
    ensures
        final(out)@ == old(out)@ + quoted(word@),
{
    proof {
        reveal_strlit("\"");
        reveal_strlit("\\\"");
        reveal_strlit("\\\\");
        reveal_strlit("\\n");
        reveal_strlit("\\r");
        reveal_strlit("\\t");
        assert("\""@ =~= seq!['"']);
        assert("\\\""@ =~= seq!['\\', '"']);
        assert("\\\\"@ =~= seq!['\\', '\\']);
        assert("\\n"@ =~= seq!['\\', 'n']);
        assert("\\r"@ =~= seq!['\\', 'r']);
        assert("\\t"@ =~= seq!['\\', 't']);
    }
    let chars = chars_of(word);
    out.append("\"");
    let ghost opened = out@;
    assert(chars@.take(0) =~= Seq::empty());
    assert(opened + escaped(chars@.take(0)) =~= opened);
    let mut i: usize = 0;
    while i < chars.len()
        invariant
            i <= chars.len(),
            "\\\""@ == seq!['\\', '"'],
            "\\\\"@ == seq!['\\', '\\'],
            "\\n"@ == seq!['\\', 'n'],
            "\\r"@ == seq!['\\', 'r'],
            "\\t"@ == seq!['\\', 't'],
            out@ == opened + escaped(chars@.take(i as int)),
        decreases chars.len() - i,
    {
        let c = chars[i];
        let ghost before = out@;
        if c == '"' {
            out.append("\\\"");
        } else if c == '\\' {
            out.append("\\\\");
        } else if c == '\n' {
            out.append("\\n");
        } else if c == '\r' {
            out.append("\\r");
        } else if c == '\t' {
            out.append("\\t");
        } else {
            out.push(c);
            assert(out@ =~= before + seq![c]);
        }
        proof {
            let upto = chars@.take(i + 1);
            assert(upto.drop_last() =~= chars@.take(i as int));
            assert(upto.last() == c);
            assert(out@ =~= opened + escaped(upto));
        }
        i += 1;
    }
    assert(chars@.take(chars.len() as int) =~= chars@);
    out.append("\"");
    assert(out@ =~= old(out)@ + quoted(word@));
}

impl Command {
    /// A command that runs `program` without arguments.
    pub fn new(program: &str) -> (r: Self)
        ensures
            r@ == CommandModel::bare(program@),
    {
        let r = Command { program: String::from_str(program), args: Vec::new() };
        assert(views(r.args@) =~= Seq::empty());
        r
    }

    /// Adds one argument at the end.
    pub fn arg(self, arg: &str) -> (r: Self)
        ensures
            r@ == self@.with(arg@),
    {
        let mut args = self.args;
        let ghost before = args@;
        args.push(String::from_str(arg));
        assert(views(args@) =~= views(before).push(arg@));
        Command { program: self.program, args }
    }

    /// A copy of the command.
    pub fn duplicate(&self) -> (r: Self)
        ensures
            r@ == self@,
    {
        let mut args: Vec<String> = Vec::new();
        let mut i: usize = 0;
        while i < self.args.len()
            invariant
                i <= self.args.len(),
                args@.len() == i,
                forall|j: int| 0 <= j < i ==> args@[j]@ == self.args@[j]@,
            decreases self.args.len() - i,
        {
            args.push(self.args[i].clone());
            i += 1;
        }
        assert(views(args@) =~= views(self.args@));
        Command { program: self.program.clone(), args }
    }

    /// The text that stands for the command in logs and errors.
    pub fn line(&self) -> (r: String)
        ensures
            r@ == self@.line(),
    {
        let mut out = String::new();
        append_quoted(&mut out, self.program.as_str());
        proof {
            reveal_strlit(" ");
            assert(" "@ =~= seq![' ']);
            assert(views(self.args@).take(0) =~= Seq::empty());
            assert(out@ =~= quoted(self.program@));
        }
        let mut i: usize = 0;
        while i < self.args.len()
            invariant
                i <= self.args.len(),
                " "@ == seq![' '],
                out@ == quoted(self.program@) + quoted_tail(views(self.args@).take(i as int)),
            decreases self.args.len() - i,
        {
            out.append(" ");
            append_quoted(&mut out, self.args[i].as_str());
            proof {
                let words = views(self.args@);
                let upto = words.take(i + 1);
                assert(upto.drop_last() =~= words.take(i as int));
                assert(upto.last() == self.args@[i as int]@);
                assert(out@ =~= quoted(self.program@) + quoted_tail(upto));
            }
            i += 1;
        }
        assert(views(self.args@).take(self.args.len() as int) =~= views(self.args@));
        out
    }
}

/// What a non-zero exit of a command means to the caller that issued it.
#[derive(Debug, Clone, Copy, PartialEq, Eq, Structural)]
pub enum FailurePolicy {
    /// Fatal: a command failure with the command text, exit code and stderr.
    Disk,
    /// Fatal: a ZFS error with the command text and stderr.
    Zfs,
    /// Fatal: a bootloader error.
    Bootloader,
    /// Fatal: a system error of the package manager.
    Package,
    /// Not fatal: the run goes on.
    Tolerate,
}

/// What a finished process left behind.
#[derive(Debug)]
pub struct CommandOutput {
    /// Exit code; `None` when the process was ended by a signal.
    pub code: Option<i32>,
    /// Captured standard output.
    pub stdout: String,
    /// Captured standard error.
    pub stderr: String,
}

impl CommandOutput {
    /// The process ended with exit code zero.
    pub open spec fn succeeded(&self) -> bool {
        self.code == Some(0i32)
    }

    /// The exit code that is reported; -1 stands for a missing one.
    pub open spec fn reported_code(&self) -> int {
        match self.code {
            Some(c) => c as int,
            None => -1,
        }
    }

    /// The result that a dry run hands back in place of running anything.
    pub fn synthetic() -> (r: Self)
        ensures
            r.succeeded(),
            r.stdout@.len() == 0,
            r.stderr@.len() == 0,
    {
        CommandOutput { code: Some(0), stdout: String::new(), stderr: String::new() }
    }

    /// The process ended with exit code zero.
    pub fn success(&self) -> (r: bool)
        ensures
            r == self.succeeded(),
    {
        match self.code {
            Some(c) => c == 0,
            None => false,
        }
    }
}

/// The error that `policy` makes of a command that exited non-zero, or
/// `None` where the policy tolerates it.
pub open spec fn failure_of(
    policy: FailurePolicy,
    line: Seq<char>,
    code: int,
    stderr: Seq<char>,
) -> Option<ErrorModel> {
    match policy {
        FailurePolicy::Disk => Some(ErrorModel::CommandFailed { cmd: line, code, stderr }),
        FailurePolicy::Zfs => Some(ErrorModel::ZfsError { operation: line, details: stderr }),
        FailurePolicy::Bootloader => Some(
            ErrorModel::BootloaderError("Command failed: "@ + line + "\n"@ + stderr),
        ),
        FailurePolicy::Package => Some(
            ErrorModel::SystemError("Package command failed: "@ + line + "\n"@ + stderr),
        ),
        FailurePolicy::Tolerate => None,
    }
}

/// One action on the system.
#[derive(Debug)]
pub enum Operation {
    /// Run an external tool.
    Run { command: Command, policy: FailurePolicy },
    /// Create a directory and its missing parents.
    CreateDirectory { path: String },
    /// Write a file with the given content.
    WriteFile { path: String, content: String },
    /// Copy a file.
    CopyFile { from: String, to: String },
}

/// Mathematical model of an [`Operation`].
pub ghost enum OperationModel {
    Run { command: CommandModel, policy: FailurePolicy },
    CreateDirectory { path: Seq<char> },
    WriteFile { path: Seq<char>, content: Seq<char> },
    CopyFile { from: Seq<char>, to: Seq<char> },
}

impl View for Operation {
    type V = OperationModel;

    open spec fn view(&self) -> OperationModel {
        match self {
            Operation::Run { command, policy } => OperationModel::Run {
                command: command@,
                policy: *policy,
            },
            Operation::CreateDirectory { path } => OperationModel::CreateDirectory { path: path@ },
            Operation::WriteFile { path, content } => OperationModel::WriteFile {
                path: path@,
                content: content@,
            },
            Operation::CopyFile { from, to } => OperationModel::CopyFile { from: from@, to: to@ },
        }
    }
}

/// An operation together with the mode in which it is to be carried out:
/// a simulated step is logged and nothing else.
#[derive(Debug)]
pub struct Step {
    pub operation: Operation,
    pub simulated: bool,
}

/// Mathematical model of a [`Step`].
pub ghost struct StepModel {
    pub operation: OperationModel,
    pub simulated: bool,
}

impl StepModel {
    /// The step that runs `command` under `policy`.
    pub open spec fn run(command: CommandModel, policy: FailurePolicy, simulated: bool) -> StepModel {
        StepModel { operation: OperationModel::Run { command, policy }, simulated }
    }

    /// The step that creates the directory `path`.
    pub open spec fn create_directory(path: Seq<char>, simulated: bool) -> StepModel {
        StepModel { operation: OperationModel::CreateDirectory { path }, simulated }
    }

    /// The step that writes `content` to `path`.
    pub open spec fn write_file(path: Seq<char>, content: Seq<char>, simulated: bool) -> StepModel {
        StepModel { operation: OperationModel::WriteFile { path, content }, simulated }
    }

    /// The step that copies `from` to `to`.
    pub open spec fn copy_file(from: Seq<char>, to: Seq<char>, simulated: bool) -> StepModel {
        StepModel { operation: OperationModel::CopyFile { from, to }, simulated }
    }

    /// What the step comes to once `outcome` is known: `None` for success,
    /// else the error. A simulated step succeeds whatever is reported.
    pub open spec fn verdict(self, outcome: OutcomeModel) -> Option<ErrorModel> {
        if self.simulated {
            None
        } else {
            match outcome {
                OutcomeModel::Failed(message) => Some(ErrorModel::Io(message)),
                OutcomeModel::Exited { succeeded, code, stderr } => match self.operation {
                    OperationModel::Run { command, policy } => if succeeded {
                        None
                    } else {
                        failure_of(policy, command.line(), code, stderr)
                    },
                    _ => None,
                },
                OutcomeModel::Done => None,
            }
        }
    }
}

impl View for Step {
    type V = StepModel;

    open spec fn view(&self) -> StepModel {
        StepModel { operation: self.operation@, simulated: self.simulated }
    }
}

/// The models of a list of steps.
pub open spec fn step_models(steps: Seq<Step>) -> Seq<StepModel> {
    steps.map_values(|s: Step| s@)
}

/// Steps to carry out in order and, where the work cannot be completed,
/// the error that ends it once they are done.
#[derive(Debug)]
pub struct Plan {
    pub steps: Vec<Step>,
    pub failure: Option<InstallerError>,
}

/// Mathematical model of a [`Plan`].
pub ghost struct PlanModel {
    pub steps: Seq<StepModel>,
    pub failure: Option<ErrorModel>,
}

impl View for Plan {
    type V = PlanModel;

    open spec fn view(&self) -> PlanModel {
        PlanModel {
            steps: step_models(self.steps@),
            failure: match self.failure {
                Some(e) => Some(e@),
                None => None,
            },
        }
    }
}

/// What became of a step.
#[derive(Debug)]
pub enum Outcome {
    /// Nothing further to report: the step was carried out, or simulated.
    Done,
    /// The process ran and ended.
    Exited(CommandOutput),
    /// The operating system refused the action, with its message.
    Failed(String),
}

/// Mathematical model of an [`Outcome`].
pub ghost enum OutcomeModel {
    Done,
    Exited { succeeded: bool, code: int, stderr: Seq<char> },
    Failed(Seq<char>),
}

impl View for Outcome {
    type V = OutcomeModel;

    open spec fn view(&self) -> OutcomeModel {
        match self {
            Outcome::Done => OutcomeModel::Done,
            Outcome::Exited(output) => OutcomeModel::Exited {
                succeeded: output.succeeded(),
                code: output.reported_code(),
                stderr: output.stderr@,
            },
            Outcome::Failed(message) => OutcomeModel::Failed(message@),
        }
    }
}

impl Operation {
    /// A copy of the operation.
    pub fn duplicate(&self) -> (r: Self)
        ensures
            r@ == self@,
    {
        match self {
            Operation::Run { command, policy } => Operation::Run {
                command: command.duplicate(),
                policy: *policy,
            },
            Operation::CreateDirectory { path } => Operation::CreateDirectory {
                path: path.clone(),
            },
            Operation::WriteFile { path, content } => Operation::WriteFile {
                path: path.clone(),
                content: content.clone(),
            },
            Operation::CopyFile { from, to } => Operation::CopyFile {
                from: from.clone(),
                to: to.clone(),
            },
        }
    }
}

impl Step {
    /// A copy of the step.
    pub fn duplicate(&self) -> (r: Self)
        ensures
            r@ == self@,
    {
        Step { operation: self.operation.duplicate(), simulated: self.simulated }
    }

    /// Judges the outcome of this step by the policy its caller chose.
    pub fn settle(&self, outcome: &Outcome) -> (r: Result<(), InstallerError>)
        ensures
            r is Ok <==> self@.verdict(outcome@) is None,
            r matches Err(e) ==> self@.verdict(outcome@) == Some(e@),
    {
        if self.simulated {
            return Ok(());
        }
        match outcome {
            Outcome::Done => Ok(()),
            Outcome::Failed(message) => Err(InstallerError::Io(message.clone())),
            Outcome::Exited(output) => match &self.operation {
                Operation::Run { command, policy } => {
                    if output.success() {
                        Ok(())
                    } else {
                        let code: i32 = match output.code {
                            Some(c) => c,
                            None => -1,
                        };
                        let line = command.line();
                        match policy {
                            FailurePolicy::Disk => Err(
                                InstallerError::CommandFailed {
                                    cmd: line,
                                    code,
                                    stderr: output.stderr.clone(),
                                },
                            ),
                            FailurePolicy::Zfs => Err(
                                InstallerError::ZfsError {
                                    operation: line,
                                    details: output.stderr.clone(),
                                },
                            ),
                            FailurePolicy::Bootloader => {
                                let mut msg = framed("Command failed: ", line.as_str(), "\n");
                                msg.append(output.stderr.as_str());
                                Err(InstallerError::BootloaderError(msg))
                            },
                            FailurePolicy::Package => {
                                let mut msg = framed(
                                    "Package command failed: ",
                                    line.as_str(),
                                    "\n",
                                );
                                msg.append(output.stderr.as_str());
                                Err(InstallerError::SystemError(msg))
                            },
                            FailurePolicy::Tolerate => Ok(()),
                        }
                    }
                },
                _ => Ok(()),
            },
        }
    }
}

/// Builds the steps of one run; it alone knows whether the run is a dry run.
#[derive(Debug, Clone, Copy)]
pub struct Executor {
    /// Dry run mode: every step is simulated.
    pub dry_run: bool,
}

impl Executor {
    /// An executor for a run that is a dry run or not.
    pub fn new(dry_run: bool) -> (r: Self)
        ensures
            r.dry_run == dry_run,
    {
        Executor { dry_run }
    }

    /// The step that runs `command`; `policy` says what a non-zero exit means.
    pub fn run(&self, command: Command, policy: FailurePolicy) -> (r: Step)
        ensures
            r@ == StepModel::run(command@, policy, self.dry_run),
    {
        Step { operation: Operation::Run { command, policy }, simulated: self.dry_run }
    }

    /// The step that creates the directory `path` and its missing parents.
    pub fn create_directory(&self, path: &str) -> (r: Step)
        ensures
            r@ == StepModel::create_directory(path@, self.dry_run),
    {
        Step {
            operation: Operation::CreateDirectory { path: String::from_str(path) },
            simulated: self.dry_run,
        }
    }

    /// The step that writes `content` to the file `path`.
    pub fn write_file(&self, path: &str, content: &str) -> (r: Step)
        ensures
            r@ == StepModel::write_file(path@, content@, self.dry_run),
    {
        Step {
            operation: Operation::WriteFile {
                path: String::from_str(path),
                content: String::from_str(content),
            },
            simulated: self.dry_run,
        }
    }

    /// The step that copies the file `from` to `to`.
    pub fn copy_file(&self, from: &str, to: &str) -> (r: Step)
        ensures
            r@ == StepModel::copy_file(from@, to@, self.dry_run),
    {
        Step {
            operation: Operation::CopyFile { from: String::from_str(from), to: String::from_str(to) },
            simulated: self.dry_run,
        }
    }
}

} // verus!
