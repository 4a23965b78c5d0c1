//! User-initiated workspace tasks: whether one may start, and how.
use std::path::PathBuf;

use vstd::prelude::*;

use crate::text::{trim, trimmed};

verus! {

/// What a standard stream of a task is connected to.
#[derive(Clone, Copy, Debug, PartialEq, Eq, Structural)]
pub enum TaskStream {
    /// Nothing: reads find the end, writes are dropped.
    Null,
    /// A pipe to this process.
    Piped,
}

/// A child that is to be started for a task.
#[derive(Debug, PartialEq, Eq)]
pub struct TaskLaunch {
    pub program: String,
    pub args: Vec<String>,
    pub cwd: PathBuf,
    pub stdin: TaskStream,
    pub stdout: TaskStream,
    pub stderr: TaskStream,
    /// The child is killed once nobody waits for it.
    pub kill_on_drop: bool,
}

/// Why no task was started.
#[derive(Clone, Copy, Debug, PartialEq, Eq, Structural)]
pub enum TaskError {
    Disabled,
    NotSpawned,
}

impl TaskError {
    /// What the user is told.
    pub open spec fn text(self) -> Seq<char> {
        match self {
            TaskError::Disabled =>
                "OMP terminal integration is disabled (set `omp.terminal_integration`)"@,
            TaskError::NotSpawned => "spawning OMP workspace task"@,
        }
    }

    /// What the user is told.
    pub fn message(&self) -> (message: String)
        ensures
            message@ == self.text(),
    {
        match self {
            TaskError::Disabled =>
                "OMP terminal integration is disabled (set `omp.terminal_integration`)".to_owned(),
            TaskError::NotSpawned => "spawning OMP workspace task".to_owned(),
        }
    }
}

/// The child of a task: it has no input, its output is captured, and it does not
/// outlive the interest in it.
pub open spec fn is_output_only(launch: TaskLaunch) -> bool {
    &&& launch.stdin == TaskStream::Null
    &&& launch.stdout == TaskStream::Piped
    &&& launch.stderr == TaskStream::Piped
    &&& launch.kill_on_drop
}

/// The child of a task, where tasks are enabled. Where they are not, nothing is
/// started.
pub fn spawn_workspace_task(
    enabled: bool,
    program: &str,
    args: Vec<String>,
    cwd: PathBuf,
) -> (launch: Result<TaskLaunch, TaskError>)
    ensures
        !enabled ==> launch == Err::<TaskLaunch, TaskError>(TaskError::Disabled),
        enabled ==> {
            &&& launch is Ok
            &&& launch->Ok_0.program@ == program@
            &&& launch->Ok_0.args == args
            &&& launch->Ok_0.cwd == cwd
            &&& is_output_only(launch->Ok_0)
        },
{
    if !enabled {
        return Err(TaskError::Disabled);
    }
    Ok(
        TaskLaunch {
            program: program.to_owned(),
            args,
            cwd,
            stdin: TaskStream::Null,
            stdout: TaskStream::Piped,
            stderr: TaskStream::Piped,
            kill_on_drop: true,
        },
    )
}

/// The shell that runs a command: the user's, unless it is not set or blank.
pub open spec fn chosen_shell(shell: Option<Seq<char>>) -> Seq<char> {
    match shell {
        Some(shell) => if trimmed(shell).len() > 0 {
            shell
        } else {
            "/bin/sh"@
        },
        None => "/bin/sh"@,
    }
}

/// The user's shell, falling back to `/bin/sh`. `shell` is the environment's
/// `SHELL`.
pub fn default_shell(shell: Option<String>) -> (chosen: String)
    ensures
        chosen@ == chosen_shell(shell.deep_view()),
{
    match shell {
        Some(shell) => if trim(shell.as_str()).as_str().is_empty() {
            "/bin/sh".to_owned()
        } else {
            shell
        },
        None => "/bin/sh".to_owned(),
    }
}

/// Builds a `(program, args)` shell invocation for a one-line command:
/// `<shell> -lc <command>`.
pub fn shell_invocation(shell: Option<String>, command: &str) -> (invocation: (
    String,
    Vec<String>,
))
    ensures
        invocation.0@ == chosen_shell(shell.deep_view()),
        invocation.1.deep_view() == seq!["-lc"@, command@],
{
    let mut args: Vec<String> = Vec::new();
    args.push("-lc".to_owned());
    args.push(command.to_owned());
    assert(args.deep_view() =~= seq!["-lc"@, command@]);
    (default_shell(shell), args)
}

/// There is always a shell to run a command with.
pub proof fn a_shell_is_never_blank(shell: Option<Seq<char>>)
    ensures
        trimmed(chosen_shell(shell)).len() > 0,
{
    reveal_strlit("/bin/sh");
    crate::text::trimmed_is_empty_iff_blank("/bin/sh"@);
    assert("/bin/sh"@[0] == '/');
    assert(!crate::text::white_space("/bin/sh"@[0]));
}

/// The user's shell is used as it is, unless it is not set or holds nothing but white
/// space; then `/bin/sh` is.
pub proof fn the_users_shell_is_used(shell: Seq<char>)
    ensures
        chosen_shell(None) == "/bin/sh"@,
        (exists|i: int| 0 <= i < shell.len() && !crate::text::white_space(#[trigger] shell[i]))
            ==> chosen_shell(Some(shell)) == shell,
        (forall|i: int| 0 <= i < shell.len() ==> crate::text::white_space(#[trigger] shell[i]))
            ==> chosen_shell(Some(shell)) == "/bin/sh"@,
{
    crate::text::trimmed_is_empty_iff_blank(shell);
}

/// A child that only gives output reads nothing, has both its outputs captured, and is
/// killed once nobody waits for it. Why no task was started is told.
pub proof fn tasks_have_no_input(launch: TaskLaunch)
    ensures
        is_output_only(launch) <==> launch.stdin == TaskStream::Null && launch.stdout
            == TaskStream::Piped && launch.stderr == TaskStream::Piped && launch.kill_on_drop,
        TaskError::Disabled.text()
            == "OMP terminal integration is disabled (set `omp.terminal_integration`)"@,
        TaskError::NotSpawned.text() == "spawning OMP workspace task"@,
{
}

} // verus!
