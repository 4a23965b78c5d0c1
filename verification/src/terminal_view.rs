//! The panel that runs a workspace task at the user's wish.
use std::path::PathBuf;

use vstd::prelude::*;
use vstd::string::*;
use vstd::utf8::{decode_utf8, valid_utf8};

use crate::terminal::{
    chosen_shell, is_output_only, shell_invocation, spawn_workspace_task, TaskError, TaskLaunch,
};
use crate::text::{concatenated, signed_decimal, signed_decimal_text};
use crate::ui::{
    label_models, small, Button, ButtonModel, ButtonStyle, Color, Icon, IconName, Label,
    LabelModel, LabelSize,
};

verus! {

/// Maximum characters of captured output shown in the panel.
pub const MAX_OUTPUT_CHARS: usize = 4000;

// ---------------------------------------------------------------------------
// The output of a task
// ---------------------------------------------------------------------------

/// What `String::from_utf8_lossy` reads from bytes.
pub uninterp spec fn lossy_text(bytes: Seq<u8>) -> Seq<char>;

/// `String::from_utf8_lossy`: the text depends on the bytes alone, and is what
/// they encode where they are UTF-8.
#[verifier::external_body]
fn read_lossy(bytes: &Vec<u8>) -> (text: String)
    ensures
        text@ == lossy_text(bytes@),
        valid_utf8(bytes@) ==> text@ == decode_utf8(bytes@),
{
    String::from_utf8_lossy(bytes).into_owned()
}

/// A text that is cut where it is too long, with a mark where it was cut.
pub open spec fn truncated(text: Seq<char>) -> Seq<char> {
    if text.len() > MAX_OUTPUT_CHARS {
        text.take(MAX_OUTPUT_CHARS as int) + "…"@
    } else {
        text
    }
}

/// Cuts a text that is too long, and marks where it was cut.
pub fn truncate_output(value: String) -> (text: String)
    ensures
        text@ == truncated(value@),
{
    if value.as_str().unicode_len() > MAX_OUTPUT_CHARS {
        let kept = value.as_str().substring_char(0, MAX_OUTPUT_CHARS);
        assert(kept@ =~= value@.take(MAX_OUTPUT_CHARS as int));
        concatenated(kept, "…")
    } else {
        value
    }
}

/// However long a text is, no more than the maximum and the mark of it is shown,
/// and what is shown begins as the text does.
pub proof fn truncated_output_is_bounded(text: Seq<char>)
    ensures
        truncated(text).len() <= MAX_OUTPUT_CHARS + 1,
        text.len() <= MAX_OUTPUT_CHARS ==> truncated(text) == text,
        text.len() > MAX_OUTPUT_CHARS ==> {
            &&& truncated(text).len() == MAX_OUTPUT_CHARS + 1
            &&& truncated(text).last() == '…'
            &&& truncated(text).drop_last() == text.take(MAX_OUTPUT_CHARS as int)
        },
{
    reveal_strlit("…");
    if text.len() > MAX_OUTPUT_CHARS {
        assert(truncated(text).drop_last() =~= text.take(MAX_OUTPUT_CHARS as int));
    }
}

/// How a task ended, in words.
pub open spec fn status_text(exit_code: Option<i32>) -> Seq<char> {
    match exit_code {
        Some(code) => "Exited "@ + signed_decimal_text(code as int),
        None => "Failed to run"@,
    }
}

/// How a task ended, in words.
pub fn status_label(exit_code: Option<i32>) -> (label: String)
    ensures
        label@ == status_text(exit_code),
{
    match exit_code {
        Some(code) => concatenated("Exited ", signed_decimal(code).as_str()),
        None => "Failed to run".to_owned(),
    }
}

/// What a task left behind.
#[derive(Debug, PartialEq, Eq)]
pub struct TaskOutput {
    pub exit_code: Option<i32>,
    pub stdout: String,
    pub stderr: String,
}

/// What a [`TaskOutput`] stands for.
#[verifier::ext_equal]
pub struct TaskOutputModel {
    pub exit_code: Option<i32>,
    pub stdout: Seq<char>,
    pub stderr: Seq<char>,
}

impl View for TaskOutput {
    type V = TaskOutputModel;

    open spec fn view(&self) -> TaskOutputModel {
        TaskOutputModel {
            exit_code: self.exit_code,
            stdout: self.stdout@,
            stderr: self.stderr@,
        }
    }
}

/// What is kept of the captured output of a task.
pub open spec fn kept_output(exit_code: Option<i32>, stdout: Seq<char>, stderr: Seq<char>) ->
    TaskOutputModel {
    TaskOutputModel { exit_code, stdout: truncated(stdout), stderr: truncated(stderr) }
}

/// What is kept of a task that did not run.
pub open spec fn failed_output(message: Seq<char>) -> TaskOutputModel {
    TaskOutputModel { exit_code: None, stdout: Seq::empty(), stderr: message }
}

impl TaskOutput {
    /// What is kept of the captured output of a task.
    pub fn from_output(exit_code: Option<i32>, stdout: &Vec<u8>, stderr: &Vec<u8>) -> (output:
        TaskOutput)
        ensures
            output@ == kept_output(exit_code, lossy_text(stdout@), lossy_text(stderr@)),
            valid_utf8(stdout@) ==> output@.stdout == truncated(decode_utf8(stdout@)),
            valid_utf8(stderr@) ==> output@.stderr == truncated(decode_utf8(stderr@)),
    {
        Self::from_text(exit_code, read_lossy(stdout), read_lossy(stderr))
    }

    /// What is kept of the captured output of a task, as texts.
    pub fn from_text(exit_code: Option<i32>, stdout: String, stderr: String) -> (output:
        TaskOutput)
        ensures
            output@ == kept_output(exit_code, stdout@, stderr@),
    {
        TaskOutput {
            exit_code,
            stdout: truncate_output(stdout),
            stderr: truncate_output(stderr),
        }
    }

    /// What is kept of a task that did not run.
    pub fn failure(message: String) -> (output: TaskOutput)
        ensures
            output@ == failed_output(message@),
    {
        let stdout = String::new();
        assert(stdout@ =~= Seq::empty());
        TaskOutput { exit_code: None, stdout, stderr: message }
    }

    /// How the task ended, in words.
    pub fn status_label(&self) -> (label: String)
        ensures
            label@ == status_text(self.exit_code),
    {
        status_label(self.exit_code)
    }
}

// ---------------------------------------------------------------------------
// The panel
// ---------------------------------------------------------------------------

/// The settings of the panel.
#[derive(Clone, Debug, PartialEq, Eq)]
pub struct TerminalSettings {
    /// Tasks may be run. Off unless the user turns it on.
    pub terminal_integration: bool,
    /// The command of the task.
    pub terminal_task_command: Option<String>,
}

impl Default for TerminalSettings {
    fn default() -> (settings: TerminalSettings)
        ensures
            !settings.terminal_integration,
            settings.terminal_task_command is None,
    {
        TerminalSettings { terminal_integration: false, terminal_task_command: None }
    }
}

/// Whether the panel is shown: only where tasks may be run.
pub fn is_shown(settings: &TerminalSettings) -> (shown: bool)
    ensures
        shown == settings.terminal_integration,
{
    settings.terminal_integration
}

/// What the user can press.
#[derive(Clone, Copy, Debug, PartialEq, Eq, Structural)]
pub enum TerminalControl {
    /// The button that runs the command.
    Run,
}

/// The panel that runs a task. It runs none by itself.
pub struct OmpTerminalView {
    thread: u64,
    state: RunState,
}

/// Whether a task runs or has run.
enum RunState {
    Idle,
    Running,
    Done(TaskOutput),
}

/// What a [`RunState`] stands for.
#[verifier::ext_equal]
pub enum RunModel {
    Idle,
    Running,
    Done(TaskOutputModel),
}

/// What an [`OmpTerminalView`] stands for.
#[verifier::ext_equal]
pub struct TerminalModel {
    /// The thread that the panel is bound to.
    pub thread: u64,
    pub state: RunModel,
}

impl View for OmpTerminalView {
    type V = TerminalModel;

    closed spec fn view(&self) -> TerminalModel {
        TerminalModel {
            thread: self.thread,
            state: match self.state {
                RunState::Idle => RunModel::Idle,
                RunState::Running => RunModel::Running,
                RunState::Done(output) => RunModel::Done(output@),
            },
        }
    }
}

/// What the panel shows.
#[derive(Debug, PartialEq, Eq)]
pub struct TerminalPanel {
    pub icon: Icon,
    pub title: Label,
    pub notice: Label,
    /// What stands for the command: its text, or a hint where there is none.
    pub command: Label,
    /// The button that runs the command, where there is one. Pressing it is
    /// [`TerminalControl::Run`].
    pub run: Option<Button>,
    pub output: Vec<Label>,
}

/// What a [`TerminalPanel`] stands for.
#[verifier::ext_equal]
pub struct TerminalPanelModel {
    pub icon: Icon,
    pub title: LabelModel,
    pub notice: LabelModel,
    pub command: LabelModel,
    pub run: Option<ButtonModel>,
    pub output: Seq<LabelModel>,
}

/// An optional button as what it stands for.
pub open spec fn optional_button(button: Option<Button>) -> Option<ButtonModel> {
    match button {
        Some(button) => Some(button@),
        None => None,
    }
}

impl View for TerminalPanel {
    type V = TerminalPanelModel;

    open spec fn view(&self) -> TerminalPanelModel {
        TerminalPanelModel {
            icon: self.icon,
            title: self.title@,
            notice: self.notice@,
            command: self.command@,
            run: optional_button(self.run),
            output: label_models(self.output@),
        }
    }
}

/// A text in a list of its own, unless it is empty.
pub open spec fn unless_empty(text: Seq<char>, color: Color) -> Seq<LabelModel> {
    if text.len() > 0 {
        seq![small(text, color)]
    } else {
        Seq::empty()
    }
}

/// What is shown of the output of a task: how it ended, and then what it wrote,
/// errors in their own colour.
pub open spec fn shown_output(output: TaskOutputModel) -> Seq<LabelModel> {
    seq![small(status_text(output.exit_code), Color::Muted)] + unless_empty(
        output.stdout,
        Color::Default,
    ) + unless_empty(output.stderr, Color::Error)
}

/// The button that runs the command. While a task runs it cannot be pressed.
pub open spec fn run_button(running: bool) -> ButtonModel {
    ButtonModel {
        id: "omp-run-task"@,
        label: if running {
            "Running…"@
        } else {
            "Run task"@
        },
        style: ButtonStyle::Plain,
        disabled: running,
    }
}

/// What the panel shows.
pub open spec fn shown(state: RunModel, command: Option<Seq<char>>) -> TerminalPanelModel {
    TerminalPanelModel {
        icon: Icon { name: IconName::Terminal, color: Color::Muted },
        title: small("OMP terminal tasks"@, Color::Muted),
        notice: LabelModel {
            text: "User-initiated, output-only — the agent never drives the terminal."@,
            size: LabelSize::XSmall,
            color: Color::Muted,
        },
        command: match command {
            Some(command) => small("$ "@ + command, Color::Muted),
            None => small("Set `omp.terminal_task_command` to enable a task."@, Color::Muted),
        },
        run: match command {
            Some(_) => Some(run_button(state is Running)),
            None => None,
        },
        output: match (command, state) {
            (Some(_), RunModel::Done(output)) => shown_output(output),
            _ => Seq::empty(),
        },
    }
}

/// A run of the configured command in the workspace. Without a command or a
/// workspace nothing happens. Where tasks are not enabled, the run fails and
/// nothing is started; else the child is the shell with the command, in the
/// workspace, and gives only output.
pub open spec fn is_run_of(
    before: TerminalModel,
    after: TerminalModel,
    settings: TerminalSettings,
    work_dir: Option<PathBuf>,
    shell: Option<String>,
    launch: Option<Result<TaskLaunch, TaskError>>,
) -> bool {
    match (settings.terminal_task_command, work_dir) {
        (Some(command), Some(cwd)) => {
            &&& after == (TerminalModel { state: RunModel::Running, ..before })
            &&& launch is Some
            &&& !settings.terminal_integration ==> launch->0 == Err::<TaskLaunch, TaskError>(
                TaskError::Disabled,
            )
            &&& settings.terminal_integration ==> {
                &&& launch->0 is Ok
                &&& launch->0->Ok_0.program@ == chosen_shell(shell.deep_view())
                &&& launch->0->Ok_0.args.deep_view() == seq!["-lc"@, command@]
                &&& launch->0->Ok_0.cwd == cwd
                &&& is_output_only(launch->0->Ok_0)
            }
        },
        _ => after == before && launch is None,
    }
}

impl OmpTerminalView {
    /// A panel that is bound to a thread. Nothing runs.
    pub fn new(thread: u64) -> (panel: OmpTerminalView)
        ensures
            panel@ == (TerminalModel { thread, state: RunModel::Idle }),
    {
        OmpTerminalView { thread, state: RunState::Idle }
    }

    /// The thread that the panel is bound to.
    pub fn thread(&self) -> (thread: u64)
        ensures
            thread == self@.thread,
    {
        self.thread
    }

    /// Runs the configured command in the workspace. Without a command or a
    /// workspace nothing happens. Where tasks are not enabled, the run fails and
    /// nothing is started.
    pub fn run(
        &mut self,
        settings: &TerminalSettings,
        work_dir: Option<PathBuf>,
        shell: Option<String>,
    ) -> (launch: Option<Result<TaskLaunch, TaskError>>)
        ensures
            is_run_of(old(self)@, final(self)@, *settings, work_dir, shell, launch),
    {
        let command = match &settings.terminal_task_command {
            Some(command) => command,
            None => return None,
        };
        let cwd = match work_dir {
            Some(cwd) => cwd,
            None => return None,
        };
        let (program, args) = shell_invocation(shell, command.as_str());
        self.state = RunState::Running;
        Some(spawn_workspace_task(settings.terminal_integration, program.as_str(), args, cwd))
    }

    /// Does what a pressed control stands for.
    pub fn press(
        &mut self,
        control: TerminalControl,
        settings: &TerminalSettings,
        work_dir: Option<PathBuf>,
        shell: Option<String>,
    ) -> (launch: Option<Result<TaskLaunch, TaskError>>)
        ensures
            match control {
                TerminalControl::Run => is_run_of(
                    old(self)@,
                    final(self)@,
                    *settings,
                    work_dir,
                    shell,
                    launch,
                ),
            },
    {
        match control {
            TerminalControl::Run => self.run(settings, work_dir, shell),
        }
    }

    /// Takes over what a task left behind.
    pub fn finish(&mut self, output: TaskOutput)
        ensures
            final(self)@ == (TerminalModel { state: RunModel::Done(output@), ..old(self)@ }),
    {
        self.state = RunState::Done(output);
    }

    /// What is shown of the output of a task.
    fn render_output(output: &TaskOutput) -> (labels: Vec<Label>)
        ensures
            label_models(labels@) == shown_output(output@),
    {
        let mut labels: Vec<Label> = Vec::new();
        labels.push(Label::small(output.status_label(), Color::Muted));
        if !output.stdout.as_str().is_empty() {
            labels.push(Label::small(output.stdout.clone(), Color::Default));
        }
        if !output.stderr.as_str().is_empty() {
            labels.push(Label::small(output.stderr.clone(), Color::Error));
        }
        assert(label_models(labels@) =~= shown_output(output@));
        labels
    }

    /// What the panel shows.
    pub fn render(&self, settings: &TerminalSettings) -> (panel: TerminalPanel)
        ensures
            panel@ == shown(self@.state, settings.terminal_task_command.deep_view()),
    {
        let running = match &self.state {
            RunState::Running => true,
            _ => false,
        };
        let icon = Icon { name: IconName::Terminal, color: Color::Muted };
        let title = Label::small("OMP terminal tasks".to_owned(), Color::Muted);
        let notice = Label {
            text: "User-initiated, output-only — the agent never drives the terminal.".to_owned(),
            size: LabelSize::XSmall,
            color: Color::Muted,
        };
        let mut output: Vec<Label> = Vec::new();
        assert(label_models(output@) =~= Seq::empty());
        match &settings.terminal_task_command {
            Some(command) => {
                let label = Label::small(concatenated("$ ", command.as_str()), Color::Muted);
                let text = if running {
                    "Running…"
                } else {
                    "Run task"
                };
                let run = Button {
                    id: "omp-run-task".to_owned(),
                    label: text.to_owned(),
                    style: ButtonStyle::Plain,
                    disabled: running,
                };
                if let RunState::Done(left) = &self.state {
                    output = Self::render_output(left);
                }
                TerminalPanel { icon, title, notice, command: label, run: Some(run), output }
            },
            None => {
                let label = Label::small(
                    "Set `omp.terminal_task_command` to enable a task.".to_owned(),
                    Color::Muted,
                );
                TerminalPanel { icon, title, notice, command: label, run: None, output }
            },
        }
    }
}

// ---------------------------------------------------------------------------
// What the panel shows and runs
// ---------------------------------------------------------------------------

/// What is kept of an output is its exit code and as much of each stream as is shown:
/// four thousand characters and a mark where there are more, all of it where there are
/// not. Each stream is kept as itself.
pub proof fn outputs_are_kept_up_to_the_maximum(
    exit_code: Option<i32>,
    stdout: Seq<char>,
    stderr: Seq<char>,
)
    ensures
        ({
            let kept = kept_output(exit_code, stdout, stderr);
            &&& kept.exit_code == exit_code
            &&& stdout.len() <= 4000 ==> kept.stdout == stdout
            &&& stdout.len() > 4000 ==> kept.stdout == stdout.take(4000).push('…')
            &&& stderr.len() <= 4000 ==> kept.stderr == stderr
            &&& stderr.len() > 4000 ==> kept.stderr == stderr.take(4000).push('…')
        }),
{
    reveal_strlit("…");
    assert(stdout.take(4000) + "…"@ =~= stdout.take(4000).push('…'));
    assert(stderr.take(4000) + "…"@ =~= stderr.take(4000).push('…'));
}

/// A task that did not run has no exit code and no output, and its message is its
/// error. A task is told by its exit code, or as one that did not run.
pub proof fn ends_are_told(message: Seq<char>, code: i32)
    ensures
        failed_output(message).exit_code is None,
        failed_output(message).stdout.len() == 0,
        failed_output(message).stderr == message,
        status_text(None) == "Failed to run"@,
        status_text(Some(code)).take(7) == "Exited "@,
        code >= 0 ==> crate::text::digits_value(status_text(Some(code)).skip(7)) == code,
        code < 0 ==> status_text(Some(code))[7] == '-' && crate::text::digits_value(
            status_text(Some(code)).skip(8),
        ) == -code,
{
    reveal_strlit("Exited ");
    let text = status_text(Some(code));
    let number = signed_decimal_text(code as int);
    crate::text::signed_decimal_text_reads_back(code as int);
    assert(text.take(7) =~= "Exited "@);
    assert(text.skip(7) =~= number);
    assert(code < 0 ==> text.skip(8) =~= number.skip(1));
}

/// Once a task has ended, the panel tells how, then what it wrote and then its errors,
/// each where there is any and errors in their own colour.
pub proof fn the_output_of_a_task_is_shown(output: TaskOutputModel, command: Seq<char>)
    ensures
        ({
            let labels = shown(RunModel::Done(output), Some(command)).output;
            let written: int = if output.stdout.len() > 0 {
                1
            } else {
                0
            };
            let failed: int = if output.stderr.len() > 0 {
                1
            } else {
                0
            };
            &&& labels.len() == 1 + written + failed
            &&& labels[0].text == status_text(output.exit_code) && labels[0].color == Color::Muted
            &&& output.stdout.len() > 0 ==> labels[1].text == output.stdout && labels[1].color
                == Color::Default && labels[1].size == LabelSize::Small
            &&& output.stderr.len() > 0 ==> labels[1 + written].text == output.stderr
                && labels[1 + written].color == Color::Error && labels[1 + written].size
                == LabelSize::Small
        }),
{
}

/// The panel shows the command and a button that runs it, which cannot be pressed while
/// a task runs; without a command it shows how to set one, and no button. What a task
/// wrote is shown only once it has ended.
pub proof fn the_command_can_be_run(state: RunModel, command: Seq<char>)
    ensures
        ({
            let panel = shown(state, Some(command));
            let hint = shown(state, None);
            &&& panel.command.text == "$ "@ + command && panel.command.color == Color::Muted
            &&& panel.run matches Some(run) && {
                &&& run.id == "omp-run-task"@
                &&& run.style == ButtonStyle::Plain
                &&& run.disabled <==> state is Running
                &&& state is Running ==> run.label == "Running…"@
                &&& !(state is Running) ==> run.label == "Run task"@
            }
            &&& !(state is Done) ==> panel.output.len() == 0
            &&& hint.command.text == "Set `omp.terminal_task_command` to enable a task."@
            &&& hint.command.color == Color::Muted
            &&& hint.run is None
            &&& hint.output.len() == 0
            &&& panel.title.text == "OMP terminal tasks"@ && panel.title.color == Color::Muted
            &&& panel.notice.text
                == "User-initiated, output-only — the agent never drives the terminal."@
            &&& panel.notice.size == LabelSize::XSmall
            &&& panel.icon.name == IconName::Terminal && panel.icon.color == Color::Muted
            &&& hint.title == panel.title && hint.notice == panel.notice && hint.icon == panel.icon
        }),
{
}

/// A run of a command starts a child only where tasks are enabled: the shell with the
/// command, in the workspace, without input. Where they are not it fails and starts
/// none. Without a command or a workspace nothing happens.
pub proof fn only_enabled_tasks_are_started(
    before: TerminalModel,
    after: TerminalModel,
    settings: TerminalSettings,
    work_dir: Option<PathBuf>,
    shell: Option<String>,
    launch: Option<Result<TaskLaunch, TaskError>>,
)
    requires
        is_run_of(before, after, settings, work_dir, shell, launch),
    ensures
        settings.terminal_task_command is None || work_dir is None ==> launch is None && after
            == before,
        settings.terminal_task_command is Some && work_dir is Some ==> {
            &&& after.state is Running
            &&& after.thread == before.thread
            &&& !settings.terminal_integration ==> launch == Some(
                Err::<TaskLaunch, TaskError>(TaskError::Disabled),
            )
            &&& settings.terminal_integration ==> (launch matches Some(Ok(child)) && {
                &&& child.args.deep_view() == seq![
                    "-lc"@,
                    settings.terminal_task_command->0@,
                ]
                &&& Some(child.cwd) == work_dir
                &&& child.program@ == chosen_shell(shell.deep_view())
                &&& child.stdin == crate::terminal::TaskStream::Null
                &&& child.stdout == crate::terminal::TaskStream::Piped
                &&& child.stderr == crate::terminal::TaskStream::Piped
                &&& child.kill_on_drop
            })
        },
{
}

/// Outputs and panels stand for what they hold.
pub proof fn outputs_and_panels_stand_for_what_they_hold(
    output: TaskOutput,
    panel: TerminalPanel,
)
    ensures
        output@.exit_code == output.exit_code,
        output@.stdout == output.stdout@,
        output@.stderr == output.stderr@,
        panel@.icon == panel.icon,
        panel@.title == panel.title@,
        panel@.notice == panel.notice@,
        panel@.command == panel.command@,
        panel@.run is Some <==> panel.run is Some,
        panel.run matches Some(run) ==> panel@.run == Some(run@),
        panel@.output == label_models(panel.output@),
{
}

} // verus!
