use std::path::PathBuf;

use omp::terminal::{
    default_shell, shell_invocation, spawn_workspace_task, TaskError, TaskStream,
};
use omp::terminal_view::{
    is_shown, status_label, truncate_output, OmpTerminalView, TaskOutput, TerminalControl,
    TerminalSettings, MAX_OUTPUT_CHARS,
};
use omp::ui::{Color, LabelSize};

fn settings(enabled: bool, command: Option<&str>) -> TerminalSettings {
    TerminalSettings {
        terminal_integration: enabled,
        terminal_task_command: command.map(str::to_string),
    }
}

#[test]
fn disabled_spawns_nothing() {
    let result = spawn_workspace_task(
        false,
        "/bin/echo",
        vec!["should-not-run".to_string()],
        PathBuf::from("/tmp"),
    );
    assert!(result.is_err());
    assert_eq!(result, Err(TaskError::Disabled));
    assert_eq!(
        TaskError::Disabled.message(),
        "OMP terminal integration is disabled (set `omp.terminal_integration`)"
    );
    assert_eq!(TaskError::NotSpawned.message(), "spawning OMP workspace task");
}

#[test]
fn task_has_no_writable_stdin() {
    let launch = spawn_workspace_task(true, "/tmp/task.sh", Vec::new(), PathBuf::from("/tmp"))
        .expect("enabled");
    assert_eq!(launch.program, "/tmp/task.sh");
    assert_eq!(launch.cwd, PathBuf::from("/tmp"));
    assert_eq!(launch.stdin, TaskStream::Null);
    assert_eq!(launch.stdout, TaskStream::Piped);
    assert_eq!(launch.stderr, TaskStream::Piped);
    assert!(launch.kill_on_drop);
}

#[test]
fn shell_invocation_builds_login_command() {
    let (_shell, args) = shell_invocation(None, "echo hi");
    assert_eq!(args, vec!["-lc".to_string(), "echo hi".to_string()]);
}

#[test]
fn a_blank_shell_is_replaced() {
    assert_eq!(default_shell(None), "/bin/sh");
    assert_eq!(default_shell(Some(" \t".to_string())), "/bin/sh");
    assert_eq!(default_shell(Some("/bin/zsh".to_string())), "/bin/zsh");
    assert_eq!(shell_invocation(Some("/bin/fish".to_string()), "x").0, "/bin/fish");
}

#[test]
fn status_label_maps_exit_codes() {
    assert_eq!(status_label(Some(0)), "Exited 0");
    assert_eq!(status_label(Some(2)), "Exited 2");
    assert_eq!(status_label(None), "Failed to run");
    assert_eq!(status_label(Some(-1)), "Exited -1");
}

#[test]
fn truncate_output_caps_long_text() {
    let short = "ok".to_string();
    assert_eq!(truncate_output(short.clone()), short);

    let long = "x".repeat(MAX_OUTPUT_CHARS + 10);
    let truncated = truncate_output(long);
    assert!(truncated.ends_with('…'));
    assert_eq!(truncated.chars().count(), MAX_OUTPUT_CHARS + 1);
}

#[test]
fn truncation_counts_characters() {
    let exact = "é".repeat(MAX_OUTPUT_CHARS);
    assert_eq!(truncate_output(exact.clone()), exact);
    let longer = "é".repeat(MAX_OUTPUT_CHARS + 1);
    assert_eq!(truncate_output(longer), exact + "…");
}

#[test]
fn failure_output_has_no_exit_and_carries_message() {
    let output = TaskOutput::failure("boom".to_string());
    assert_eq!(output.exit_code, None);
    assert_eq!(output.stderr, "boom");
    assert!(output.stdout.is_empty());
    assert_eq!(output.status_label(), "Failed to run");
}

#[test]
fn captured_output_is_read_as_text() {
    let output = TaskOutput::from_output(
        Some(3),
        &"hällo".as_bytes().to_vec(),
        &vec![b'a', 0xff, b'b'],
    );
    assert_eq!(output.exit_code, Some(3));
    assert_eq!(output.stdout, "hällo");
    assert_eq!(output.stderr, "a\u{fffd}b");
    assert_eq!(
        TaskOutput::from_text(Some(3), "hällo".to_string(), "a\u{fffd}b".to_string()),
        output
    );
}

#[test]
fn a_panel_runs_nothing_by_itself() {
    let mut panel = OmpTerminalView::new(6);
    assert_eq!(panel.thread(), 6);
    assert_eq!(TerminalSettings::default(), settings(false, None));
    let shown = panel.render(&settings(true, None));
    assert_eq!(shown.title.text, "OMP terminal tasks");
    assert_eq!(
        shown.notice.text,
        "User-initiated, output-only — the agent never drives the terminal."
    );
    assert_eq!(shown.notice.size, LabelSize::XSmall);
    assert_eq!(shown.command.text, "Set `omp.terminal_task_command` to enable a task.");
    assert_eq!(shown.run, None);
    assert_eq!(panel.run(&settings(true, None), Some(PathBuf::from("/w")), None), None);
    assert_eq!(panel.run(&settings(true, Some("ls")), None, None), None);
    let idle = panel.render(&settings(true, Some("ls")));
    let run = idle.run.expect("a button");
    assert_eq!(run.label, "Run task");
    assert!(!run.disabled);
}

#[test]
fn the_panel_is_shown_where_tasks_are_enabled() {
    assert!(!is_shown(&TerminalSettings::default()));
    assert!(!is_shown(&settings(false, Some("ls"))));
    assert!(is_shown(&settings(true, None)));
}

#[test]
fn the_button_runs_the_task() {
    let mut panel = OmpTerminalView::new(1);
    let wish = settings(true, Some("ls"));
    assert_eq!(panel.press(TerminalControl::Run, &wish, None, None), None);
    let launch = panel
        .press(TerminalControl::Run, &wish, Some(PathBuf::from("/w")), None)
        .expect("a run")
        .expect("enabled");
    assert_eq!(launch.program, "/bin/sh");
    assert_eq!(launch.cwd, PathBuf::from("/w"));
    assert!(panel.render(&wish).run.expect("a button").disabled);
}

#[test]
fn a_task_is_run_at_wish() {
    let mut panel = OmpTerminalView::new(1);
    let wish = settings(true, Some("cargo test"));
    let launch = panel
        .run(&wish, Some(PathBuf::from("/w")), Some("/bin/bash".to_string()))
        .expect("a run")
        .expect("enabled");
    assert_eq!(launch.program, "/bin/bash");
    assert_eq!(launch.args, vec!["-lc".to_string(), "cargo test".to_string()]);
    let running = panel.render(&wish);
    let button = running.run.expect("a button");
    assert_eq!(button.id, "omp-run-task");
    assert_eq!(button.label, "Running…");
    assert!(button.disabled);
    assert_eq!(running.command.text, "$ cargo test");
    assert!(running.output.is_empty());
    panel.finish(TaskOutput::from_text(Some(1), "out".to_string(), "err".to_string()));
    let done = panel.render(&wish);
    let texts: Vec<(&str, Color)> =
        done.output.iter().map(|label| (label.text.as_str(), label.color)).collect();
    assert_eq!(
        texts,
        vec![("Exited 1", Color::Muted), ("out", Color::Default), ("err", Color::Error)]
    );
    assert!(panel.render(&settings(true, None)).output.is_empty());
}

#[test]
fn a_disabled_panel_fails_its_run() {
    let mut panel = OmpTerminalView::new(1);
    let wish = settings(false, Some("ls"));
    let error = panel
        .run(&wish, Some(PathBuf::from("/w")), None)
        .expect("a run")
        .expect_err("disabled");
    assert_eq!(error, TaskError::Disabled);
    panel.finish(TaskOutput::failure(error.message()));
    let shown = panel.render(&wish);
    assert_eq!(shown.output[0].text, "Failed to run");
    assert_eq!(shown.output[1].text, error.message());
    assert_eq!(shown.output[1].color, Color::Error);
}
