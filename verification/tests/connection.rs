use std::path::PathBuf;

use omp::connection::{
    prompt_response, ConnectionError, OmpAgentConnection, OmpAgentServer, SessionStart,
};
use omp::discovery::{LaunchArg, OmpCommand};
use omp::json::print_json;
use omp::protocol::{
    apply_state_update, ContentBlock, SessionUpdate, StopReason, ToolCallStatus, OMP_AGENT_ID,
};
use omp::session::{Frame, OmpAction, PromptError, SendError};
use omp::terminal::TaskStream;
use omp::ui::IconName;

const FAKE_STATE: &str = r#"{"type":"response","id":"req_0","success":true,"data":{"sessionId":"fake-session","sessionName":"Fake OMP","sessionFile":"/tmp/pid.jsonl"}}"#;

fn command() -> OmpCommand {
    OmpCommand {
        program: PathBuf::from("/fake/omp.sh"),
        prefix_args: vec!["--quiet".to_string()],
    }
}

fn started(work_dir: &str) -> (OmpAgentConnection, String, Frame) {
    let mut connection = OmpAgentServer.connect(command());
    let (id, frame) = another(&mut connection, work_dir);
    (connection, id, frame)
}

fn another(connection: &mut OmpAgentConnection, work_dir: &str) -> (String, Frame) {
    let start = launched(connection, work_dir);
    let frame = connection.create_session(&start.session_id).expect("sent");
    (start.session_id, frame)
}

fn launched(connection: &mut OmpAgentConnection, work_dir: &str) -> SessionStart {
    connection
        .new_session(
            &vec![PathBuf::from(work_dir), PathBuf::from("/other")],
            vec![PathBuf::from("/usr/bin")],
            None,
        )
        .expect("a launch")
}

fn text(prompt: &str) -> Vec<ContentBlock> {
    vec![ContentBlock::Text(prompt.to_string())]
}

fn arguments(start: &SessionStart) -> Vec<String> {
    start
        .launch
        .args
        .iter()
        .map(|argument| match argument {
            LaunchArg::Text(text) => text.clone(),
            LaunchArg::Path(path) => path.display().to_string(),
        })
        .collect()
}

#[test]
fn omp_smoke_agent_panel_harness() {
    assert_eq!(OMP_AGENT_ID, "omp");
    assert_eq!(OmpAgentServer.agent_id(), "omp");
    let (mut connection, id, _) = started("/workspace");
    assert_eq!(connection.agent_id(), "omp");
    assert_eq!(connection.telemetry_id(), "omp");
    assert!(connection.supports_close_session());

    let title = match connection.dispatch_line(&id, FAKE_STATE) {
        Some(OmpAction::AnswerRequest(_, Ok(state))) => {
            apply_state_update(&state).expect("a title").title
        }
        other => panic!("unexpected {:?}", other),
    };
    let session_file = title.rsplit(" · ").next().unwrap_or_default().to_string();
    assert!(!session_file.is_empty());
    assert!(session_file.ends_with(".jsonl"));

    connection.prompt(&id, &text("hello")).expect("sent");
    let mut shown = String::new();
    for line in [
        r#"{"type":"message_update","assistantMessageEvent":{"type":"text_delta","delta":"Hello "}}"#,
        r#"{"type":"message_update","assistantMessageEvent":{"type":"text_delta","delta":"from fake OMP smoke"}}"#,
    ] {
        match connection.dispatch_line(&id, line) {
            Some(OmpAction::Update(SessionUpdate::AgentMessageChunk(chunk))) => {
                shown.push_str(&chunk)
            }
            other => panic!("unexpected {:?}", other),
        }
    }
    assert!(shown.contains("Hello from fake OMP smoke"));
    assert_eq!(
        connection.dispatch_line(&id, r#"{"type":"agent_end"}"#),
        Some(OmpAction::EndPrompt(StopReason::EndTurn))
    );

    // A denied tool call stays visible, and its turn ends.
    connection.prompt(&id, &text("fan out")).expect("sent");
    let mut calls = Vec::new();
    for line in [
        r#"{"type":"message_update","assistantMessageEvent":{"type":"toolcall_end","toolCall":{"id":"tool-1","name":"task","arguments":{"_i":"fan out"}}}}"#,
        r#"{"type":"message_end","message":{"role":"toolResult","id":"tool-1","toolName":"task","isError":true,"content":[{"type":"text","text":"Tool call denied by user: task"}]}}"#,
    ] {
        match connection.dispatch_line(&id, line) {
            Some(OmpAction::Update(SessionUpdate::ToolCall(call))) => calls.push(call),
            other => panic!("unexpected {:?}", other),
        }
    }
    assert_eq!(calls[0].id, calls[1].id);
    assert_eq!(calls[1].content, vec!["Tool call denied by user: task".to_string()]);
    assert!(matches!(calls[1].status, ToolCallStatus::Failed));
    assert_eq!(
        connection.dispatch_line(&id, r#"{"type":"agent_end"}"#),
        Some(OmpAction::EndPrompt(StopReason::EndTurn))
    );
}

#[test]
fn omp_no_tool_prompt_streams_text_and_ends_idle() {
    let (mut connection, id, frame) = started("/workspace");
    assert_eq!(print_json(frame.json()), r#"{"type":"get_state","id":"req_0"}"#);
    match connection.dispatch_line(&id, FAKE_STATE) {
        Some(OmpAction::AnswerRequest(request, Ok(state))) => {
            assert_eq!(request, "req_0");
            let title = apply_state_update(&state).expect("a title").title;
            assert!(title.contains("Fake OMP"));
            assert!(title.contains(".jsonl"));
        }
        other => panic!("unexpected {:?}", other),
    }
    let sent = connection.prompt(&id, &text("hello")).expect("sent");
    assert_eq!(
        sent.line(),
        "{\"type\":\"prompt\",\"id\":\"req_1\",\"message\":\"hello\"}\n"
    );
    let mut shown = String::new();
    for line in [
        r#"{"type":"response","id":"req_1","success":true,"data":null}"#,
        r#"{"type":"message_update","assistantMessageEvent":{"type":"text_delta","delta":"Hello "}}"#,
        r#"{"type":"message_update","assistantMessageEvent":{"type":"text_delta","delta":"from fake OMP"}}"#,
    ] {
        if let Some(OmpAction::Update(SessionUpdate::AgentMessageChunk(chunk))) =
            connection.dispatch_line(&id, line)
        {
            shown.push_str(&chunk);
        }
    }
    assert!(shown.contains("Hello from fake OMP"));
    assert_eq!(
        connection.dispatch_line(&id, r#"{"type":"agent_end"}"#),
        Some(OmpAction::EndPrompt(StopReason::EndTurn))
    );
}

#[test]
fn omp_response_required_ui_request_fails_closed_without_hanging() {
    let (mut connection, id, _) = started("/workspace");
    connection.prompt(&id, &text("needs approval")).expect("sent");
    let seen_response = match connection.dispatch_line(
        &id,
        r#"{"type":"extension_ui_request","id":"ui-1","method":"confirm","message":"Allow?"}"#,
    ) {
        Some(OmpAction::Send(frame)) => frame.line(),
        other => panic!("unexpected {:?}", other),
    };
    assert!(seen_response.contains("\"type\":\"extension_ui_response\""));
    assert!(seen_response.contains("\"confirmed\":false"));
    assert_eq!(
        connection.dispatch_line(&id, r#"{"type":"turn_end"}"#),
        Some(OmpAction::EndPrompt(StopReason::EndTurn))
    );
}

#[test]
fn omp_tool_denial_waits_for_final_turn_and_surfaces_tool_result() {
    let (mut connection, id, _) = started("/workspace");
    connection.prompt(&id, &text("fan out")).expect("sent");
    let announced = connection.dispatch_line(
        &id,
        r#"{"type":"message_update","assistantMessageEvent":{"type":"toolcall_end","toolCall":{"id":"tool-1","name":"task","arguments":{"_i":"fan out"}}}}"#,
    );
    assert!(matches!(announced, Some(OmpAction::Update(SessionUpdate::ToolCall(_)))));
    assert_eq!(
        connection.dispatch_line(&id, r#"{"type":"turn_end","message":{"stopReason":"toolUse"}}"#),
        None
    );
    match connection.dispatch_line(
        &id,
        r#"{"type":"message_end","message":{"role":"toolResult","id":"tool-1","toolName":"task","isError":true,"content":[{"type":"text","text":"Tool call denied by user: task"}]}}"#,
    ) {
        Some(OmpAction::Update(SessionUpdate::ToolCall(call))) => {
            assert_eq!(call.content, vec!["Tool call denied by user: task".to_string()]);
            assert!(matches!(call.status, ToolCallStatus::Failed));
        }
        other => panic!("unexpected {:?}", other),
    }
    assert_eq!(
        connection.dispatch_line(
            &id,
            r#"{"type":"message_update","assistantMessageEvent":{"type":"text_delta","delta":"Denied again"}}"#
        ),
        Some(OmpAction::Update(SessionUpdate::AgentMessageChunk("Denied again".to_string())))
    );
    assert_eq!(
        connection.dispatch_line(&id, r#"{"type":"turn_end","message":{"stopReason":"endTurn"}}"#),
        Some(OmpAction::EndPrompt(StopReason::EndTurn))
    );
}

#[test]
fn omp_failed_prompt_response_does_not_hang() {
    let (mut connection, id, _) = started("/workspace");
    connection.prompt(&id, &text("reject")).expect("sent");
    let action = connection.dispatch_line(
        &id,
        r#"{"type":"response","id":"req_1","success":false,"error":"prompt rejected"}"#,
    );
    let error = match action {
        Some(OmpAction::FailPrompt(error)) => prompt_response(Some(Err(error))),
        other => panic!("unexpected {:?}", other),
    }
    .expect_err("failed OMP prompt response should reject the turn");
    assert!(error.contains("prompt rejected"));
}

#[test]
fn omp_prompt_after_child_exit_errors_without_hanging() {
    let (mut connection, id, _) = started("/workspace");
    let exit = connection.mark_child_exited(&id).expect("a session");
    assert!(exit.reap);
    let error = connection
        .prompt(&id, &text("after exit"))
        .expect_err("prompt after OMP child exit should fail immediately");
    assert_eq!(error, ConnectionError::Prompt(PromptError::NotSent(SendError::ChildExited)));
    assert!(error.message().contains("OMP child exited"));
}

#[test]
fn omp_cancel_and_close_do_not_leave_fake_child_alive() {
    let (mut connection, id, _) = started("/workspace");
    assert_eq!(id, "omp-0");
    connection.prompt(&id, &text("wait")).expect("sent");
    let cancel = connection.cancel(&id).expect("a session");
    assert_eq!(
        cancel.abort.map(|frame| print_json(frame.json())).as_deref(),
        Some(r#"{"type":"abort","id":"req_2"}"#)
    );
    assert_eq!(cancel.prompt, Some(StopReason::Cancelled));
    let close = connection.close_session(&id).expect("a session");
    assert_eq!(close.prompt, None);
    assert_eq!(
        close.rejected,
        vec![("req_0".to_string(), "OMP session closed".to_string())]
    );
    assert!(close.kill);
    assert!(connection.close_session(&id).is_none());
    assert_eq!(connection.cancel(&id), None);
    assert_eq!(
        connection.prompt(&id, &text("late")),
        Err(ConnectionError::SessionNotFound)
    );
    assert_eq!(ConnectionError::SessionNotFound.message(), "OMP session not found");
}

#[test]
fn omp_new_session_passes_selected_workspace_cwd_to_omp() {
    let mut connection = OmpAgentConnection::new(command());
    let start = launched(&mut connection, "/workspace");
    assert_eq!(start.launch.program, PathBuf::from("/fake/omp.sh"));
    let args = arguments(&start);
    assert!(args.contains(&"--cwd".to_string()));
    assert_eq!(
        args,
        vec![
            "--quiet", "--mode", "rpc-ui", "--cwd", "/workspace", "--approval-mode", "always-ask"
        ]
    );
    assert_eq!(start.launch.current_dir, PathBuf::from("/workspace"));
    assert_eq!(
        start.launch.search_path,
        vec![
            PathBuf::from("/usr/bin"),
            PathBuf::from("/opt/homebrew/bin"),
            PathBuf::from("/usr/local/bin"),
        ]
    );
    assert_eq!(start.launch.stdin, TaskStream::Piped);
    assert_eq!(OmpAgentServer.logo(), IconName::Terminal);
}

#[test]
fn omp_new_sessions_bind_each_selected_workspace_cwd() {
    let mut connection = OmpAgentConnection::new(command());
    let a = launched(&mut connection, "/a");
    let b = launched(&mut connection, "/b");
    assert_eq!(a.launch.current_dir, PathBuf::from("/a"));
    assert_eq!(b.launch.current_dir, PathBuf::from("/b"));
    assert_ne!(a.session_id, b.session_id);
}

#[test]
fn a_session_needs_a_workspace() {
    let mut connection = OmpAgentConnection::new(command());
    let error = connection.new_session(&Vec::new(), Vec::new(), None).expect_err("no workspace");
    assert_eq!(error.message(), "OMP agent requires a workspace directory");
    // The id is spent all the same.
    assert!(connection.can_issue_id());
    assert_eq!(launched(&mut connection, "/a").session_id, "omp-1");
}

#[test]
fn sessions_do_not_disturb_each_other() {
    let (mut connection, first, _) = started("/a");
    let (second, frame) = another(&mut connection, "/b");
    assert_eq!(print_json(frame.json()), r#"{"type":"get_state","id":"req_0"}"#);
    connection.prompt(&first, &text("one")).expect("sent");
    connection.prompt(&second, &text("two")).expect("sent");
    connection.mark_child_exited(&first).expect("a session");
    assert_eq!(
        connection.dispatch_line(&second, r#"{"type":"agent_end"}"#),
        Some(OmpAction::EndPrompt(StopReason::EndTurn))
    );
    connection.close_session(&first).expect("a session");
    assert!(connection.can_issue_request_id(&second));
    connection.prompt(&second, &text("three")).expect("sent");
}

#[test]
fn a_new_session_displaces_none() {
    let (mut connection, first, _) = started("/a");
    connection.prompt(&first, &text("one")).expect("sent");
    // Ids that were given out for nothing, or for a session that is gone, do not
    // come back.
    launched(&mut connection, "/b");
    let (gone, _) = another(&mut connection, "/c");
    connection.close_session(&gone).expect("a session");
    let (last, _) = another(&mut connection, "/d");
    assert_eq!((first.as_str(), gone.as_str(), last.as_str()), ("omp-0", "omp-2", "omp-3"));
    assert_eq!(
        connection.dispatch_line(&first, r#"{"type":"agent_end"}"#),
        Some(OmpAction::EndPrompt(StopReason::EndTurn))
    );
    connection.prompt(&last, &text("two")).expect("sent");
}

#[test]
fn a_broken_pipe_refuses_prompts() {
    let (mut connection, id, _) = started("/a");
    connection.mark_stdin_closed(&id);
    assert_eq!(
        connection.prompt(&id, &text("one")),
        Err(ConnectionError::Prompt(PromptError::NotSent(SendError::StdinClosed)))
    );
    let cancel = connection.cancel(&id).expect("a session");
    assert_eq!(cancel.abort, None);
    connection.mark_stdin_closed("omp-7");
    assert_eq!(connection.dispatch_line("omp-7", r#"{"type":"agent_end"}"#), None);
    assert!(connection.mark_child_exited("omp-7").is_none());
}

#[test]
fn answers_that_never_come_are_errors() {
    assert_eq!(prompt_response(Some(Ok(StopReason::EndTurn))), Ok(StopReason::EndTurn));
    assert_eq!(prompt_response(None), Err("OMP prompt response dropped".to_string()));
}
