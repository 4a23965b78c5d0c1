use omp::json::{parse_json, print_json, Json};
use omp::protocol::{SessionUpdate, StopReason};
use omp::session::{OmpAction, OmpSessionState, PromptError, SendError};

fn parsed(text: &str) -> Json {
    parse_json(text).expect("valid JSON")
}

#[test]
fn prompts_are_sent_as_lines() {
    let mut state = OmpSessionState::new();
    let frame = state.prompt("two\nlines").expect("sent");
    assert_eq!(
        frame.line(),
        "{\"type\":\"prompt\",\"id\":\"req_0\",\"message\":\"two\\nlines\"}\n"
    );
    assert!(state.has_pending_prompt());
    assert_eq!(state.prompt("again"), Err(PromptError::AlreadyInProgress));
    assert_eq!(
        PromptError::AlreadyInProgress.message(),
        "OMP prompt already in progress"
    );
}

#[test]
fn request_ids_count_up() {
    let mut state = OmpSessionState::new();
    assert!(state.can_issue_id());
    let first = state.request_state_update().expect("sent");
    assert_eq!(print_json(first.json()), r#"{"type":"get_state","id":"req_0"}"#);
    let abort = state.send_abort().expect("sent");
    assert_eq!(print_json(abort.json()), r#"{"type":"abort","id":"req_1"}"#);
    let second = state
        .send_request("ping", parsed(r#"{"id":"x","type":"ping"}"#))
        .expect("sent");
    assert_eq!(print_json(second.json()), r#"{"id":"req_2","type":"ping"}"#);
}

#[test]
fn responses_answer_their_request_once() {
    let mut state = OmpSessionState::new();
    state.request_state_update().expect("sent");
    let line = r#"{"type":"response","id":"req_0","success":true,"data":{"a":1}}"#;
    assert_eq!(
        state.dispatch_line(line),
        Some(OmpAction::AnswerRequest("req_0".to_string(), Ok(parsed(r#"{"a":1}"#))))
    );
    assert_eq!(state.dispatch_line(line), None);
}

#[test]
fn responses_without_data_answer_null() {
    let mut state = OmpSessionState::new();
    state.request_state_update().expect("sent");
    assert_eq!(
        state.dispatch_line(r#"{"type":"response","id":"req_0"}"#),
        Some(OmpAction::AnswerRequest("req_0".to_string(), Ok(Json::Null)))
    );
}

#[test]
fn failed_requests_tell_why() {
    let mut state = OmpSessionState::new();
    state.request_state_update().expect("sent");
    assert_eq!(
        state.dispatch_line(r#"{"type":"response","id":"req_0","success":false}"#),
        Some(OmpAction::AnswerRequest(
            "req_0".to_string(),
            Err("OMP request failed".to_string())
        ))
    );
}

#[test]
fn lines_that_mean_nothing_are_dropped() {
    let mut state = OmpSessionState::new();
    state.prompt("hello").expect("sent");
    for line in [
        "not json",
        "{}",
        r#"{"type":7}"#,
        r#"{"type":"unknown"}"#,
        r#"{"type":"response"}"#,
        r#"{"type":"response","id":"req_9","success":false}"#,
        r#"{"type":"response","id":"req_0","success":true}"#,
    ] {
        assert_eq!(state.dispatch_line(line), None);
    }
    assert!(state.has_pending_prompt());
}

#[test]
fn the_end_of_a_turn_answers_the_prompt_once() {
    let mut state = OmpSessionState::new();
    state.prompt("hello").expect("sent");
    assert_eq!(
        state.dispatch_line(r#"{"type":"turn_end","message":{"stopReason":"toolUse"}}"#),
        None
    );
    assert!(state.has_pending_prompt());
    assert_eq!(
        state.dispatch_line(r#"{"type":"turn_end","message":{"stopReason":"aborted"}}"#),
        Some(OmpAction::EndPrompt(StopReason::Cancelled))
    );
    assert_eq!(state.dispatch_line(r#"{"type":"agent_end"}"#), None);
    state.prompt("again").expect("sent");
    assert_eq!(
        state.dispatch_line(r#"{"type":"turn_end"}"#),
        Some(OmpAction::EndPrompt(StopReason::EndTurn))
    );
}

#[test]
fn interface_requests_are_denied() {
    let mut state = OmpSessionState::new();
    let mut deny = |method: &str| {
        let line = format!(
            "{{\"type\":\"extension_ui_request\",\"id\":\"ui-1\",\"method\":\"{}\"}}",
            method
        );
        match state.dispatch_line(&line) {
            Some(OmpAction::Send(frame)) => Some(print_json(frame.json())),
            None => None,
            other => panic!("unexpected {:?}", other),
        }
    };
    assert_eq!(
        deny("confirm").as_deref(),
        Some(r#"{"type":"extension_ui_response","id":"ui-1","confirmed":false}"#)
    );
    for method in ["select", "input", "editor", "cancel"] {
        assert_eq!(
            deny(method).as_deref(),
            Some(r#"{"type":"extension_ui_response","id":"ui-1","cancelled":true}"#)
        );
    }
    assert_eq!(deny("notify"), None);
    assert_eq!(
        state.dispatch_line(r#"{"type":"extension_ui_request","method":"confirm"}"#),
        None
    );
    assert_eq!(state.dispatch_line(r#"{"type":"extension_ui_request","id":"ui-1"}"#), None);
}

#[test]
fn updates_reach_the_thread() {
    let mut state = OmpSessionState::new();
    let line = r#"{"type":"message_update","assistantMessageEvent":{"type":"text_delta","delta":"x"}}"#;
    assert_eq!(
        state.dispatch_line(line),
        Some(OmpAction::Update(SessionUpdate::AgentMessageChunk("x".to_string())))
    );
}

#[test]
fn the_exit_of_the_child_settles_everything() {
    let mut state = OmpSessionState::new();
    state.request_state_update().expect("sent");
    state.prompt("hello").expect("sent");
    let exit = state.mark_child_exited();
    assert_eq!(exit.prompt, Some(StopReason::Cancelled));
    assert_eq!(
        exit.rejected,
        vec![("req_0".to_string(), "OMP child exited".to_string())]
    );
    assert!(exit.reap);
    assert_eq!(
        state.prompt("late"),
        Err(PromptError::NotSent(SendError::ChildExited))
    );
    assert!(!state.has_pending_prompt());
    assert_eq!(state.send_abort(), None);
    assert_eq!(state.request_state_update(), None);
    assert_eq!(
        state.dispatch_line(
            r#"{"type":"extension_ui_request","id":"ui-1","method":"confirm"}"#
        ),
        None
    );
    let again = state.mark_child_exited();
    assert_eq!(again.prompt, None);
    assert!(again.rejected.is_empty());
    assert!(!again.reap);
    assert!(!state.kill());
}

#[test]
fn a_closed_input_refuses_frames() {
    let mut state = OmpSessionState::new();
    state.mark_stdin_closed();
    assert_eq!(
        state.prompt("hello"),
        Err(PromptError::NotSent(SendError::StdinClosed))
    );
    assert_eq!(
        PromptError::NotSent(SendError::StdinClosed).message(),
        "OMP child stdin is closed"
    );
    let error = state
        .send_request("get_state", Json::Null)
        .expect_err("not sent");
    assert_eq!(
        error.message(),
        "failed to send OMP get_state request: OMP child stdin is closed"
    );
    assert!(state.kill());
    assert!(!state.kill());
}

#[test]
fn cancelling_answers_the_prompt() {
    let mut state = OmpSessionState::new();
    assert_eq!(state.cancel_active_turn(), None);
    state.prompt("hello").expect("sent");
    assert_eq!(state.cancel_active_turn(), Some(StopReason::Cancelled));
    assert_eq!(state.complete_prompt(StopReason::EndTurn), None);
    state.request_state_update().expect("sent");
    assert_eq!(
        state.reject_pending_requests("OMP session closed"),
        vec![("req_1".to_string(), "OMP session closed".to_string())]
    );
    assert!(state.reject_pending_requests("OMP session closed").is_empty());
}
