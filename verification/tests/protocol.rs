use omp::json::{parse_json, Json};
use omp::protocol::{
    apply_state_update, handle_message_end, handle_message_update, handle_tool_execution_end,
    handle_tool_execution_start, omp_session_meta, prompt_text, response_error, tool_kind,
    tool_result_content, tool_title, ContentBlock, SessionUpdate, ToolCall, ToolCallStatus,
    ToolKind, OMP_AGENT_ID,
};

fn parsed(text: &str) -> Json {
    parse_json(text).expect("valid JSON")
}

fn tool_call(update: Option<SessionUpdate>) -> ToolCall {
    match update {
        Some(SessionUpdate::ToolCall(call)) => call,
        other => panic!("expected a tool call, got {:?}", other),
    }
}

#[test]
fn the_agent_id_is_stable() {
    assert_eq!(OMP_AGENT_ID, "omp");
}

#[test]
fn tools_have_kinds() {
    assert_eq!(tool_kind("read"), ToolKind::Read);
    for name in ["edit", "write", "ast_edit"] {
        assert_eq!(tool_kind(name), ToolKind::Edit);
    }
    for name in ["find", "search", "ast_grep", "web_search"] {
        assert_eq!(tool_kind(name), ToolKind::Search);
    }
    for name in ["bash", "debug", "eval", "job", "task"] {
        assert_eq!(tool_kind(name), ToolKind::Execute);
    }
    assert_eq!(tool_kind("Read"), ToolKind::Other);
    assert_eq!(tool_kind(""), ToolKind::Other);
}

#[test]
fn titles_tell_the_intent() {
    let arguments = parsed(r#"{"_i":"fan out"}"#);
    assert_eq!(tool_title("task", &arguments, None), "task: fan out");
    assert_eq!(tool_title("task", &arguments, Some("")), "task: fan out");
    assert_eq!(tool_title("task", &arguments, Some("look")), "task: look");
    assert_eq!(tool_title("task", &Json::Null, None), "task");
    assert_eq!(tool_title("task", &parsed(r#"{"_i":""}"#), None), "task");
    assert_eq!(tool_title("task", &parsed(r#"{"_i":3}"#), None), "task");
}

#[test]
fn prompts_hold_their_texts() {
    let prompt = vec![
        ContentBlock::Text("one ".to_string()),
        ContentBlock::Other,
        ContentBlock::Text("two".to_string()),
    ];
    assert_eq!(prompt_text(&prompt), "one two");
    assert_eq!(prompt_text(&Vec::new()), "");
}

#[test]
fn results_show_their_text_blocks() {
    let frame = parsed(
        r#"{"content":[{"type":"text","text":"a"},{"type":"image","text":"no"},
            {"type":"text","text":""},{"type":"text","text":"b"}]}"#,
    );
    assert_eq!(tool_result_content(&frame), vec!["a\nb".to_string()]);
    let nested = parsed(r#"{"result":{"content":[{"type":"text","text":"n"}]}}"#);
    assert_eq!(tool_result_content(&nested), vec!["n".to_string()]);
    // The outer content is taken even where it is no list.
    let shadowed =
        parsed(r#"{"content":"x","result":{"content":[{"type":"text","text":"n"}]}}"#);
    assert!(tool_result_content(&shadowed).is_empty());
    assert!(tool_result_content(&parsed(r#"{"content":[]}"#)).is_empty());
    assert!(tool_result_content(&Json::Null).is_empty());
}

#[test]
fn deltas_become_chunks() {
    let text = parsed(r#"{"assistantMessageEvent":{"type":"text_delta","delta":"Hello "}}"#);
    assert_eq!(
        handle_message_update(&text),
        Some(SessionUpdate::AgentMessageChunk("Hello ".to_string()))
    );
    let thought = parsed(r#"{"assistantMessageEvent":{"type":"thinking_delta","delta":"hm"}}"#);
    assert_eq!(
        handle_message_update(&thought),
        Some(SessionUpdate::AgentThoughtChunk("hm".to_string()))
    );
    for silent in [
        r#"{"assistantMessageEvent":{"type":"text_delta","delta":""}}"#,
        r#"{"assistantMessageEvent":{"type":"text_delta"}}"#,
        r#"{"assistantMessageEvent":{"type":"other","delta":"x"}}"#,
        r#"{"assistantMessageEvent":{"delta":"x"}}"#,
        r#"{}"#,
    ] {
        assert_eq!(handle_message_update(&parsed(silent)), None);
    }
}

#[test]
fn stream_errors_are_shown() {
    let first = parsed(
        r#"{"assistantMessageEvent":{"type":"error","error":{"errorMessage":"E","message":"M"}}}"#,
    );
    assert_eq!(
        handle_message_update(&first),
        Some(SessionUpdate::AgentMessageChunk("E".to_string()))
    );
    let second =
        parsed(r#"{"assistantMessageEvent":{"type":"error","error":{"message":"M"}}}"#);
    assert_eq!(
        handle_message_update(&second),
        Some(SessionUpdate::AgentMessageChunk("M".to_string()))
    );
    let empty = parsed(
        r#"{"assistantMessageEvent":{"type":"error","error":{"errorMessage":"","message":"M"}}}"#,
    );
    assert_eq!(handle_message_update(&empty), None);
}

#[test]
fn an_announced_call_is_pending() {
    let frame = parsed(
        r#"{"assistantMessageEvent":{"type":"toolcall_end","toolCall":
            {"id":"tool-1","name":"task","arguments":{"_i":"fan out"}}}}"#,
    );
    let call = tool_call(handle_message_update(&frame));
    assert_eq!(call.id, "tool-1");
    assert_eq!(call.title, "task: fan out");
    assert_eq!(call.kind, ToolKind::Execute);
    assert_eq!(call.status, ToolCallStatus::Pending);
    assert_eq!(call.tool_name, "task");
    assert!(call.content.is_empty());
    assert_eq!(call.raw_input, Some(parsed(r#"{"_i":"fan out"}"#)));
    assert_eq!(call.raw_output, None);
}

#[test]
fn a_call_without_id_or_name_is_dropped() {
    for text in [r#"{"name":"task"}"#, r#"{"id":"a"}"#, r#"{"id":1,"name":"task"}"#] {
        assert_eq!(handle_tool_execution_start(&parsed(text)), None);
    }
}

#[test]
fn running_calls_carry_their_progress() {
    let start = parsed(r#"{"toolCallId":"t","toolName":"bash","args":{"cmd":"ls"},"intent":"list"}"#);
    let call = tool_call(handle_tool_execution_start(&start));
    assert_eq!(call.id, "t");
    assert_eq!(call.title, "bash: list");
    assert_eq!(call.status, ToolCallStatus::InProgress);
    assert_eq!(call.raw_input, Some(parsed(r#"{"cmd":"ls"}"#)));

    let end = parsed(
        r#"{"toolCallId":"t","toolName":"bash","isError":true,
            "result":{"content":[{"type":"text","text":"no such file"}]}}"#,
    );
    let call = tool_call(handle_tool_execution_end(&end));
    assert_eq!(call.status, ToolCallStatus::Failed);
    assert_eq!(call.content, vec!["no such file".to_string()]);
    assert_eq!(
        call.raw_output,
        Some(parsed(r#"{"content":[{"type":"text","text":"no such file"}]}"#))
    );

    let plain = parsed(r#"{"id":"t","name":"read"}"#);
    let call = tool_call(handle_tool_execution_end(&plain));
    assert_eq!(call.status, ToolCallStatus::Completed);
    assert_eq!(call.raw_input, None);
    assert_eq!(call.raw_output, Some(plain));
}

#[test]
fn finished_messages_show_results_and_errors() {
    let result = parsed(
        r#"{"message":{"role":"toolResult","id":"tool-1","toolName":"task","isError":true,
            "content":[{"type":"text","text":"Tool call denied by user: task"}]}}"#,
    );
    let call = tool_call(handle_message_end(&result));
    assert_eq!(call.status, ToolCallStatus::Failed);
    assert_eq!(call.content, vec!["Tool call denied by user: task".to_string()]);
    let error = parsed(r#"{"message":{"role":"assistant","errorMessage":"quota"}}"#);
    assert_eq!(
        handle_message_end(&error),
        Some(SessionUpdate::AgentMessageChunk("quota".to_string()))
    );
    for silent in [
        r#"{"message":{"role":"assistant","errorMessage":""}}"#,
        r#"{"message":{"role":"user","errorMessage":"x"}}"#,
        r#"{"message":{}}"#,
        r#"{}"#,
    ] {
        assert_eq!(handle_message_end(&parsed(silent)), None);
    }
}

#[test]
fn session_titles_name_the_trace() {
    let both = apply_state_update(&parsed(
        r#"{"sessionId":"s","sessionName":"Name","sessionFile":"/t.jsonl"}"#,
    ))
    .expect("a title");
    assert_eq!(both.title, "Name · /t.jsonl");
    assert_eq!(
        both.meta,
        vec![
            ("omp_session_id".to_string(), "s".to_string()),
            ("omp_session_file".to_string(), "/t.jsonl".to_string()),
        ]
    );
    let file = apply_state_update(&parsed(r#"{"sessionFile":"/t.jsonl"}"#)).expect("a title");
    assert_eq!(file.title, "OMP · /t.jsonl");
    let name = apply_state_update(&parsed(r#"{"sessionName":"Name","sessionFile":""}"#))
        .expect("a title");
    assert_eq!(name.title, "Name");
    assert!(name.meta.is_empty());
    assert!(apply_state_update(&parsed(r#"{"sessionId":"s","sessionName":""}"#)).is_none());
    assert!(omp_session_meta(None, None).is_empty());
}

#[test]
fn failed_responses_tell_why() {
    assert_eq!(response_error(&parsed(r#"{"error":"prompt rejected"}"#)), "prompt rejected");
    assert_eq!(response_error(&parsed(r#"{"error":7}"#)), "OMP request failed");
    assert_eq!(response_error(&Json::Null), "OMP request failed");
}
