//! What the frames of an OMP child mean for the thread that shows its session.
use vstd::prelude::*;

use crate::json::{Json, JsonView};
use crate::text::concatenated;
use crate::text::joined;

verus! {

/// The id under which the OMP agent is registered.
pub const OMP_AGENT_ID: &'static str = "omp";

/// Why a turn ended.
#[derive(Clone, Copy, Debug, PartialEq, Eq, Structural)]
pub enum StopReason {
    EndTurn,
    Cancelled,
}

/// What a tool does, for its icon.
#[derive(Clone, Copy, Debug, PartialEq, Eq, Structural)]
pub enum ToolKind {
    Read,
    Edit,
    Search,
    Execute,
    Other,
}

/// How far a tool call has come.
#[derive(Clone, Copy, Debug, PartialEq, Eq, Structural)]
pub enum ToolCallStatus {
    Pending,
    InProgress,
    Completed,
    Failed,
}

/// A tool call as the thread shows it.
#[derive(Debug, PartialEq)]
pub struct ToolCall {
    pub id: String,
    pub title: String,
    pub kind: ToolKind,
    pub status: ToolCallStatus,
    /// The tool's own name, kept in the call's metadata.
    pub tool_name: String,
    /// The text blocks of the result.
    pub content: Vec<String>,
    pub raw_input: Option<Json>,
    pub raw_output: Option<Json>,
}

/// What a [`ToolCall`] stands for.
#[verifier::ext_equal]
pub struct ToolCallView {
    pub id: Seq<char>,
    pub title: Seq<char>,
    pub kind: ToolKind,
    pub status: ToolCallStatus,
    pub tool_name: Seq<char>,
    pub content: Seq<Seq<char>>,
    pub raw_input: Option<JsonView>,
    pub raw_output: Option<JsonView>,
}

/// An optional value as what it stands for.
pub open spec fn optional_json(value: Option<Json>) -> Option<JsonView> {
    match value {
        Some(value) => Some(value@),
        None => None,
    }
}

impl View for ToolCall {
    type V = ToolCallView;

    open spec fn view(&self) -> ToolCallView {
        ToolCallView {
            id: self.id@,
            title: self.title@,
            kind: self.kind,
            status: self.status,
            tool_name: self.tool_name@,
            content: self.content.deep_view(),
            raw_input: optional_json(self.raw_input),
            raw_output: optional_json(self.raw_output),
        }
    }
}

/// Title and metadata of a session.
#[derive(Debug, PartialEq, Eq)]
pub struct SessionInfo {
    pub title: String,
    pub meta: Vec<(String, String)>,
}

/// What a [`SessionInfo`] stands for.
#[verifier::ext_equal]
pub struct SessionInfoView {
    pub title: Seq<char>,
    pub meta: Seq<(Seq<char>, Seq<char>)>,
}

impl View for SessionInfo {
    type V = SessionInfoView;

    open spec fn view(&self) -> SessionInfoView {
        SessionInfoView { title: self.title@, meta: self.meta.deep_view() }
    }
}

/// One change to the thread.
#[derive(Debug, PartialEq)]
pub enum SessionUpdate {
    AgentMessageChunk(String),
    AgentThoughtChunk(String),
    ToolCall(ToolCall),
}

/// What a [`SessionUpdate`] stands for.
#[verifier::ext_equal]
pub enum SessionUpdateView {
    AgentMessageChunk(Seq<char>),
    AgentThoughtChunk(Seq<char>),
    ToolCall(ToolCallView),
}

impl View for SessionUpdate {
    type V = SessionUpdateView;

    open spec fn view(&self) -> SessionUpdateView {
        match self {
            SessionUpdate::AgentMessageChunk(text) => SessionUpdateView::AgentMessageChunk(text@),
            SessionUpdate::AgentThoughtChunk(text) => SessionUpdateView::AgentThoughtChunk(text@),
            SessionUpdate::ToolCall(call) => SessionUpdateView::ToolCall(call@),
        }
    }
}

/// An optional update as what it stands for.
pub open spec fn optional_update(update: Option<SessionUpdate>) -> Option<SessionUpdateView> {
    match update {
        Some(update) => Some(update@),
        None => None,
    }
}

// ---------------------------------------------------------------------------
// Tools
// ---------------------------------------------------------------------------

/// The kind of the tool with a given name.
pub open spec fn kind_of_tool(name: Seq<char>) -> ToolKind {
    if name == "read"@ {
        ToolKind::Read
    } else if name == "edit"@ || name == "write"@ || name == "ast_edit"@ {
        ToolKind::Edit
    } else if name == "find"@ || name == "search"@ || name == "ast_grep"@ || name == "web_search"@ {
        ToolKind::Search
    } else if name == "bash"@ || name == "debug"@ || name == "eval"@ || name == "job"@ || name
        == "task"@ {
        ToolKind::Execute
    } else {
        ToolKind::Other
    }
}

/// The kind of the tool named `name`.
pub fn tool_kind(name: &str) -> (kind: ToolKind)
    ensures
        kind == kind_of_tool(name@),
{
    if name.eq("read") {
        ToolKind::Read
    } else if name.eq("edit") || name.eq("write") || name.eq("ast_edit") {
        ToolKind::Edit
    } else if name.eq("find") || name.eq("search") || name.eq("ast_grep") || name.eq("web_search") {
        ToolKind::Search
    } else if name.eq("bash") || name.eq("debug") || name.eq("eval") || name.eq("job") || name.eq(
        "task",
    ) {
        ToolKind::Execute
    } else {
        ToolKind::Other
    }
}

/// What a call is for: the given intent, or the argument `_i` where none is
/// given. An empty text says nothing.
pub open spec fn intent_of(arguments: JsonView, intent: Option<Seq<char>>) -> Option<Seq<char>> {
    match intent {
        Some(text) => if text.len() > 0 {
            Some(text)
        } else {
            arguments.filled_text_field("_i"@)
        },
        None => arguments.filled_text_field("_i"@),
    }
}

/// The title of a call: the tool's name, and what the call is for where that is
/// known.
pub open spec fn title_of_call(
    name: Seq<char>,
    arguments: JsonView,
    intent: Option<Seq<char>>,
) -> Seq<char> {
    match intent_of(arguments, intent) {
        Some(intent) => name + ": "@ + intent,
        None => name,
    }
}

/// The title of a call of the tool `name`.
pub fn tool_title(name: &str, arguments: &Json, intent: Option<&str>) -> (title: String)
    ensures
        title@ == title_of_call(name@, arguments@, intent.deep_view()),
{
    let given = match intent {
        Some(text) => if text.is_empty() {
            arguments.filled_text_field("_i")
        } else {
            Some(text)
        },
        None => arguments.filled_text_field("_i"),
    };
    match given {
        Some(intent) => {
            let mut title = name.to_owned();
            title.append(": ");
            title.append(intent);
            title
        },
        None => name.to_owned(),
    }
}

/// The blocks of a tool result: the field `content`, or that of `result` where
/// the frame has none.
pub open spec fn result_blocks(frame: JsonView) -> Option<Seq<JsonView>> {
    match frame.get("content"@) {
        Some(content) => content.items(),
        None => match frame.get("result"@) {
            Some(result) => match result.get("content"@) {
                Some(content) => content.items(),
                None => None,
            },
            None => None,
        },
    }
}

/// The text of a text block, where there is any.
pub open spec fn block_text(block: JsonView) -> Option<Seq<char>> {
    if block.text_field("type"@) == Some("text"@) {
        block.filled_text_field("text"@)
    } else {
        None
    }
}

/// The texts of the text blocks, in order.
pub open spec fn block_texts(blocks: Seq<JsonView>) -> Seq<Seq<char>>
    decreases blocks.len(),
{
    if blocks.len() == 0 {
        Seq::empty()
    } else {
        let before = block_texts(blocks.drop_last());
        match block_text(blocks.last()) {
            Some(text) => before.push(text),
            None => before,
        }
    }
}

/// What the thread shows of a tool result: one text with a line break between
/// the blocks, or nothing where there is no text.
pub open spec fn result_content(frame: JsonView) -> Seq<Seq<char>> {
    match result_blocks(frame) {
        Some(blocks) => if block_texts(blocks).len() == 0 {
            Seq::empty()
        } else {
            seq![joined(block_texts(blocks), "\n"@)]
        },
        None => Seq::empty(),
    }
}

/// The blocks of a tool result.
fn blocks_of_result(frame: &Json) -> (blocks: Option<&Vec<Json>>)
    ensures
        blocks is Some == result_blocks(frame@) is Some,
        blocks is Some ==> result_blocks(frame@)->0 == Json::Array(*blocks->0)@->Array_0,
{
    let content = match frame.get("content") {
        Some(content) => Some(content),
        None => match frame.get("result") {
            Some(result) => result.get("content"),
            None => None,
        },
    };
    match content {
        Some(Json::Array(blocks)) => Some(blocks),
        _ => None,
    }
}

proof fn block_texts_are_filled(blocks: Seq<JsonView>)
    ensures
        forall|i: int|
            0 <= i < block_texts(blocks).len() ==> (#[trigger] block_texts(blocks)[i]).len() > 0,
    decreases blocks.len(),
{
    if blocks.len() > 0 {
        block_texts_are_filled(blocks.drop_last());
        let before = block_texts(blocks.drop_last());
        assert forall|i: int| 0 <= i < block_texts(blocks).len() implies (
        #[trigger] block_texts(blocks)[i]).len() > 0 by {
            if i < before.len() {
                assert(block_texts(blocks)[i] == before[i]);
            }
        }
    }
}

proof fn joined_is_filled(parts: Seq<Seq<char>>, separator: Seq<char>)
    requires
        forall|i: int| 0 <= i < parts.len() ==> (#[trigger] parts[i]).len() > 0,
    ensures
        (joined(parts, separator).len() == 0) == (parts.len() == 0),
{
    if parts.len() > 1 {
        assert(parts.last().len() > 0);
    }
}

/// What the thread shows of a tool result.
pub fn tool_result_content(frame: &Json) -> (content: Vec<String>)
    ensures
        content.deep_view() == result_content(frame@),
{
    let blocks = match blocks_of_result(frame) {
        Some(blocks) => blocks,
        None => {
            let none: Vec<String> = Vec::new();
            assert(none.deep_view() =~= Seq::empty());
            return none;
        },
    };
    let ghost all = result_blocks(frame@)->0;
    let mut text = String::new();
    let mut i: usize = 0;
    while i < blocks.len()
        invariant
            i <= blocks@.len(),
            all == Json::Array(*blocks)@->Array_0,
            all.len() == blocks@.len(),
            text@ == joined(block_texts(all.take(i as int)), "\n"@),
        decreases blocks@.len() - i,
    {
        let block = &blocks[i];
        let ghost before = block_texts(all.take(i as int));
        proof {
            assert(all.take(i + 1).drop_last() =~= all.take(i as int));
            assert(all.take(i + 1).last() == block@);
            block_texts_are_filled(all.take(i as int));
            joined_is_filled(before, "\n"@);
        }
        let is_text = match block.text_field("type") {
            Some(kind) => kind.eq("text"),
            None => false,
        };
        if is_text {
            if let Some(block_text) = block.filled_text_field("text") {
                if !text.as_str().is_empty() {
                    text.append("\n");
                }
                text.append(block_text);
                proof {
                    let after = before.push(block_text@);
                    assert(after.drop_last() =~= before);
                    if before.len() == 0 {
                        assert(text@ =~= after[0]);
                    }
                }
            }
        }
        i = i + 1;
    }
    proof {
        assert(all.take(i as int) =~= all);
        block_texts_are_filled(all);
        joined_is_filled(block_texts(all), "\n"@);
    }
    let mut content: Vec<String> = Vec::new();
    if !text.as_str().is_empty() {
        content.push(text);
    }
    assert(content.deep_view() =~= result_content(frame@));
    content
}

/// The tool call that a frame tells of. A frame without an id or a tool name
/// tells of none.
pub open spec fn told_tool_call(
    frame: JsonView,
    status: ToolCallStatus,
    content: Seq<Seq<char>>,
    raw_output: Option<JsonView>,
) -> Option<ToolCallView> {
    match (
        frame.either_text_field("id"@, "toolCallId"@),
        frame.either_text_field("name"@, "toolName"@),
    ) {
        (Some(id), Some(name)) => {
            let arguments = frame.either_field("arguments"@, "args"@);
            Some(
                ToolCallView {
                    id,
                    title: title_of_call(
                        name,
                        match arguments {
                            Some(arguments) => arguments,
                            None => JsonView::Null,
                        },
                        frame.text_field("intent"@),
                    ),
                    kind: kind_of_tool(name),
                    status,
                    tool_name: name,
                    content,
                    raw_input: arguments,
                    raw_output,
                },
            )
        },
        _ => None,
    }
}

/// The thread's change for a tool call.
pub open spec fn tool_call_update(call: Option<ToolCallView>) -> Option<SessionUpdateView> {
    match call {
        Some(call) => Some(SessionUpdateView::ToolCall(call)),
        None => None,
    }
}

/// The thread's change for the tool call that `frame` tells of.
pub fn send_tool_call(
    frame: &Json,
    status: ToolCallStatus,
    content: Vec<String>,
    raw_output: Option<Json>,
) -> (update: Option<SessionUpdate>)
    ensures
        optional_update(update) == tool_call_update(
            told_tool_call(frame@, status, content.deep_view(), optional_json(raw_output)),
        ),
{
    let id = match frame.either_text_field("id", "toolCallId") {
        Some(id) => id,
        None => return None,
    };
    let name = match frame.either_text_field("name", "toolName") {
        Some(name) => name,
        None => return None,
    };
    let arguments = frame.either_field("arguments", "args");
    let intent = frame.text_field("intent");
    let title = match arguments {
        Some(arguments) => tool_title(name, arguments, intent),
        None => tool_title(name, &Json::Null, intent),
    };
    let raw_input = match arguments {
        Some(arguments) => Some(arguments.copy()),
        None => None,
    };
    Some(
        SessionUpdate::ToolCall(
            ToolCall {
                id: id.to_owned(),
                title,
                kind: tool_kind(name),
                status,
                tool_name: name.to_owned(),
                content,
                raw_input,
                raw_output,
            },
        ),
    )
}

/// The output that a tool result reports: its field `result`, or the whole frame
/// where there is none.
pub open spec fn reported_output(frame: JsonView) -> JsonView {
    match frame.get("result"@) {
        Some(result) => result,
        None => frame,
    }
}

/// The thread's change for a tool result.
pub open spec fn tool_result_update(frame: JsonView, status: ToolCallStatus) -> Option<
    SessionUpdateView,
> {
    tool_call_update(
        told_tool_call(frame, status, result_content(frame), Some(reported_output(frame))),
    )
}

/// The thread's change for the tool result `frame`.
pub fn send_tool_result(frame: &Json, status: ToolCallStatus) -> (update: Option<SessionUpdate>)
    ensures
        optional_update(update) == tool_result_update(frame@, status),
{
    let content = tool_result_content(frame);
    let raw_output = match frame.get("result") {
        Some(result) => result.copy(),
        None => frame.copy(),
    };
    send_tool_call(frame, status, content, Some(raw_output))
}

/// How a tool result ended: failed where it says that it is an error.
pub open spec fn result_status(frame: JsonView) -> ToolCallStatus {
    if frame.bool_field("isError"@) == Some(true) {
        ToolCallStatus::Failed
    } else {
        ToolCallStatus::Completed
    }
}

/// How the tool result `frame` ended.
fn status_of_result(frame: &Json) -> (status: ToolCallStatus)
    ensures
        status == result_status(frame@),
{
    match frame.bool_field("isError") {
        Some(true) => ToolCallStatus::Failed,
        _ => ToolCallStatus::Completed,
    }
}

// ---------------------------------------------------------------------------
// Messages
// ---------------------------------------------------------------------------

/// The thread's change for a piece of assistant text.
pub open spec fn message_chunk(text: Option<Seq<char>>) -> Option<SessionUpdateView> {
    match text {
        Some(text) => Some(SessionUpdateView::AgentMessageChunk(text)),
        None => None,
    }
}

/// The thread's change for a piece of the assistant's thoughts.
pub open spec fn thought_chunk(text: Option<Seq<char>>) -> Option<SessionUpdateView> {
    match text {
        Some(text) => Some(SessionUpdateView::AgentThoughtChunk(text)),
        None => None,
    }
}

/// The text of a reported error, where there is any.
pub open spec fn event_error(event: JsonView) -> Option<Seq<char>> {
    match event.get("error"@) {
        Some(error) => match error.either_text_field("errorMessage"@, "message"@) {
            Some(text) => if text.len() > 0 {
                Some(text)
            } else {
                None
            },
            None => None,
        },
        None => None,
    }
}

/// The thread's change for one event of a streamed assistant message.
pub open spec fn event_update(event: JsonView) -> Option<SessionUpdateView> {
    match event.text_field("type"@) {
        Some(kind) => if kind == "text_delta"@ {
            message_chunk(event.filled_text_field("delta"@))
        } else if kind == "thinking_delta"@ {
            thought_chunk(event.filled_text_field("delta"@))
        } else if kind == "toolcall_end"@ {
            match event.get("toolCall"@) {
                Some(call) => tool_call_update(
                    told_tool_call(call, ToolCallStatus::Pending, Seq::empty(), None),
                ),
                None => None,
            }
        } else if kind == "error"@ {
            message_chunk(event_error(event))
        } else {
            None
        },
        None => None,
    }
}

/// The thread's change for a `message_update` frame.
pub open spec fn message_update(frame: JsonView) -> Option<SessionUpdateView> {
    match frame.get("assistantMessageEvent"@) {
        Some(event) => event_update(event),
        None => None,
    }
}

/// The thread's change for a piece of assistant text.
fn chunk_of_message(text: Option<&str>) -> (update: Option<SessionUpdate>)
    ensures
        optional_update(update) == message_chunk(text.deep_view()),
{
    match text {
        Some(text) => Some(SessionUpdate::AgentMessageChunk(text.to_owned())),
        None => None,
    }
}

/// The text of a reported error, where there is any.
fn error_of_event(event: &Json) -> (text: Option<&str>)
    ensures
        text.deep_view() == event_error(event@),
{
    match event.get("error") {
        Some(error) => match error.either_text_field("errorMessage", "message") {
            Some(text) => if text.is_empty() {
                None
            } else {
                Some(text)
            },
            None => None,
        },
        None => None,
    }
}

/// The thread's change for a `message_update` frame.
pub fn handle_message_update(frame: &Json) -> (update: Option<SessionUpdate>)
    ensures
        optional_update(update) == message_update(frame@),
{
    let event = match frame.get("assistantMessageEvent") {
        Some(event) => event,
        None => return None,
    };
    let kind = match event.text_field("type") {
        Some(kind) => kind,
        None => return None,
    };
    if kind.eq("text_delta") {
        chunk_of_message(event.filled_text_field("delta"))
    } else if kind.eq("thinking_delta") {
        match event.filled_text_field("delta") {
            Some(delta) => Some(SessionUpdate::AgentThoughtChunk(delta.to_owned())),
            None => None,
        }
    } else if kind.eq("toolcall_end") {
        match event.get("toolCall") {
            Some(call) => {
                let content: Vec<String> = Vec::new();
                assert(content.deep_view() =~= Seq::empty());
                send_tool_call(call, ToolCallStatus::Pending, content, None)
            },
            None => None,
        }
    } else if kind.eq("error") {
        chunk_of_message(error_of_event(event))
    } else {
        None
    }
}

/// The thread's change for a `message_end` frame.
pub open spec fn message_end(frame: JsonView) -> Option<SessionUpdateView> {
    match frame.get("message"@) {
        Some(message) => match message.text_field("role"@) {
            Some(role) => if role == "toolResult"@ {
                tool_result_update(message, result_status(message))
            } else if role == "assistant"@ {
                message_chunk(message.filled_text_field("errorMessage"@))
            } else {
                None
            },
            None => None,
        },
        None => None,
    }
}

/// The thread's change for a `message_end` frame.
pub fn handle_message_end(frame: &Json) -> (update: Option<SessionUpdate>)
    ensures
        optional_update(update) == message_end(frame@),
{
    let message = match frame.get("message") {
        Some(message) => message,
        None => return None,
    };
    let role = match message.text_field("role") {
        Some(role) => role,
        None => return None,
    };
    if role.eq("toolResult") {
        send_tool_result(message, status_of_result(message))
    } else if role.eq("assistant") {
        chunk_of_message(message.filled_text_field("errorMessage"))
    } else {
        None
    }
}

/// The thread's change for a `tool_execution_start` frame.
pub open spec fn tool_execution_start(frame: JsonView) -> Option<SessionUpdateView> {
    tool_call_update(told_tool_call(frame, ToolCallStatus::InProgress, Seq::empty(), None))
}

/// The thread's change for a `tool_execution_start` frame.
pub fn handle_tool_execution_start(frame: &Json) -> (update: Option<SessionUpdate>)
    ensures
        optional_update(update) == tool_execution_start(frame@),
{
    let content: Vec<String> = Vec::new();
    assert(content.deep_view() =~= Seq::empty());
    send_tool_call(frame, ToolCallStatus::InProgress, content, None)
}

/// The thread's change for a `tool_execution_end` frame.
pub open spec fn tool_execution_end(frame: JsonView) -> Option<SessionUpdateView> {
    tool_result_update(frame, result_status(frame))
}

/// The thread's change for a `tool_execution_end` frame.
pub fn handle_tool_execution_end(frame: &Json) -> (update: Option<SessionUpdate>)
    ensures
        optional_update(update) == tool_execution_end(frame@),
{
    send_tool_result(frame, status_of_result(frame))
}

/// A message piece as an agent prompt holds it.
#[derive(Clone, Debug, PartialEq, Eq)]
pub enum ContentBlock {
    Text(String),
    /// An image, a resource or anything else that is not text.
    Other,
}

/// The text of a prompt piece; nothing for a piece that is not text.
pub open spec fn content_text(block: ContentBlock) -> Seq<char> {
    match block {
        ContentBlock::Text(text) => text@,
        ContentBlock::Other => Seq::empty(),
    }
}

/// The texts of a prompt, one after the other.
pub open spec fn text_of_prompt(prompt: Seq<ContentBlock>) -> Seq<char>
    decreases prompt.len(),
{
    if prompt.len() == 0 {
        Seq::empty()
    } else {
        text_of_prompt(prompt.drop_last()) + content_text(prompt.last())
    }
}

/// The texts of `prompt`, one after the other.
pub fn prompt_text(prompt: &Vec<ContentBlock>) -> (text: String)
    ensures
        text@ == text_of_prompt(prompt@),
{
    let mut text = String::new();
    let mut i: usize = 0;
    while i < prompt.len()
        invariant
            i <= prompt@.len(),
            text@ == text_of_prompt(prompt@.take(i as int)),
        decreases prompt@.len() - i,
    {
        assert(prompt@.take(i + 1).drop_last() =~= prompt@.take(i as int));
        match &prompt[i] {
            ContentBlock::Text(piece) => text.append(piece.as_str()),
            ContentBlock::Other => {},
        }
        i = i + 1;
        assert(text@ =~= text_of_prompt(prompt@.take(i as int)));
    }
    assert(prompt@.take(i as int) =~= prompt@);
    text
}

// ---------------------------------------------------------------------------
// Session state
// ---------------------------------------------------------------------------

/// The metadata of a session: its id and its trace file, as far as known.
pub open spec fn session_meta(id: Option<Seq<char>>, file: Option<Seq<char>>) -> Seq<
    (Seq<char>, Seq<char>),
> {
    let with_id = match id {
        Some(id) => seq![("omp_session_id"@, id)],
        None => Seq::empty(),
    };
    match file {
        Some(file) => with_id.push(("omp_session_file"@, file)),
        None => with_id,
    }
}

/// The metadata of a session.
pub fn omp_session_meta(session_id: Option<&str>, session_file: Option<&str>) -> (meta: Vec<
    (String, String),
>)
    ensures
        meta.deep_view() == session_meta(session_id.deep_view(), session_file.deep_view()),
{
    let mut meta: Vec<(String, String)> = Vec::new();
    if let Some(session_id) = session_id {
        meta.push(("omp_session_id".to_owned(), session_id.to_owned()));
    }
    if let Some(session_file) = session_file {
        meta.push(("omp_session_file".to_owned(), session_file.to_owned()));
    }
    assert(meta.deep_view() =~= session_meta(session_id.deep_view(), session_file.deep_view()));
    meta
}

/// The title and metadata that a reported session state gives. A state with
/// neither a name nor a trace file gives none.
pub open spec fn state_info(state: JsonView) -> Option<SessionInfoView> {
    let name = state.filled_text_field("sessionName"@);
    let file = state.filled_text_field("sessionFile"@);
    let meta = session_meta(state.filled_text_field("sessionId"@), file);
    match (file, name) {
        (Some(file), Some(name)) => Some(
            SessionInfoView { title: name + " · "@ + file, meta },
        ),
        (Some(file), None) => Some(SessionInfoView { title: "OMP · "@ + file, meta }),
        (None, Some(name)) => Some(SessionInfoView { title: name, meta }),
        (None, None) => None,
    }
}

/// The title and metadata that the reported session state `state` gives.
pub fn apply_state_update(state: &Json) -> (info: Option<SessionInfo>)
    ensures
        info is Some == state_info(state@) is Some,
        info is Some ==> info->0@ == state_info(state@)->0,
{
    let session_name = state.filled_text_field("sessionName");
    let session_file = state.filled_text_field("sessionFile");
    let session_id = state.filled_text_field("sessionId");
    let title = match session_file {
        Some(file) => match session_name {
            Some(name) => {
                let mut title = concatenated(name, " · ");
                title.append(file);
                title
            },
            None => concatenated("OMP · ", file),
        },
        None => match session_name {
            Some(name) => name.to_owned(),
            None => return None,
        },
    };
    let meta = omp_session_meta(session_id, session_file);
    Some(SessionInfo { title, meta })
}

/// The error that a failed response reports.
pub open spec fn reported_error(frame: JsonView) -> Seq<char> {
    match frame.text_field("error"@) {
        Some(error) => error,
        None => "OMP request failed"@,
    }
}

/// The error that the failed response `frame` reports.
pub fn response_error(frame: &Json) -> (error: String)
    ensures
        error@ == reported_error(frame@),
{
    match frame.text_field("error") {
        Some(error) => error.to_owned(),
        None => "OMP request failed".to_owned(),
    }
}

// ---------------------------------------------------------------------------
// What the thread is shown
// ---------------------------------------------------------------------------

/// The text of a field, empty where it is none.
pub open spec fn said(field: Option<JsonView>) -> Seq<char> {
    match field {
        Some(JsonView::Text(text)) => text,
        _ => Seq::empty(),
    }
}

/// A frame tells a text under one name, or under another where it has no field of
/// the first.
pub open spec fn tells(
    frame: JsonView,
    first: Seq<char>,
    second: Seq<char>,
    text: Seq<char>,
) -> bool {
    ||| frame.get(first) == Some(JsonView::Text(text))
    ||| frame.get(first) is None && frame.get(second) == Some(JsonView::Text(text))
}

/// A frame tells of a tool call: it has an id and the name of a tool.
pub open spec fn tells_of_call(frame: JsonView) -> bool {
    &&& exists|id: Seq<char>| tells(frame, "id"@, "toolCallId"@, id)
    &&& exists|name: Seq<char>| tells(frame, "name"@, "toolName"@, name)
}

/// A title names the tool, and behind a colon what the call is for: what the frame
/// says of it, else what the arguments say.
pub open spec fn is_title_of(
    title: Seq<char>,
    name: Seq<char>,
    frame: JsonView,
    arguments: Option<JsonView>,
) -> bool {
    let intent = said(frame.get("intent"@));
    let argument = match arguments {
        Some(arguments) => said(arguments.get("_i"@)),
        None => Seq::empty(),
    };
    if intent.len() > 0 {
        title == name + ": "@ + intent
    } else if argument.len() > 0 {
        title == name + ": "@ + argument
    } else {
        title == name
    }
}

/// A tool call is the one that a frame tells of, with the kind of its tool, what it
/// was given, and a title that names it.
pub open spec fn is_call_of(call: ToolCallView, frame: JsonView) -> bool {
    &&& tells(frame, "id"@, "toolCallId"@, call.id)
    &&& tells(frame, "name"@, "toolName"@, call.tool_name)
    &&& call.kind == kind_of_tool(call.tool_name)
    &&& frame.get("arguments"@) is Some ==> call.raw_input == frame.get("arguments"@)
    &&& frame.get("arguments"@) is None ==> call.raw_input == frame.get("args"@)
    &&& is_title_of(call.title, call.tool_name, frame, call.raw_input)
}

/// A block holds a text to show.
pub open spec fn is_text_block(block: JsonView) -> bool {
    block.get("type"@) == Some(JsonView::Text("text"@)) && said(block.get("text"@)).len() > 0
}

/// The places of the blocks that hold a text, all of them and in order.
pub open spec fn are_text_places(blocks: Seq<JsonView>, places: Seq<int>) -> bool {
    &&& forall|j: int, k: int|
        0 <= j < k < places.len() ==> #[trigger] places[j] < #[trigger] places[k]
    &&& forall|k: int| 0 <= k < places.len() ==> 0 <= #[trigger] places[k] < blocks.len()
    &&& forall|i: int|
        0 <= i < blocks.len() ==> (#[trigger] is_text_block(blocks[i]) <==> places.contains(i))
}

/// The texts at some places of a list of blocks.
pub open spec fn texts_at(blocks: Seq<JsonView>, places: Seq<int>) -> Seq<Seq<char>> {
    Seq::new(places.len(), |k: int| said(blocks[places[k]].get("text"@)))
}

/// The texts of some blocks are shown as one, with a line break between two of
/// them; nothing is shown where no block holds a text.
pub open spec fn shows_texts_of(content: Seq<Seq<char>>, blocks: Seq<JsonView>) -> bool {
    exists|places: Seq<int>| #[trigger]
        are_text_places(blocks, places) && content == (if places.len() == 0 {
            Seq::empty()
        } else {
            seq![joined(texts_at(blocks, places), "\n"@)]
        })
}

/// What is shown of a result: the texts of its blocks, which are those of the field
/// `content`, or of the field `content` of `result` where there is no such field.
/// Where there is no list of blocks, nothing is shown.
pub open spec fn shows_result_of(content: Seq<Seq<char>>, frame: JsonView) -> bool {
    let held = if frame.get("content"@) is None && frame.get("result"@) is Some {
        frame.get("result"@)->0.get("content"@)
    } else {
        frame.get("content"@)
    };
    match held {
        Some(JsonView::Array(blocks)) => shows_texts_of(content, blocks),
        _ => content.len() == 0,
    }
}

/// A tool call that has ended, as a frame tells it: failed exactly where the frame
/// says so, with what came out and the texts of the result.
pub open spec fn is_result_of(call: ToolCallView, frame: JsonView) -> bool {
    &&& is_call_of(call, frame)
    &&& frame.get("isError"@) == Some(JsonView::Bool(true)) ==> call.status
        == ToolCallStatus::Failed
    &&& frame.get("isError"@) != Some(JsonView::Bool(true)) ==> call.status
        == ToolCallStatus::Completed
    &&& frame.get("result"@) is Some ==> call.raw_output == frame.get("result"@)
    &&& frame.get("result"@) is None ==> call.raw_output == Some(frame)
    &&& shows_result_of(call.content, frame)
}

/// A tool call that has not ended: nothing has come out of it.
pub open spec fn is_unfinished(call: ToolCallView, frame: JsonView) -> bool {
    &&& is_call_of(call, frame)
    &&& call.content.len() == 0
    &&& call.raw_output is None
}

proof fn tool_names_differ()
    ensures
        "read"@ != "edit"@ && "read"@ != "write"@ && "read"@ != "ast_edit"@,
        "read"@ != "find"@ && "read"@ != "search"@ && "read"@ != "ast_grep"@ && "read"@
            != "web_search"@,
        "read"@ != "bash"@ && "read"@ != "debug"@ && "read"@ != "eval"@ && "read"@ != "job"@
            && "read"@ != "task"@,
        "edit"@ != "find"@ && "edit"@ != "search"@ && "edit"@ != "ast_grep"@ && "edit"@
            != "web_search"@,
        "edit"@ != "bash"@ && "edit"@ != "debug"@ && "edit"@ != "eval"@ && "edit"@ != "job"@
            && "edit"@ != "task"@,
        "write"@ != "find"@ && "write"@ != "search"@ && "write"@ != "ast_grep"@ && "write"@
            != "web_search"@,
        "write"@ != "bash"@ && "write"@ != "debug"@ && "write"@ != "eval"@ && "write"@ != "job"@
            && "write"@ != "task"@,
        "ast_edit"@ != "find"@ && "ast_edit"@ != "search"@ && "ast_edit"@ != "ast_grep"@
            && "ast_edit"@ != "web_search"@,
        "ast_edit"@ != "bash"@ && "ast_edit"@ != "debug"@ && "ast_edit"@ != "eval"@
            && "ast_edit"@ != "job"@ && "ast_edit"@ != "task"@,
        "find"@ != "bash"@ && "find"@ != "debug"@ && "find"@ != "eval"@ && "find"@ != "job"@
            && "find"@ != "task"@,
        "search"@ != "bash"@ && "search"@ != "debug"@ && "search"@ != "eval"@ && "search"@
            != "job"@ && "search"@ != "task"@,
        "ast_grep"@ != "bash"@ && "ast_grep"@ != "debug"@ && "ast_grep"@ != "eval"@
            && "ast_grep"@ != "job"@ && "ast_grep"@ != "task"@,
        "web_search"@ != "bash"@ && "web_search"@ != "debug"@ && "web_search"@ != "eval"@
            && "web_search"@ != "job"@ && "web_search"@ != "task"@,
{
    reveal_strlit("read");
    reveal_strlit("edit");
    reveal_strlit("write");
    reveal_strlit("ast_edit");
    reveal_strlit("find");
    reveal_strlit("search");
    reveal_strlit("ast_grep");
    reveal_strlit("web_search");
    reveal_strlit("bash");
    reveal_strlit("debug");
    reveal_strlit("eval");
    reveal_strlit("job");
    reveal_strlit("task");
    assert("read"@.len() == 4 && "edit"@.len() == 4 && "write"@.len() == 5);
    assert("ast_edit"@.len() == 8 && "find"@.len() == 4 && "search"@.len() == 6);
    assert("ast_grep"@.len() == 8 && "web_search"@.len() == 10 && "bash"@.len() == 4);
    assert("debug"@.len() == 5 && "eval"@.len() == 4 && "job"@.len() == 3 && "task"@.len() == 4);
    assert("read"@[0] == 'r' && "edit"@[0] == 'e' && "edit"@[1] == 'd' && "write"@[0] == 'w');
    assert("find"@[0] == 'f' && "bash"@[0] == 'b' && "debug"@[0] == 'd' && "eval"@[0] == 'e');
    assert("eval"@[1] == 'v' && "task"@[0] == 't');
    assert("ast_edit"@[4] == 'e' && "ast_grep"@[4] == 'g');
}

/// Each tool has its kind, and a tool that is not known has none of its own.
pub proof fn each_tool_has_its_kind(name: Seq<char>)
    ensures
        kind_of_tool(name) == ToolKind::Read <==> name == "read"@,
        kind_of_tool(name) == ToolKind::Edit <==> name == "edit"@ || name == "write"@ || name
            == "ast_edit"@,
        kind_of_tool(name) == ToolKind::Search <==> name == "find"@ || name == "search"@ || name
            == "ast_grep"@ || name == "web_search"@,
        kind_of_tool(name) == ToolKind::Execute <==> name == "bash"@ || name == "debug"@ || name
            == "eval"@ || name == "job"@ || name == "task"@,
{
    tool_names_differ();
}

proof fn a_call_is_that_of_its_frame(
    frame: JsonView,
    status: ToolCallStatus,
    content: Seq<Seq<char>>,
    raw_output: Option<JsonView>,
)
    ensures
        told_tool_call(frame, status, content, raw_output) is Some <==> tells_of_call(frame),
        told_tool_call(frame, status, content, raw_output) matches Some(call) ==> {
            &&& is_call_of(call, frame)
            &&& call.status == status
            &&& call.content == content
            &&& call.raw_output == raw_output
        },
{
    if let Some(call) = told_tool_call(frame, status, content, raw_output) {
        assert(tells(frame, "id"@, "toolCallId"@, call.id));
        assert(tells(frame, "name"@, "toolName"@, call.tool_name));
    }
}

proof fn text_places_of(blocks: Seq<JsonView>) -> (places: Seq<int>)
    ensures
        are_text_places(blocks, places),
        texts_at(blocks, places) == block_texts(blocks),
    decreases blocks.len(),
{
    if blocks.len() == 0 {
        let none: Seq<int> = Seq::empty();
        assert(texts_at(blocks, none) =~= block_texts(blocks));
        none
    } else {
        let rest = blocks.drop_last();
        let before = text_places_of(rest);
        let last = blocks.len() - 1;
        let places = if is_text_block(blocks.last()) {
            before.push(last)
        } else {
            before
        };
        assert(texts_at(blocks, before) =~= texts_at(rest, before)) by {
            assert forall|k: int| 0 <= k < before.len() implies rest[#[trigger] before[k]]
                == blocks[before[k]] by {}
        }
        assert(block_text(blocks.last()) is Some <==> is_text_block(blocks.last()));
        assert(texts_at(blocks, places) =~= block_texts(blocks));
        assert forall|i: int| 0 <= i < blocks.len() implies (#[trigger] is_text_block(blocks[i])
            <==> places.contains(i)) by {
            if i < last {
                assert(rest[i] == blocks[i]);
                assert(is_text_block(rest[i]) <==> before.contains(i));
                if before.contains(i) {
                    let k = choose|k: int| 0 <= k < before.len() && before[k] == i;
                    assert(places[k] == i);
                }
                if places.contains(i) {
                    let k = choose|k: int| 0 <= k < places.len() && places[k] == i;
                    assert(k < before.len() && before[k] == i);
                }
            } else {
                if is_text_block(blocks[i]) {
                    assert(places[before.len() as int] == i);
                } else if places.contains(i) {
                    let k = choose|k: int| 0 <= k < places.len() && places[k] == i;
                    assert(before[k] < rest.len());
                }
            }
        }
        places
    }
}

/// A result is shown by the texts of its blocks: all of them, in their order, with
/// a line break between two of them, and nothing else.
pub proof fn results_show_their_texts(frame: JsonView)
    ensures
        shows_result_of(result_content(frame), frame),
{
    if let Some(blocks) = result_blocks(frame) {
        let places = text_places_of(blocks);
        assert(are_text_places(blocks, places));
        assert(places.len() == block_texts(blocks).len());
        assert(shows_texts_of(result_content(frame), blocks));
    }
}

/// The end of a tool's work is shown: failed exactly where the frame says so, else
/// completed, with what came out and its texts. Where the frame has no id or no
/// name of a tool, nothing is shown.
pub proof fn the_end_of_a_tool_is_shown(frame: JsonView)
    ensures
        tool_execution_end(frame) is Some <==> tells_of_call(frame),
        tool_execution_end(frame) is Some ==> (tool_execution_end(frame) matches Some(
            SessionUpdateView::ToolCall(call),
        ) && is_result_of(call, frame)),
{
    a_call_is_that_of_its_frame(
        frame,
        result_status(frame),
        result_content(frame),
        Some(reported_output(frame)),
    );
    results_show_their_texts(frame);
}

/// The start of a tool's work is shown as being in progress, with no output yet.
pub proof fn the_start_of_a_tool_is_shown(frame: JsonView)
    ensures
        tool_execution_start(frame) is Some <==> tells_of_call(frame),
        tool_execution_start(frame) is Some ==> (tool_execution_start(frame) matches Some(
            SessionUpdateView::ToolCall(call),
        ) && is_unfinished(call, frame) && call.status == ToolCallStatus::InProgress),
{
    a_call_is_that_of_its_frame(frame, ToolCallStatus::InProgress, Seq::empty(), None);
}

proof fn roles_differ()
    ensures
        "toolResult"@ != "assistant"@,
{
    reveal_strlit("toolResult");
    reveal_strlit("assistant");
    assert("toolResult"@[0] == 't' && "assistant"@[0] == 'a');
}

/// A tool's result in a message is shown: failed exactly where the message says so,
/// else completed, with what came out and its texts. Where the message has no id or
/// no name of a tool, nothing is shown.
pub proof fn tool_results_are_shown(frame: JsonView, message: JsonView)
    requires
        frame.get("message"@) == Some(message),
        message.get("role"@) == Some(JsonView::Text("toolResult"@)),
    ensures
        message_end(frame) is Some <==> tells_of_call(message),
        message_end(frame) is Some ==> (message_end(frame) matches Some(
            SessionUpdateView::ToolCall(call),
        ) && is_result_of(call, message)),
{
    a_call_is_that_of_its_frame(
        message,
        result_status(message),
        result_content(message),
        Some(reported_output(message)),
    );
    results_show_their_texts(message);
}

/// The end of an assistant's message shows its error, where it has one, and that of
/// any other message but a tool's result shows nothing.
pub proof fn errors_of_messages_are_shown(frame: JsonView)
    ensures
        frame.get("message"@) is None ==> message_end(frame) is None,
        frame.get("message"@) matches Some(message) ==> {
            let error = said(message.get("errorMessage"@));
            &&& message.get("role"@) == Some(JsonView::Text("assistant"@)) ==> message_end(frame)
                == (if error.len() > 0 {
                Some(SessionUpdateView::AgentMessageChunk(error))
            } else {
                None
            })
            &&& message.get("role"@) != Some(JsonView::Text("assistant"@)) && message.get("role"@)
                != Some(JsonView::Text("toolResult"@)) ==> message_end(frame) is None
        },
{
    roles_differ();
}

proof fn event_kinds_differ()
    ensures
        "text_delta"@ != "thinking_delta"@,
        "text_delta"@ != "toolcall_end"@,
        "text_delta"@ != "error"@,
        "thinking_delta"@ != "toolcall_end"@,
        "thinking_delta"@ != "error"@,
        "toolcall_end"@ != "error"@,
{
    reveal_strlit("text_delta");
    reveal_strlit("thinking_delta");
    reveal_strlit("toolcall_end");
    reveal_strlit("error");
    assert("text_delta"@.len() == 10 && "thinking_delta"@.len() == 14);
    assert("toolcall_end"@.len() == 12 && "error"@.len() == 5);
}

/// A piece of an assistant's text or thoughts is shown as it came, each as what it
/// is. An empty piece is not shown.
pub proof fn pieces_are_shown_as_they_came(frame: JsonView, event: JsonView)
    requires
        frame.get("assistantMessageEvent"@) == Some(event),
    ensures
        ({
            let piece = said(event.get("delta"@));
            &&& event.get("type"@) == Some(JsonView::Text("text_delta"@)) ==> message_update(frame)
                == (if piece.len() > 0 {
                Some(SessionUpdateView::AgentMessageChunk(piece))
            } else {
                None
            })
            &&& event.get("type"@) == Some(JsonView::Text("thinking_delta"@)) ==> message_update(
                frame,
            ) == (if piece.len() > 0 {
                Some(SessionUpdateView::AgentThoughtChunk(piece))
            } else {
                None
            })
        }),
{
    event_kinds_differ();
}

/// A tool call that an assistant has written is shown as pending, with no output
/// yet. One without an id or the name of a tool is not shown.
pub proof fn written_calls_are_shown_as_pending(frame: JsonView, event: JsonView)
    requires
        frame.get("assistantMessageEvent"@) == Some(event),
        event.get("type"@) == Some(JsonView::Text("toolcall_end"@)),
    ensures
        event.get("toolCall"@) is None ==> message_update(frame) is None,
        event.get("toolCall"@) matches Some(told) ==> {
            &&& message_update(frame) is Some <==> tells_of_call(told)
            &&& message_update(frame) is Some ==> (message_update(frame) matches Some(
                SessionUpdateView::ToolCall(call),
            ) && is_unfinished(call, told) && call.status == ToolCallStatus::Pending)
        },
{
    event_kinds_differ();
    if let Some(told) = event.get("toolCall"@) {
        a_call_is_that_of_its_frame(told, ToolCallStatus::Pending, Seq::empty(), None);
    }
}

/// An error while a message is written is shown by its text: the field
/// `errorMessage` of the error, or `message` where there is no such field. Without
/// a text nothing is shown.
pub proof fn errors_of_events_are_shown(frame: JsonView, event: JsonView)
    requires
        frame.get("assistantMessageEvent"@) == Some(event),
        event.get("type"@) == Some(JsonView::Text("error"@)),
    ensures
        event.get("error"@) is None ==> message_update(frame) is None,
        event.get("error"@) matches Some(error) ==> {
            let told = if error.get("errorMessage"@) is Some {
                said(error.get("errorMessage"@))
            } else {
                said(error.get("message"@))
            };
            message_update(frame) == (if told.len() > 0 {
                Some(SessionUpdateView::AgentMessageChunk(told))
            } else {
                None
            })
        },
{
    event_kinds_differ();
}

/// Any other event shows nothing.
pub proof fn other_events_show_nothing(frame: JsonView)
    ensures
        frame.get("assistantMessageEvent"@) is None ==> message_update(frame) is None,
        frame.get("assistantMessageEvent"@) matches Some(event) ==> (event.get("type"@) != Some(
            JsonView::Text("text_delta"@),
        ) && event.get("type"@) != Some(JsonView::Text("thinking_delta"@)) && event.get("type"@)
            != Some(JsonView::Text("toolcall_end"@)) && event.get("type"@) != Some(
            JsonView::Text("error"@),
        ) ==> message_update(frame) is None),
{
}

/// The text of a prompt is that of its pieces, one after the other: a text gives
/// itself, anything else nothing, and two prompts one after the other give their
/// texts one after the other.
pub proof fn prompts_are_read_piece_by_piece(
    left: Seq<ContentBlock>,
    right: Seq<ContentBlock>,
    piece: String,
)
    ensures
        text_of_prompt(Seq::empty()) == Seq::<char>::empty(),
        text_of_prompt(seq![ContentBlock::Text(piece)]) == piece@,
        text_of_prompt(seq![ContentBlock::Other]) == Seq::<char>::empty(),
        text_of_prompt(left + right) == text_of_prompt(left) + text_of_prompt(right),
    decreases right.len(),
{
    reveal_with_fuel(text_of_prompt, 2);
    assert(text_of_prompt(seq![ContentBlock::Text(piece)]) =~= piece@);
    assert(text_of_prompt(seq![ContentBlock::Other]) =~= Seq::<char>::empty());
    if right.len() == 0 {
        assert(left + right =~= left);
        assert(text_of_prompt(left) + text_of_prompt(right) =~= text_of_prompt(left));
    } else {
        prompts_are_read_piece_by_piece(left, right.drop_last(), piece);
        assert((left + right).drop_last() =~= left + right.drop_last());
        assert(text_of_prompt(left + right) =~= text_of_prompt(left) + text_of_prompt(right));
    }
}

/// A session is titled by its name and its trace file, with a name of its own where
/// it has none, and its metadata holds its id and its trace file. Where it has
/// neither a name nor a trace file, nothing is known of it.
pub proof fn sessions_are_titled_by_name_and_file(state: JsonView)
    ensures
        ({
            let name = said(state.get("sessionName"@));
            let file = said(state.get("sessionFile"@));
            let id = said(state.get("sessionId"@));
            &&& state_info(state) is None <==> name.len() == 0 && file.len() == 0
            &&& state_info(state) matches Some(info) ==> {
                &&& file.len() > 0 && name.len() > 0 ==> info.title == name + " · "@ + file
                &&& file.len() > 0 && name.len() == 0 ==> info.title == "OMP · "@ + file
                &&& file.len() == 0 ==> info.title == name
                &&& id.len() > 0 && file.len() > 0 ==> info.meta == seq![
                    ("omp_session_id"@, id),
                    ("omp_session_file"@, file),
                ]
                &&& id.len() > 0 && file.len() == 0 ==> info.meta == seq![("omp_session_id"@, id)]
                &&& id.len() == 0 && file.len() > 0 ==> info.meta == seq![
                    ("omp_session_file"@, file),
                ]
                &&& id.len() == 0 && file.len() == 0 ==> info.meta.len() == 0
            }
        }),
{
    let file = said(state.get("sessionFile"@));
    let id = said(state.get("sessionId"@));
    assert(session_meta(Some(id), Some(file)) =~= seq![
        ("omp_session_id"@, id),
        ("omp_session_file"@, file),
    ]);
    assert(session_meta(None, Some(file)) =~= seq![("omp_session_file"@, file)]);
}

/// A failed response is told by its error, or by a text of its own where it has
/// none.
pub proof fn failures_are_told(frame: JsonView, error: Seq<char>)
    ensures
        frame.get("error"@) == Some(JsonView::Text(error)) ==> reported_error(frame) == error,
        !(frame.get("error"@) matches Some(JsonView::Text(_))) ==> reported_error(frame)
            == "OMP request failed"@,
{
}

/// A change stands for what it holds.
pub proof fn a_change_stands_for_what_it_holds(call: ToolCall, text: String, info: SessionInfo)
    ensures
        SessionUpdate::AgentMessageChunk(text)@ == SessionUpdateView::AgentMessageChunk(text@),
        SessionUpdate::AgentThoughtChunk(text)@ == SessionUpdateView::AgentThoughtChunk(text@),
        SessionUpdate::ToolCall(call)@ == SessionUpdateView::ToolCall(call@),
        call@.id == call.id@,
        call@.title == call.title@,
        call@.kind == call.kind,
        call@.status == call.status,
        call@.tool_name == call.tool_name@,
        call@.content == call.content.deep_view(),
        call.raw_input is Some <==> call@.raw_input is Some,
        call.raw_input matches Some(value) ==> call@.raw_input == Some(value@),
        call.raw_output is Some <==> call@.raw_output is Some,
        call.raw_output matches Some(value) ==> call@.raw_output == Some(value@),
        optional_update(None) is None,
        optional_update(Some(SessionUpdate::ToolCall(call))) == Some(
            SessionUpdateView::ToolCall(call@),
        ),
        optional_update(Some(SessionUpdate::AgentMessageChunk(text))) == Some(
            SessionUpdateView::AgentMessageChunk(text@),
        ),
        optional_update(Some(SessionUpdate::AgentThoughtChunk(text))) == Some(
            SessionUpdateView::AgentThoughtChunk(text@),
        ),
        info@.title == info.title@,
        info@.meta == info.meta.deep_view(),
{
}

} // verus!
