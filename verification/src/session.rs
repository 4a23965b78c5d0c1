//! The state of one OMP session: what has been asked of the child, and what its
//! answers settle.
use vstd::prelude::*;

use crate::json::{
    distinct_names, field_position_facts, json_text, parse_json, parsed_json, print_json,
    with_field, with_field_sets_one_field, Json, JsonView,
};
use crate::protocol::{
    errors_of_events_are_shown, errors_of_messages_are_shown, handle_message_end,
    handle_message_update, handle_tool_execution_end, handle_tool_execution_start, is_result_of,
    is_unfinished, message_end, message_update, other_events_show_nothing,
    pieces_are_shown_as_they_came, reported_error, response_error, said, tells_of_call,
    the_end_of_a_tool_is_shown, the_start_of_a_tool_is_shown, tool_execution_end,
    tool_execution_start, tool_results_are_shown, written_calls_are_shown_as_pending,
    SessionUpdate, SessionUpdateView, StopReason, ToolCallStatus,
};
use crate::text::{concatenated, decimal, decimal_text, decimal_text_is_injective, find_text};

verus! {

// ---------------------------------------------------------------------------
// Frames
// ---------------------------------------------------------------------------

/// A value on its way to the child.
#[derive(Debug, PartialEq)]
pub struct Frame {
    json: Json,
}

impl View for Frame {
    type V = JsonView;

    closed spec fn view(&self) -> JsonView {
        self.json@
    }
}

/// The text of a frame on the child's standard input: the value and a line feed.
pub open spec fn line_text(frame: JsonView) -> Seq<char> {
    json_text(frame) + "\n"@
}

impl Frame {
    #[verifier::type_invariant]
    spec fn printable(self) -> bool {
        self.json@.well_formed()
    }

    /// The value.
    pub fn json(&self) -> (json: &Json)
        ensures
            json@ == self@,
    {
        &self.json
    }

    /// The line that is written for the frame. Its only line feed is its last
    /// character.
    pub fn line(&self) -> (line: String)
        ensures
            line@ == line_text(self@),
            line@.last() == '\n',
            forall|i: int| 0 <= i < line@.len() - 1 ==> #[trigger] line@[i] != '\n',
    {
        proof {
            use_type_invariant(self);
            reveal_strlit("\n");
        }
        let text = print_json(&self.json);
        let line = concatenated(text.as_str(), "\n");
        assert forall|i: int| 0 <= i < line@.len() - 1 implies #[trigger] line@[i] != '\n' by {
            assert(line@[i] == text@[i]);
            assert(text@.contains(text@[i]));
        }
        line
    }
}

/// An object that holds texts and nothing else.
pub open spec fn text_object(fields: Seq<(Seq<char>, Seq<char>)>) -> JsonView {
    JsonView::Object(
        Seq::new(fields.len(), |i: int| (fields[i].0, JsonView::Text(fields[i].1))),
    )
}

/// What is sent for a prompt.
pub open spec fn prompt_frame(id: Seq<char>, message: Seq<char>) -> JsonView {
    text_object(seq![("type"@, "prompt"@), ("id"@, id), ("message"@, message)])
}

/// What is sent to abort a turn.
pub open spec fn abort_frame(id: Seq<char>) -> JsonView {
    text_object(seq![("type"@, "abort"@), ("id"@, id)])
}

/// The request for the session's state, before it is given an id.
pub open spec fn get_state_frame() -> JsonView {
    text_object(seq![("type"@, "get_state"@)])
}

/// A request with its id.
pub open spec fn request_frame(frame: JsonView, id: Seq<char>) -> JsonView {
    JsonView::Object(
        with_field(
            if frame is Object {
                frame->Object_0
            } else {
                Seq::empty()
            },
            "id"@,
            JsonView::Text(id),
        ),
    )
}

/// The answer that declines a request of the child's user interface.
pub open spec fn denial_frame(id: Seq<char>, answer: Seq<char>, value: bool) -> JsonView {
    JsonView::Object(
        seq![
            ("type"@, JsonView::Text("extension_ui_response"@)),
            ("id"@, JsonView::Text(id)),
            (answer, JsonView::Bool(value)),
        ],
    )
}

proof fn field_names_differ()
    ensures
        "type"@ != "id"@,
        "type"@ != "message"@,
        "id"@ != "message"@,
        "type"@ != "confirmed"@,
        "type"@ != "cancelled"@,
        "id"@ != "confirmed"@,
        "id"@ != "cancelled"@,
{
    reveal_strlit("type");
    reveal_strlit("id");
    reveal_strlit("message");
    reveal_strlit("confirmed");
    reveal_strlit("cancelled");
    assert("type"@.len() == 4 && "id"@.len() == 2 && "message"@.len() == 7);
    assert("confirmed"@.len() == 9 && "cancelled"@.len() == 9);
}

/// An object of texts, built in order.
fn text_fields(fields: Vec<(String, String)>) -> (json: Json)
    ensures
        json@ == text_object(fields.deep_view()),
{
    let ghost given = fields.deep_view();
    let mut built: Vec<(String, Json)> = Vec::new();
    for field in iter: fields
        invariant
            iter.seq() == fields@,
            given == fields.deep_view(),
            built@.len() == iter.index(),
            forall|i: int|
                0 <= i < built@.len() ==> (#[trigger] built@[i]).0@ == given[i].0
                    && built@[i].1@ == JsonView::Text(given[i].1),
    {
        built.push((field.0, Json::Text(field.1)));
    }
    let json = Json::Object(built);
    assert(json@->Object_0 =~= text_object(given)->Object_0);
    json
}

// ---------------------------------------------------------------------------
// State
// ---------------------------------------------------------------------------

/// Why a frame cannot be sent.
#[derive(Clone, Copy, Debug, PartialEq, Eq, Structural)]
pub enum SendError {
    ChildExited,
    StdinClosed,
}

impl SendError {
    /// What the user is told.
    pub open spec fn text(self) -> Seq<char> {
        match self {
            SendError::ChildExited => "OMP child exited"@,
            SendError::StdinClosed => "OMP child stdin is closed"@,
        }
    }

    /// What the user is told.
    pub fn message(&self) -> (message: String)
        ensures
            message@ == self.text(),
    {
        match self {
            SendError::ChildExited => "OMP child exited".to_owned(),
            SendError::StdinClosed => "OMP child stdin is closed".to_owned(),
        }
    }
}

/// Why a prompt was not sent.
#[derive(Clone, Copy, Debug, PartialEq, Eq, Structural)]
pub enum PromptError {
    AlreadyInProgress,
    NotSent(SendError),
}

impl PromptError {
    /// What the user is told.
    pub open spec fn text(self) -> Seq<char> {
        match self {
            PromptError::AlreadyInProgress => "OMP prompt already in progress"@,
            PromptError::NotSent(cause) => cause.text(),
        }
    }

    /// What the user is told.
    pub fn message(&self) -> (message: String)
        ensures
            message@ == self.text(),
    {
        match self {
            PromptError::AlreadyInProgress => "OMP prompt already in progress".to_owned(),
            PromptError::NotSent(cause) => cause.message(),
        }
    }
}

/// Why a request was not sent.
#[derive(Debug, PartialEq, Eq)]
pub struct RequestError {
    pub command: String,
    pub cause: SendError,
}

impl RequestError {
    /// What the user is told.
    pub open spec fn text(self) -> Seq<char> {
        "failed to send OMP "@ + self.command@ + " request: "@ + self.cause.text()
    }

    /// What the user is told.
    pub fn message(&self) -> (message: String)
        ensures
            message@ == self.text(),
    {
        let mut message = concatenated("failed to send OMP ", self.command.as_str());
        message.append(" request: ");
        message.append(self.cause.message().as_str());
        message
    }
}

/// What a session is waiting for, and whether its child can still be reached.
pub struct OmpSessionState {
    closed: bool,
    outgoing_open: bool,
    child_held: bool,
    pending_prompt: Option<String>,
    pending_requests: Vec<String>,
    next_request_id: u64,
}

/// What an [`OmpSessionState`] stands for.
#[verifier::ext_equal]
pub struct SessionView {
    /// The child has exited.
    pub closed: bool,
    /// The child's standard input takes frames.
    pub outgoing_open: bool,
    /// The child has been neither killed nor reaped.
    pub child_held: bool,
    /// The id of the prompt that waits for its turn to end.
    pub prompt: Option<Seq<char>>,
    /// The ids of the requests that wait for a response.
    pub requests: Seq<Seq<char>>,
    /// The number of the next id.
    pub next_id: nat,
}

/// The id with a given number.
pub open spec fn request_id(number: nat) -> Seq<char> {
    "req_"@ + decimal_text(number)
}

/// An optional text as what it stands for.
pub open spec fn optional_text(text: Option<String>) -> Option<Seq<char>> {
    match text {
        Some(text) => Some(text@),
        None => None,
    }
}

impl View for OmpSessionState {
    type V = SessionView;

    closed spec fn view(&self) -> SessionView {
        SessionView {
            closed: self.closed,
            outgoing_open: self.outgoing_open,
            child_held: self.child_held,
            prompt: optional_text(self.pending_prompt),
            requests: self.pending_requests.deep_view(),
            next_id: self.next_request_id as nat,
        }
    }
}

impl SessionView {
    /// The state of a session whose child has just been started.
    pub open spec fn started() -> SessionView {
        SessionView {
            closed: false,
            outgoing_open: true,
            child_held: true,
            prompt: None,
            requests: Seq::empty(),
            next_id: 0,
        }
    }

    /// An id that has been given out.
    pub open spec fn issued(self, id: Seq<char>) -> bool {
        exists|number: nat| number < self.next_id && id == #[trigger] request_id(number)
    }

    /// What holds of every session: ids in use have been given out and are used
    /// once, and a session whose child exited waits for nothing.
    pub open spec fn well_formed(self) -> bool {
        &&& forall|i: int| 0 <= i < self.requests.len() ==> self.issued(#[trigger] self.requests[i])
        &&& self.requests.no_duplicates()
        &&& self.prompt is Some ==> self.issued(self.prompt->0) && !self.requests.contains(
            self.prompt->0,
        )
        &&& self.closed ==> {
            &&& !self.outgoing_open
            &&& !self.child_held
            &&& self.prompt is None
            &&& self.requests.len() == 0
        }
    }

    /// Why a frame cannot be sent now.
    pub open spec fn send_error(self) -> Option<SendError> {
        if self.closed {
            Some(SendError::ChildExited)
        } else if !self.outgoing_open {
            Some(SendError::StdinClosed)
        } else {
            None
        }
    }

    /// The state once an id has been given out.
    pub open spec fn counted(self) -> SessionView {
        SessionView { next_id: self.next_id + 1, ..self }
    }

    /// The state once a prompt has been handed over, and what is sent for it.
    pub open spec fn prompted(self, message: Seq<char>) -> (SessionView, Result<
        JsonView,
        PromptError,
    >) {
        if self.prompt is Some {
            (self, Err(PromptError::AlreadyInProgress))
        } else {
            let id = request_id(self.next_id);
            match self.send_error() {
                Some(cause) => (self.counted(), Err(PromptError::NotSent(cause))),
                None => (
                    SessionView { prompt: Some(id), ..self.counted() },
                    Ok(prompt_frame(id, message)),
                ),
            }
        }
    }

    /// The state once a request has been handed over, and what is sent for it.
    pub open spec fn requested(self, frame: JsonView) -> (SessionView, Result<
        JsonView,
        SendError,
    >) {
        let id = request_id(self.next_id);
        match self.send_error() {
            Some(cause) => (self.counted(), Err(cause)),
            None => (
                SessionView { requests: self.requests.push(id), ..self.counted() },
                Ok(request_frame(frame, id)),
            ),
        }
    }

    /// The state once no prompt is waiting.
    pub open spec fn unprompted(self) -> SessionView {
        SessionView { prompt: None, ..self }
    }

    /// The state once the child has exited.
    pub open spec fn exited(self) -> SessionView {
        SessionView {
            closed: true,
            outgoing_open: false,
            child_held: false,
            prompt: None,
            requests: Seq::empty(),
            next_id: self.next_id,
        }
    }
}

/// What a line of the child asks for.
#[derive(Debug, PartialEq)]
pub enum OmpAction {
    /// Answer the waiting prompt.
    EndPrompt(StopReason),
    /// Answer the waiting prompt with an error.
    FailPrompt(String),
    /// Answer the request that waits under an id.
    AnswerRequest(String, Result<Json, String>),
    /// Change the thread.
    Update(SessionUpdate),
    /// Send a frame to the child.
    Send(Frame),
}

/// What an [`OmpAction`] stands for.
#[verifier::ext_equal]
pub enum OmpActionView {
    EndPrompt(StopReason),
    FailPrompt(Seq<char>),
    AnswerRequest(Seq<char>, Result<JsonView, Seq<char>>),
    Update(SessionUpdateView),
    Send(JsonView),
}

impl View for OmpAction {
    type V = OmpActionView;

    open spec fn view(&self) -> OmpActionView {
        match self {
            OmpAction::EndPrompt(reason) => OmpActionView::EndPrompt(*reason),
            OmpAction::FailPrompt(error) => OmpActionView::FailPrompt(error@),
            OmpAction::AnswerRequest(id, result) => OmpActionView::AnswerRequest(
                id@,
                match result {
                    Ok(data) => Ok(data@),
                    Err(error) => Err(error@),
                },
            ),
            OmpAction::Update(update) => OmpActionView::Update(update@),
            OmpAction::Send(frame) => OmpActionView::Send(frame@),
        }
    }
}

/// An optional action as what it stands for.
pub open spec fn optional_action(action: Option<OmpAction>) -> Option<OmpActionView> {
    match action {
        Some(action) => Some(action@),
        None => None,
    }
}

/// The action for a change of the thread.
pub open spec fn update_action(update: Option<SessionUpdateView>) -> Option<OmpActionView> {
    match update {
        Some(update) => Some(OmpActionView::Update(update)),
        None => None,
    }
}

/// The data of a successful response.
pub open spec fn response_data(frame: JsonView) -> JsonView {
    match frame.get("data"@) {
        Some(data) => data,
        None => JsonView::Null,
    }
}

/// What a response settles: a failed one the prompt with its id, any other the
/// request with its id.
pub open spec fn response_step(state: SessionView, frame: JsonView) -> (
    SessionView,
    Option<OmpActionView>,
) {
    match frame.text_field("id"@) {
        Some(id) => {
            let failed = frame.bool_field("success"@) == Some(false);
            if failed && state.prompt == Some(id) {
                (state.unprompted(), Some(OmpActionView::FailPrompt(reported_error(frame))))
            } else if state.requests.contains(id) {
                let result = if failed {
                    Err(reported_error(frame))
                } else {
                    Ok(response_data(frame))
                };
                (
                    SessionView { requests: state.requests.remove_value(id), ..state },
                    Some(OmpActionView::AnswerRequest(id, result)),
                )
            } else {
                (state, None)
            }
        },
        None => (state, None),
    }
}

/// The end of the waiting prompt, if one waits.
pub open spec fn end_step(state: SessionView, reason: StopReason) -> (
    SessionView,
    Option<OmpActionView>,
) {
    if state.prompt is Some {
        (state.unprompted(), Some(OmpActionView::EndPrompt(reason)))
    } else {
        (state, None)
    }
}

/// Why the turn ended, as a `turn_end` frame tells it.
pub open spec fn turn_stop_reason(frame: JsonView) -> Option<Seq<char>> {
    match frame.get("message"@) {
        Some(message) => message.text_field("stopReason"@),
        None => None,
    }
}

/// What the end of a turn settles: nothing where the agent goes on with a tool,
/// else the waiting prompt.
pub open spec fn turn_end_step(state: SessionView, frame: JsonView) -> (
    SessionView,
    Option<OmpActionView>,
) {
    match turn_stop_reason(frame) {
        Some(reason) => if reason == "toolUse"@ {
            (state, None)
        } else if reason == "aborted"@ {
            end_step(state, StopReason::Cancelled)
        } else {
            end_step(state, StopReason::EndTurn)
        },
        None => end_step(state, StopReason::EndTurn),
    }
}

/// The answer to a request of the child's user interface: a refusal for those
/// that wait for an answer, none for the others.
pub open spec fn ui_denial(frame: JsonView) -> Option<JsonView> {
    match (frame.text_field("id"@), frame.text_field("method"@)) {
        (Some(id), Some(method)) => if method == "confirm"@ {
            Some(denial_frame(id, "confirmed"@, false))
        } else if method == "select"@ || method == "input"@ || method == "editor"@ || method
            == "cancel"@ {
            Some(denial_frame(id, "cancelled"@, true))
        } else {
            None
        },
        _ => None,
    }
}

/// What a request of the child's user interface leads to.
pub open spec fn ui_request_action(state: SessionView, frame: JsonView) -> Option<OmpActionView> {
    match ui_denial(frame) {
        Some(denial) => if state.send_error() is None {
            Some(OmpActionView::Send(denial))
        } else {
            None
        },
        None => None,
    }
}

/// What a frame of the child leads to.
pub open spec fn frame_step(state: SessionView, frame: JsonView) -> (
    SessionView,
    Option<OmpActionView>,
) {
    match frame.text_field("type"@) {
        Some(kind) => if kind == "response"@ {
            response_step(state, frame)
        } else if kind == "message_update"@ {
            (state, update_action(message_update(frame)))
        } else if kind == "message_end"@ {
            (state, update_action(message_end(frame)))
        } else if kind == "tool_execution_start"@ {
            (state, update_action(tool_execution_start(frame)))
        } else if kind == "tool_execution_end"@ {
            (state, update_action(tool_execution_end(frame)))
        } else if kind == "agent_end"@ {
            end_step(state, StopReason::EndTurn)
        } else if kind == "turn_end"@ {
            turn_end_step(state, frame)
        } else if kind == "extension_ui_request"@ {
            (state, ui_request_action(state, frame))
        } else {
            (state, None)
        },
        None => (state, None),
    }
}

/// What a line of the child leads to. One that is not JSON leads to nothing.
pub open spec fn line_step(state: SessionView, line: Seq<char>) -> (
    SessionView,
    Option<OmpActionView>,
) {
    match parsed_json(line) {
        Some(frame) => frame_step(state, frame),
        None => (state, None),
    }
}

proof fn text_object_is_well_formed(fields: Seq<(Seq<char>, Seq<char>)>)
    requires
        forall|i: int, j: int|
            0 <= i < j < fields.len() ==> (#[trigger] fields[i]).0 != (#[trigger] fields[j]).0,
    ensures
        text_object(fields).well_formed(),
{
    let built = text_object(fields)->Object_0;
    assert forall|i: int, j: int| 0 <= i < j < built.len() implies (#[trigger] built[i]).0 != (
    #[trigger] built[j]).0 by {
        assert(fields[i].0 != fields[j].0);
    }
    assert forall|i: int| 0 <= i < built.len() implies (#[trigger] built[i]).1.well_formed() by {
        assert(built[i].1 == JsonView::Text(fields[i].1));
    }
}

proof fn frames_are_well_formed(id: Seq<char>, message: Seq<char>)
    ensures
        prompt_frame(id, message).well_formed(),
        abort_frame(id).well_formed(),
        get_state_frame().well_formed(),
{
    field_names_differ();
    text_object_is_well_formed(seq![("type"@, "prompt"@), ("id"@, id), ("message"@, message)]);
    text_object_is_well_formed(seq![("type"@, "abort"@), ("id"@, id)]);
    text_object_is_well_formed(seq![("type"@, "get_state"@)]);
}

proof fn denial_is_well_formed(id: Seq<char>, answer: Seq<char>, value: bool)
    requires
        answer != "type"@,
        answer != "id"@,
    ensures
        denial_frame(id, answer, value).well_formed(),
{
    field_names_differ();
    let fields = denial_frame(id, answer, value)->Object_0;
    assert(distinct_names(fields));
    assert forall|i: int| 0 <= i < fields.len() implies (#[trigger] fields[i]).1.well_formed() by {
        if i == 0 {
            assert(fields[i].1 is Text);
        } else if i == 1 {
            assert(fields[i].1 is Text);
        } else {
            assert(fields[i].1 is Bool);
        }
    }
}

proof fn request_is_well_formed(frame: JsonView, id: Seq<char>)
    requires
        frame is Object || frame is Null,
        frame.well_formed(),
    ensures
        request_frame(frame, id).well_formed(),
{
    let before = if frame is Object {
        frame->Object_0
    } else {
        Seq::empty()
    };
    let value = JsonView::Text(id);
    with_field_sets_one_field(before, "id"@, value);
    field_position_facts(before, "id"@);
    let after = with_field(before, "id"@, value);
    assert forall|i: int| 0 <= i < after.len() implies (#[trigger] after[i]).1.well_formed() by {
        if i < before.len() && after[i] == before[i] {
            assert(before[i].1.well_formed());
        } else {
            assert(after[i].1 == value);
        }
    }
}

/// What the end of the child settles.
#[derive(Debug, PartialEq, Eq)]
pub struct ChildExit {
    /// The answer to the waiting prompt.
    pub prompt: Option<StopReason>,
    /// The requests that wait, each with the error that answers it.
    pub rejected: Vec<(String, String)>,
    /// The child is to be waited for.
    pub reap: bool,
}

/// Every request with the same error.
pub open spec fn rejections(requests: Seq<Seq<char>>, message: Seq<char>) -> Seq<
    (Seq<char>, Seq<char>),
> {
    Seq::new(requests.len(), |i: int| (requests[i], message))
}

impl OmpSessionState {
    /// The state of a session whose child has just been started.
    pub fn new() -> (state: OmpSessionState)
        ensures
            state@ == SessionView::started(),
            state@.well_formed(),
    {
        let state = OmpSessionState {
            closed: false,
            outgoing_open: true,
            child_held: true,
            pending_prompt: None,
            pending_requests: Vec::new(),
            next_request_id: 0,
        };
        assert(state@ =~= SessionView::started());
        state
    }

    /// Another id can be given out.
    pub fn can_issue_id(&self) -> (can: bool)
        ensures
            can == (self@.next_id < u64::MAX),
    {
        self.next_request_id < u64::MAX
    }

    /// A prompt waits for the end of its turn.
    pub fn has_pending_prompt(&self) -> (pending: bool)
        ensures
            pending == self@.prompt is Some,
    {
        self.pending_prompt.is_some()
    }

    /// The next id.
    fn next_request_id(&mut self) -> (id: String)
        requires
            old(self)@.next_id < u64::MAX,
        ensures
            id@ == request_id(old(self)@.next_id),
            final(self)@ == old(self)@.counted(),
    {
        let number = self.next_request_id;
        self.next_request_id = number + 1;
        concatenated("req_", decimal(number).as_str())
    }

    /// Why a frame cannot be sent now.
    fn send_frame(&self) -> (sent: Result<(), SendError>)
        ensures
            match self@.send_error() {
                Some(cause) => sent == Err::<(), SendError>(cause),
                None => sent is Ok,
            },
    {
        if self.closed {
            Err(SendError::ChildExited)
        } else if !self.outgoing_open {
            Err(SendError::StdinClosed)
        } else {
            Ok(())
        }
    }

    /// Hands over a prompt, and gives what is sent for it.
    pub fn prompt(&mut self, prompt: &str) -> (sent: Result<Frame, PromptError>)
        requires
            old(self)@.next_id < u64::MAX,
        ensures
            final(self)@ == old(self)@.prompted(prompt@).0,
            match old(self)@.prompted(prompt@).1 {
                Ok(frame) => sent is Ok && sent->Ok_0@ == frame,
                Err(error) => sent == Err::<Frame, PromptError>(error),
            },
            old(self)@.well_formed() ==> final(self)@.well_formed(),
    {
        let ghost before = self@;
        proof {
            if before.well_formed() {
                prompting_keeps_the_invariant(before, prompt@);
            }
        }
        if self.pending_prompt.is_some() {
            return Err(PromptError::AlreadyInProgress);
        }
        let id = self.next_request_id();
        match self.send_frame() {
            Err(cause) => Err(PromptError::NotSent(cause)),
            Ok(()) => {
                self.pending_prompt = Some(id.clone());
                proof {
                    frames_are_well_formed(id@, prompt@);
                }
                let mut fields: Vec<(String, String)> = Vec::new();
                fields.push(("type".to_owned(), "prompt".to_owned()));
                fields.push(("id".to_owned(), id));
                fields.push(("message".to_owned(), prompt.to_owned()));
                assert(fields.deep_view() =~= seq![
                    ("type"@, "prompt"@),
                    ("id"@, id@),
                    ("message"@, prompt@),
                ]);
                Ok(Frame { json: text_fields(fields) })
            },
        }
    }

    /// What is sent to abort the turn. Nothing is sent where nothing can be.
    pub fn send_abort(&mut self) -> (sent: Option<Frame>)
        requires
            old(self)@.next_id < u64::MAX,
        ensures
            final(self)@ == old(self)@.counted(),
            sent is Some == old(self)@.send_error() is None,
            sent is Some ==> sent->0@ == abort_frame(request_id(old(self)@.next_id)),
            old(self)@.well_formed() ==> final(self)@.well_formed(),
    {
        let ghost before = self@;
        let id = self.next_request_id();
        proof {
            if before.well_formed() {
                counting_keeps_the_invariant(before);
            }
        }
        match self.send_frame() {
            Err(_) => None,
            Ok(()) => {
                proof {
                    frames_are_well_formed(id@, Seq::empty());
                }
                let mut fields: Vec<(String, String)> = Vec::new();
                fields.push(("type".to_owned(), "abort".to_owned()));
                fields.push(("id".to_owned(), id));
                assert(fields.deep_view() =~= seq![("type"@, "abort"@), ("id"@, id@)]);
                Some(Frame { json: text_fields(fields) })
            },
        }
    }

    /// Asks for the session's state. Where that cannot be sent, nothing waits.
    pub fn request_state_update(&mut self) -> (sent: Option<Frame>)
        requires
            old(self)@.next_id < u64::MAX,
        ensures
            final(self)@ == old(self)@.requested(get_state_frame()).0,
            match old(self)@.requested(get_state_frame()).1 {
                Ok(frame) => sent is Some && sent->0@ == frame,
                Err(_) => sent is None,
            },
            old(self)@.well_formed() ==> final(self)@.well_formed(),
    {
        let mut fields: Vec<(String, String)> = Vec::new();
        fields.push(("type".to_owned(), "get_state".to_owned()));
        assert(fields.deep_view() =~= seq![("type"@, "get_state"@)]);
        proof {
            frames_are_well_formed(Seq::empty(), Seq::empty());
        }
        match self.send_request("get_state", text_fields(fields)) {
            Ok(frame) => Some(frame),
            Err(_) => None,
        }
    }

    /// Gives a request an id, and what is sent for it.
    pub fn send_request(&mut self, command: &str, frame: Json) -> (sent: Result<
        Frame,
        RequestError,
    >)
        requires
            old(self)@.next_id < u64::MAX,
            frame@ is Object || frame@ is Null,
            frame@.well_formed(),
        ensures
            final(self)@ == old(self)@.requested(frame@).0,
            match old(self)@.requested(frame@).1 {
                Ok(request) => sent is Ok && sent->Ok_0@ == request,
                Err(cause) => sent is Err && sent->Err_0.command@ == command@
                    && sent->Err_0.cause == cause,
            },
            old(self)@.well_formed() ==> final(self)@.well_formed(),
    {
        let ghost before = self@;
        proof {
            if before.well_formed() {
                requesting_keeps_the_invariant(before, frame@);
            }
        }
        let id = self.next_request_id();
        match self.send_frame() {
            Err(cause) => Err(RequestError { command: command.to_owned(), cause }),
            Ok(()) => {
                self.pending_requests.push(id.clone());
                assert(self@ =~= before.requested(frame@).0);
                proof {
                    request_is_well_formed(frame@, id@);
                }
                let mut request = frame;
                request.set("id", Json::Text(id));
                Ok(Frame { json: request })
            },
        }
    }

    /// What a line of the child leads to.
    pub fn dispatch_line(&mut self, line: &str) -> (action: Option<OmpAction>)
        ensures
            final(self)@ == line_step(old(self)@, line@).0,
            optional_action(action) == line_step(old(self)@, line@).1,
            old(self)@.well_formed() ==> final(self)@.well_formed(),
    {
        match parse_json(line) {
            Some(frame) => self.dispatch_frame(&frame),
            None => None,
        }
    }

    /// What a frame of the child leads to.
    pub fn dispatch_frame(&mut self, frame: &Json) -> (action: Option<OmpAction>)
        ensures
            final(self)@ == frame_step(old(self)@, frame@).0,
            optional_action(action) == frame_step(old(self)@, frame@).1,
            old(self)@.well_formed() ==> final(self)@.well_formed(),
    {
        proof {
            if self@.well_formed() {
                dispatching_keeps_the_invariant(self@, frame@);
            }
        }
        let kind = match frame.text_field("type") {
            Some(kind) => kind,
            None => return None,
        };
        if kind.eq("response") {
            self.resolve_response(frame)
        } else if kind.eq("message_update") {
            update_of(handle_message_update(frame))
        } else if kind.eq("message_end") {
            update_of(handle_message_end(frame))
        } else if kind.eq("tool_execution_start") {
            update_of(handle_tool_execution_start(frame))
        } else if kind.eq("tool_execution_end") {
            update_of(handle_tool_execution_end(frame))
        } else if kind.eq("agent_end") {
            self.complete_prompt_action(StopReason::EndTurn)
        } else if kind.eq("turn_end") {
            self.handle_turn_end(frame)
        } else if kind.eq("extension_ui_request") {
            match self.handle_ui_request(frame) {
                Some(denial) => Some(OmpAction::Send(denial)),
                None => None,
            }
        } else {
            None
        }
    }

    /// What a response settles.
    fn resolve_response(&mut self, frame: &Json) -> (action: Option<OmpAction>)
        ensures
            final(self)@ == response_step(old(self)@, frame@).0,
            optional_action(action) == response_step(old(self)@, frame@).1,
    {
        let ghost before = self@;
        let id = match frame.text_field("id") {
            Some(id) => id,
            None => return None,
        };
        let failed = match frame.bool_field("success") {
            Some(success) => !success,
            None => false,
        };
        let is_prompt = match &self.pending_prompt {
            Some(prompt) => prompt.as_str().eq(id),
            None => false,
        };
        if failed && is_prompt {
            self.pending_prompt = None;
            return Some(OmpAction::FailPrompt(response_error(frame)));
        }
        match find_text(&self.pending_requests, id) {
            Some(position) => {
                self.pending_requests.remove(position);
                assert(self@.requests =~= before.requests.remove_value(id@));
                let result = if failed {
                    Err(response_error(frame))
                } else {
                    match frame.get("data") {
                        Some(data) => Ok(data.copy()),
                        None => Ok(Json::Null),
                    }
                };
                Some(OmpAction::AnswerRequest(id.to_owned(), result))
            },
            None => None,
        }
    }

    /// What the end of a turn settles.
    fn handle_turn_end(&mut self, frame: &Json) -> (action: Option<OmpAction>)
        ensures
            final(self)@ == turn_end_step(old(self)@, frame@).0,
            optional_action(action) == turn_end_step(old(self)@, frame@).1,
    {
        let reason = match frame.get("message") {
            Some(message) => message.text_field("stopReason"),
            None => None,
        };
        match reason {
            Some(reason) => if reason.eq("toolUse") {
                None
            } else if reason.eq("aborted") {
                self.complete_prompt_action(StopReason::Cancelled)
            } else {
                self.complete_prompt_action(StopReason::EndTurn)
            },
            None => self.complete_prompt_action(StopReason::EndTurn),
        }
    }

    /// The refusal that is sent for a request of the child's user interface.
    fn handle_ui_request(&self, frame: &Json) -> (denial: Option<Frame>)
        ensures
            denial is Some == (ui_denial(frame@) is Some && self@.send_error() is None),
            denial is Some ==> Some(denial->0@) == ui_denial(frame@),
    {
        let id = match frame.text_field("id") {
            Some(id) => id,
            None => return None,
        };
        let method = match frame.text_field("method") {
            Some(method) => method,
            None => return None,
        };
        proof {
            field_names_differ();
            denial_is_well_formed(id@, "confirmed"@, false);
            denial_is_well_formed(id@, "cancelled"@, true);
        }
        let mut fields: Vec<(String, Json)> = Vec::new();
        fields.push(("type".to_owned(), Json::string("extension_ui_response")));
        fields.push(("id".to_owned(), Json::string(id)));
        if method.eq("confirm") {
            let answer = Json::Bool(false);
            assert(answer@ == JsonView::Bool(false));
            fields.push(("confirmed".to_owned(), answer));
        } else if method.eq("select") || method.eq("input") || method.eq("editor") || method.eq(
            "cancel",
        ) {
            let answer = Json::Bool(true);
            assert(answer@ == JsonView::Bool(true));
            fields.push(("cancelled".to_owned(), answer));
        } else {
            return None;
        }
        let json = Json::Object(fields);
        proof {
            let built = json@->Object_0;
            let denial = ui_denial(frame@)->0->Object_0;
            assert(built[2] == denial[2]);
            assert(built =~= denial);
        }
        match self.send_frame() {
            Ok(()) => Some(Frame { json }),
            Err(_) => None,
        }
    }

    /// Ends the waiting prompt, if one waits, and gives its answer.
    pub fn complete_prompt(&mut self, reason: StopReason) -> (answer: Option<StopReason>)
        ensures
            final(self)@ == old(self)@.unprompted(),
            answer == (if old(self)@.prompt is Some {
                Some(reason)
            } else {
                None
            }),
            old(self)@.well_formed() ==> final(self)@.well_formed(),
    {
        proof {
            if self@.well_formed() {
                unprompting_keeps_the_invariant(self@);
            }
        }
        if self.pending_prompt.is_some() {
            self.pending_prompt = None;
            Some(reason)
        } else {
            None
        }
    }

    /// The end of the waiting prompt as an action.
    fn complete_prompt_action(&mut self, reason: StopReason) -> (action: Option<OmpAction>)
        ensures
            final(self)@ == end_step(old(self)@, reason).0,
            optional_action(action) == end_step(old(self)@, reason).1,
    {
        match self.complete_prompt(reason) {
            Some(reason) => Some(OmpAction::EndPrompt(reason)),
            None => None,
        }
    }

    /// Cancels the waiting prompt, if one waits.
    pub fn cancel_active_turn(&mut self) -> (answer: Option<StopReason>)
        ensures
            final(self)@ == old(self)@.unprompted(),
            answer == (if old(self)@.prompt is Some {
                Some(StopReason::Cancelled)
            } else {
                None
            }),
            old(self)@.well_formed() ==> final(self)@.well_formed(),
    {
        self.complete_prompt(StopReason::Cancelled)
    }

    /// Stops waiting for the child's responses. Each request is answered with
    /// `message`.
    pub fn reject_pending_requests(&mut self, message: &str) -> (rejected: Vec<(String, String)>)
        ensures
            final(self)@ == (SessionView { requests: Seq::empty(), ..old(self)@ }),
            rejected.deep_view() == rejections(old(self)@.requests, message@),
            old(self)@.well_formed() ==> final(self)@.well_formed(),
    {
        let ghost before = self@;
        let mut waiting: Vec<String> = Vec::new();
        std::mem::swap(&mut waiting, &mut self.pending_requests);
        let mut rejected: Vec<(String, String)> = Vec::new();
        for id in iter: waiting
            invariant
                iter.seq() == waiting@,
                before.requests == waiting.deep_view(),
                rejected@.len() == iter.index(),
                forall|i: int|
                    0 <= i < rejected@.len() ==> (#[trigger] rejected@[i]).0@ == before.requests[i]
                        && rejected@[i].1@ == message@,
        {
            rejected.push((id, message.to_owned()));
        }
        proof {
            assert(rejected.deep_view() =~= rejections(before.requests, message@));
            assert(self@ =~= SessionView { requests: Seq::empty(), ..before });
            if before.well_formed() {
                issued_by_the_same_count(before, self@);
            }
        }
        rejected
    }

    /// Takes note that the child's standard input takes no more frames.
    pub fn mark_stdin_closed(&mut self)
        ensures
            final(self)@ == (SessionView { outgoing_open: false, ..old(self)@ }),
            old(self)@.well_formed() ==> final(self)@.well_formed(),
    {
        let ghost before = self@;
        self.outgoing_open = false;
        proof {
            if before.well_formed() {
                letting_go_keeps_the_invariant(before, self@);
            }
        }
    }

    /// Takes note that the child has exited: everything that waits is answered.
    pub fn mark_child_exited(&mut self) -> (exit: ChildExit)
        ensures
            final(self)@ == old(self)@.exited(),
            final(self)@.well_formed(),
            exit.prompt == (if old(self)@.prompt is Some {
                Some(StopReason::Cancelled)
            } else {
                None
            }),
            exit.rejected.deep_view() == rejections(old(self)@.requests, "OMP child exited"@),
            exit.reap == old(self)@.child_held,
    {
        let ghost before = self@;
        self.closed = true;
        self.outgoing_open = false;
        let prompt = self.complete_prompt(StopReason::Cancelled);
        let rejected = self.reject_pending_requests("OMP child exited");
        let reap = self.child_held;
        self.child_held = false;
        assert(self@ =~= before.exited());
        ChildExit { prompt, rejected, reap }
    }

    /// Gives the child up. It is to be killed and waited for where it was held.
    pub fn kill(&mut self) -> (kill: bool)
        ensures
            final(self)@ == (SessionView { child_held: false, ..old(self)@ }),
            kill == old(self)@.child_held,
            old(self)@.well_formed() ==> final(self)@.well_formed(),
    {
        let ghost before = self@;
        let held = self.child_held;
        self.child_held = false;
        proof {
            if before.well_formed() {
                letting_go_keeps_the_invariant(before, self@);
            }
        }
        held
    }
}

/// The action for a change of the thread.
fn update_of(update: Option<SessionUpdate>) -> (action: Option<OmpAction>)
    ensures
        optional_action(action) == update_action(crate::protocol::optional_update(update)),
{
    match update {
        Some(update) => Some(OmpAction::Update(update)),
        None => None,
    }
}

// ---------------------------------------------------------------------------
// What every step keeps
// ---------------------------------------------------------------------------

/// Two different numbers give two different ids.
pub proof fn request_ids_never_repeat(left: nat, right: nat)
    requires
        request_id(left) == request_id(right),
    ensures
        left == right,
{
    assert(request_id(left).skip("req_"@.len() as int) =~= decimal_text(left));
    assert(request_id(right).skip("req_"@.len() as int) =~= decimal_text(right));
    decimal_text_is_injective(left, right);
}

/// The id that is given out next has not been given out before.
pub proof fn next_id_is_fresh(state: SessionView)
    ensures
        !state.issued(request_id(state.next_id)),
        state.counted().issued(request_id(state.next_id)),
        forall|id: Seq<char>| state.issued(id) ==> #[trigger] state.counted().issued(id),
{
    if state.issued(request_id(state.next_id)) {
        let number = choose|number: nat|
            number < state.next_id && request_id(state.next_id) == #[trigger] request_id(number);
        request_ids_never_repeat(number, state.next_id);
    }
    assert forall|id: Seq<char>| state.issued(id) implies #[trigger] state.counted().issued(id) by {
        let number = choose|number: nat|
            number < state.next_id && id == #[trigger] request_id(number);
        assert(number < state.counted().next_id && id == request_id(number));
    }
}

proof fn issued_by_the_same_count(before: SessionView, after: SessionView)
    requires
        before.next_id == after.next_id,
    ensures
        forall|id: Seq<char>| before.issued(id) ==> #[trigger] after.issued(id),
{
    assert forall|id: Seq<char>| before.issued(id) implies #[trigger] after.issued(id) by {
        let number = choose|number: nat|
            number < before.next_id && id == #[trigger] request_id(number);
        assert(number < after.next_id && id == request_id(number));
    }
}

/// Giving out an id keeps a session well formed.
pub proof fn counting_keeps_the_invariant(state: SessionView)
    requires
        state.well_formed(),
    ensures
        state.counted().well_formed(),
{
    next_id_is_fresh(state);
    assert forall|i: int| 0 <= i < state.requests.len() implies state.counted().issued(
        #[trigger] state.counted().requests[i],
    ) by {
        assert(state.issued(state.requests[i]));
    }
    if state.prompt is Some {
        assert(state.counted().issued(state.prompt->0));
    }
}

/// Giving up the child, its standard input or the waiting prompt keeps a session
/// well formed.
pub proof fn letting_go_keeps_the_invariant(before: SessionView, after: SessionView)
    requires
        before.well_formed(),
        after.closed == before.closed,
        after.outgoing_open ==> before.outgoing_open,
        after.child_held ==> before.child_held,
        after.prompt == before.prompt || after.prompt is None,
        after.requests == before.requests,
        after.next_id == before.next_id,
    ensures
        after.well_formed(),
{
    issued_by_the_same_count(before, after);
    assert forall|i: int| 0 <= i < after.requests.len() implies after.issued(
        #[trigger] after.requests[i],
    ) by {
        assert(before.issued(before.requests[i]));
    }
}

/// Ending the waiting prompt keeps a session well formed.
pub proof fn unprompting_keeps_the_invariant(state: SessionView)
    requires
        state.well_formed(),
    ensures
        state.unprompted().well_formed(),
{
    letting_go_keeps_the_invariant(state, state.unprompted());
}

/// Handing over a prompt keeps a session well formed.
pub proof fn prompting_keeps_the_invariant(state: SessionView, message: Seq<char>)
    requires
        state.well_formed(),
    ensures
        state.prompted(message).0.well_formed(),
{
    if state.prompt is None {
        let after = state.prompted(message).0;
        next_id_is_fresh(state);
        issued_by_the_same_count(state.counted(), after);
        assert forall|i: int| 0 <= i < after.requests.len() implies after.issued(
            #[trigger] after.requests[i],
        ) by {
            assert(state.issued(state.requests[i]));
            assert(state.counted().issued(state.requests[i]));
        }
        if state.requests.contains(request_id(state.next_id)) {
            let i = choose|i: int|
                0 <= i < state.requests.len() && state.requests[i] == request_id(state.next_id);
            assert(state.issued(state.requests[i]));
        }
    }
}

/// Handing over a request keeps a session well formed.
pub proof fn requesting_keeps_the_invariant(state: SessionView, frame: JsonView)
    requires
        state.well_formed(),
    ensures
        state.requested(frame).0.well_formed(),
{
    let after = state.requested(frame).0;
    let id = request_id(state.next_id);
    next_id_is_fresh(state);
    issued_by_the_same_count(state.counted(), after);
    assert forall|i: int| 0 <= i < after.requests.len() implies after.issued(
        #[trigger] after.requests[i],
    ) by {
        if i < state.requests.len() {
            assert(state.issued(state.requests[i]));
            assert(state.counted().issued(state.requests[i]));
        } else {
            assert(state.counted().issued(id));
        }
    }
    assert forall|i: int, j: int|
        0 <= i < after.requests.len() && 0 <= j < after.requests.len() && i
            != j implies after.requests[i] != after.requests[j] by {
        if i < state.requests.len() {
            assert(state.issued(state.requests[i]));
        }
        if j < state.requests.len() {
            assert(state.issued(state.requests[j]));
        }
    }
    if state.prompt is Some {
        assert(state.counted().issued(state.prompt->0));
        if after.requests.contains(state.prompt->0) {
            let i = choose|i: int|
                0 <= i < after.requests.len() && after.requests[i] == state.prompt->0;
            if i < state.requests.len() {
                assert(state.requests.contains(state.requests[i]));
            }
        }
    }
}

proof fn removal_facts(items: Seq<Seq<char>>, item: Seq<char>)
    requires
        items.no_duplicates(),
        items.contains(item),
    ensures
        items.remove_value(item).no_duplicates(),
        items.remove_value(item).len() == items.len() - 1,
        forall|other: Seq<char>| #[trigger]
            items.remove_value(item).contains(other) <==> items.contains(other) && other != item,
{
    items.index_of_first_ensures(item);
    let at = items.index_of_first(item)->0;
    let rest = items.remove_value(item);
    assert forall|other: Seq<char>| #[trigger] rest.contains(other) <==> items.contains(other)
        && other != item by {
        if rest.contains(other) {
            let i = choose|i: int| 0 <= i < rest.len() && rest[i] == other;
            if i < at {
                assert(items[i] == other);
            } else {
                assert(items[i + 1] == other);
            }
        }
        if items.contains(other) && other != item {
            let i = choose|i: int| 0 <= i < items.len() && items[i] == other;
            if i < at {
                assert(rest[i] == other);
            } else {
                assert(rest[i - 1] == other);
            }
        }
    }
}

/// Whatever frame comes from the child, the session stays well formed.
pub proof fn dispatching_keeps_the_invariant(state: SessionView, frame: JsonView)
    requires
        state.well_formed(),
    ensures
        frame_step(state, frame).0.well_formed(),
{
    let after = frame_step(state, frame).0;
    issued_by_the_same_count(state, after);
    if after.requests != state.requests {
        let id = frame.text_field("id"@)->0;
        removal_facts(state.requests, id);
        assert forall|i: int| 0 <= i < after.requests.len() implies after.issued(
            #[trigger] after.requests[i],
        ) by {
            assert(after.requests.contains(after.requests[i]));
            let j = choose|j: int|
                0 <= j < state.requests.len() && state.requests[j] == after.requests[i];
            assert(state.issued(state.requests[j]));
        }
    } else {
        assert forall|i: int| 0 <= i < after.requests.len() implies after.issued(
            #[trigger] after.requests[i],
        ) by {
            assert(state.issued(state.requests[i]));
        }
    }
}

/// A session whose child exited is well formed, and stays exited: no frame is
/// sent, no prompt is taken, and nothing waits.
pub proof fn exit_is_final(state: SessionView, message: Seq<char>, frame: JsonView)
    ensures
        state.exited().well_formed(),
        state.exited().prompted(message).1 == Err::<JsonView, PromptError>(
            PromptError::NotSent(SendError::ChildExited),
        ),
        state.exited().prompted(message).0 == state.exited().counted(),
        state.exited().requested(frame).1 == Err::<JsonView, SendError>(SendError::ChildExited),
        state.exited().requested(frame).0 == state.exited().counted(),
        frame_step(state.exited(), frame).0 == state.exited(),
        !(frame_step(state.exited(), frame).1 matches Some(OmpActionView::Send(_))),
{
}

/// A frame answers the waiting prompt exactly when the prompt stops waiting: it
/// is answered once at most, and never without an answer.
pub proof fn a_prompt_is_answered_once(state: SessionView, frame: JsonView)
    ensures
        ({
            let (after, action) = frame_step(state, frame);
            let answered = action matches Some(OmpActionView::EndPrompt(_)) || action matches Some(
                OmpActionView::FailPrompt(_),
            );
            &&& answered <==> state.prompt is Some && after.prompt is None
            &&& !answered ==> after.prompt == state.prompt
        }),
{
}

/// What could not be sent leaves nothing waiting, and its id is not given out
/// again.
pub proof fn what_is_not_sent_does_not_wait(
    state: SessionView,
    message: Seq<char>,
    frame: JsonView,
)
    requires
        state.send_error() is Some,
    ensures
        state.prompted(message).1 is Err,
        state.prompted(message).0.prompt == state.prompt,
        state.requested(frame).1 is Err,
        state.requested(frame).0.requests == state.requests,
        state.requested(frame).0.next_id == state.next_id + 1,
{
}

/// While a prompt waits, another one is refused and changes nothing.
pub proof fn one_prompt_at_a_time(state: SessionView, first: Seq<char>, second: Seq<char>)
    requires
        state.prompted(first).1 is Ok,
    ensures
        state.prompted(first).0.prompted(second) == (
            state.prompted(first).0,
            Err::<JsonView, PromptError>(PromptError::AlreadyInProgress),
        ),
{
}

/// A request is answered exactly when it stops waiting, under the id that the
/// frame carries, and no later frame answers it again.
pub proof fn a_request_is_answered_once(state: SessionView, frame: JsonView, later: JsonView)
    requires
        state.well_formed(),
    ensures
        match frame_step(state, frame) {
            (after, Some(OmpActionView::AnswerRequest(id, _))) => {
                &&& frame.text_field("id"@) == Some(id)
                &&& state.requests.contains(id)
                &&& forall|other: Seq<char>| #[trigger]
                    after.requests.contains(other) <==> state.requests.contains(other) && other
                        != id
                &&& !(frame_step(after, later).1 matches Some(
                    OmpActionView::AnswerRequest(again, _),
                ) && again == id)
            },
            (after, _) => after.requests == state.requests,
        },
{
    if let Some(OmpActionView::AnswerRequest(id, _)) = frame_step(state, frame).1 {
        removal_facts(state.requests, id);
    }
}

proof fn frame_kinds_differ()
    ensures
        "response"@ != "agent_end"@,
        "response"@ != "turn_end"@,
        "message_update"@ != "agent_end"@,
        "message_update"@ != "turn_end"@,
        "message_end"@ != "agent_end"@,
        "message_end"@ != "turn_end"@,
        "tool_execution_start"@ != "agent_end"@,
        "tool_execution_start"@ != "turn_end"@,
        "tool_execution_end"@ != "agent_end"@,
        "tool_execution_end"@ != "turn_end"@,
        "agent_end"@ != "turn_end"@,
{
    reveal_strlit("response");
    reveal_strlit("message_update");
    reveal_strlit("message_end");
    reveal_strlit("tool_execution_start");
    reveal_strlit("tool_execution_end");
    reveal_strlit("agent_end");
    reveal_strlit("turn_end");
    assert("response"@.len() == 8 && "turn_end"@.len() == 8 && "agent_end"@.len() == 9);
    assert("response"@[0] == 'r' && "turn_end"@[0] == 't');
    assert("message_update"@.len() == 14 && "message_end"@.len() == 11);
    assert("tool_execution_start"@.len() == 20 && "tool_execution_end"@.len() == 18);
}

/// The end of the agent's work ends the waiting prompt.
pub proof fn the_end_of_the_agent_ends_the_turn(state: SessionView, frame: JsonView)
    requires
        state.prompt is Some,
        frame.text_field("type"@) == Some("agent_end"@),
    ensures
        frame_step(state, frame) == (
            state.unprompted(),
            Some(OmpActionView::EndPrompt(StopReason::EndTurn)),
        ),
{
    frame_kinds_differ();
}

/// A turn that ends for the use of a tool leaves the prompt waiting; any other end
/// of a turn answers it, as cancelled where the turn was aborted.
pub proof fn only_tool_use_keeps_the_prompt_waiting(state: SessionView, frame: JsonView)
    requires
        state.prompt is Some,
        frame.text_field("type"@) == Some("turn_end"@),
    ensures
        turn_stop_reason(frame) == Some("toolUse"@) ==> frame_step(state, frame) == (
            state,
            None::<OmpActionView>,
        ),
        turn_stop_reason(frame) == Some("aborted"@) ==> frame_step(state, frame) == (
            state.unprompted(),
            Some(OmpActionView::EndPrompt(StopReason::Cancelled)),
        ),
        turn_stop_reason(frame) != Some("toolUse"@) && turn_stop_reason(frame) != Some("aborted"@)
            ==> frame_step(state, frame) == (
            state.unprompted(),
            Some(OmpActionView::EndPrompt(StopReason::EndTurn)),
        ),
{
    frame_kinds_differ();
    reveal_strlit("toolUse");
    reveal_strlit("aborted");
    assert("toolUse"@[0] == 't' && "aborted"@[0] == 'a');
}

/// A failed response to the waiting prompt ends it with the reported error.
pub proof fn a_failed_prompt_does_not_hang(state: SessionView, frame: JsonView)
    requires
        state.prompt is Some,
        frame.text_field("type"@) == Some("response"@),
        frame.text_field("id"@) == state.prompt,
        frame.bool_field("success"@) == Some(false),
    ensures
        frame_step(state, frame) == (
            state.unprompted(),
            Some(OmpActionView::FailPrompt(reported_error(frame))),
        ),
{
}

/// Whatever the child sends, the only frame that it is sent on its own account is
/// a refusal: under the id it asked with, not confirmed or cancelled.
pub proof fn ui_requests_are_denied(state: SessionView, frame: JsonView)
    ensures
        frame_step(state, frame).1 matches Some(OmpActionView::Send(sent)) ==> {
            &&& sent.text_field("type"@) == Some("extension_ui_response"@)
            &&& sent.text_field("id"@) == frame.text_field("id"@)
            &&& sent.bool_field("confirmed"@) == Some(false) || sent.bool_field("cancelled"@)
                == Some(true)
            &&& sent.bool_field("confirmed"@) != Some(true)
        },
{
    field_names_differ();
    if let Some(OmpActionView::Send(sent)) = frame_step(state, frame).1 {
        let fields = sent->Object_0;
        let rest = fields.drop_first();
        let last = rest.drop_first();
        assert(fields[0].0 == "type"@);
        assert(rest[0] == fields[1]);
        assert(last[0] == fields[2]);
        reveal_with_fuel(crate::json::first_field, 4);
        reveal_strlit("confirmed");
        reveal_strlit("cancelled");
        assert("confirmed"@[1] == 'o');
        assert("cancelled"@[1] == 'a');
        assert(last.drop_first().len() == 0);
    }
}

// ---------------------------------------------------------------------------
// What each frame leads to
// ---------------------------------------------------------------------------

/// A frame is of a kind.
pub open spec fn is_of_kind(frame: JsonView, kind: Seq<char>) -> bool {
    frame.get("type"@) == Some(JsonView::Text(kind))
}

proof fn all_frame_kinds_differ()
    ensures
        "response"@ != "message_update"@,
        "response"@ != "message_end"@,
        "response"@ != "tool_execution_start"@,
        "response"@ != "tool_execution_end"@,
        "response"@ != "agent_end"@,
        "response"@ != "turn_end"@,
        "response"@ != "extension_ui_request"@,
        "message_update"@ != "message_end"@,
        "message_update"@ != "tool_execution_start"@,
        "message_update"@ != "tool_execution_end"@,
        "message_update"@ != "agent_end"@,
        "message_update"@ != "turn_end"@,
        "message_update"@ != "extension_ui_request"@,
        "message_end"@ != "tool_execution_start"@,
        "message_end"@ != "tool_execution_end"@,
        "message_end"@ != "agent_end"@,
        "message_end"@ != "turn_end"@,
        "message_end"@ != "extension_ui_request"@,
        "tool_execution_start"@ != "tool_execution_end"@,
        "tool_execution_start"@ != "agent_end"@,
        "tool_execution_start"@ != "turn_end"@,
        "tool_execution_start"@ != "extension_ui_request"@,
        "tool_execution_end"@ != "agent_end"@,
        "tool_execution_end"@ != "turn_end"@,
        "tool_execution_end"@ != "extension_ui_request"@,
        "agent_end"@ != "turn_end"@,
        "agent_end"@ != "extension_ui_request"@,
        "turn_end"@ != "extension_ui_request"@,
{
    frame_kinds_differ();
    reveal_strlit("response");
    reveal_strlit("message_update");
    reveal_strlit("message_end");
    reveal_strlit("tool_execution_start");
    reveal_strlit("tool_execution_end");
    reveal_strlit("agent_end");
    reveal_strlit("turn_end");
    reveal_strlit("extension_ui_request");
    assert("response"@.len() == 8 && "turn_end"@.len() == 8 && "agent_end"@.len() == 9);
    assert("message_update"@.len() == 14 && "message_end"@.len() == 11);
    assert("tool_execution_start"@.len() == 20 && "tool_execution_end"@.len() == 18);
    assert("extension_ui_request"@.len() == 20);
    assert("extension_ui_request"@[0] == 'e' && "tool_execution_start"@[0] == 't');
}

/// The end of a tool's work is shown, and nothing else comes of it: the tool call is
/// failed exactly where the frame says so, else completed, and carries the output
/// and its texts.
pub proof fn dispatching_shows_the_end_of_a_tool(state: SessionView, frame: JsonView)
    requires
        is_of_kind(frame, "tool_execution_end"@),
    ensures
        frame_step(state, frame).0 == state,
        tells_of_call(frame) ==> (frame_step(state, frame).1 matches Some(
            OmpActionView::Update(SessionUpdateView::ToolCall(call)),
        ) && is_result_of(call, frame)),
        !tells_of_call(frame) ==> frame_step(state, frame).1 is None,
{
    all_frame_kinds_differ();
    the_end_of_a_tool_is_shown(frame);
}

/// The start of a tool's work is shown as being in progress, and nothing else comes
/// of it.
pub proof fn dispatching_shows_the_start_of_a_tool(state: SessionView, frame: JsonView)
    requires
        is_of_kind(frame, "tool_execution_start"@),
    ensures
        frame_step(state, frame).0 == state,
        tells_of_call(frame) ==> (frame_step(state, frame).1 matches Some(
            OmpActionView::Update(SessionUpdateView::ToolCall(call)),
        ) && is_unfinished(call, frame) && call.status == ToolCallStatus::InProgress),
        !tells_of_call(frame) ==> frame_step(state, frame).1 is None,
{
    all_frame_kinds_differ();
    the_start_of_a_tool_is_shown(frame);
}

/// A tool's result in a message is shown, and nothing else comes of it: the tool
/// call is failed exactly where the message says so, else completed, and carries the
/// output and its texts.
pub proof fn dispatching_shows_tool_results(
    state: SessionView,
    frame: JsonView,
    message: JsonView,
)
    requires
        is_of_kind(frame, "message_end"@),
        frame.get("message"@) == Some(message),
        message.get("role"@) == Some(JsonView::Text("toolResult"@)),
    ensures
        frame_step(state, frame).0 == state,
        tells_of_call(message) ==> (frame_step(state, frame).1 matches Some(
            OmpActionView::Update(SessionUpdateView::ToolCall(call)),
        ) && is_result_of(call, message)),
        !tells_of_call(message) ==> frame_step(state, frame).1 is None,
{
    all_frame_kinds_differ();
    tool_results_are_shown(frame, message);
}

/// The end of an assistant's message shows its error, where it has one, and the end
/// of any other message but a tool's result shows nothing.
pub proof fn dispatching_shows_errors_of_messages(state: SessionView, frame: JsonView)
    requires
        is_of_kind(frame, "message_end"@),
    ensures
        frame_step(state, frame).0 == state,
        frame.get("message"@) is None ==> frame_step(state, frame).1 is None,
        frame.get("message"@) matches Some(message) ==> {
            let error = said(message.get("errorMessage"@));
            &&& message.get("role"@) == Some(JsonView::Text("assistant"@)) ==> frame_step(
                state,
                frame,
            ).1 == (if error.len() > 0 {
                Some(OmpActionView::Update(SessionUpdateView::AgentMessageChunk(error)))
            } else {
                None
            })
            &&& message.get("role"@) != Some(JsonView::Text("assistant"@)) && message.get("role"@)
                != Some(JsonView::Text("toolResult"@)) ==> frame_step(state, frame).1 is None
        },
{
    all_frame_kinds_differ();
    errors_of_messages_are_shown(frame);
}

/// A piece of an assistant's text or thoughts is shown as it came, each as what it
/// is, and nothing else comes of it.
pub proof fn dispatching_shows_pieces_as_they_came(
    state: SessionView,
    frame: JsonView,
    event: JsonView,
)
    requires
        is_of_kind(frame, "message_update"@),
        frame.get("assistantMessageEvent"@) == Some(event),
    ensures
        frame_step(state, frame).0 == state,
        ({
            let piece = said(event.get("delta"@));
            &&& is_of_kind(event, "text_delta"@) ==> frame_step(state, frame).1 == (if piece.len()
                > 0 {
                Some(OmpActionView::Update(SessionUpdateView::AgentMessageChunk(piece)))
            } else {
                None
            })
            &&& is_of_kind(event, "thinking_delta"@) ==> frame_step(state, frame).1 == (
            if piece.len() > 0 {
                Some(OmpActionView::Update(SessionUpdateView::AgentThoughtChunk(piece)))
            } else {
                None
            })
        }),
{
    all_frame_kinds_differ();
    pieces_are_shown_as_they_came(frame, event);
}

/// A tool call that an assistant has written is shown as pending, and an error by
/// its text. Nothing else comes of either, nor anything of another event.
pub proof fn dispatching_shows_calls_and_errors(
    state: SessionView,
    frame: JsonView,
    event: JsonView,
)
    requires
        is_of_kind(frame, "message_update"@),
        frame.get("assistantMessageEvent"@) == Some(event),
    ensures
        frame_step(state, frame).0 == state,
        is_of_kind(event, "toolcall_end"@) && event.get("toolCall"@) is None ==> frame_step(
            state,
            frame,
        ).1 is None,
        is_of_kind(event, "toolcall_end"@) ==> (event.get("toolCall"@) matches Some(told) ==> {
            &&& tells_of_call(told) ==> (frame_step(state, frame).1 matches Some(
                OmpActionView::Update(SessionUpdateView::ToolCall(call)),
            ) && is_unfinished(call, told) && call.status == ToolCallStatus::Pending)
            &&& !tells_of_call(told) ==> frame_step(state, frame).1 is None
        }),
        is_of_kind(event, "error"@) && event.get("error"@) is None ==> frame_step(
            state,
            frame,
        ).1 is None,
        is_of_kind(event, "error"@) ==> (event.get("error"@) matches Some(error) ==> {
            let told = if error.get("errorMessage"@) is Some {
                said(error.get("errorMessage"@))
            } else {
                said(error.get("message"@))
            };
            frame_step(state, frame).1 == (if told.len() > 0 {
                Some(OmpActionView::Update(SessionUpdateView::AgentMessageChunk(told)))
            } else {
                None
            })
        }),
        !is_of_kind(event, "text_delta"@) && !is_of_kind(event, "thinking_delta"@) && !is_of_kind(
            event,
            "toolcall_end"@,
        ) && !is_of_kind(event, "error"@) ==> frame_step(state, frame).1 is None,
{
    all_frame_kinds_differ();
    if is_of_kind(event, "toolcall_end"@) {
        written_calls_are_shown_as_pending(frame, event);
    }
    if is_of_kind(event, "error"@) {
        errors_of_events_are_shown(frame, event);
    }
    other_events_show_nothing(frame);
}

/// A response settles the request with its id: with its data, `null` where it has
/// none, or with its error where it failed. It leaves everything else as it is.
pub proof fn a_response_settles_its_request(state: SessionView, frame: JsonView, id: Seq<char>)
    requires
        state.well_formed(),
        is_of_kind(frame, "response"@),
        frame.get("id"@) == Some(JsonView::Text(id)),
        state.requests.contains(id),
    ensures
        ({
            let (after, action) = frame_step(state, frame);
            let failed = frame.get("success"@) == Some(JsonView::Bool(false));
            &&& action matches Some(OmpActionView::AnswerRequest(answered, result)) && {
                &&& answered == id
                &&& failed ==> result == Err::<JsonView, Seq<char>>(
                    if frame.get("error"@) matches Some(JsonView::Text(_)) {
                        said(frame.get("error"@))
                    } else {
                        "OMP request failed"@
                    },
                )
                &&& !failed ==> result == Ok::<JsonView, Seq<char>>(
                    if frame.get("data"@) is Some {
                        frame.get("data"@)->0
                    } else {
                        JsonView::Null
                    },
                )
            }
            &&& !after.requests.contains(id)
            &&& forall|other: Seq<char>|
                other != id ==> #[trigger] after.requests.contains(other)
                    == state.requests.contains(other)
            &&& after.prompt == state.prompt
            &&& after.closed == state.closed
            &&& after.outgoing_open == state.outgoing_open
            &&& after.child_held == state.child_held
            &&& after.next_id == state.next_id
        }),
{
    all_frame_kinds_differ();
    removal_facts(state.requests, id);
}

/// A failed response to the waiting prompt ends it with the error that it tells, and
/// one that did not fail leaves it waiting. A response to nothing that waits changes
/// nothing.
pub proof fn a_response_fails_its_prompt(state: SessionView, frame: JsonView, id: Seq<char>)
    requires
        is_of_kind(frame, "response"@),
    ensures
        frame.get("id"@) == Some(JsonView::Text(id)) && state.prompt == Some(id) && frame.get(
            "success"@,
        ) == Some(JsonView::Bool(false)) ==> {
            &&& frame_step(state, frame).0 == (SessionView { prompt: None, ..state })
            &&& frame_step(state, frame).1 == Some(
                OmpActionView::FailPrompt(
                    if frame.get("error"@) matches Some(JsonView::Text(_)) {
                        said(frame.get("error"@))
                    } else {
                        "OMP request failed"@
                    },
                ),
            )
        },
        frame.get("success"@) != Some(JsonView::Bool(false)) ==> frame_step(state, frame).0.prompt
            == state.prompt,
        frame.get("id"@) == Some(JsonView::Text(id)) && state.prompt != Some(id)
            && !state.requests.contains(id) ==> frame_step(state, frame) == (
            state,
            None::<OmpActionView>,
        ),
        !(frame.get("id"@) matches Some(JsonView::Text(_))) ==> frame_step(state, frame) == (
            state,
            None::<OmpActionView>,
        ),
{
    all_frame_kinds_differ();
}

/// The end of the agent's work or of a turn answers the waiting prompt, as cancelled
/// where the turn was aborted; a turn that ends for the use of a tool does not.
/// Nothing but the prompt changes, and where none waits nothing happens.
pub proof fn the_end_of_a_turn_answers_the_prompt(state: SessionView, frame: JsonView)
    requires
        is_of_kind(frame, "agent_end"@) || is_of_kind(frame, "turn_end"@),
    ensures
        ({
            let told = if frame.get("message"@) is Some {
                said(frame.get("message"@)->0.get("stopReason"@))
            } else {
                Seq::empty()
            };
            let of_turn = is_of_kind(frame, "turn_end"@);
            let step = frame_step(state, frame);
            &&& state.prompt is None ==> step == (state, None::<OmpActionView>)
            &&& of_turn && told == "toolUse"@ ==> step == (state, None::<OmpActionView>)
            &&& state.prompt is Some && of_turn && told == "aborted"@ ==> {
                &&& step.0 == (SessionView { prompt: None, ..state })
                &&& step.1 == Some(OmpActionView::EndPrompt(StopReason::Cancelled))
            }
            &&& state.prompt is Some && (!of_turn || (told != "toolUse"@ && told != "aborted"@))
                ==> {
                &&& step.0 == (SessionView { prompt: None, ..state })
                &&& step.1 == Some(OmpActionView::EndPrompt(StopReason::EndTurn))
            }
        }),
{
    all_frame_kinds_differ();
    reveal_strlit("toolUse");
    reveal_strlit("aborted");
    assert("toolUse"@.len() == 7 && "aborted"@.len() == 7);
    assert("toolUse"@[0] == 't' && "aborted"@[0] == 'a');
}

/// A frame of another kind, or of none, leads to nothing.
pub proof fn other_frames_lead_to_nothing(state: SessionView, frame: JsonView)
    requires
        !is_of_kind(frame, "response"@),
        !is_of_kind(frame, "message_update"@),
        !is_of_kind(frame, "message_end"@),
        !is_of_kind(frame, "tool_execution_start"@),
        !is_of_kind(frame, "tool_execution_end"@),
        !is_of_kind(frame, "agent_end"@),
        !is_of_kind(frame, "turn_end"@),
        !is_of_kind(frame, "extension_ui_request"@),
    ensures
        frame_step(state, frame) == (state, None::<OmpActionView>),
{
}

/// A line is what its text reads as: one that is not JSON leads to nothing, and any
/// other to what its frame leads to.
pub proof fn lines_are_read_as_frames(state: SessionView, line: Seq<char>)
    ensures
        parsed_json(line) is None ==> line_step(state, line) == (state, None::<OmpActionView>),
        parsed_json(line) matches Some(frame) ==> line_step(state, line) == frame_step(
            state,
            frame,
        ),
{
}

proof fn ui_methods_differ()
    ensures
        "confirm"@ != "select"@,
        "confirm"@ != "input"@,
        "confirm"@ != "editor"@,
        "confirm"@ != "cancel"@,
{
    reveal_strlit("confirm");
    reveal_strlit("select");
    reveal_strlit("input");
    reveal_strlit("editor");
    reveal_strlit("cancel");
    assert("confirm"@.len() == 7 && "select"@.len() == 6 && "input"@.len() == 5);
    assert("editor"@.len() == 6 && "cancel"@.len() == 6);
}

/// A request of the child's user interface that waits for an answer gets one while
/// the child can be reached: not confirmed where it asks for that, cancelled where
/// it asks for more, under its own id. Any other gets none, and the session stays as
/// it is.
pub proof fn waiting_ui_requests_are_refused(
    state: SessionView,
    frame: JsonView,
    id: Seq<char>,
    method: Seq<char>,
)
    requires
        is_of_kind(frame, "extension_ui_request"@),
        frame.get("id"@) == Some(JsonView::Text(id)),
        frame.get("method"@) == Some(JsonView::Text(method)),
    ensures
        ({
            let step = frame_step(state, frame);
            let reached = !state.closed && state.outgoing_open;
            let asks_for_more = method == "select"@ || method == "input"@ || method == "editor"@
                || method == "cancel"@;
            &&& step.0 == state
            &&& reached && method == "confirm"@ ==> step.1 == Some(
                OmpActionView::Send(
                    JsonView::Object(
                        seq![
                            ("type"@, JsonView::Text("extension_ui_response"@)),
                            ("id"@, JsonView::Text(id)),
                            ("confirmed"@, JsonView::Bool(false)),
                        ],
                    ),
                ),
            )
            &&& reached && asks_for_more ==> step.1 == Some(
                OmpActionView::Send(
                    JsonView::Object(
                        seq![
                            ("type"@, JsonView::Text("extension_ui_response"@)),
                            ("id"@, JsonView::Text(id)),
                            ("cancelled"@, JsonView::Bool(true)),
                        ],
                    ),
                ),
            )
            &&& !reached || (method != "confirm"@ && !asks_for_more) ==> step.1 is None
        }),
{
    all_frame_kinds_differ();
    ui_methods_differ();
}

/// A request of the child's user interface without an id or a method gets no answer.
pub proof fn nameless_ui_requests_get_no_answer(state: SessionView, frame: JsonView)
    requires
        is_of_kind(frame, "extension_ui_request"@),
        !(frame.get("id"@) matches Some(JsonView::Text(_))) || !(frame.get("method"@) matches Some(
            JsonView::Text(_),
        )),
    ensures
        frame_step(state, frame) == (state, None::<OmpActionView>),
{
    all_frame_kinds_differ();
}

// ---------------------------------------------------------------------------
// What is sent
// ---------------------------------------------------------------------------

/// A session starts with a child that can be reached, waits for nothing, and has
/// given out no id.
pub proof fn a_new_session_waits_for_nothing(id: Seq<char>)
    ensures
        ({
            let state = SessionView::started();
            &&& !state.closed && state.outgoing_open && state.child_held
            &&& state.prompt is None
            &&& state.requests.len() == 0
            &&& !state.issued(id)
        }),
{
}

/// A prompt is sent under a new id, with its text, and waits under that id; nothing
/// else changes but the count of the ids. It is refused while another one waits or
/// the child cannot be reached, and then does not wait.
pub proof fn a_prompt_is_sent_and_waits(state: SessionView, message: Seq<char>)
    ensures
        ({
            let (after, sent) = state.prompted(message);
            let id = "req_"@ + decimal_text(state.next_id);
            let reached = !state.closed && state.outgoing_open;
            &&& state.prompt is Some ==> after == state && sent == Err::<JsonView, PromptError>(
                PromptError::AlreadyInProgress,
            )
            &&& state.prompt is None && state.closed ==> sent == Err::<JsonView, PromptError>(
                PromptError::NotSent(SendError::ChildExited),
            )
            &&& state.prompt is None && !state.closed && !state.outgoing_open ==> sent == Err::<
                JsonView,
                PromptError,
            >(PromptError::NotSent(SendError::StdinClosed))
            &&& state.prompt is None && !reached ==> after == (SessionView {
                next_id: state.next_id + 1,
                ..state
            })
            &&& state.prompt is None && reached ==> {
                &&& sent == Ok::<JsonView, PromptError>(
                    JsonView::Object(
                        seq![
                            ("type"@, JsonView::Text("prompt"@)),
                            ("id"@, JsonView::Text(id)),
                            ("message"@, JsonView::Text(message)),
                        ],
                    ),
                )
                &&& after == (SessionView {
                    prompt: Some(id),
                    next_id: state.next_id + 1,
                    ..state
                })
            }
        }),
{
    let id = "req_"@ + decimal_text(state.next_id);
    assert(prompt_frame(id, message)->Object_0 =~= seq![
        ("type"@, JsonView::Text("prompt"@)),
        ("id"@, JsonView::Text(id)),
        ("message"@, JsonView::Text(message)),
    ]);
}

/// A request is sent under a new id, as it was given but for that id, and waits under
/// it; nothing else changes but the count of the ids. Where the child cannot be
/// reached it does not wait.
pub proof fn a_request_is_sent_and_waits(state: SessionView, frame: JsonView, name: Seq<char>)
    requires
        frame is Object || frame is Null,
    ensures
        ({
            let (after, sent) = state.requested(frame);
            let id = "req_"@ + decimal_text(state.next_id);
            &&& state.closed ==> sent == Err::<JsonView, SendError>(SendError::ChildExited)
            &&& !state.closed && !state.outgoing_open ==> sent == Err::<JsonView, SendError>(
                SendError::StdinClosed,
            )
            &&& state.closed || !state.outgoing_open ==> after == (SessionView {
                next_id: state.next_id + 1,
                ..state
            })
            &&& !state.closed && state.outgoing_open ==> {
                &&& sent is Ok
                &&& sent->Ok_0.get("id"@) == Some(JsonView::Text(id))
                &&& name != "id"@ ==> sent->Ok_0.get(name) == frame.get(name)
                &&& after == (SessionView {
                    requests: state.requests.push(id),
                    next_id: state.next_id + 1,
                    ..state
                })
            }
        }),
{
    let before = if frame is Object {
        frame->Object_0
    } else {
        Seq::empty()
    };
    with_field_sets_one_field(before, "id"@, JsonView::Text("req_"@ + decimal_text(state.next_id)));
}

/// What asks for the state and what aborts a turn say so, and the latter under its
/// id. An id tells its number.
pub proof fn commands_say_what_they_ask_for(id: Seq<char>, number: nat)
    ensures
        get_state_frame() == JsonView::Object(seq![("type"@, JsonView::Text("get_state"@))]),
        abort_frame(id) == JsonView::Object(
            seq![("type"@, JsonView::Text("abort"@)), ("id"@, JsonView::Text(id))],
        ),
        request_id(number).take(4) == "req_"@,
        crate::text::digits_value(request_id(number).skip(4)) == number,
{
    assert(get_state_frame()->Object_0 =~= seq![("type"@, JsonView::Text("get_state"@))]);
    assert(abort_frame(id)->Object_0 =~= seq![
        ("type"@, JsonView::Text("abort"@)),
        ("id"@, JsonView::Text(id)),
    ]);
    reveal_strlit("req_");
    assert(request_id(number).take(4) =~= "req_"@);
    assert(request_id(number).skip(4) =~= decimal_text(number));
    crate::text::decimal_text_reads_back(number);
}

/// A frame is written as its text and a line feed behind it.
pub proof fn a_frame_is_written_on_a_line(frame: JsonView)
    ensures
        line_text(frame).len() == json_text(frame).len() + 1,
        line_text(frame).last() == '\n',
        line_text(frame).drop_last() == json_text(frame),
{
    reveal_strlit("\n");
    assert(line_text(frame).drop_last() =~= json_text(frame));
}

/// What could not be done is told: that the child has exited, that its input is
/// closed, that another prompt waits, and which request was not sent and why.
pub proof fn refusals_are_told(error: RequestError)
    ensures
        SendError::ChildExited.text() == "OMP child exited"@,
        SendError::StdinClosed.text() == "OMP child stdin is closed"@,
        PromptError::AlreadyInProgress.text() == "OMP prompt already in progress"@,
        PromptError::NotSent(SendError::ChildExited).text() == "OMP child exited"@,
        PromptError::NotSent(SendError::StdinClosed).text() == "OMP child stdin is closed"@,
        error.cause == SendError::ChildExited ==> error.text() == "failed to send OMP "@
            + error.command@ + " request: "@ + "OMP child exited"@,
        error.cause == SendError::StdinClosed ==> error.text() == "failed to send OMP "@
            + error.command@ + " request: "@ + "OMP child stdin is closed"@,
{
}

/// When everything that waits is rejected, each request is told the same, in the
/// order in which they wait.
pub proof fn every_request_is_rejected(requests: Seq<Seq<char>>, message: Seq<char>)
    ensures
        rejections(requests, message).len() == requests.len(),
        forall|i: int|
            0 <= i < requests.len() ==> #[trigger] rejections(requests, message)[i] == (
                requests[i],
                message,
            ),
{
}

/// A session whose child has exited can neither be reached nor waits for anything,
/// and remembers how many ids it gave out. One that gives its prompt up changes in
/// nothing else.
pub proof fn an_exit_leaves_nothing_waiting(state: SessionView)
    ensures
        ({
            let after = state.exited();
            &&& after.closed && !after.outgoing_open && !after.child_held
            &&& after.prompt is None
            &&& after.requests.len() == 0
            &&& after.next_id == state.next_id
        }),
        state.unprompted() == (SessionView { prompt: None, ..state }),
        state.counted() == (SessionView { next_id: state.next_id + 1, ..state }),
{
}

/// An action stands for what it holds.
pub proof fn an_action_stands_for_what_it_holds(
    reason: StopReason,
    text: String,
    data: Json,
    update: SessionUpdate,
    frame: Frame,
)
    ensures
        OmpAction::EndPrompt(reason)@ == OmpActionView::EndPrompt(reason),
        OmpAction::FailPrompt(text)@ == OmpActionView::FailPrompt(text@),
        OmpAction::AnswerRequest(text, Ok(data))@ == OmpActionView::AnswerRequest(
            text@,
            Ok(data@),
        ),
        OmpAction::AnswerRequest(text, Err(text))@ == OmpActionView::AnswerRequest(
            text@,
            Err(text@),
        ),
        OmpAction::Update(update)@ == OmpActionView::Update(update@),
        OmpAction::Send(frame)@ == OmpActionView::Send(frame@),
        optional_action(None) is None,
        optional_action(Some(OmpAction::EndPrompt(reason))) == Some(
            OmpActionView::EndPrompt(reason),
        ),
        optional_action(Some(OmpAction::FailPrompt(text))) == Some(
            OmpActionView::FailPrompt(text@),
        ),
        optional_action(Some(OmpAction::Update(update))) == Some(OmpActionView::Update(update@)),
        optional_action(Some(OmpAction::Send(frame))) == Some(OmpActionView::Send(frame@)),
{
}

/// A session whose child exited waits for nothing and sends nothing more. Every id that
/// a session waits for has been given out, and no two waiting calls share one.
pub proof fn every_waiting_call_has_its_own_id(state: SessionView, i: int, j: int)
    requires
        state.well_formed(),
    ensures
        state.closed ==> state.prompt is None && state.requests.len() == 0 && !state.outgoing_open
            && !state.child_held,
        0 <= i < j < state.requests.len() ==> state.requests[i] != state.requests[j],
        0 <= i < state.requests.len() ==> state.issued(state.requests[i]),
        0 <= i < state.requests.len() ==> state.prompt != Some(state.requests[i]),
        state.prompt matches Some(id) ==> state.issued(id),
{
}

} // verus!
