//! The prompt that asks the user to answer a request of the runtime.
use vstd::prelude::*;

use crate::text::{
    are_filled_places, concatenated, filled_parts, filled_parts_stand_in_order, join, joined,
    parts_at,
};
use crate::ui::{
    button, optional_label, small, Button, ButtonModel, ButtonStyle, Color, Label, LabelModel,
    LabelSize,
};

verus! {

// ---------------------------------------------------------------------------
// Requests and answers
// ---------------------------------------------------------------------------

/// What a request asks for.
#[derive(Clone, Copy, Debug, PartialEq, Eq, Structural)]
pub enum UiRequestKind {
    Approval,
    OpenUrl,
    Input,
    Select,
    Editor,
}

/// What a request is about.
#[derive(Clone, Debug, PartialEq, Eq)]
pub struct UiRequestScope {
    pub tool: Option<String>,
    pub action: Option<String>,
    pub path: Option<String>,
    pub workspace: Option<String>,
    pub session: Option<String>,
}

impl Default for UiRequestScope {
    fn default() -> (scope: UiRequestScope)
        ensures
            scope.tool is None,
            scope.action is None,
            scope.path is None,
            scope.workspace is None,
            scope.session is None,
    {
        UiRequestScope { tool: None, action: None, path: None, workspace: None, session: None }
    }
}

/// An option that can be chosen.
#[derive(Clone, Debug, PartialEq, Eq)]
pub struct UiRequestOption {
    pub id: String,
    pub label: String,
}

/// A request of the runtime.
#[derive(Clone, Debug, PartialEq, Eq)]
pub struct UiRequest {
    pub id: String,
    pub kind: UiRequestKind,
    pub message: String,
    pub scope: UiRequestScope,
    pub options: Vec<UiRequestOption>,
    pub default_value: Option<String>,
    pub url: Option<String>,
}

/// What a [`UiRequest`] stands for.
#[verifier::ext_equal]
pub struct UiRequestModel {
    pub id: Seq<char>,
    pub kind: UiRequestKind,
    pub message: Seq<char>,
    pub scope: UiRequestScope,
    /// Id and label of each option.
    pub options: Seq<(Seq<char>, Seq<char>)>,
    pub default_value: Option<Seq<char>>,
    pub url: Option<Seq<char>>,
}

/// Options as what they stand for.
pub open spec fn option_models(options: Seq<UiRequestOption>) -> Seq<(Seq<char>, Seq<char>)> {
    Seq::new(options.len(), |i: int| (options[i].id@, options[i].label@))
}

impl View for UiRequest {
    type V = UiRequestModel;

    open spec fn view(&self) -> UiRequestModel {
        UiRequestModel {
            id: self.id@,
            kind: self.kind,
            message: self.message@,
            scope: self.scope,
            options: option_models(self.options@),
            default_value: self.default_value.deep_view(),
            url: self.url.deep_view(),
        }
    }
}

/// An answer to a request.
#[derive(Clone, Debug, PartialEq, Eq)]
pub enum UiResponse {
    Approve,
    Deny,
    Cancel,
    Input(String),
    Select(String),
}

/// What a [`UiResponse`] stands for.
#[verifier::ext_equal]
pub enum UiResponseModel {
    Approve,
    Deny,
    Cancel,
    Input(Seq<char>),
    Select(Seq<char>),
}

impl View for UiResponse {
    type V = UiResponseModel;

    open spec fn view(&self) -> UiResponseModel {
        match self {
            UiResponse::Approve => UiResponseModel::Approve,
            UiResponse::Deny => UiResponseModel::Deny,
            UiResponse::Cancel => UiResponseModel::Cancel,
            UiResponse::Input(value) => UiResponseModel::Input(value@),
            UiResponse::Select(id) => UiResponseModel::Select(id@),
        }
    }
}

/// An answer on its way to the runtime, under the id of its request.
#[derive(Clone, Debug, PartialEq, Eq)]
pub struct UiAnswer {
    pub request_id: String,
    pub response: UiResponse,
}

/// An optional answer as what it stands for: the id and the response.
pub open spec fn optional_answer(answer: Option<UiAnswer>) -> Option<
    (Seq<char>, UiResponseModel),
> {
    match answer {
        Some(answer) => Some((answer.request_id@, answer.response@)),
        None => None,
    }
}

// ---------------------------------------------------------------------------
// What is shown
// ---------------------------------------------------------------------------

/// What a control does.
#[derive(Clone, Debug, PartialEq, Eq)]
pub enum ControlAction {
    Deny,
    Approve,
    OpenUrl,
    Submit,
    Select(String),
}

/// What a [`ControlAction`] stands for.
#[verifier::ext_equal]
pub enum ControlActionModel {
    Deny,
    Approve,
    OpenUrl,
    Submit,
    Select(Seq<char>),
}

impl View for ControlAction {
    type V = ControlActionModel;

    open spec fn view(&self) -> ControlActionModel {
        match self {
            ControlAction::Deny => ControlActionModel::Deny,
            ControlAction::Approve => ControlActionModel::Approve,
            ControlAction::OpenUrl => ControlActionModel::OpenUrl,
            ControlAction::Submit => ControlActionModel::Submit,
            ControlAction::Select(id) => ControlActionModel::Select(id@),
        }
    }
}

/// A button and what it does.
#[derive(Clone, Debug, PartialEq, Eq)]
pub struct Control {
    pub button: Button,
    pub action: ControlAction,
}

/// Controls as what they stand for.
pub open spec fn control_models(controls: Seq<Control>) -> Seq<(ButtonModel, ControlActionModel)> {
    Seq::new(controls.len(), |i: int| (controls[i].button@, controls[i].action@))
}

/// What the prompt shows.
#[derive(Debug, PartialEq, Eq)]
pub struct UiRequestPanel {
    /// The control that declines is to be given the focus.
    pub focus_deny: bool,
    pub badge: Label,
    pub message: Option<Label>,
    pub scope: Option<Label>,
    /// The editor stands before the controls.
    pub editor: bool,
    pub controls: Vec<Control>,
}

/// What a [`UiRequestPanel`] stands for.
#[verifier::ext_equal]
pub struct UiRequestPanelModel {
    pub focus_deny: bool,
    pub badge: LabelModel,
    pub message: Option<LabelModel>,
    pub scope: Option<LabelModel>,
    pub editor: bool,
    pub controls: Seq<(ButtonModel, ControlActionModel)>,
}

impl View for UiRequestPanel {
    type V = UiRequestPanelModel;

    open spec fn view(&self) -> UiRequestPanelModel {
        UiRequestPanelModel {
            focus_deny: self.focus_deny,
            badge: self.badge@,
            message: optional_label(self.message),
            scope: optional_label(self.scope),
            editor: self.editor,
            controls: control_models(self.controls@),
        }
    }
}

/// The badge of a request.
pub open spec fn badge_text(kind: UiRequestKind) -> Seq<char> {
    match kind {
        UiRequestKind::Approval => "Needs approval"@,
        UiRequestKind::OpenUrl => "Open link"@,
        UiRequestKind::Input | UiRequestKind::Editor => "Needs input"@,
        UiRequestKind::Select => "Needs a choice"@,
    }
}

/// A request that is answered with a text.
pub open spec fn takes_text(kind: UiRequestKind) -> bool {
    kind == UiRequestKind::Input || kind == UiRequestKind::Editor
}

/// The answer that declines a request.
pub open spec fn denial(kind: UiRequestKind) -> UiResponseModel {
    match kind {
        UiRequestKind::Approval | UiRequestKind::OpenUrl => UiResponseModel::Deny,
        UiRequestKind::Input | UiRequestKind::Select | UiRequestKind::Editor =>
            UiResponseModel::Cancel,
    }
}

/// The label of the control that declines.
pub open spec fn denial_text(kind: UiRequestKind) -> Seq<char> {
    match kind {
        UiRequestKind::Approval | UiRequestKind::OpenUrl => "Deny"@,
        UiRequestKind::Input | UiRequestKind::Select | UiRequestKind::Editor => "Cancel"@,
    }
}

/// A part of the scope with its name, where it is known.
pub open spec fn scope_part(name: Seq<char>, value: Option<String>) -> Seq<Seq<char>> {
    match value {
        Some(value) => seq![name + value@],
        None => Seq::empty(),
    }
}

/// The parts of the scope that are known.
pub open spec fn scope_parts(scope: UiRequestScope) -> Seq<Seq<char>> {
    scope_part("tool: "@, scope.tool) + scope_part("action: "@, scope.action) + scope_part(
        "path: "@,
        scope.path,
    ) + scope_part("workspace: "@, scope.workspace) + scope_part("session: "@, scope.session)
}

/// The scope in words; nothing where no part of it is known.
pub open spec fn scope_label(scope: UiRequestScope) -> Option<LabelModel> {
    if scope_parts(scope).len() == 0 {
        None
    } else {
        Some(small(joined(scope_parts(scope), "  ·  "@), Color::Muted))
    }
}

/// The control that declines.
pub open spec fn deny_control(kind: UiRequestKind) -> (ButtonModel, ControlActionModel) {
    (
        button("ui-request-deny"@, denial_text(kind), ButtonStyle::Plain),
        ControlActionModel::Deny,
    )
}

/// The controls for the options.
pub open spec fn option_controls(options: Seq<(Seq<char>, Seq<char>)>) -> Seq<
    (ButtonModel, ControlActionModel),
> {
    Seq::new(
        options.len(),
        |i: int|
            (
                button("ui-request-option-"@ + options[i].0, options[i].1, ButtonStyle::Plain),
                ControlActionModel::Select(options[i].0),
            ),
    )
}

/// The controls of a request: the one that declines, and those that answer it.
pub open spec fn controls_of(request: UiRequestModel) -> Seq<(ButtonModel, ControlActionModel)> {
    let deny = deny_control(request.kind);
    match request.kind {
        UiRequestKind::Approval => seq![
            deny,
            (
                button("ui-request-approve"@, "Approve"@, ButtonStyle::Accent),
                ControlActionModel::Approve,
            ),
        ],
        UiRequestKind::OpenUrl => seq![
            deny,
            (
                button("ui-request-open-url"@, "Open link"@, ButtonStyle::Accent),
                ControlActionModel::OpenUrl,
            ),
        ],
        UiRequestKind::Input | UiRequestKind::Editor => seq![
            deny,
            (
                button("ui-request-submit"@, "Submit"@, ButtonStyle::Accent),
                ControlActionModel::Submit,
            ),
        ],
        UiRequestKind::Select => option_controls(request.options).push(deny),
    }
}

/// What the prompt shows.
pub open spec fn shown(prompt: PromptModel) -> UiRequestPanelModel {
    let request = prompt.request;
    UiRequestPanelModel {
        focus_deny: !prompt.focused_default,
        badge: small(badge_text(request.kind), Color::Accent),
        message: if request.message.len() > 0 {
            Some(
                LabelModel {
                    text: request.message,
                    size: LabelSize::Default,
                    color: Color::Default,
                },
            )
        } else {
            None
        },
        scope: scope_label(request.scope),
        editor: takes_text(request.kind) && prompt.has_editor,
        controls: controls_of(request),
    }
}

// ---------------------------------------------------------------------------
// The prompt
// ---------------------------------------------------------------------------

/// The prompt that asks the user to answer one request. To decline is the
/// default, and the first answer is the only one.
pub struct UiRequestPrompt {
    thread: u64,
    request: UiRequest,
    has_editor: bool,
    answered: bool,
    focused_default: bool,
}

/// What a [`UiRequestPrompt`] stands for.
#[verifier::ext_equal]
pub struct PromptModel {
    /// The thread that the answer goes to.
    pub thread: u64,
    pub request: UiRequestModel,
    /// There is an editor to answer in.
    pub has_editor: bool,
    pub answered: bool,
    /// The control that declines has been given the focus.
    pub focused_default: bool,
}

impl View for UiRequestPrompt {
    type V = PromptModel;

    closed spec fn view(&self) -> PromptModel {
        PromptModel {
            thread: self.thread,
            request: self.request@,
            has_editor: self.has_editor,
            answered: self.answered,
            focused_default: self.focused_default,
        }
    }
}

impl PromptModel {
    /// The prompt for a request that nobody has seen yet.
    pub open spec fn opened(thread: u64, request: UiRequestModel) -> PromptModel {
        PromptModel {
            thread,
            request,
            has_editor: takes_text(request.kind),
            answered: false,
            focused_default: false,
        }
    }

    /// The prompt once it has been answered.
    pub open spec fn settled(self) -> PromptModel {
        PromptModel { answered: true, ..self }
    }

    /// What goes to the runtime for a response: nothing once the request has been
    /// answered.
    pub open spec fn answer(self, response: UiResponseModel) -> Option<
        (Seq<char>, UiResponseModel),
    > {
        if self.answered {
            None
        } else {
            Some((self.request.id, response))
        }
    }
}

/// What a pressed control leads to: the prompt, the link that is opened, and the
/// answer that goes to the runtime.
pub open spec fn pressed(prompt: PromptModel, action: ControlActionModel, text: Seq<char>) -> (
    PromptModel,
    Option<Seq<char>>,
    Option<(Seq<char>, UiResponseModel)>,
) {
    match action {
        ControlActionModel::Deny => (
            prompt.settled(),
            None,
            prompt.answer(denial(prompt.request.kind)),
        ),
        ControlActionModel::Approve => (
            prompt.settled(),
            None,
            prompt.answer(UiResponseModel::Approve),
        ),
        ControlActionModel::OpenUrl => (
            prompt.settled(),
            if prompt.answered {
                None
            } else {
                prompt.request.url
            },
            prompt.answer(UiResponseModel::Approve),
        ),
        ControlActionModel::Submit => if prompt.has_editor {
            (prompt.settled(), None, prompt.answer(UiResponseModel::Input(text)))
        } else {
            (prompt, None, None)
        },
        ControlActionModel::Select(id) => (
            prompt.settled(),
            None,
            prompt.answer(UiResponseModel::Select(id)),
        ),
    }
}

/// A link that is to be opened, and the answer that goes to the runtime.
#[derive(Debug, PartialEq, Eq)]
pub struct UrlOpening {
    pub url: Option<String>,
    pub answer: Option<UiAnswer>,
}

impl UiRequestPrompt {
    /// The prompt for a request, and the text that its editor starts with, where
    /// it has one.
    pub fn new(thread: u64, request: UiRequest) -> (prompt: (UiRequestPrompt, Option<String>))
        ensures
            prompt.0@ == PromptModel::opened(thread, request@),
            prompt.1 is Some == takes_text(request.kind),
            prompt.1 is Some ==> prompt.1->0@ == (match request@.default_value {
                Some(text) => text,
                None => Seq::empty(),
            }),
    {
        let has_editor = Self::is_text_kind(request.kind);
        let text = if has_editor {
            match &request.default_value {
                Some(text) => Some(text.clone()),
                None => {
                    let empty = String::new();
                    assert(empty@ =~= Seq::empty());
                    Some(empty)
                },
            }
        } else {
            None
        };
        let prompt = UiRequestPrompt {
            thread,
            request,
            has_editor,
            answered: false,
            focused_default: false,
        };
        (prompt, text)
    }

    /// A request that is answered with a text.
    fn is_text_kind(kind: UiRequestKind) -> (takes: bool)
        ensures
            takes == takes_text(kind),
    {
        match kind {
            UiRequestKind::Input | UiRequestKind::Editor => true,
            _ => false,
        }
    }

    /// The id of the request.
    pub fn request_id(&self) -> (id: String)
        ensures
            id@ == self@.request.id,
    {
        self.request.id.clone()
    }

    /// The thread that the answer goes to.
    pub fn thread(&self) -> (thread: u64)
        ensures
            thread == self@.thread,
    {
        self.thread
    }

    /// Answers the request, unless it has been answered.
    fn respond(&mut self, response: UiResponse) -> (answer: Option<UiAnswer>)
        ensures
            final(self)@ == old(self)@.settled(),
            optional_answer(answer) == old(self)@.answer(response@),
    {
        if self.answered {
            return None;
        }
        self.answered = true;
        Some(UiAnswer { request_id: self.request.id.clone(), response })
    }

    /// Approves.
    pub fn approve(&mut self) -> (answer: Option<UiAnswer>)
        ensures
            final(self)@ == old(self)@.settled(),
            optional_answer(answer) == old(self)@.answer(UiResponseModel::Approve),
    {
        self.respond(UiResponse::Approve)
    }

    /// Declines. This is also what the escape key does.
    pub fn deny(&mut self) -> (answer: Option<UiAnswer>)
        ensures
            final(self)@ == old(self)@.settled(),
            optional_answer(answer) == old(self)@.answer(denial(old(self)@.request.kind)),
    {
        let response = match self.request.kind {
            UiRequestKind::Approval | UiRequestKind::OpenUrl => UiResponse::Deny,
            UiRequestKind::Input | UiRequestKind::Select | UiRequestKind::Editor =>
                UiResponse::Cancel,
        };
        self.respond(response)
    }

    /// Answers with the text of the editor. Without an editor nothing happens.
    pub fn submit_input(&mut self, value: String) -> (answer: Option<UiAnswer>)
        ensures
            old(self)@.has_editor ==> {
                &&& final(self)@ == old(self)@.settled()
                &&& optional_answer(answer) == old(self)@.answer(UiResponseModel::Input(value@))
            },
            !old(self)@.has_editor ==> final(self)@ == old(self)@ && answer is None,
    {
        if !self.has_editor {
            return None;
        }
        self.respond(UiResponse::Input(value))
    }

    /// Chooses an option.
    pub fn select(&mut self, option_id: String) -> (answer: Option<UiAnswer>)
        ensures
            final(self)@ == old(self)@.settled(),
            optional_answer(answer) == old(self)@.answer(UiResponseModel::Select(option_id@)),
    {
        self.respond(UiResponse::Select(option_id))
    }

    /// Opens the link of the request, where it has one, and approves. Once the
    /// request has been answered, nothing is opened.
    pub fn open_url(&mut self) -> (opening: UrlOpening)
        ensures
            final(self)@ == old(self)@.settled(),
            opening.url.deep_view() == (if old(self)@.answered {
                None
            } else {
                old(self)@.request.url
            }),
            optional_answer(opening.answer) == old(self)@.answer(UiResponseModel::Approve),
    {
        let url = match &self.request.url {
            Some(url) if !self.answered => Some(url.clone()),
            _ => None,
        };
        let answer = self.respond(UiResponse::Approve);
        UrlOpening { url, answer }
    }

    /// Does what a pressed control stands for. `text` is that of the editor.
    pub fn press(&mut self, action: ControlAction, text: String) -> (opening: UrlOpening)
        ensures
            final(self)@ == pressed(old(self)@, action@, text@).0,
            opening.url.deep_view() == pressed(old(self)@, action@, text@).1,
            optional_answer(opening.answer) == pressed(old(self)@, action@, text@).2,
    {
        match action {
            ControlAction::Deny => UrlOpening { url: None, answer: self.deny() },
            ControlAction::Approve => UrlOpening { url: None, answer: self.approve() },
            ControlAction::OpenUrl => self.open_url(),
            ControlAction::Submit => UrlOpening { url: None, answer: self.submit_input(text) },
            ControlAction::Select(option_id) => UrlOpening {
                url: None,
                answer: self.select(option_id),
            },
        }
    }

    /// Does what the escape key stands for: it declines.
    pub fn escape(&mut self) -> (answer: Option<UiAnswer>)
        ensures
            final(self)@ == old(self)@.settled(),
            optional_answer(answer) == old(self)@.answer(denial(old(self)@.request.kind)),
    {
        self.deny()
    }

    /// The badge of the request.
    fn badge_label(&self) -> (label: String)
        ensures
            label@ == badge_text(self@.request.kind),
    {
        match self.request.kind {
            UiRequestKind::Approval => "Needs approval".to_owned(),
            UiRequestKind::OpenUrl => "Open link".to_owned(),
            UiRequestKind::Input | UiRequestKind::Editor => "Needs input".to_owned(),
            UiRequestKind::Select => "Needs a choice".to_owned(),
        }
    }

    /// Adds a part of the scope, where it is known.
    fn push_part(parts: &mut Vec<String>, name: &str, value: &Option<String>)
        ensures
            final(parts).deep_view() == old(parts).deep_view() + scope_part(name@, *value),
    {
        let ghost before = parts.deep_view();
        if let Some(value) = value {
            parts.push(concatenated(name, value.as_str()));
        }
        assert(parts.deep_view() =~= before + scope_part(name@, *value));
    }

    /// The scope in words.
    fn render_scope(scope: &UiRequestScope) -> (label: Option<Label>)
        ensures
            optional_label(label) == scope_label(*scope),
    {
        let mut parts: Vec<String> = Vec::new();
        assert(parts.deep_view() =~= Seq::empty());
        Self::push_part(&mut parts, "tool: ", &scope.tool);
        Self::push_part(&mut parts, "action: ", &scope.action);
        Self::push_part(&mut parts, "path: ", &scope.path);
        Self::push_part(&mut parts, "workspace: ", &scope.workspace);
        Self::push_part(&mut parts, "session: ", &scope.session);
        assert(parts.deep_view() =~= scope_parts(*scope));
        if parts.len() == 0 {
            None
        } else {
            Some(Label::small(join(&parts, "  ·  "), Color::Muted))
        }
    }

    /// The label of the control that declines.
    fn deny_button_label(&self) -> (label: String)
        ensures
            label@ == denial_text(self@.request.kind),
    {
        match self.request.kind {
            UiRequestKind::Approval | UiRequestKind::OpenUrl => "Deny".to_owned(),
            UiRequestKind::Input | UiRequestKind::Select | UiRequestKind::Editor =>
                "Cancel".to_owned(),
        }
    }

    /// The controls of the request.
    fn render_controls(&self) -> (controls: Vec<Control>)
        ensures
            control_models(controls@) == controls_of(self@.request),
    {
        let label = self.deny_button_label();
        let deny = Control {
            button: Button::new("ui-request-deny", label.as_str(), ButtonStyle::Plain),
            action: ControlAction::Deny,
        };
        let mut controls: Vec<Control> = Vec::new();
        match self.request.kind {
            UiRequestKind::Approval => {
                controls.push(deny);
                controls.push(
                    Control {
                        button: Button::new("ui-request-approve", "Approve", ButtonStyle::Accent),
                        action: ControlAction::Approve,
                    },
                );
            },
            UiRequestKind::OpenUrl => {
                controls.push(deny);
                controls.push(
                    Control {
                        button: Button::new(
                            "ui-request-open-url",
                            "Open link",
                            ButtonStyle::Accent,
                        ),
                        action: ControlAction::OpenUrl,
                    },
                );
            },
            UiRequestKind::Input | UiRequestKind::Editor => {
                controls.push(deny);
                controls.push(
                    Control {
                        button: Button::new("ui-request-submit", "Submit", ButtonStyle::Accent),
                        action: ControlAction::Submit,
                    },
                );
            },
            UiRequestKind::Select => {
                let options = &self.request.options;
                let ghost entries = option_controls(self@.request.options);
                let mut i: usize = 0;
                while i < options.len()
                    invariant
                        i <= options@.len(),
                        entries == option_controls(option_models(options@)),
                        controls@.len() == i,
                        forall|j: int|
                            0 <= j < i ==> (#[trigger] controls@[j]).button@ == entries[j].0
                                && controls@[j].action@ == entries[j].1,
                    decreases options@.len() - i,
                {
                    let option = &options[i];
                    let element_id = concatenated("ui-request-option-", option.id.as_str());
                    controls.push(
                        Control {
                            button: Button::new(
                                element_id.as_str(),
                                option.label.as_str(),
                                ButtonStyle::Plain,
                            ),
                            action: ControlAction::Select(option.id.clone()),
                        },
                    );
                    i = i + 1;
                }
                controls.push(deny);
            },
        }
        controls
    }

    /// What the prompt shows. The first time, the control that declines is to be
    /// given the focus.
    pub fn render(&mut self) -> (panel: UiRequestPanel)
        ensures
            final(self)@ == (PromptModel { focused_default: true, ..old(self)@ }),
            panel@ == shown(old(self)@),
    {
        let focus_deny = !self.focused_default;
        self.focused_default = true;
        let message = if self.request.message.as_str().is_empty() {
            None
        } else {
            Some(
                Label {
                    text: self.request.message.clone(),
                    size: LabelSize::Default,
                    color: Color::Default,
                },
            )
        };
        UiRequestPanel {
            focus_deny,
            badge: Label::small(self.badge_label(), Color::Accent),
            message,
            scope: Self::render_scope(&self.request.scope),
            editor: Self::is_text_kind(self.request.kind) && self.has_editor,
            controls: self.render_controls(),
        }
    }
}

// ---------------------------------------------------------------------------
// What the prompt keeps
// ---------------------------------------------------------------------------

/// Once a request has been answered, nothing more goes to the runtime.
pub proof fn a_request_is_answered_once(
    prompt: PromptModel,
    first: UiResponseModel,
    second: UiResponseModel,
)
    ensures
        prompt.settled().answer(second) is None,
        prompt.settled().settled() == prompt.settled(),
        !prompt.answered ==> prompt.answer(first) == Some((prompt.request.id, first)),
{
}

/// Once a request has been answered, whatever is pressed is ignored: no link is
/// opened, and nothing goes to the runtime.
pub proof fn the_first_answer_wins(
    prompt: PromptModel,
    action: ControlActionModel,
    text: Seq<char>,
)
    requires
        prompt.answered,
    ensures
        pressed(prompt, action, text) == (
            prompt,
            None::<Seq<char>>,
            None::<(Seq<char>, UiResponseModel)>,
        ),
{
}

/// To decline never approves, and answers nothing else either.
pub proof fn declining_never_approves(kind: UiRequestKind)
    ensures
        denial(kind) is Deny || denial(kind) is Cancel,
{
}

/// The control that declines is always there, and the one that approves only where
/// an approval is asked for.
pub proof fn declining_is_always_offered(request: UiRequestModel)
    ensures
        exists|i: int|
            0 <= i < controls_of(request).len() && #[trigger] controls_of(request)[i]
                == deny_control(request.kind),
        forall|i: int|
            0 <= i < controls_of(request).len() && (#[trigger] controls_of(request)[i]).1 is Approve
                ==> request.kind == UiRequestKind::Approval,
{
    let controls = controls_of(request);
    let at = if request.kind == UiRequestKind::Select {
        controls.len() - 1
    } else {
        0
    };
    assert(controls[at] == deny_control(request.kind));
}

// ---------------------------------------------------------------------------
// What the user is asked
// ---------------------------------------------------------------------------

/// Each option of a request has its control, in the place of the option and labelled
/// as the option is. Pressing it answers the request with that option, and with no
/// other.
pub proof fn the_chosen_option_is_sent(prompt: PromptModel, i: int, text: Seq<char>)
    requires
        prompt.request.kind == UiRequestKind::Select,
        0 <= i < prompt.request.options.len(),
        !prompt.answered,
    ensures
        ({
            let (id, label) = prompt.request.options[i];
            let controls = shown(prompt).controls;
            let pressed = pressed(prompt, controls[i].1, text);
            &&& controls.len() == prompt.request.options.len() + 1
            &&& controls[i].0.label == label
            &&& controls[i].0.id == "ui-request-option-"@ + id
            &&& !controls[i].0.disabled && controls[i].0.style == ButtonStyle::Plain
            &&& pressed.0 == (PromptModel { answered: true, ..prompt })
            &&& pressed.1 is None
            &&& pressed.2 == Some((prompt.request.id, UiResponseModel::Select(id)))
        }),
{
}

/// A request can be declined by the control that says so: first where there is a
/// yes and a no, last where there are options. Pressing it denies what asks for a
/// yes, and cancels what asks for more.
pub proof fn declining_is_sent_as_a_refusal(prompt: PromptModel, text: Seq<char>)
    requires
        !prompt.answered,
    ensures
        ({
            let controls = shown(prompt).controls;
            let kind = prompt.request.kind;
            let at = if kind == UiRequestKind::Select {
                prompt.request.options.len() as int
            } else {
                0
            };
            let asks_for_yes = kind == UiRequestKind::Approval || kind == UiRequestKind::OpenUrl;
            let pressed = pressed(prompt, controls[at].1, text);
            &&& at < controls.len()
            &&& controls[at].0.id == "ui-request-deny"@
            &&& controls[at].0.style == ButtonStyle::Plain
            &&& controls[at].0.label == (if asks_for_yes {
                "Deny"@
            } else {
                "Cancel"@
            })
            &&& pressed.0 == (PromptModel { answered: true, ..prompt })
            &&& pressed.1 is None
            &&& pressed.2 == Some(
                (
                    prompt.request.id,
                    if asks_for_yes {
                        UiResponseModel::Deny
                    } else {
                        UiResponseModel::Cancel
                    },
                ),
            )
        }),
{
}

/// Declining, by whatever way, denies what asks for a yes and cancels what asks for
/// more.
pub proof fn declining_answers_by_kind(kind: UiRequestKind)
    ensures
        denial(kind) is Deny <==> kind == UiRequestKind::Approval || kind == UiRequestKind::OpenUrl,
        denial(kind) is Cancel <==> kind == UiRequestKind::Input || kind == UiRequestKind::Select
            || kind == UiRequestKind::Editor,
{
}

/// A request for a yes has one more control, which gives it: it approves, and opens
/// the link where there is one to open.
pub proof fn a_yes_is_sent_as_approval(prompt: PromptModel, text: Seq<char>)
    requires
        !prompt.answered,
        prompt.request.kind == UiRequestKind::Approval || prompt.request.kind
            == UiRequestKind::OpenUrl,
    ensures
        ({
            let controls = shown(prompt).controls;
            let pressed = pressed(prompt, controls[1].1, text);
            let opens = prompt.request.kind == UiRequestKind::OpenUrl;
            &&& controls.len() == 2
            &&& controls[1].0.style == ButtonStyle::Accent
            &&& !controls[1].0.disabled
            &&& opens ==> controls[1].0.label == "Open link"@ && controls[1].0.id
                == "ui-request-open-url"@ && pressed.1 == prompt.request.url
            &&& !opens ==> controls[1].0.label == "Approve"@ && controls[1].0.id
                == "ui-request-approve"@ && pressed.1 is None
            &&& pressed.0 == (PromptModel { answered: true, ..prompt })
            &&& pressed.2 == Some((prompt.request.id, UiResponseModel::Approve))
        }),
{
}

/// A request for a text has an editor and one more control, which sends the text
/// that is in the editor.
pub proof fn a_text_is_sent_as_input(prompt: PromptModel, text: Seq<char>)
    requires
        !prompt.answered,
        prompt.has_editor,
        prompt.request.kind == UiRequestKind::Input || prompt.request.kind == UiRequestKind::Editor,
    ensures
        ({
            let panel = shown(prompt);
            let pressed = pressed(prompt, panel.controls[1].1, text);
            &&& panel.editor
            &&& panel.controls.len() == 2
            &&& panel.controls[1].0.label == "Submit"@
            &&& panel.controls[1].0.id == "ui-request-submit"@
            &&& panel.controls[1].0.style == ButtonStyle::Accent
            &&& !panel.controls[1].0.disabled
            &&& pressed.0 == (PromptModel { answered: true, ..prompt })
            &&& pressed.1 is None
            &&& pressed.2 == Some((prompt.request.id, UiResponseModel::Input(text)))
        }),
{
}

/// Whatever is done to a request that nobody has answered, the answer is the one that
/// was given, under the id of the request; one that was answered gets no other.
pub proof fn answers_go_to_their_request(prompt: PromptModel, response: UiResponseModel)
    ensures
        prompt.answered ==> prompt.answer(response) is None,
        !prompt.answered ==> prompt.answer(response) == Some((prompt.request.id, response)),
        prompt.settled() == (PromptModel { answered: true, ..prompt }),
{
}

/// A request opens unanswered, for its thread, and with an editor exactly where it
/// asks for a text. The control that declines is given the focus once.
pub proof fn a_request_opens_unanswered(thread: u64, request: UiRequestModel)
    ensures
        ({
            let prompt = PromptModel::opened(thread, request);
            let asks_for_text = request.kind == UiRequestKind::Input || request.kind
                == UiRequestKind::Editor;
            &&& prompt.thread == thread
            &&& prompt.request == request
            &&& !prompt.answered
            &&& prompt.has_editor <==> asks_for_text
            &&& takes_text(request.kind) <==> asks_for_text
            &&& shown(prompt).focus_deny
            &&& shown(prompt).editor <==> asks_for_text
            &&& !shown(PromptModel { focused_default: true, ..prompt }).focus_deny
        }),
{
}

/// What is asked is shown: a badge for its kind, the message where there is one, and
/// an editor only where there is one to write in.
pub proof fn what_is_asked_is_shown(prompt: PromptModel)
    ensures
        ({
            let panel = shown(prompt);
            let kind = prompt.request.kind;
            &&& panel.badge.color == Color::Accent && panel.badge.size == LabelSize::Small
            &&& kind == UiRequestKind::Approval ==> panel.badge.text == "Needs approval"@
            &&& kind == UiRequestKind::OpenUrl ==> panel.badge.text == "Open link"@
            &&& kind == UiRequestKind::Input ==> panel.badge.text == "Needs input"@
            &&& kind == UiRequestKind::Editor ==> panel.badge.text == "Needs input"@
            &&& kind == UiRequestKind::Select ==> panel.badge.text == "Needs a choice"@
            &&& panel.message is Some <==> prompt.request.message.len() > 0
            &&& panel.message matches Some(message) ==> message.text == prompt.request.message
                && message.size == LabelSize::Default && message.color == Color::Default
            &&& panel.editor ==> prompt.has_editor && (kind == UiRequestKind::Input || kind
                == UiRequestKind::Editor)
            &&& panel.focus_deny <==> !prompt.focused_default
        }),
{
}

/// A part of the scope behind its name, where it is known.
pub open spec fn named(name: Seq<char>, value: Option<String>) -> Option<Seq<char>> {
    match value {
        Some(value) => Some(name + value@),
        None => None,
    }
}

/// What a request is about is told as far as it is known: the tool, the action, the
/// path, the workspace and the session, each behind its name, in this order and with
/// dots between them. Where nothing is known nothing is told.
pub proof fn the_known_scope_is_told(prompt: PromptModel)
    ensures
        ({
            let scope = prompt.request.scope;
            let parts = seq![
                named("tool: "@, scope.tool),
                named("action: "@, scope.action),
                named("path: "@, scope.path),
                named("workspace: "@, scope.workspace),
                named("session: "@, scope.session),
            ];
            exists|places: Seq<int>| #[trigger]
                are_filled_places(parts, places) && {
                    &&& shown(prompt).scope is Some <==> places.len() > 0
                    &&& shown(prompt).scope matches Some(label) ==> {
                        &&& label.text == joined(parts_at(parts, places), "  ·  "@)
                        &&& label.color == Color::Muted
                        &&& label.size == LabelSize::Small
                    }
                }
        }),
{
    let scope = prompt.request.scope;
    let parts = seq![
        named("tool: "@, scope.tool),
        named("action: "@, scope.action),
        named("path: "@, scope.path),
        named("workspace: "@, scope.workspace),
        named("session: "@, scope.session),
    ];
    let places = filled_parts_stand_in_order(parts);
    reveal_with_fuel(filled_parts, 6);
    let one = parts.take(1);
    let two = parts.take(2);
    let three = parts.take(3);
    let four = parts.take(4);
    assert(parts.drop_last() =~= four);
    assert(four.drop_last() =~= three);
    assert(three.drop_last() =~= two);
    assert(two.drop_last() =~= one);
    assert(one.drop_last() =~= Seq::empty());
    assert(filled_parts(one) =~= scope_part("tool: "@, scope.tool));
    assert(filled_parts(two) =~= filled_parts(one) + scope_part("action: "@, scope.action));
    assert(filled_parts(three) =~= filled_parts(two) + scope_part("path: "@, scope.path));
    assert(filled_parts(four) =~= filled_parts(three) + scope_part(
        "workspace: "@,
        scope.workspace,
    ));
    assert(filled_parts(parts) =~= scope_parts(scope));
    assert(are_filled_places(parts, places));
    assert(places.len() == scope_parts(scope).len());
}

/// Requests, answers and controls stand for what they hold.
pub proof fn requests_and_answers_stand_for_what_they_hold(
    request: UiRequest,
    option: int,
    text: String,
    answer: UiAnswer,
    controls: Seq<Control>,
    i: int,
    panel: UiRequestPanel,
)
    ensures
        request@.id == request.id@,
        request@.kind == request.kind,
        request@.message == request.message@,
        request@.scope == request.scope,
        request@.options.len() == request.options@.len(),
        0 <= option < request.options@.len() ==> request@.options[option] == (
            request.options@[option].id@,
            request.options@[option].label@,
        ),
        request@.default_value == request.default_value.deep_view(),
        request@.url == request.url.deep_view(),
        UiResponse::Approve@ == UiResponseModel::Approve,
        UiResponse::Deny@ == UiResponseModel::Deny,
        UiResponse::Cancel@ == UiResponseModel::Cancel,
        UiResponse::Input(text)@ == UiResponseModel::Input(text@),
        UiResponse::Select(text)@ == UiResponseModel::Select(text@),
        optional_answer(None) is None,
        optional_answer(Some(answer)) == Some((answer.request_id@, answer.response@)),
        ControlAction::Deny@ == ControlActionModel::Deny,
        ControlAction::Approve@ == ControlActionModel::Approve,
        ControlAction::OpenUrl@ == ControlActionModel::OpenUrl,
        ControlAction::Submit@ == ControlActionModel::Submit,
        ControlAction::Select(text)@ == ControlActionModel::Select(text@),
        control_models(controls).len() == controls.len(),
        0 <= i < controls.len() ==> control_models(controls)[i] == (
            controls[i].button@,
            controls[i].action@,
        ),
        panel@.focus_deny == panel.focus_deny,
        panel@.badge == panel.badge@,
        panel@.message == optional_label(panel.message),
        panel@.scope == optional_label(panel.scope),
        panel@.editor == panel.editor,
        panel@.controls == control_models(panel.controls@),
{
}

} // verus!
