use omp::ui::{ButtonStyle, Color, LabelSize};
use omp::ui_request_prompt::{
    ControlAction, UiAnswer, UiRequest, UiRequestKind, UiRequestOption, UiRequestPrompt,
    UiRequestScope, UiResponse, UrlOpening,
};

fn request(kind: UiRequestKind, options: Vec<UiRequestOption>) -> UiRequest {
    UiRequest {
        id: "ui-1".to_string(),
        kind,
        message: "Proceed?".to_string(),
        scope: UiRequestScope {
            tool: Some("write".to_string()),
            path: Some("a.txt".to_string()),
            ..Default::default()
        },
        options,
        default_value: None,
        url: if kind == UiRequestKind::OpenUrl {
            Some("https://example.com".to_string())
        } else {
            None
        },
    }
}

fn setup(kind: UiRequestKind, options: Vec<UiRequestOption>) -> UiRequestPrompt {
    UiRequestPrompt::new(3, request(kind, options)).0
}

fn answer(response: UiResponse) -> Option<UiAnswer> {
    Some(UiAnswer { request_id: "ui-1".to_string(), response })
}

#[test]
fn deny_control_holds_focus_by_default() {
    let mut prompt = setup(UiRequestKind::Approval, Vec::new());
    let panel = prompt.render();
    assert!(panel.focus_deny, "the deny control must hold focus by default");
    assert_eq!(panel.controls[0].action, ControlAction::Deny);
    assert!(!prompt.render().focus_deny);
}

#[test]
fn escape_denies_the_request() {
    let mut prompt = setup(UiRequestKind::Approval, Vec::new());
    assert_eq!(prompt.escape(), answer(UiResponse::Deny));
    assert_eq!(prompt.escape(), None);
}

#[test]
fn approve_sends_approve_exactly_once() {
    let mut prompt = setup(UiRequestKind::Approval, Vec::new());
    let mut responses = Vec::new();
    responses.extend(prompt.approve());
    responses.extend(prompt.deny());
    assert_eq!(
        responses,
        vec![UiAnswer { request_id: "ui-1".to_string(), response: UiResponse::Approve }]
    );
}

#[test]
fn select_routes_the_chosen_option_id() {
    let options = vec![
        UiRequestOption { id: "a".to_string(), label: "Option A".to_string() },
        UiRequestOption { id: "b".to_string(), label: "Option B".to_string() },
    ];
    let mut prompt = setup(UiRequestKind::Select, options);
    assert_eq!(
        prompt.select("b".to_string()),
        answer(UiResponse::Select("b".to_string()))
    );
}

#[test]
fn open_url_requires_explicit_action() {
    let mut prompt = setup(UiRequestKind::OpenUrl, Vec::new());
    prompt.render();
    let opening = prompt.open_url();
    assert_eq!(opening.url.as_deref(), Some("https://example.com"));
    assert_eq!(opening.answer, answer(UiResponse::Approve));
    // What comes after the first answer is ignored.
    assert_eq!(prompt.open_url(), UrlOpening { url: None, answer: None });

    let mut denied = setup(UiRequestKind::OpenUrl, Vec::new());
    assert_eq!(denied.deny(), answer(UiResponse::Deny));
    assert_eq!(denied.open_url(), UrlOpening { url: None, answer: None });
}

#[test]
fn pressed_controls_answer_once() {
    let actions = [
        (UiRequestKind::Approval, ControlAction::Deny, UiResponse::Deny),
        (UiRequestKind::Approval, ControlAction::Approve, UiResponse::Approve),
        (UiRequestKind::Input, ControlAction::Deny, UiResponse::Cancel),
        (UiRequestKind::Input, ControlAction::Submit, UiResponse::Input("typed".to_string())),
        (
            UiRequestKind::Select,
            ControlAction::Select("b".to_string()),
            UiResponse::Select("b".to_string()),
        ),
    ];
    for (kind, action, response) in actions {
        let mut prompt = setup(kind, Vec::new());
        assert_eq!(
            prompt.press(action.clone(), "typed".to_string()),
            UrlOpening { url: None, answer: answer(response) }
        );
        assert_eq!(
            prompt.press(action, "typed".to_string()),
            UrlOpening { url: None, answer: None }
        );
        assert_eq!(prompt.escape(), None);
    }
    let mut link = setup(UiRequestKind::OpenUrl, Vec::new());
    assert_eq!(
        link.press(ControlAction::OpenUrl, String::new()),
        UrlOpening {
            url: Some("https://example.com".to_string()),
            answer: answer(UiResponse::Approve)
        }
    );
}

#[test]
fn nothing_is_submitted_without_an_editor() {
    let mut prompt = setup(UiRequestKind::Approval, Vec::new());
    assert_eq!(
        prompt.press(ControlAction::Submit, "typed".to_string()),
        UrlOpening { url: None, answer: None }
    );
    assert_eq!(prompt.escape(), answer(UiResponse::Deny));
}

#[test]
fn declining_cancels_what_asks_for_more() {
    for kind in [UiRequestKind::Input, UiRequestKind::Select, UiRequestKind::Editor] {
        assert_eq!(setup(kind, Vec::new()).deny(), answer(UiResponse::Cancel));
    }
    assert_eq!(
        setup(UiRequestKind::OpenUrl, Vec::new()).deny(),
        answer(UiResponse::Deny)
    );
}

#[test]
fn text_is_submitted_where_there_is_an_editor() {
    let mut asked = request(UiRequestKind::Input, Vec::new());
    asked.default_value = Some("draft".to_string());
    let (mut prompt, text) = UiRequestPrompt::new(3, asked);
    assert_eq!(text.as_deref(), Some("draft"));
    assert_eq!(prompt.thread(), 3);
    assert_eq!(prompt.request_id(), "ui-1");
    assert!(prompt.render().editor);
    assert_eq!(
        prompt.submit_input("done".to_string()),
        answer(UiResponse::Input("done".to_string()))
    );
    assert_eq!(prompt.submit_input("more".to_string()), None);

    let (_, empty) = UiRequestPrompt::new(3, request(UiRequestKind::Editor, Vec::new()));
    assert_eq!(empty.as_deref(), Some(""));

    let (mut other, none) = UiRequestPrompt::new(3, request(UiRequestKind::Approval, Vec::new()));
    assert_eq!(none, None);
    assert_eq!(other.submit_input("x".to_string()), None);
    // Nothing was answered.
    assert_eq!(other.approve(), answer(UiResponse::Approve));
}

#[test]
fn the_prompt_shows_what_is_asked() {
    let panel = setup(UiRequestKind::Approval, Vec::new()).render();
    assert_eq!(panel.badge.text, "Needs approval");
    assert_eq!(panel.badge.color, Color::Accent);
    let message = panel.message.expect("a message");
    assert_eq!(message.text, "Proceed?");
    assert_eq!(message.size, LabelSize::Default);
    assert_eq!(panel.scope.expect("a scope").text, "tool: write  ·  path: a.txt");
    let controls: Vec<(&str, &str, ButtonStyle)> = panel
        .controls
        .iter()
        .map(|control| {
            (
                control.button.id.as_str(),
                control.button.label.as_str(),
                control.button.style,
            )
        })
        .collect();
    assert_eq!(
        controls,
        vec![
            ("ui-request-deny", "Deny", ButtonStyle::Plain),
            ("ui-request-approve", "Approve", ButtonStyle::Accent),
        ]
    );
}

#[test]
fn every_kind_has_its_badge_and_controls() {
    for (kind, badge, deny, action) in [
        (UiRequestKind::OpenUrl, "Open link", "Deny", ControlAction::OpenUrl),
        (UiRequestKind::Input, "Needs input", "Cancel", ControlAction::Submit),
        (UiRequestKind::Editor, "Needs input", "Cancel", ControlAction::Submit),
    ] {
        let panel = setup(kind, Vec::new()).render();
        assert_eq!(panel.badge.text, badge);
        assert_eq!(panel.controls[0].button.label, deny);
        assert_eq!(panel.controls[1].action, action);
        assert_eq!(panel.controls.len(), 2);
    }
    let options = vec![UiRequestOption { id: "a".to_string(), label: "Option A".to_string() }];
    let panel = setup(UiRequestKind::Select, options).render();
    assert_eq!(panel.badge.text, "Needs a choice");
    assert_eq!(panel.controls[0].button.id, "ui-request-option-a");
    assert_eq!(panel.controls[0].action, ControlAction::Select("a".to_string()));
    assert_eq!(panel.controls[1].button.label, "Cancel");
}

#[test]
fn an_unknown_scope_is_not_shown() {
    let mut bare = request(UiRequestKind::Approval, Vec::new());
    bare.scope = UiRequestScope::default();
    bare.message = String::new();
    let panel = UiRequestPrompt::new(3, bare).0.render();
    assert_eq!(panel.scope, None);
    assert_eq!(panel.message, None);
    let mut full = request(UiRequestKind::Approval, Vec::new());
    full.scope = UiRequestScope {
        tool: Some("t".to_string()),
        action: Some("a".to_string()),
        path: Some("p".to_string()),
        workspace: Some("w".to_string()),
        session: Some("s".to_string()),
    };
    assert_eq!(
        UiRequestPrompt::new(3, full).0.render().scope.expect("a scope").text,
        "tool: t  ·  action: a  ·  path: p  ·  workspace: w  ·  session: s"
    );
}
