use omp::linear::{
    build_linear_query, clear_linear_api_key, connect_linear_from_env, count_label, env_key,
    error_nodes, fetch_linear_context, linear_request, load_linear_context, parse_linear_context,
    reads_body, reports_auth_error, request_body, resolve_linear_key, store_linear_api_key,
    Connection, DataNode, Envelope, ErrorNode, IssueNode, KeychainChange, LinearBody,
    LinearContext, LinearIssue, LinearLoad, LinearReply, LinearTeam, ProjectNode, TeamNode, Viewer,
    LINEAR_API_KEY_ENV, LINEAR_CONTEXT_DEFAULT_LIMIT, LINEAR_CREDENTIAL_URL, LINEAR_GRAPHQL_URL,
};
use omp::json::parse_json;
use omp::linear_view::{LinearContextView, LinearControl, LinearPanel, LinearPress};
use omp::ui::{Color, Icon, IconName};

fn text(value: &str) -> String {
    value.to_string()
}

fn ok_envelope() -> Envelope {
    Envelope {
        data: Some(DataNode {
            viewer: Some(Viewer { name: Some(text("Ada Lovelace")) }),
            teams: Some(Connection {
                nodes: vec![TeamNode { key: text("ENG"), name: text("Engineering") }],
            }),
            projects: Some(Connection {
                nodes: vec![ProjectNode { name: text("OMP Native Zed") }],
            }),
            issues: Some(Connection {
                nodes: vec![
                    IssueNode { identifier: text("AGE-646"), title: text("Linear bridge") },
                    IssueNode { identifier: text("AGE-649"), title: text("GitHub bridge") },
                ],
            }),
        }),
        errors: None,
    }
}

fn errors(json: &str) -> Vec<ErrorNode> {
    error_nodes(&parse_json(json).expect("JSON"))
}

fn stored(key: &str) -> KeychainChange {
    KeychainChange::Store {
        url: text("https://api.linear.app"),
        username: text("linear"),
        password: key.as_bytes().to_vec(),
    }
}

fn cleared() -> KeychainChange {
    KeychainChange::Delete { url: text("https://api.linear.app") }
}

fn answered(status: u16, body: &str, envelope: Option<Envelope>) -> LinearContext {
    fetch_linear_context(LinearReply::Answered(
        status,
        Some(LinearBody { text: text(body), envelope }),
    ))
}

#[test]
fn fetch_maps_data_and_sets_auth_header() {
    let request = linear_request("lin_api_secret", LINEAR_CONTEXT_DEFAULT_LIMIT);
    let context = answered(200, "{}", Some(ok_envelope()));

    assert!(context.authenticated);
    assert_eq!(context.viewer.as_deref(), Some("Ada Lovelace"));
    assert_eq!(
        context.teams,
        vec![LinearTeam { key: text("ENG"), name: text("Engineering") }]
    );
    assert_eq!(context.projects, vec![text("OMP Native Zed")]);
    assert_eq!(
        context.issues,
        vec![
            LinearIssue { identifier: text("AGE-646"), title: text("Linear bridge") },
            LinearIssue { identifier: text("AGE-649"), title: text("GitHub bridge") },
        ]
    );
    assert_eq!(
        context.summary_label(),
        "Ada Lovelace · 1 team · 1 project · 2 issues"
    );

    assert_eq!(
        request.headers,
        vec![
            (text("Authorization"), text("lin_api_secret")),
            (text("Content-Type"), text("application/json")),
        ]
    );
    assert_eq!(request.method, "POST");
    assert_eq!(request.url, LINEAR_GRAPHQL_URL);
    assert_eq!(request.url, "https://api.linear.app/graphql");
    assert!(request.body.contains("query"));
    assert!(!request.body.contains("mutation"));
    assert!(!request.body.contains("lin_api_secret"));
}

#[test]
fn unauthorized_degrades_to_unauthenticated() {
    let context = answered(401, "unauthorized", None);
    assert!(!context.authenticated);
    assert!(context.viewer.is_none());
    assert!(context.teams.is_empty());
    assert_eq!(context.summary_label(), "Linear not connected");
    for status in [400, 403] {
        assert_eq!(
            fetch_linear_context(LinearReply::Answered(status, None)),
            LinearContext::unauthenticated()
        );
    }
}

#[test]
fn graphql_auth_error_on_200_degrades_to_unauthenticated() {
    let context = answered(
        200,
        r#"{"errors":[{"message":"Authentication required, not authenticated"}]}"#,
        Some(Envelope {
            data: None,
            errors: Some(errors(r#"[{"message":"Authentication required, not authenticated"}]"#)),
        }),
    );
    assert!(!context.authenticated);
    assert_eq!(context, LinearContext::unauthenticated());
}

#[test]
fn server_error_degrades_to_error() {
    let context = answered(500, "boom", None);
    assert!(!context.authenticated);
    assert_eq!(context.summary_label(), "Linear returned HTTP 500");
}

#[test]
fn query_is_read_only() {
    let query = build_linear_query(5);
    assert!(query.contains("query"));
    assert!(query.contains("viewer"));
    assert!(query.contains("first: 5"));
    assert!(!query.contains("mutation"));
}

#[test]
fn summary_label_unauthenticated_uses_status() {
    assert_eq!(
        LinearContext::unauthenticated().summary_label(),
        "Linear not connected"
    );
    assert_eq!(LinearContext::error("nope").summary_label(), "nope");
}

#[test]
fn other_failures_are_told() {
    assert_eq!(
        fetch_linear_context(LinearReply::NotBuilt).summary_label(),
        "Could not build the Linear request"
    );
    assert_eq!(
        fetch_linear_context(LinearReply::Unreachable).summary_label(),
        "Could not reach Linear"
    );
    assert_eq!(
        fetch_linear_context(LinearReply::Answered(204, None)).summary_label(),
        "Could not read the Linear response"
    );
    assert_eq!(answered(200, "<html>", None).summary_label(), "Unexpected Linear response");
    assert_eq!(answered(302, "", None).summary_label(), "Linear returned HTTP 302");
    assert_eq!(answered(199, "", None).summary_label(), "Linear returned HTTP 199");
}

#[test]
fn bodies_of_granted_requests_are_read() {
    for (status, reads) in [(199, false), (200, true), (299, true), (300, false), (401, false)] {
        assert_eq!(reads_body(status), reads);
    }
}

#[test]
fn the_query_is_exact() {
    assert_eq!(
        build_linear_query(10),
        "query { viewer { name } teams(first: 10) { nodes { key name } } \
         projects(first: 10) { nodes { name } } \
         issues(first: 10) { nodes { identifier title } } }"
    );
    assert_eq!(
        request_body(0),
        "{\"query\":\"query { viewer { name } teams(first: 0) { nodes { key name } } \
         projects(first: 0) { nodes { name } } \
         issues(first: 0) { nodes { identifier title } } }\"}"
    );
}

#[test]
fn missing_connections_are_empty() {
    let context = parse_linear_context(Some(Envelope {
        data: Some(DataNode { viewer: None, teams: None, projects: None, issues: None }),
        errors: None,
    }))
    .expect("data");
    assert!(context.authenticated);
    assert_eq!(context.summary_label(), "0 teams · 0 projects · 0 issues");
    assert_eq!(parse_linear_context(Some(Envelope { data: None, errors: None })), None);
    assert_eq!(parse_linear_context(None), None);
    assert_eq!(count_label(1, "team"), "1 team");
    assert_eq!(LinearContext::default().summary_label(), "Linear not connected");
}

#[test]
fn keys_come_from_the_environment_first() {
    assert_eq!(LINEAR_API_KEY_ENV, "LINEAR_API_KEY");
    assert_eq!(LINEAR_CREDENTIAL_URL, "https://api.linear.app");
    let stored = || Some("schlüssel".as_bytes().to_vec());
    assert_eq!(resolve_linear_key(Some(text("env")), stored()).as_deref(), Some("env"));
    assert_eq!(resolve_linear_key(Some(text("")), stored()).as_deref(), Some("schlüssel"));
    assert_eq!(resolve_linear_key(None, stored()).as_deref(), Some("schlüssel"));
    assert_eq!(resolve_linear_key(None, Some(Vec::new())), None);
    assert_eq!(resolve_linear_key(None, Some(vec![0xff, 0xfe])), None);
    assert_eq!(resolve_linear_key(None, None), None);
    assert_eq!(env_key(Some(text(""))), None);
}

#[test]
fn without_a_key_nothing_is_sent() {
    assert_eq!(
        load_linear_context(None, 10),
        LinearLoad::Show(LinearContext::unauthenticated())
    );
    assert_eq!(
        load_linear_context(Some(text("k")), 10),
        LinearLoad::Send(linear_request("k", 10))
    );
}

#[test]
fn the_keychain_is_changed_at_wish() {
    assert_eq!(store_linear_api_key("schlüssel"), stored("schlüssel"));
    assert_eq!(clear_linear_api_key(), cleared());
    assert_eq!(connect_linear_from_env(None), None);
    assert_eq!(connect_linear_from_env(Some(text(""))), None);
    assert_eq!(connect_linear_from_env(Some(text("k"))), Some(stored("k")));
}

#[test]
fn a_stored_key_is_used() {
    let password = match store_linear_api_key("schlüssel") {
        KeychainChange::Store { password, .. } => password,
        other => panic!("unexpected {:?}", other),
    };
    let key = resolve_linear_key(None, Some(password));
    assert_eq!(
        load_linear_context(key, 10),
        LinearLoad::Send(linear_request("schlüssel", 10))
    );
}

#[test]
fn auth_errors_beside_data_disconnect() {
    let mut envelope = ok_envelope();
    envelope.errors =
        Some(errors(r#"[{"message":"Authentication required, not authenticated"}]"#));
    assert!(!reports_auth_error(&Some(ok_envelope())));
    assert!(!reports_auth_error(&None));
    let envelope = Some(envelope);
    assert!(reports_auth_error(&envelope));
    let context = answered(
        200,
        r#"{"data":{},"errors":[{"message":"Authentication required, not authenticated"}]}"#,
        envelope,
    );
    assert_eq!(context, LinearContext::unauthenticated());
}

#[test]
fn other_errors_beside_data_do_not_disconnect() {
    let mut envelope = ok_envelope();
    envelope.errors = Some(errors(r#"[{"message":"Rate limited"}]"#));
    let body = r#"{"data":{"issues":{"nodes":[{"identifier":"A-1","title":"Authenticate users"}]}}}"#;
    let context = answered(200, body, Some(envelope));
    assert!(context.authenticated);
    assert_eq!(context.issues.len(), 2);
}

#[test]
fn errors_are_read_as_far_as_they_go() {
    assert_eq!(
        errors(r#"[{"message":"a"},{"message":7},{},"b",{"message":"c","path":[]}]"#),
        vec![ErrorNode { message: text("a") }, ErrorNode { message: text("c") }]
    );
    assert!(errors("{}").is_empty());
    assert!(errors("null").is_empty());
}

#[test]
fn row_labels_format_key_and_title() {
    assert_eq!(
        LinearContextView::team_label(&LinearTeam {
            key: text("ENG"),
            name: text("Engineering")
        }),
        "ENG Engineering"
    );
    assert_eq!(
        LinearContextView::issue_label(&LinearIssue {
            identifier: text("AGE-646"),
            title: text("Linear bridge")
        }),
        "AGE-646 Linear bridge"
    );
}

#[test]
fn expandable_only_when_authenticated_with_rows() {
    let mut context = LinearContext {
        authenticated: true,
        status: None,
        viewer: Some(text("Ada")),
        teams: vec![LinearTeam { key: text("ENG"), name: text("Engineering") }],
        projects: Vec::new(),
        issues: Vec::new(),
    };
    assert!(LinearContextView::is_expandable(&context));

    context.teams.clear();
    assert!(!LinearContextView::is_expandable(&context));

    assert!(!LinearContextView::is_expandable(&LinearContext::default()));
}

#[test]
fn the_linear_panel_opens_its_lists() {
    let mut panel = LinearContextView::new(9);
    assert_eq!(panel.thread(), 9);
    assert!(matches!(panel.render(), LinearPanel::Loading(_)));
    panel.loaded(answered(200, "{}", Some(ok_envelope())));
    panel.toggle_expanded();
    match panel.render() {
        LinearPanel::Loaded(shown) => {
            let toggle = shown.toggle.expect("a toggle");
            assert_eq!(toggle.id, "linear-context-toggle");
            assert_eq!(toggle.icon, IconName::ChevronDown);
            assert_eq!(shown.icon, Icon { name: IconName::ListTodo, color: Color::Default });
            assert_eq!(shown.action.id, "linear-disconnect");
            assert_eq!(shown.action.label, "Disconnect");
            let titles: Vec<&str> =
                shown.sections.iter().map(|section| section.title.text.as_str()).collect();
            assert_eq!(titles, vec!["Teams", "Projects", "Open issues"]);
            assert_eq!(shown.sections[2].rows[0].text, "AGE-646 Linear bridge");
        }
        other => panic!("unexpected {:?}", other),
    }
    assert_eq!(panel.disconnect(), cleared());
    match panel.render() {
        LinearPanel::Loading(label) => assert_eq!(label.text, "Loading Linear context…"),
        other => panic!("unexpected {:?}", other),
    }
    panel.loaded(LinearContext::unauthenticated());
    match panel.render() {
        LinearPanel::Loaded(shown) => {
            assert_eq!(shown.toggle, None);
            assert_eq!(shown.action.id, "linear-connect");
            assert_eq!(shown.action.label, "Connect");
            assert_eq!(shown.summary.text, "Linear not connected");
            assert_eq!(shown.summary.color, Color::Muted);
        }
        other => panic!("unexpected {:?}", other),
    }
    assert_eq!(panel.connect(None), None);
    assert_eq!(panel.reload(), LINEAR_CONTEXT_DEFAULT_LIMIT);
}

#[test]
fn linear_controls_do_what_they_say() {
    let mut panel = LinearContextView::new(9);
    panel.loaded(LinearContext::unauthenticated());
    let connect = match panel.render() {
        LinearPanel::Loaded(shown) => shown.on_action,
        other => panic!("unexpected {:?}", other),
    };
    assert_eq!(connect, LinearControl::Connect);
    assert_eq!(
        panel.press(connect, Some(text("k"))),
        LinearPress { change: Some(stored("k")), reload: Some(10) }
    );
    assert!(matches!(panel.render(), LinearPanel::Loading(_)));

    panel.loaded(answered(200, "{}", Some(ok_envelope())));
    assert_eq!(
        panel.press(LinearControl::Toggle, Some(text("k"))),
        LinearPress { change: None, reload: None }
    );
    let disconnect = match panel.render() {
        LinearPanel::Loaded(shown) => {
            assert_eq!(shown.sections.len(), 3);
            shown.on_action
        }
        other => panic!("unexpected {:?}", other),
    };
    assert_eq!(disconnect, LinearControl::Disconnect);
    assert_eq!(
        panel.press(disconnect, Some(text("k"))),
        LinearPress { change: Some(cleared()), reload: Some(10) }
    );
    assert!(matches!(panel.render(), LinearPanel::Loading(_)));
    // Without a key in the environment nothing is stored.
    assert_eq!(
        panel.press(LinearControl::Connect, None),
        LinearPress { change: None, reload: Some(10) }
    );
}
